use mss_tui::model::ModelType;

#[test]
fn every_model_has_its_key_name_and_description() {
    let expected = [
        (ModelType::MDX23C, "mdx23c", "MDX23C", "KUIELab TFC TDF v3 architecture"),
        (ModelType::HtDemucs, "htdemucs", "Demucs4HT", "Hybrid transformer architecture"),
        (ModelType::VitLarge23, "segm_models", "VitLarge23", "Vision transformer based"),
        (ModelType::TorchSeg, "torchseg", "TorchSeg", "Segmentation models with 800+ encoders"),
        (
            ModelType::BsRoformer,
            "bs_roformer",
            "Band Split RoFormer",
            "Rotary attention with band splitting",
        ),
        (
            ModelType::MelBandRoformer,
            "mel_band_roformer",
            "Mel-Band RoFormer",
            "Mel-spectrogram band splitting",
        ),
        (ModelType::SwinUpernet, "swin_upernet", "Swin Upernet", "Swin transformer with UperNet"),
        (ModelType::BandIt, "bandit", "BandIt Plus", "Band-limited attention"),
        (ModelType::ScNet, "scnet", "SCNet", "Spectral convolution network"),
        (ModelType::BandItV2, "bandit_v2", "BandIt v2", "Improved band-limited attention"),
        (ModelType::Apollo, "apollo", "Apollo", "Advanced separation architecture"),
        (ModelType::TsBsMamba2, "bs_mamba2", "TS BSMamba2", "State space model"),
        (ModelType::Conformer, "conformer", "Conformer", "Convolution-augmented transformer"),
        (ModelType::BsConformer, "bs_conformer", "BS Conformer", "Band split conformer"),
        (ModelType::ScNetTran, "scnet_tran", "SCNet Tran", "Transformer variant"),
        (ModelType::ScNetMasked, "scnet_masked", "SCNet Masked", "Masked variant"),
    ];
    for (model, key, name, description) in expected {
        assert_eq!(model.key(), key);
        assert_eq!(model.name(), name);
        assert_eq!(model.description(), description);
    }
    let models: Vec<ModelType> = expected.iter().map(|entry| entry.0).collect();
    assert_eq!(ModelType::all_models(), models);
}

#[test]
fn keys_are_distinct() {
    let models = ModelType::all_models();
    assert_eq!(models.len(), 16);
    for (i, a) in models.iter().enumerate() {
        for b in models.iter().skip(i + 1) {
            assert_ne!(a, b);
            assert_ne!(a.key(), b.key());
            assert_ne!(a.name(), b.name());
        }
    }
}
