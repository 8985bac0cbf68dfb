//! The catalog of model architectures and the job configurations built on it.

use vstd::prelude::*;

verus! {

/// A supported separation architecture.
#[derive(Debug, Clone, Copy, PartialEq, Eq, Structural)]
pub enum ModelType {
    MDX23C,
    HtDemucs,
    VitLarge23,
    TorchSeg,
    BsRoformer,
    MelBandRoformer,
    SwinUpernet,
    BandIt,
    ScNet,
    BandItV2,
    Apollo,
    TsBsMamba2,
    Conformer,
    BsConformer,
    ScNetTran,
    ScNetMasked,
}

impl ModelType {
    /// The machine-readable key, as the external scripts expect it after
    /// `--model_type`.
    pub open spec fn key_text(self) -> Seq<char> {
        match self {
            ModelType::MDX23C => "mdx23c"@,
            ModelType::HtDemucs => "htdemucs"@,
            ModelType::VitLarge23 => "segm_models"@,
            ModelType::TorchSeg => "torchseg"@,
            ModelType::BsRoformer => "bs_roformer"@,
            ModelType::MelBandRoformer => "mel_band_roformer"@,
            ModelType::SwinUpernet => "swin_upernet"@,
            ModelType::BandIt => "bandit"@,
            ModelType::ScNet => "scnet"@,
            ModelType::BandItV2 => "bandit_v2"@,
            ModelType::Apollo => "apollo"@,
            ModelType::TsBsMamba2 => "bs_mamba2"@,
            ModelType::Conformer => "conformer"@,
            ModelType::BsConformer => "bs_conformer"@,
            ModelType::ScNetTran => "scnet_tran"@,
            ModelType::ScNetMasked => "scnet_masked"@,
        }
    }

    /// The name shown to the user.
    pub open spec fn name_text(self) -> Seq<char> {
        match self {
            ModelType::MDX23C => "MDX23C"@,
            ModelType::HtDemucs => "Demucs4HT"@,
            ModelType::VitLarge23 => "VitLarge23"@,
            ModelType::TorchSeg => "TorchSeg"@,
            ModelType::BsRoformer => "Band Split RoFormer"@,
            ModelType::MelBandRoformer => "Mel-Band RoFormer"@,
            ModelType::SwinUpernet => "Swin Upernet"@,
            ModelType::BandIt => "BandIt Plus"@,
            ModelType::ScNet => "SCNet"@,
            ModelType::BandItV2 => "BandIt v2"@,
            ModelType::Apollo => "Apollo"@,
            ModelType::TsBsMamba2 => "TS BSMamba2"@,
            ModelType::Conformer => "Conformer"@,
            ModelType::BsConformer => "BS Conformer"@,
            ModelType::ScNetTran => "SCNet Tran"@,
            ModelType::ScNetMasked => "SCNet Masked"@,
        }
    }

    /// The one-line description shown beside the name.
    pub open spec fn description_text(self) -> Seq<char> {
        match self {
            ModelType::MDX23C => "KUIELab TFC TDF v3 architecture"@,
            ModelType::HtDemucs => "Hybrid transformer architecture"@,
            ModelType::VitLarge23 => "Vision transformer based"@,
            ModelType::TorchSeg => "Segmentation models with 800+ encoders"@,
            ModelType::BsRoformer => "Rotary attention with band splitting"@,
            ModelType::MelBandRoformer => "Mel-spectrogram band splitting"@,
            ModelType::SwinUpernet => "Swin transformer with UperNet"@,
            ModelType::BandIt => "Band-limited attention"@,
            ModelType::ScNet => "Spectral convolution network"@,
            ModelType::BandItV2 => "Improved band-limited attention"@,
            ModelType::Apollo => "Advanced separation architecture"@,
            ModelType::TsBsMamba2 => "State space model"@,
            ModelType::Conformer => "Convolution-augmented transformer"@,
            ModelType::BsConformer => "Band split conformer"@,
            ModelType::ScNetTran => "Transformer variant"@,
            ModelType::ScNetMasked => "Masked variant"@,
        }
    }

    /// Every architecture once, in the order of the selection menu.
    pub open spec fn catalog() -> Seq<ModelType> {
        seq![
            ModelType::MDX23C,
            ModelType::HtDemucs,
            ModelType::VitLarge23,
            ModelType::TorchSeg,
            ModelType::BsRoformer,
            ModelType::MelBandRoformer,
            ModelType::SwinUpernet,
            ModelType::BandIt,
            ModelType::ScNet,
            ModelType::BandItV2,
            ModelType::Apollo,
            ModelType::TsBsMamba2,
            ModelType::Conformer,
            ModelType::BsConformer,
            ModelType::ScNetTran,
            ModelType::ScNetMasked,
        ]
    }

    pub fn key(&self) -> (text: &'static str)
        ensures
            text@ == self.key_text(),
    {
        match self {
            ModelType::MDX23C => "mdx23c",
            ModelType::HtDemucs => "htdemucs",
            ModelType::VitLarge23 => "segm_models",
            ModelType::TorchSeg => "torchseg",
            ModelType::BsRoformer => "bs_roformer",
            ModelType::MelBandRoformer => "mel_band_roformer",
            ModelType::SwinUpernet => "swin_upernet",
            ModelType::BandIt => "bandit",
            ModelType::ScNet => "scnet",
            ModelType::BandItV2 => "bandit_v2",
            ModelType::Apollo => "apollo",
            ModelType::TsBsMamba2 => "bs_mamba2",
            ModelType::Conformer => "conformer",
            ModelType::BsConformer => "bs_conformer",
            ModelType::ScNetTran => "scnet_tran",
            ModelType::ScNetMasked => "scnet_masked",
        }
    }

    pub fn name(&self) -> (text: &'static str)
        ensures
            text@ == self.name_text(),
    {
        match self {
            ModelType::MDX23C => "MDX23C",
            ModelType::HtDemucs => "Demucs4HT",
            ModelType::VitLarge23 => "VitLarge23",
            ModelType::TorchSeg => "TorchSeg",
            ModelType::BsRoformer => "Band Split RoFormer",
            ModelType::MelBandRoformer => "Mel-Band RoFormer",
            ModelType::SwinUpernet => "Swin Upernet",
            ModelType::BandIt => "BandIt Plus",
            ModelType::ScNet => "SCNet",
            ModelType::BandItV2 => "BandIt v2",
            ModelType::Apollo => "Apollo",
            ModelType::TsBsMamba2 => "TS BSMamba2",
            ModelType::Conformer => "Conformer",
            ModelType::BsConformer => "BS Conformer",
            ModelType::ScNetTran => "SCNet Tran",
            ModelType::ScNetMasked => "SCNet Masked",
        }
    }

    pub fn description(&self) -> (text: &'static str)
        ensures
            text@ == self.description_text(),
    {
        match self {
            ModelType::MDX23C => "KUIELab TFC TDF v3 architecture",
            ModelType::HtDemucs => "Hybrid transformer architecture",
            ModelType::VitLarge23 => "Vision transformer based",
            ModelType::TorchSeg => "Segmentation models with 800+ encoders",
            ModelType::BsRoformer => "Rotary attention with band splitting",
            ModelType::MelBandRoformer => "Mel-spectrogram band splitting",
            ModelType::SwinUpernet => "Swin transformer with UperNet",
            ModelType::BandIt => "Band-limited attention",
            ModelType::ScNet => "Spectral convolution network",
            ModelType::BandItV2 => "Improved band-limited attention",
            ModelType::Apollo => "Advanced separation architecture",
            ModelType::TsBsMamba2 => "State space model",
            ModelType::Conformer => "Convolution-augmented transformer",
            ModelType::BsConformer => "Band split conformer",
            ModelType::ScNetTran => "Transformer variant",
            ModelType::ScNetMasked => "Masked variant",
        }
    }

    pub fn all_models() -> (models: Vec<ModelType>)
        ensures
            models@ == Self::catalog(),
    {
        let models = vec![
            ModelType::MDX23C,
            ModelType::HtDemucs,
            ModelType::VitLarge23,
            ModelType::TorchSeg,
            ModelType::BsRoformer,
            ModelType::MelBandRoformer,
            ModelType::SwinUpernet,
            ModelType::BandIt,
            ModelType::ScNet,
            ModelType::BandItV2,
            ModelType::Apollo,
            ModelType::TsBsMamba2,
            ModelType::Conformer,
            ModelType::BsConformer,
            ModelType::ScNetTran,
            ModelType::ScNetMasked,
        ];
        assert(models@ =~= Self::catalog());
        models
    }

    /// The catalog leaves no architecture out.
    pub proof fn lemma_catalog_complete(m: ModelType)
        ensures
            Self::catalog().contains(m),
            Self::catalog().len() == 16,
    {
        let c = Self::catalog();
        match m {
            ModelType::MDX23C => assert(c[0] == m),
            ModelType::HtDemucs => assert(c[1] == m),
            ModelType::VitLarge23 => assert(c[2] == m),
            ModelType::TorchSeg => assert(c[3] == m),
            ModelType::BsRoformer => assert(c[4] == m),
            ModelType::MelBandRoformer => assert(c[5] == m),
            ModelType::SwinUpernet => assert(c[6] == m),
            ModelType::BandIt => assert(c[7] == m),
            ModelType::ScNet => assert(c[8] == m),
            ModelType::BandItV2 => assert(c[9] == m),
            ModelType::Apollo => assert(c[10] == m),
            ModelType::TsBsMamba2 => assert(c[11] == m),
            ModelType::Conformer => assert(c[12] == m),
            ModelType::BsConformer => assert(c[13] == m),
            ModelType::ScNetTran => assert(c[14] == m),
            ModelType::ScNetMasked => assert(c[15] == m),
        }
    }
}

/// What a training run is launched with.
#[derive(Debug, Clone)]
pub struct TrainingConfig {
    pub model_type: ModelType,
    pub config_path: String,
    pub start_checkpoint: Option<String>,
    pub results_path: String,
    pub data_paths: Vec<String>,
    pub valid_path: Option<String>,
    pub num_workers: Option<usize>,
    pub device_ids: Option<Vec<usize>>,
}

/// The mathematical value of a `TrainingConfig`.
pub struct TrainingConfigView {
    pub model_type: ModelType,
    pub config_path: Seq<char>,
    pub start_checkpoint: Option<Seq<char>>,
    pub results_path: Seq<char>,
    pub data_paths: Seq<Seq<char>>,
    pub valid_path: Option<Seq<char>>,
    pub num_workers: Option<usize>,
    pub device_ids: Option<Seq<usize>>,
}

impl View for TrainingConfig {
    type V = TrainingConfigView;

    open spec fn view(&self) -> TrainingConfigView {
        TrainingConfigView {
            model_type: self.model_type,
            config_path: self.config_path@,
            start_checkpoint: self.start_checkpoint.deep_view(),
            results_path: self.results_path@,
            data_paths: self.data_paths.deep_view(),
            valid_path: self.valid_path.deep_view(),
            num_workers: self.num_workers,
            device_ids: self.device_ids.deep_view(),
        }
    }
}

/// What an inference run is launched with.
#[derive(Debug, Clone)]
pub struct InferenceConfig {
    pub model_type: ModelType,
    pub config_path: String,
    pub start_checkpoint: String,
    pub input_folder: String,
    pub store_dir: String,
}

/// The mathematical value of an `InferenceConfig`.
pub struct InferenceConfigView {
    pub model_type: ModelType,
    pub config_path: Seq<char>,
    pub start_checkpoint: Seq<char>,
    pub input_folder: Seq<char>,
    pub store_dir: Seq<char>,
}

impl View for InferenceConfig {
    type V = InferenceConfigView;

    open spec fn view(&self) -> InferenceConfigView {
        InferenceConfigView {
            model_type: self.model_type,
            config_path: self.config_path@,
            start_checkpoint: self.start_checkpoint@,
            input_folder: self.input_folder@,
            store_dir: self.store_dir@,
        }
    }
}

/// What a validation run is launched with.
#[derive(Debug, Clone)]
pub struct ValidationConfig {
    pub model_type: ModelType,
    pub config_path: String,
    pub start_checkpoint: String,
    pub valid_path: String,
}

/// The record of a training job that is over. It carries the paths of the
/// configuration it was started with.
#[derive(Debug, Clone, PartialEq, Eq)]
pub struct TrainingResult {
    pub data_paths: Vec<String>,
    pub results_path: String,
    /// Whole milliseconds, where the run was timed.
    pub duration: Option<u64>,
    pub success: bool,
    pub error_message: Option<String>,
}

/// The mathematical value of a `TrainingResult`.
pub struct TrainingResultView {
    pub data_paths: Seq<Seq<char>>,
    pub results_path: Seq<char>,
    pub duration: Option<u64>,
    pub success: bool,
    pub error_message: Option<Seq<char>>,
}

impl View for TrainingResult {
    type V = TrainingResultView;

    open spec fn view(&self) -> TrainingResultView {
        TrainingResultView {
            data_paths: self.data_paths.deep_view(),
            results_path: self.results_path@,
            duration: self.duration,
            success: self.success,
            error_message: self.error_message.deep_view(),
        }
    }
}

/// The record of an inference job that is over. It carries the paths of the
/// configuration it was started with.
#[derive(Debug, Clone, PartialEq, Eq)]
pub struct InferenceResult {
    pub input_file: String,
    pub output_dir: String,
    /// Whole milliseconds, where the run was timed.
    pub duration: Option<u64>,
    pub success: bool,
    pub error_message: Option<String>,
}

/// The mathematical value of an `InferenceResult`.
pub struct InferenceResultView {
    pub input_file: Seq<char>,
    pub output_dir: Seq<char>,
    pub duration: Option<u64>,
    pub success: bool,
    pub error_message: Option<Seq<char>>,
}

impl View for InferenceResult {
    type V = InferenceResultView;

    open spec fn view(&self) -> InferenceResultView {
        InferenceResultView {
            input_file: self.input_file@,
            output_dir: self.output_dir@,
            duration: self.duration,
            success: self.success,
            error_message: self.error_message.deep_view(),
        }
    }
}

} // verus!
