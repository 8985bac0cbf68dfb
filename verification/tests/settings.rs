use mss_tui::config::{compare_text, is_config_file, AppConfig, ConfigManager, Theme};
use mss_tui::model::ModelType;
use mss_tui::text::chars_of;

fn names(list: &[&str]) -> Vec<String> {
    list.iter().map(|name| name.to_string()).collect()
}

#[test]
fn default_theme_is_dark() {
    assert_eq!(Theme::default(), Theme::Dark);
}

#[test]
fn default_settings_are_those_of_a_first_launch() {
    let config = AppConfig::default();
    assert_eq!(config.selected_model, None);
    assert!(config.recent_configs.is_empty());
    assert_eq!(config.theme, Theme::Dark);
}

#[test]
fn manager_keeps_its_path() {
    let manager = ConfigManager::new("~/.config/mss/config.yaml");
    assert_eq!(manager.config_path(), "~/.config/mss/config.yaml");
    assert_eq!(ConfigManager::new("").config_path(), "");
}

#[test]
fn missing_store_means_default_settings() {
    let manager = ConfigManager::new("config.yaml");
    let config = manager.load_config(None);
    assert_eq!(config.selected_model, None);
    assert!(config.recent_configs.is_empty());
    assert_eq!(config.theme, Theme::Dark);
    let stored = AppConfig {
        selected_model: Some(ModelType::Apollo),
        recent_configs: names(&["a.yaml"]),
        theme: Theme::HighContrast,
    };
    let config = manager.load_config(Some(stored));
    assert_eq!(config.selected_model, Some(ModelType::Apollo));
    assert_eq!(config.recent_configs, names(&["a.yaml"]));
    assert_eq!(config.theme, Theme::HighContrast);
}

#[test]
fn configuration_files_end_in_yaml_or_yml() {
    for name in ["a.yaml", "a.yml", "model.v2.yaml", "..yaml", "x.y.yml", " .yml", "é.yaml"] {
        assert!(is_config_file(name), "{:?}", name);
    }
    for name in [
        "", "yaml", "yml", ".yaml", ".yml", "a.YAML", "a.Yml", "a.yaml ", "a.yaml.bak", "a.yam",
        "a.ymll", "ayaml", "a.json", "a.", "a.yaml/",
    ] {
        assert!(!is_config_file(name), "{:?}", name);
    }
}

#[test]
fn extension_rule_agrees_with_std_paths() {
    for name in [
        "a.yaml", "a.yml", ".yaml", ".yml", "..yaml", "a.b.yml", "a", "a.", "yaml", "a.yaml.x",
        "config.YAML", ".hidden.yml", "...yml",
    ] {
        let by_path = std::path::Path::new(name)
            .extension()
            .map_or(false, |ext| ext == "yaml" || ext == "yml");
        assert_eq!(is_config_file(name), by_path, "{:?}", name);
    }
}

#[test]
fn listing_keeps_configuration_files_in_ascending_order() {
    let manager = ConfigManager::new("config.yaml");
    let entries = names(&[
        "zeta.yaml", "readme.md", "alpha.yml", "beta.yaml", ".yaml", "Alpha.yaml", "alpha.yaml",
        "notes.txt", "b.yml", "beta.yaml", "é.yml", "10.yaml", "9.yaml",
    ]);
    let listed = manager.list_configs(&entries);
    let mut expected: Vec<String> =
        entries.iter().filter(|name| is_config_file(name)).cloned().collect();
    expected.sort();
    assert_eq!(listed, expected);
    assert_eq!(
        listed,
        names(&[
            "10.yaml", "9.yaml", "Alpha.yaml", "alpha.yaml", "alpha.yml", "b.yml", "beta.yaml",
            "beta.yaml", "zeta.yaml", "é.yml",
        ])
    );
    assert_eq!(manager.list_configs(&Vec::new()), Vec::<String>::new());
    assert_eq!(manager.list_configs(&names(&["a.txt"])), Vec::<String>::new());
}

#[test]
fn text_order_is_that_of_strings() {
    let samples = ["", "a", "A", "ab", "abc", "abd", "b", "é", "z", "😀", "a😀", "aé"];
    for a in samples {
        for b in samples {
            assert_eq!(compare_text(&chars_of(a), &chars_of(b)), a <= b, "{:?} {:?}", a, b);
        }
    }
}

#[test]
fn listing_of_names_in_any_order_is_the_same() {
    let manager = ConfigManager::new("config.yaml");
    let listed = manager.list_configs(&names(&["m.yml", "a.yml", "z.yml", "m.yml", "b.yml"]));
    assert_eq!(listed, names(&["a.yml", "b.yml", "m.yml", "m.yml", "z.yml"]));
    let again = manager.list_configs(&names(&["z.yml", "m.yml", "b.yml", "m.yml", "a.yml"]));
    assert_eq!(again, listed);
}
