use effect::config::{load, save, AppConfig};
use effect::paths::{config_path, Environment};

fn env() -> Environment {
    Environment { appdata: Some("/roaming".to_string()), local_appdata: None, temp_dir: "/tmp".to_string() }
}

#[test]
fn default_config_has_no_selection() {
    assert!(AppConfig::default().selected_path.is_none());
}

#[test]
fn load_falls_back_to_default() {
    assert!(load(None).selected_path.is_none());
}

#[test]
fn load_keeps_a_stored_config() {
    let stored = AppConfig { selected_path: Some("/home/u/static/clouds".to_string()) };
    assert_eq!(load(Some(stored)).selected_path.as_deref(), Some("/home/u/static/clouds"));
}

#[test]
fn save_writes_the_config_file() {
    let config = AppConfig { selected_path: Some("/a/b.html".to_string()) };
    let write = save(&env(), &config);
    assert_eq!(write.path, config_path(&env()));
    assert_eq!(write.config.selected_path.as_deref(), Some("/a/b.html"));
}

#[test]
fn duplicate_copies_the_selection() {
    let config = AppConfig { selected_path: Some("/x".to_string()) };
    assert_eq!(config.duplicate().selected_path, config.selected_path);
    let empty = AppConfig { selected_path: None };
    assert!(empty.duplicate().selected_path.is_none());
}
