use eph::config::{
    choose_editor, config_dir_path, config_file_path, default_config, resolve_script_dir, Config,
};

#[test]
fn first_run_defaults_name_nano_and_no_override() {
    let c = default_config();
    assert_eq!(c.editor.as_deref(), Some("nano"));
    assert!(c.script_dir.is_none());
}

#[test]
fn configured_editor_wins() {
    let c = Config { editor: Some("hx".to_string()), script_dir: None };
    assert_eq!(choose_editor(&c, Some("vim".to_string())), "hx");
}

#[test]
fn environment_editor_is_the_second_choice() {
    let c = Config { editor: None, script_dir: None };
    assert_eq!(choose_editor(&c, Some("vim".to_string())), "vim");
}

#[test]
fn nano_is_the_last_resort() {
    let c = Config { editor: None, script_dir: None };
    assert_eq!(choose_editor(&c, None), "nano");
}

#[test]
fn configured_script_dir_wins() {
    let c = Config { editor: None, script_dir: Some("/srv/scripts".to_string()) };
    assert_eq!(resolve_script_dir(&c, "/home/u"), "/srv/scripts");
}

#[test]
fn script_dir_defaults_to_hidden_dir_under_home() {
    let c = Config { editor: None, script_dir: None };
    assert_eq!(resolve_script_dir(&c, "/home/u"), "/home/u/.eph");
}

#[test]
fn config_paths_sit_under_the_home_config_dir() {
    assert_eq!(config_dir_path("/home/u"), "/home/u/.config/eph");
    assert_eq!(config_file_path("/home/u"), "/home/u/.config/eph/config.toml");
}
