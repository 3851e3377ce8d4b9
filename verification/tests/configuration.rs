use slap::config::Config;

fn named(name: &str) -> Config {
    Config { tmpdir: Some(name.to_string()) }
}

#[test]
fn default_config_names_no_tmpdir() {
    assert_eq!(Config::default(), Config { tmpdir: None });
}

#[test]
fn load_without_file_or_variable_is_default() {
    assert_eq!(Config::load(None, None), Config::default());
}

#[test]
fn load_takes_the_file_value() {
    assert_eq!(Config::load(Some(named("slap")), None), named("slap"));
}

#[test]
fn load_keeps_a_file_without_tmpdir() {
    assert_eq!(Config::load(Some(Config { tmpdir: None }), None), Config { tmpdir: None });
}

#[test]
fn load_lets_the_variable_override_the_file() {
    assert_eq!(Config::load(Some(named("from-file")), Some("from-env".to_string())), named("from-env"));
}

#[test]
fn load_takes_the_variable_without_a_file() {
    assert_eq!(Config::load(None, Some("from-env".to_string())), named("from-env"));
}

#[test]
fn load_takes_an_empty_variable_as_set() {
    assert_eq!(Config::load(Some(named("from-file")), Some(String::new())), named(""));
}

#[test]
fn file_path_prefers_xdg_config_home() {
    assert_eq!(
        Config::file_path(Some("/xdg"), Some("/home/me")),
        Some("/xdg/slap/config.toml".to_string())
    );
}

#[test]
fn file_path_falls_back_to_home() {
    assert_eq!(
        Config::file_path(None, Some("/home/me")),
        Some("/home/me/.config/slap/config.toml".to_string())
    );
}

#[test]
fn file_path_is_none_without_either() {
    assert_eq!(Config::file_path(None, None), None);
}

#[test]
fn file_path_with_empty_xdg_is_relative() {
    assert_eq!(Config::file_path(Some(""), Some("/home/me")), Some("slap/config.toml".to_string()));
}

#[test]
fn file_path_after_trailing_separator() {
    assert_eq!(Config::file_path(Some("/xdg/"), None), Some("/xdg/slap/config.toml".to_string()));
    assert_eq!(Config::file_path(None, Some("/")), Some("/.config/slap/config.toml".to_string()));
}

#[test]
fn file_path_agrees_with_the_standard_library() {
    let dir = "/home/me";
    let expected = std::path::Path::new(dir).join(".config").join("slap").join("config.toml");
    assert_eq!(Config::file_path(None, Some(dir)).unwrap(), expected.to_str().unwrap());
}
