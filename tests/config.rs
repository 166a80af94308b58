use file_prober::config::{config_from, ConfigError};

#[test]
fn both_values_present_give_a_config() {
    let c = config_from(Some("https://example.com/files".to_string()), Some("s1".to_string()))
        .unwrap();
    assert_eq!(c.path, "https://example.com/files");
    assert_eq!(c.session_id, "s1");
}

#[test]
fn missing_url_path_is_reported() {
    let e = config_from(None, Some("s1".to_string())).err().unwrap();
    assert_eq!(e, ConfigError::MissingUrlPath);
    assert_eq!(e.variable_name(), "URL_PATH");
    assert_eq!(e.message(), "ERROR: Must define URL_PATH environment variable!");
}

#[test]
fn missing_session_id_is_reported() {
    let e = config_from(Some("p".to_string()), None).err().unwrap();
    assert_eq!(e, ConfigError::MissingSessionId);
    assert_eq!(e.variable_name(), "SESSION_ID");
    assert_eq!(e.message(), "ERROR: Must define SESSION_ID environment variable!");
}

#[test]
fn url_path_is_checked_first() {
    assert_eq!(config_from(None, None).err(), Some(ConfigError::MissingUrlPath));
}
