use qingjian::config::{load, CONFIG_DIR, CONFIG_FILE};

#[test]
fn load_uses_defaults_without_a_directory() {
    let loaded = load::<u32, String>(None, 7);
    assert_eq!(loaded.config, 7);
    assert!(loaded.failure.is_none());
}

#[test]
fn load_keeps_what_was_read() {
    let loaded = load::<u32, String>(Some(Ok(3)), 7);
    assert_eq!(loaded.config, 3);
    assert!(loaded.failure.is_none());
}

#[test]
fn load_falls_back_and_reports_a_failed_read() {
    let loaded = load::<u32, String>(Some(Err("bad toml".to_string())), 7);
    assert_eq!(loaded.config, 7);
    assert_eq!(loaded.failure.as_deref(), Some("bad toml"));
}

#[test]
fn config_file_location() {
    assert_eq!(CONFIG_DIR, "Qingjian");
    assert_eq!(CONFIG_FILE, "config.toml");
}
