use win_bt_stereo_vs_handsfree::config::{
    default_check_interval, default_log_level, default_max_log_files, default_max_log_size,
    default_poll_interval, default_true, default_version, AppConfig, ConfigManager, CONFIG_VERSION,
};

#[test]
fn config_test_default_config() {
    let config = AppConfig::default();
    assert_eq!(config.config_version, CONFIG_VERSION);
    assert!(!config.general.auto_start);
    assert!(config.general.start_minimized);
    assert_eq!(config.general.poll_interval_ms, 500);
}

#[test]
fn config_tests_test_default_config() {
    let config = AppConfig::default();

    assert_eq!(config.config_version, CONFIG_VERSION);
    assert!(!config.general.auto_start);
    assert!(config.general.start_minimized);
    assert!(!config.general.prefer_stereo);
    assert_eq!(config.general.poll_interval_ms, 500);
}

#[test]
fn test_default_notification_config() {
    let config = AppConfig::default();

    assert!(config.notifications.notify_mode_change);
    assert!(config.notifications.notify_mic_usage);
    assert!(config.notifications.notify_errors);
    assert!(config.notifications.notify_updates);
}

#[test]
fn test_default_logging_config() {
    let config = AppConfig::default();

    assert_eq!(config.logging.level, "info");
    assert_eq!(config.logging.max_file_size, 5 * 1024 * 1024);
    assert_eq!(config.logging.max_files, 3);
}

#[test]
fn test_default_update_config() {
    let config = AppConfig::default();

    assert!(config.updates.auto_check);
    assert_eq!(config.updates.check_interval_hours, 24);
    assert_eq!(config.updates.last_check, 0);
    assert!(config.updates.skipped_version.is_none());
}

#[test]
fn test_config_version() {
    assert!(CONFIG_VERSION >= 1);
}

#[test]
fn test_poll_interval_bounds() {
    let config = AppConfig::default();
    assert!(config.general.poll_interval_ms >= 100);
    assert!(config.general.poll_interval_ms <= 10000);
}

#[test]
fn test_log_max_size_reasonable() {
    let config = AppConfig::default();
    assert!(config.logging.max_file_size >= 1024 * 1024);
    assert!(config.logging.max_file_size <= 100 * 1024 * 1024);
}

#[test]
fn test_update_interval_reasonable() {
    let config = AppConfig::default();
    assert!(config.updates.check_interval_hours >= 1);
    assert!(config.updates.check_interval_hours <= 168);
}

#[test]
fn field_defaults() {
    assert_eq!(default_version(), 2);
    assert!(default_true());
    assert_eq!(default_poll_interval(), 500);
    assert_eq!(default_log_level(), "info");
    assert_eq!(default_max_log_size(), 5 * 1024 * 1024);
    assert_eq!(default_max_log_files(), 3);
    assert_eq!(default_check_interval(), 24);
}

#[test]
fn migrate_moves_old_versions_only() {
    let mut config = AppConfig::default();
    config.config_version = 1;
    config.general.prefer_stereo = true;
    config.migrate();
    assert_eq!(config.config_version, CONFIG_VERSION);
    assert!(config.general.prefer_stereo);
    config.config_version = 7;
    config.migrate();
    assert_eq!(config.config_version, 7);
}

#[test]
fn log_dir_depends_on_portability() {
    let portable = ConfigManager::new("C:\\Tools\\App\\config.toml".to_string(), true);
    assert!(portable.is_portable());
    assert_eq!(portable.config_path(), "C:\\Tools\\App\\config.toml");
    assert_eq!(portable.log_dir(), "C:\\Tools\\App\\logs");
    let installed = ConfigManager::new("C:\\Users\\me\\AppData\\Local\\BtAudioModeManager\\config.toml".to_string(), false);
    assert_eq!(installed.log_dir(), "C:\\Users\\me\\AppData\\Local\\BtAudioModeManager");
    let bare = ConfigManager::new("config.toml".to_string(), false);
    assert_eq!(bare.log_dir(), "");
}
