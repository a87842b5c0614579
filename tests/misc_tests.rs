use win_bt_stereo_vs_handsfree::device::AudioMode;
use win_bt_stereo_vs_handsfree::error::ErrorSeverity;
use win_bt_stereo_vs_handsfree::i18n::get_language_display_names;
use win_bt_stereo_vs_handsfree::logging::{log_level_to_string, parse_log_level, LevelFilter, LoggingConfig};
use win_bt_stereo_vs_handsfree::notifications::{
    escape_xml, toast_xml, NotificationManager, NotificationType, ToastIcon,
};
use win_bt_stereo_vs_handsfree::ui::{
    IconState, MenuBuilder, MenuEvent, MenuItemPurpose, SettingsMessage, SettingsWindow,
};
use win_bt_stereo_vs_handsfree::update::{
    find_checksum_asset, find_download_asset, sanitize_version, ReleaseAsset, VersionError,
};

#[test]
fn test_get_language_display_names_returns_expected_list() {
    let languages = get_language_display_names();
    assert_eq!(languages.len(), 8, "Should have 8 language options");
    assert_eq!(languages[0].0, "", "First option should be empty string for system default");
    assert_eq!(languages[1].0, "en", "Second option should be English");
    assert_eq!(languages[2].0, "zh-CN", "Third option should be Simplified Chinese");
}

#[test]
fn test_parse_log_level() {
    assert_eq!(parse_log_level("info"), LevelFilter::Info);
    assert_eq!(parse_log_level("DEBUG"), LevelFilter::Debug);
    assert_eq!(parse_log_level("Warning"), LevelFilter::Warn);
    assert_eq!(parse_log_level("invalid"), LevelFilter::Info);
}

#[test]
fn test_log_level_to_string() {
    assert_eq!(log_level_to_string(LevelFilter::Info), "info");
    assert_eq!(log_level_to_string(LevelFilter::Debug), "debug");
}

#[test]
fn every_level_parses_back() {
    for level in [LevelFilter::Off, LevelFilter::Error, LevelFilter::Warn, LevelFilter::Info, LevelFilter::Debug, LevelFilter::Trace] {
        assert_eq!(parse_log_level(log_level_to_string(level)), level);
    }
    assert_eq!(parse_log_level("TRACE"), LevelFilter::Trace);
    assert_eq!(parse_log_level("Off"), LevelFilter::Off);
}

#[test]
fn logging_defaults() {
    let c = LoggingConfig::default();
    assert_eq!(c.level, LevelFilter::Info);
    assert_eq!(c.max_file_size, 5 * 1024 * 1024);
    assert_eq!(c.max_files, 3);
    assert_eq!(c.log_dir, ".");
}

#[test]
fn test_notification_manager_new() {
    let manager = NotificationManager::new();
    assert!(manager.enabled);
    assert!(manager.notify_mode_change);
}

#[test]
fn test_notification_disabled() {
    let mut manager = NotificationManager::new();
    manager.set_enabled(false);
    let result = manager.show(NotificationType::Info {
        title: "Test".to_string(),
        message: "Test message".to_string(),
    });
    assert!(result.is_none());
}

#[test]
fn mode_change_notice_text() {
    let manager = NotificationManager::new();
    let n = manager
        .show(NotificationType::ModeChange { old: AudioMode::Stereo, new: AudioMode::HandsFree })
        .unwrap();
    assert_eq!(n.title, "Audio Mode Changed");
    assert_eq!(n.message, "Switched from Stereo to Hands-Free");
    assert_eq!(n.icon, ToastIcon::Info);
    assert!(!n.use_message_box);
}

#[test]
fn notice_preferences_filter() {
    let mut manager = NotificationManager::new();
    manager.update_settings(false, true, true, false);
    assert!(manager
        .show(NotificationType::ModeChange { old: AudioMode::Stereo, new: AudioMode::HandsFree })
        .is_none());
    assert!(manager.show(NotificationType::UpdateAvailable { version: "2.0.0".to_string() }).is_none());
    let n = manager.show(NotificationType::MicUsageStart { app_name: "Zoom".to_string() }).unwrap();
    assert_eq!(n.message, "Zoom started using the microphone");
    let n = manager
        .show(NotificationType::Error { message: "boom".to_string(), severity: ErrorSeverity::Fatal })
        .unwrap();
    assert_eq!((n.title.as_str(), n.icon), ("Error", ToastIcon::Error));
    assert!(manager
        .show(NotificationType::Error { message: "meh".to_string(), severity: ErrorSeverity::Minor })
        .is_none());
    manager.set_force_message_box(true);
    let n = manager.show(NotificationType::MicUsageStop { app_name: "Zoom".to_string() }).unwrap();
    assert_eq!(n.title, "Microphone Released");
    assert!(n.use_message_box);
}

#[test]
fn toast_severity_rules() {
    assert!(ErrorSeverity::Fatal.should_show_toast());
    assert!(ErrorSeverity::Recoverable.should_show_toast());
    assert!(!ErrorSeverity::Minor.should_show_toast());
}

#[test]
fn test_escape_xml() {
    assert_eq!(escape_xml("Hello & World"), "Hello &amp; World");
    assert_eq!(escape_xml("<test>"), "&lt;test&gt;");
    assert_eq!(escape_xml("\"quoted\""), "&quot;quoted&quot;");
}

#[test]
fn escape_xml_apostrophe_and_plain() {
    assert_eq!(escape_xml("it's"), "it&apos;s");
    assert_eq!(escape_xml("plain"), "plain");
    assert_eq!(escape_xml(""), "");
}

#[test]
fn toast_document_escapes_both_parts() {
    assert_eq!(
        toast_xml("A&B", "<x>"),
        "<toast><visual><binding template=\"ToastGeneric\"><text>A&amp;B</text><text>&lt;x&gt;</text></binding></visual><audio silent=\"true\"/></toast>"
    );
}

#[test]
fn test_settings_window_new() {
    let window = SettingsWindow::new();
    assert!(!window.is_open());
}

#[test]
fn settings_window_open_and_close() {
    let mut window = SettingsWindow::new();
    assert!(window.open());
    assert!(!window.open());
    assert!(window.is_open());
    assert!(matches!(window.try_recv(Some(SettingsMessage::Open)), Some(SettingsMessage::Open)));
    assert!(window.is_open());
    assert!(window.try_recv(None).is_none());
    assert!(matches!(window.try_recv(Some(SettingsMessage::Closed(None))), Some(SettingsMessage::Closed(None))));
    assert!(!window.is_open());
}

#[test]
fn test_menu_builder_new() {
    let builder = MenuBuilder::new();
    assert!(builder.item_map.is_empty());
}

#[test]
fn menu_events_by_identifier() {
    let mut builder = MenuBuilder::new();
    builder.register("terminate_app_42".to_string(), MenuItemPurpose::TerminateApp(42));
    builder.register("reconnect_Buds".to_string(), MenuItemPurpose::ReconnectDevice("Buds".to_string()));
    builder.register("device_Buds".to_string(), MenuItemPurpose::Device("Buds".to_string()));
    assert_eq!(builder.handle_event("settings"), Some(MenuEvent::OpenSettings));
    assert_eq!(builder.handle_event("exit"), Some(MenuEvent::Exit));
    assert_eq!(builder.handle_event("terminate_app_42"), Some(MenuEvent::TerminateApp(42)));
    assert_eq!(builder.handle_event("reconnect_Buds"), Some(MenuEvent::ReconnectDevice("Buds".to_string())));
    assert_eq!(builder.handle_event("device_Buds"), None);
    assert_eq!(builder.handle_event("nothing"), None);
    builder.clear();
    assert_eq!(builder.handle_event("terminate_app_42"), None);
}

#[test]
fn icon_follows_mode() {
    assert_eq!(IconState::from_mode(AudioMode::Stereo), IconState::Stereo);
    assert_eq!(IconState::from_mode(AudioMode::HandsFree), IconState::HandsFree);
    assert_eq!(IconState::from_mode(AudioMode::Unknown), IconState::Unknown);
}

#[test]
fn test_sanitize_version() {
    assert!(sanitize_version("1.0.0").is_ok());
    assert!(sanitize_version("1.0.0-beta").is_ok());
    assert!(sanitize_version("1.0.0+build123").is_ok());
    assert!(sanitize_version("v1.0.0").is_err());
    assert!(sanitize_version("").is_err());
}

#[test]
fn sanitize_version_strips_and_caps() {
    assert_eq!(sanitize_version("1.2.3; rm -rf"), Ok("1.2.3rm-rf".to_string()));
    assert_eq!(sanitize_version("!!!"), Err(VersionError::EmptyVersion));
    assert_eq!(sanitize_version("beta-1"), Err(VersionError::MustStartWithDigit));
    let long = "9".repeat(80);
    assert_eq!(sanitize_version(&long).unwrap().len(), 50);
}

fn asset(name: &str) -> ReleaseAsset {
    ReleaseAsset { name: name.to_string(), browser_download_url: format!("https://example.invalid/{}", name) }
}

#[test]
fn release_assets_are_chosen_by_name() {
    let assets = vec![
        asset("app-x64-setup.msi"),
        asset("app-x64-portable.zip"),
        asset("app-x64-portable.exe"),
        asset("app-arm64-portable.exe"),
        asset("SHA256SUMS.txt"),
    ];
    assert_eq!(find_download_asset(&assets), Some(2));
    assert_eq!(find_checksum_asset(&assets), Some(4));
    let others = vec![asset("notes.md"), asset("app-checksums.txt")];
    assert_eq!(find_download_asset(&others), None);
    assert_eq!(find_checksum_asset(&others), Some(1));
    assert_eq!(find_checksum_asset(&vec![]), None);
}
