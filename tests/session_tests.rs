use win_bt_stereo_vs_handsfree::device::AudioDevice;
use win_bt_stereo_vs_handsfree::session::{
    get_all_mic_using_apps, get_apps_using_bluetooth_output, mic_apps_of_sessions,
    mute_all_targets, pid_session_targets, process_label_of, EndpointSessions, HfpUsingApp,
    MicUsingApp, SessionError, SessionInfo,
};

fn session(pid: u32, display: &str, name: Option<&str>, active: bool) -> SessionInfo {
    SessionInfo {
        process_id: pid,
        display_name: display.to_string(),
        process_name: name.map(|n| n.to_string()),
        icon_path: None,
        is_active: active,
        is_muted: false,
    }
}

fn endpoint(name: &str, bt: bool, sessions: Vec<SessionInfo>) -> EndpointSessions {
    EndpointSessions {
        endpoint: AudioDevice { id: format!("id-{}", name), name: name.to_string(), is_bluetooth: bt },
        sessions,
    }
}

#[test]
fn test_mic_using_app_new() {
    let app = MicUsingApp::new(1234, "test.exe".to_string(), "Test App".to_string());
    assert_eq!(app.process_id, 1234);
    assert_eq!(app.process_name, "test.exe");
    assert_eq!(app.display_name, "Test App");
    assert!(!app.is_muted);
    assert!(!app.is_using_bluetooth_mic);
}

#[test]
fn hfp_using_app_new() {
    let app = HfpUsingApp::new(7, "call.exe".to_string(), "Call".to_string());
    assert_eq!(app.process_id, 7);
    assert_eq!(app.process_name, "call.exe");
    assert_eq!(app.display_name, "Call");
}

#[test]
fn process_label_falls_back_to_pid() {
    assert_eq!(process_label_of(42, &None), "PID 42");
    assert_eq!(process_label_of(0, &None), "PID 0");
    assert_eq!(process_label_of(42, &Some("zoom.exe".to_string())), "zoom.exe");
}

#[test]
fn inactive_and_system_sessions_are_skipped() {
    let sessions = vec![
        session(0, "System Sounds", None, true),
        session(10, "", Some("teams.exe"), true),
        session(11, "Idle", Some("idle.exe"), false),
        session(12, "Zoom Meeting", Some("zoom.exe"), true),
    ];
    let apps = mic_apps_of_sessions(&sessions);
    assert_eq!(apps.len(), 2);
    assert_eq!(apps[0].process_id, 10);
    assert_eq!(apps[0].display_name, "teams.exe");
    assert_eq!(apps[1].display_name, "Zoom Meeting");
    assert!(!apps[1].is_using_bluetooth_mic);
}

#[test]
fn duplicates_across_endpoints_or_the_bluetooth_flag() {
    let eps = vec![
        endpoint("Built-in Mic", false, vec![session(10, "Teams", Some("teams.exe"), true)]),
        endpoint("Headset", true, vec![
            session(10, "Teams again", Some("teams.exe"), true),
            session(20, "", None, true),
        ]),
        endpoint("USB Mic", false, vec![session(20, "Other", None, true)]),
    ];
    let apps = get_all_mic_using_apps(&eps);
    assert_eq!(apps.len(), 2);
    assert_eq!(apps[0].process_id, 10);
    assert_eq!(apps[0].display_name, "Teams");
    assert!(apps[0].is_using_bluetooth_mic);
    assert_eq!(apps[1].process_id, 20);
    assert_eq!(apps[1].display_name, "PID 20");
    assert!(apps[1].is_using_bluetooth_mic);
}

#[test]
fn non_bluetooth_only_apps_are_not_flagged() {
    let eps = vec![endpoint("Built-in Mic", false, vec![session(5, "Rec", None, true)])];
    let apps = get_all_mic_using_apps(&eps);
    assert_eq!(apps.len(), 1);
    assert!(!apps[0].is_using_bluetooth_mic);
    assert!(get_all_mic_using_apps(&vec![]).is_empty());
}

#[test]
fn output_apps_only_from_bluetooth_render_endpoints() {
    let eps = vec![
        endpoint("Speakers", false, vec![session(1, "Music", None, true)]),
        endpoint("Headset", true, vec![
            session(2, "Call", Some("call.exe"), true),
            session(2, "Call 2", Some("call.exe"), true),
            session(0, "System", None, true),
            session(3, "Paused", None, false),
        ]),
        endpoint("Buds", true, vec![session(2, "Again", None, true), session(4, "", Some("ring.exe"), true)]),
    ];
    let apps = get_apps_using_bluetooth_output(&eps);
    assert_eq!(apps.len(), 2);
    assert_eq!(apps[0].process_id, 2);
    assert_eq!(apps[0].display_name, "Call");
    assert_eq!(apps[1].process_id, 4);
    assert_eq!(apps[1].display_name, "ring.exe");
}

#[test]
fn mute_reaches_every_endpoint_or_fails() {
    let eps = vec![
        endpoint("A", false, vec![session(3, "x", None, false), session(3, "y", None, true)]),
        endpoint("B", true, vec![session(4, "z", None, true)]),
        endpoint("C", false, vec![session(3, "w", None, true), session(3, "v", None, true)]),
    ];
    assert_eq!(pid_session_targets(&eps, 3), Ok(vec![(0, 1), (2, 0), (2, 1)]));
    assert_eq!(pid_session_targets(&eps, 4), Ok(vec![(1, 0)]));
    assert_eq!(pid_session_targets(&eps, 9), Err(SessionError::SessionNotFound(9)));
    assert_eq!(pid_session_targets(&vec![], 3), Err(SessionError::SessionNotFound(3)));
}

#[test]
fn mute_all_covers_all_counted_sessions() {
    let eps = vec![
        endpoint("A", false, vec![session(0, "sys", None, true), session(3, "y", None, true)]),
        endpoint("B", true, vec![session(4, "z", None, false), session(5, "q", None, true)]),
    ];
    assert_eq!(mute_all_targets(&eps), vec![(0, 1), (1, 1)]);
}
