use win_bt_stereo_vs_handsfree::device::{AudioDevice, AudioMode};
use win_bt_stereo_vs_handsfree::monitor::{
    detect_overall_mode, first_meter_reading, poll_audio_state, CommandAction, EndpointReading,
    Inbox, MonitorCommand, MonitorEngine, MonitorEvent,
};
use win_bt_stereo_vs_handsfree::session::MicUsingApp;

fn reading(name: &str, bt: bool, format: Option<(u32, u16)>, meter: Option<u32>) -> EndpointReading {
    EndpointReading {
        endpoint: AudioDevice { id: format!("id-{}", name), name: name.to_string(), is_bluetooth: bt },
        format,
        meter_channels: meter,
    }
}

fn bt_mic_app(pid: u32, bt: bool) -> MicUsingApp {
    let mut a = MicUsingApp::new(pid, "a.exe".to_string(), "A".to_string());
    a.is_using_bluetooth_mic = bt;
    a
}

#[test]
fn no_bluetooth_render_endpoint_is_unknown() {
    let readings = vec![reading("Speakers", false, Some((48000, 2)), Some(1))];
    assert_eq!(detect_overall_mode(&readings, &vec![bt_mic_app(1, true)]), AudioMode::Unknown);
    assert_eq!(detect_overall_mode(&vec![], &vec![]), AudioMode::Unknown);
}

#[test]
fn meter_is_authoritative_over_format_and_mic() {
    // format says hands-free, the live meter says stereo
    let readings = vec![reading("Headset", true, Some((16000, 1)), Some(2))];
    assert_eq!(detect_overall_mode(&readings, &vec![bt_mic_app(1, true)]), AudioMode::Stereo);
    // format says stereo, the live meter says hands-free
    let readings = vec![reading("Headset", true, Some((48000, 2)), Some(1))];
    assert_eq!(detect_overall_mode(&readings, &vec![]), AudioMode::HandsFree);
}

#[test]
fn unreadable_meter_falls_back_to_microphone_use() {
    let readings = vec![reading("Headset", true, Some((48000, 2)), None)];
    assert_eq!(detect_overall_mode(&readings, &vec![bt_mic_app(1, true)]), AudioMode::HandsFree);
    assert_eq!(detect_overall_mode(&readings, &vec![bt_mic_app(1, false)]), AudioMode::Stereo);
}

#[test]
fn zero_meter_count_falls_back_to_microphone_use() {
    let readings = vec![reading("Headset", true, Some((48000, 2)), Some(0))];
    assert_eq!(detect_overall_mode(&readings, &vec![bt_mic_app(1, true)]), AudioMode::HandsFree);
    assert_eq!(detect_overall_mode(&readings, &vec![bt_mic_app(1, false)]), AudioMode::Stereo);
}

#[test]
fn first_readable_bluetooth_meter_is_used() {
    let readings = vec![
        reading("Speakers", false, None, Some(1)),
        reading("Headset", true, None, None),
        reading("Buds", true, None, Some(2)),
        reading("Other", true, None, Some(1)),
    ];
    assert_eq!(first_meter_reading(&readings), Some(2));
}

#[test]
fn two_bluetooth_devices_carry_the_overall_mode() {
    let readings = vec![
        reading("Headset", true, Some((16000, 1)), Some(1)),
        reading("Speakers", false, Some((48000, 2)), Some(2)),
        reading("Buds", true, Some((48000, 2)), Some(2)),
    ];
    let (mode, apps, devices) = poll_audio_state(readings, vec![]);
    assert_eq!(mode, AudioMode::HandsFree);
    assert!(apps.is_empty());
    assert_eq!(devices.len(), 2);
    assert_eq!(devices[0].device.name, "Headset");
    assert_eq!(devices[1].device.name, "Buds");
    assert_eq!(devices[0].current_mode, AudioMode::HandsFree);
    assert_eq!(devices[1].current_mode, AudioMode::HandsFree);
    assert_eq!(devices[1].sample_rate, Some(48000));
    assert_eq!(devices[1].channels, Some(2));

    let mut engine = MonitorEngine::new();
    let events = engine.apply_poll(Ok((mode, apps, devices)), 10);
    assert_eq!(events.len(), 1);
    match &events[0] {
        MonitorEvent::StateUpdate { mode, devices, .. } => {
            assert_eq!(*mode, AudioMode::HandsFree);
            assert_eq!(devices.len(), 2);
            assert!(devices.iter().all(|d| d.current_mode == AudioMode::HandsFree));
        }
        other => panic!("unexpected event {:?}", other),
    }
}

#[test]
fn no_mode_change_out_of_unknown() {
    let mut engine = MonitorEngine::new();
    let modes = [AudioMode::Unknown, AudioMode::Stereo, AudioMode::HandsFree, AudioMode::HandsFree, AudioMode::Unknown, AudioMode::Stereo];
    let mut changes = Vec::new();
    for (t, m) in modes.iter().enumerate() {
        let events = engine.apply_poll(Ok((*m, vec![], vec![])), t as u64);
        for e in &events {
            if let MonitorEvent::ModeChanged { old_mode, new_mode } = e {
                changes.push((*old_mode, *new_mode));
            }
        }
        assert!(matches!(events.last(), Some(MonitorEvent::StateUpdate { .. })));
    }
    assert_eq!(
        changes,
        vec![(AudioMode::Stereo, AudioMode::HandsFree), (AudioMode::HandsFree, AudioMode::Unknown)]
    );
    assert_eq!(engine.state.last_update, 5);
}

#[test]
fn mode_change_comes_before_state_update() {
    let mut engine = MonitorEngine::new();
    engine.apply_poll(Ok((AudioMode::Stereo, vec![], vec![])), 1);
    let events = engine.apply_poll(Ok((AudioMode::HandsFree, vec![bt_mic_app(3, true)], vec![])), 2);
    assert_eq!(events.len(), 2);
    assert!(matches!(events[0], MonitorEvent::ModeChanged { old_mode: AudioMode::Stereo, new_mode: AudioMode::HandsFree }));
    assert!(matches!(events[1], MonitorEvent::StateUpdate { mode: AudioMode::HandsFree, .. }));
    assert_eq!(engine.state.mic_using_apps.len(), 1);
}

#[test]
fn failed_poll_reports_error_and_keeps_state() {
    let mut engine = MonitorEngine::new();
    engine.apply_poll(Ok((AudioMode::Stereo, vec![], vec![])), 7);
    let events = engine.apply_poll(Err("enumeration failed".to_string()), 9);
    assert_eq!(events.len(), 1);
    assert!(matches!(&events[0], MonitorEvent::Error(m) if m == "enumeration failed"));
    assert_eq!(engine.state.current_mode, AudioMode::Stereo);
    assert_eq!(engine.state.last_update, 7);
    assert_eq!(engine.last_mode, AudioMode::Stereo);
}

#[test]
fn last_update_never_goes_back() {
    let mut engine = MonitorEngine::new();
    engine.apply_poll(Ok((AudioMode::Stereo, vec![], vec![])), 50);
    engine.apply_poll(Ok((AudioMode::Stereo, vec![], vec![])), 20);
    assert_eq!(engine.state.last_update, 50);
}

#[test]
fn commands_are_dispatched() {
    let mut engine = MonitorEngine::new();
    assert_eq!(engine.dispatch(Inbox::Empty), CommandAction::Poll);
    assert_eq!(engine.dispatch(Inbox::Command(MonitorCommand::GetState)), CommandAction::Poll);
    assert_eq!(engine.dispatch(Inbox::Command(MonitorCommand::RefreshDevices)), CommandAction::Poll);
    assert_eq!(engine.dispatch(Inbox::Command(MonitorCommand::MuteApp(4))), CommandAction::MuteApp(4));
    assert_eq!(engine.dispatch(Inbox::Command(MonitorCommand::UnmuteApp(4))), CommandAction::UnmuteApp(4));
    assert_eq!(engine.dispatch(Inbox::Command(MonitorCommand::MuteAll)), CommandAction::MuteAll);
    assert!(!engine.stopped);
    assert_eq!(engine.dispatch(Inbox::Command(MonitorCommand::Shutdown)), CommandAction::Stop);
    assert!(engine.stopped);
    let mut other = MonitorEngine::new();
    assert_eq!(other.dispatch(Inbox::Disconnected), CommandAction::Stop);
    assert!(other.stopped);
}
