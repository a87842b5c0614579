//! The monitoring engine: one poll's verdict from the platform's readings,
//! the command dispatch, and the state and events each poll produces.

use vstd::prelude::*;
use crate::device::{meter_mode, mode_from_meter, AudioDevice, AudioMode, BluetoothAudioDevice};
use crate::session::{app_views, clone_apps, MicAppView, MicUsingApp};

verus! {

/// Commands accepted by the monitor.
#[derive(Debug, Clone, Copy, PartialEq, Eq, Structural)]
pub enum MonitorCommand {
    /// Request current state (served by the next poll).
    GetState,
    /// Refresh the device list (served by the next poll).
    RefreshDevices,
    /// Mute one application's capture sessions.
    MuteApp(u32),
    /// Unmute one application's capture sessions.
    UnmuteApp(u32),
    /// Mute every application holding the microphone.
    MuteAll,
    /// Stop monitoring.
    Shutdown,
}

/// Events emitted by the monitor.
#[derive(Debug, Clone)]
pub enum MonitorEvent {
    /// The state of one poll.
    StateUpdate { mode: AudioMode, mic_using_apps: Vec<MicUsingApp>, devices: Vec<BluetoothAudioDevice> },
    /// The mode differs from the previous poll's.
    ModeChanged { old_mode: AudioMode, new_mode: AudioMode },
    /// A poll or a command failed.
    Error(String),
    /// The monitor stopped.
    Shutdown,
}

/// The state snapshot that readers see; `last_update` never decreases.
#[derive(Debug)]
pub struct MonitorState {
    pub current_mode: AudioMode,
    pub mic_using_apps: Vec<MicUsingApp>,
    pub bluetooth_devices: Vec<BluetoothAudioDevice>,
    /// Time of the last successful poll, in milliseconds of a monotonic clock.
    pub last_update: u64,
}

impl Default for MonitorState {
    fn default() -> (r: Self)
        ensures
            r.current_mode == AudioMode::Unknown,
            r.mic_using_apps@.len() == 0,
            r.bluetooth_devices@.len() == 0,
            r.last_update == 0,
    {
        MonitorState {
            current_mode: AudioMode::Unknown,
            mic_using_apps: Vec::new(),
            bluetooth_devices: Vec::new(),
            last_update: 0,
        }
    }
}

/// What the platform reported for one active render endpoint in one poll.
#[derive(Debug, Clone)]
pub struct EndpointReading {
    pub endpoint: AudioDevice,
    /// Mix format (sample rate, channels), where it could be read.
    pub format: Option<(u32, u16)>,
    /// Peak-meter channel count, where it could be read.
    pub meter_channels: Option<u32>,
}

/// The readings of Bluetooth endpoints, in order.
pub open spec fn bt_readings(rs: Seq<EndpointReading>) -> Seq<EndpointReading>
    decreases rs.len(),
{
    if rs.len() == 0 {
        Seq::empty()
    } else if rs.last().endpoint.is_bluetooth {
        bt_readings(rs.drop_last()).push(rs.last())
    } else {
        bt_readings(rs.drop_last())
    }
}

/// The meter count of the first Bluetooth endpoint whose meter could be read.
pub open spec fn first_meter(rs: Seq<EndpointReading>) -> Option<u32>
    decreases rs.len(),
{
    if rs.len() == 0 {
        None
    } else {
        match first_meter(rs.drop_last()) {
            Some(c) => Some(c),
            None => if rs.last().endpoint.is_bluetooth {
                rs.last().meter_channels
            } else {
                None
            },
        }
    }
}

/// Some app uses a Bluetooth microphone.
pub open spec fn any_bt_mic(apps: Seq<MicAppView>) -> bool {
    exists|i: int| 0 <= i < apps.len() && apps[i].is_using_bluetooth_mic
}

/// The verdict of one poll: unknown without a Bluetooth render endpoint; else
/// the meter of the first one that could be read, where it gives a verdict;
/// else (no readable meter, or a count of zero) the microphone fallback.
pub open spec fn poll_mode(rs: Seq<EndpointReading>, apps: Seq<MicAppView>) -> AudioMode {
    if bt_readings(rs).len() == 0 {
        AudioMode::Unknown
    } else {
        let verdict = match first_meter(rs) {
            Some(c) => meter_mode(c),
            None => None,
        };
        match verdict {
            Some(m) => m,
            None => if any_bt_mic(apps) {
                AudioMode::HandsFree
            } else {
                AudioMode::Stereo
            },
        }
    }
}

/// The device a reading becomes, carrying the overall verdict.
pub open spec fn reading_device(r: EndpointReading, mode: AudioMode) -> BluetoothAudioDevice {
    BluetoothAudioDevice {
        device: r.endpoint,
        current_mode: mode,
        supports_stereo: true,
        supports_handsfree: true,
        sample_rate: match r.format {
            Some(f) => Some(f.0),
            None => None,
        },
        channels: match r.format {
            Some(f) => Some(f.1),
            None => None,
        },
    }
}

/// Meter count of the first Bluetooth endpoint whose meter could be read.
pub fn first_meter_reading(readings: &Vec<EndpointReading>) -> (r: Option<u32>)
    ensures
        r == first_meter(readings@),
{
    let mut i: usize = 0;
    while i < readings.len()
        invariant
            i <= readings@.len(),
            first_meter(readings@.subrange(0, i as int)) is None,
        decreases readings@.len() - i,
    {
        proof {
            assert(readings@.subrange(0, i + 1).drop_last() =~= readings@.subrange(0, i as int));
        }
        if readings[i].endpoint.is_bluetooth {
            match readings[i].meter_channels {
                Some(c) => {
                    proof {
                        lemma_first_meter_extend(readings@, i as int + 1);
                    }
                    return Some(c);
                },
                None => {},
            }
        }
        i += 1;
    }
    proof {
        assert(readings@.subrange(0, readings@.len() as int) =~= readings@);
    }
    None
}

proof fn lemma_first_meter_extend(rs: Seq<EndpointReading>, n: int)
    requires
        0 <= n <= rs.len(),
        first_meter(rs.subrange(0, n)) is Some,
    ensures
        first_meter(rs) == first_meter(rs.subrange(0, n)),
    decreases rs.len() - n,
{
    if n < rs.len() {
        assert(rs.subrange(0, n + 1).drop_last() =~= rs.subrange(0, n));
        lemma_first_meter_extend(rs, n + 1);
    } else {
        assert(rs.subrange(0, n) =~= rs);
    }
}

/// Whether some app uses a Bluetooth microphone.
pub fn bluetooth_mic_in_use(apps: &Vec<MicUsingApp>) -> (r: bool)
    ensures
        r == any_bt_mic(app_views(apps@)),
{
    let mut i: usize = 0;
    while i < apps.len()
        invariant
            i <= apps@.len(),
            forall|k: int| 0 <= k < i ==> !apps@[k].is_using_bluetooth_mic,
        decreases apps@.len() - i,
    {
        if apps[i].is_using_bluetooth_mic {
            assert(app_views(apps@)[i as int].is_using_bluetooth_mic);
            return true;
        }
        i += 1;
    }
    false
}

/// The overall mode of one poll from the render readings and the microphone users.
pub fn detect_overall_mode(readings: &Vec<EndpointReading>, mic_apps: &Vec<MicUsingApp>) -> (r:
    AudioMode)
    ensures
        r == poll_mode(readings@, app_views(mic_apps@)),
{
    let mut any_bt = false;
    let mut i: usize = 0;
    while i < readings.len()
        invariant
            i <= readings@.len(),
            any_bt == (bt_readings(readings@.subrange(0, i as int)).len() > 0),
        decreases readings@.len() - i,
    {
        proof {
            assert(readings@.subrange(0, i + 1).drop_last() =~= readings@.subrange(0, i as int));
        }
        if readings[i].endpoint.is_bluetooth {
            any_bt = true;
        }
        i += 1;
    }
    proof {
        assert(readings@.subrange(0, readings@.len() as int) =~= readings@);
    }
    if !any_bt {
        return AudioMode::Unknown;
    }
    let verdict = match first_meter_reading(readings) {
        Some(c) => mode_from_meter(c),
        None => None,
    };
    match verdict {
        Some(m) => m,
        None => if bluetooth_mic_in_use(mic_apps) {
            AudioMode::HandsFree
        } else {
            AudioMode::Stereo
        },
    }
}

/// One poll: the overall mode, the microphone users, and the Bluetooth render
/// devices, each device's `current_mode` overwritten with the overall mode.
pub fn poll_audio_state(readings: Vec<EndpointReading>, mic_apps: Vec<MicUsingApp>) -> (r: (
    AudioMode,
    Vec<MicUsingApp>,
    Vec<BluetoothAudioDevice>,
))
    ensures
        r.0 == poll_mode(readings@, app_views(mic_apps@)),
        r.1@ == mic_apps@,
        r.2@ == bt_readings(readings@).map_values(|d: EndpointReading| reading_device(d, r.0)),
{
    let mode = detect_overall_mode(&readings, &mic_apps);
    let ghost rs = readings@;
    let mut rest = readings;
    let mut devices: Vec<BluetoothAudioDevice> = Vec::new();
    let mut i: usize = 0;
    let n = rest.len();
    proof {
        assert(rs.subrange(0, 0) =~= Seq::<EndpointReading>::empty());
        assert(devices@ =~= bt_readings(rs.subrange(0, 0)).map_values(
            |d: EndpointReading| reading_device(d, mode),
        ));
    }
    while i < n
        invariant
            n == rs.len(),
            i <= n,
            rest@ == rs.subrange(i as int, n as int),
            devices@ == bt_readings(rs.subrange(0, i as int)).map_values(
                |d: EndpointReading| reading_device(d, mode),
            ),
        decreases n - i,
    {
        let ghost before = rest@;
        let r = rest.remove(0);
        proof {
            assert(r == rs[i as int]);
            assert(rest@ =~= rs.subrange(i + 1, n as int));
            assert(rs.subrange(0, i + 1).drop_last() =~= rs.subrange(0, i as int));
        }
        if r.endpoint.is_bluetooth {
            let (sample_rate, channels) = match r.format {
                Some(f) => (Some(f.0), Some(f.1)),
                None => (None, None),
            };
            let d = BluetoothAudioDevice {
                device: r.endpoint,
                current_mode: mode,
                supports_stereo: true,
                supports_handsfree: true,
                sample_rate,
                channels,
            };
            let ghost prev = devices@;
            devices.push(d);
            proof {
                assert(devices@ =~= bt_readings(rs.subrange(0, i + 1)).map_values(
                    |d: EndpointReading| reading_device(d, mode),
                ));
            }
        } else {
            proof {
                assert(devices@ =~= bt_readings(rs.subrange(0, i + 1)).map_values(
                    |d: EndpointReading| reading_device(d, mode),
                ));
            }
        }
        i += 1;
    }
    proof {
        assert(rs.subrange(0, n as int) =~= rs);
    }
    (mode, mic_apps, devices)
}

/// A copy of a device.
pub fn clone_device(d: &BluetoothAudioDevice) -> (r: BluetoothAudioDevice)
    ensures
        r == *d,
{
    BluetoothAudioDevice {
        device: AudioDevice {
            id: d.device.id.clone(),
            name: d.device.name.clone(),
            is_bluetooth: d.device.is_bluetooth,
        },
        current_mode: d.current_mode,
        supports_stereo: d.supports_stereo,
        supports_handsfree: d.supports_handsfree,
        sample_rate: d.sample_rate,
        channels: d.channels,
    }
}

/// A copy of a list of devices.
pub fn clone_devices(v: &Vec<BluetoothAudioDevice>) -> (r: Vec<BluetoothAudioDevice>)
    ensures
        r@ == v@,
{
    let mut r: Vec<BluetoothAudioDevice> = Vec::new();
    let mut i: usize = 0;
    while i < v.len()
        invariant
            i <= v@.len(),
            r@ == v@.subrange(0, i as int),
        decreases v@.len() - i,
    {
        let d = clone_device(&v[i]);
        r.push(d);
        proof {
            assert(r@ =~= v@.subrange(0, i + 1));
        }
        i += 1;
    }
    proof {
        assert(v@.subrange(0, v@.len() as int) =~= v@);
    }
    r
}

/// What the monitor found in its inbox at the start of an iteration.
#[derive(Debug, Clone, Copy, PartialEq, Eq, Structural)]
pub enum Inbox {
    Command(MonitorCommand),
    Empty,
    /// Every sender is gone.
    Disconnected,
}

/// What the polling loop does with what it found, before its regular poll.
#[derive(Debug, Clone, Copy, PartialEq, Eq, Structural)]
pub enum CommandAction {
    /// Nothing beyond the regular poll.
    Poll,
    MuteApp(u32),
    UnmuteApp(u32),
    MuteAll,
    /// Emit `Shutdown` and leave the loop.
    Stop,
}

/// The dispatch rule of the polling loop.
pub open spec fn action_for(received: Inbox) -> CommandAction {
    match received {
        Inbox::Command(MonitorCommand::MuteApp(pid)) => CommandAction::MuteApp(pid),
        Inbox::Command(MonitorCommand::UnmuteApp(pid)) => CommandAction::UnmuteApp(pid),
        Inbox::Command(MonitorCommand::MuteAll) => CommandAction::MuteAll,
        Inbox::Command(MonitorCommand::Shutdown) => CommandAction::Stop,
        Inbox::Disconnected => CommandAction::Stop,
        _ => CommandAction::Poll,
    }
}

/// The transition a poll reports: from the previous mode to the new one,
/// where they differ and the previous one was known.
pub open spec fn mode_change(prev: AudioMode, next: AudioMode) -> Option<(AudioMode, AudioMode)> {
    if next != prev && prev != AudioMode::Unknown {
        Some((prev, next))
    } else {
        None
    }
}

/// The transitions reported over a run of successful polls with the given
/// verdicts, in order (a failed poll changes neither the state nor the
/// previous verdict).
pub open spec fn reported_changes(start: AudioMode, modes: Seq<AudioMode>) -> Seq<(AudioMode, AudioMode)>
    decreases modes.len(),
{
    if modes.len() == 0 {
        Seq::empty()
    } else {
        let prev = if modes.len() == 1 { start } else { modes[modes.len() - 2] };
        let earlier = reported_changes(start, modes.drop_last());
        match mode_change(prev, modes.last()) {
            Some(c) => earlier.push(c),
            None => earlier,
        }
    }
}

/// A run of polls that starts from the initial `Unknown` state never reports
/// a transition out of `Unknown`, and its first poll reports none at all.
pub proof fn lemma_no_change_from_unknown(modes: Seq<AudioMode>)
    ensures
        forall|i: int|
            0 <= i < reported_changes(AudioMode::Unknown, modes).len() ==> (#[trigger] reported_changes(
                AudioMode::Unknown,
                modes,
            )[i]).0 != AudioMode::Unknown,
        modes.len() == 1 ==> reported_changes(AudioMode::Unknown, modes).len() == 0,
    decreases modes.len(),
{
    if modes.len() > 0 {
        lemma_no_change_from_unknown(modes.drop_last());
        let earlier = reported_changes(AudioMode::Unknown, modes.drop_last());
        assert forall|i: int| 0 <= i < earlier.len() implies (#[trigger] earlier[i]).0 != AudioMode::Unknown by {
        }
    }
}

/// The polling loop's decisions: its last verdict and the published state.
pub struct MonitorEngine {
    pub last_mode: AudioMode,
    pub state: MonitorState,
    pub stopped: bool,
}

impl MonitorEngine {
    /// An engine before its first poll.
    pub fn new() -> (r: Self)
        ensures
            r.last_mode == AudioMode::Unknown,
            r.state.current_mode == AudioMode::Unknown,
            r.state.mic_using_apps@.len() == 0,
            r.state.bluetooth_devices@.len() == 0,
            r.state.last_update == 0,
            !r.stopped,
    {
        MonitorEngine { last_mode: AudioMode::Unknown, state: MonitorState::default(), stopped: false }
    }

    /// Decides what to do with what the inbox held; a shutdown command or a
    /// disconnected inbox stops the engine.
    pub fn dispatch(&mut self, received: Inbox) -> (r: CommandAction)
        ensures
            r == action_for(received),
            final(self).stopped == (old(self).stopped || r == CommandAction::Stop),
            final(self).last_mode == old(self).last_mode,
            final(self).state == old(self).state,
    {
        let r = match received {
            Inbox::Command(MonitorCommand::MuteApp(pid)) => CommandAction::MuteApp(pid),
            Inbox::Command(MonitorCommand::UnmuteApp(pid)) => CommandAction::UnmuteApp(pid),
            Inbox::Command(MonitorCommand::MuteAll) => CommandAction::MuteAll,
            Inbox::Command(MonitorCommand::Shutdown) => CommandAction::Stop,
            Inbox::Disconnected => CommandAction::Stop,
            _ => CommandAction::Poll,
        };
        if r == CommandAction::Stop {
            self.stopped = true;
        }
        r
    }

    /// Publishes one poll's outcome and returns the events it raises, in order:
    /// a `ModeChanged` where `mode_change` reports one, then the `StateUpdate`.
    /// A failed poll raises one `Error` and leaves the state as it was.
    pub fn apply_poll(
        &mut self,
        outcome: Result<(AudioMode, Vec<MicUsingApp>, Vec<BluetoothAudioDevice>), String>,
        now: u64,
    ) -> (r: Vec<MonitorEvent>)
        ensures
            final(self).stopped == old(self).stopped,
            final(self).state.last_update >= old(self).state.last_update,
            match outcome {
                Ok((mode, apps, devs)) => {
                    &&& final(self).last_mode == mode
                    &&& final(self).state.current_mode == mode
                    &&& app_views(final(self).state.mic_using_apps@) == app_views(apps@)
                    &&& final(self).state.bluetooth_devices@ == devs@
                    &&& final(self).state.last_update == (if now > old(self).state.last_update {
                        now
                    } else {
                        old(self).state.last_update
                    })
                    &&& r@.len() == (if mode_change(old(self).last_mode, mode) is Some { 2int } else { 1int })
                    &&& (mode_change(old(self).last_mode, mode) is Some ==> r@[0] == (MonitorEvent::ModeChanged {
                        old_mode: old(self).last_mode,
                        new_mode: mode,
                    }))
                    &&& (r@.last() matches MonitorEvent::StateUpdate { mode: m, mic_using_apps: a, devices: d }
                        && m == mode && app_views(a@) == app_views(apps@) && d@ == devs@)
                },
                Err(msg) => {
                    &&& final(self).last_mode == old(self).last_mode
                    &&& final(self).state == old(self).state
                    &&& r@ == seq![MonitorEvent::Error(msg)]
                },
            },
    {
        let mut events: Vec<MonitorEvent> = Vec::new();
        match outcome {
            Ok((mode, apps, devs)) => {
                let last_update = if now > self.state.last_update {
                    now
                } else {
                    self.state.last_update
                };
                let apps_copy = clone_apps(&apps);
                let devs_copy = clone_devices(&devs);
                self.state = MonitorState {
                    current_mode: mode,
                    mic_using_apps: apps,
                    bluetooth_devices: devs,
                    last_update,
                };
                if mode != self.last_mode && self.last_mode != AudioMode::Unknown {
                    events.push(MonitorEvent::ModeChanged { old_mode: self.last_mode, new_mode: mode });
                }
                self.last_mode = mode;
                events.push(
                    MonitorEvent::StateUpdate { mode, mic_using_apps: apps_copy, devices: devs_copy },
                );
            },
            Err(msg) => {
                events.push(MonitorEvent::Error(msg));
            },
        }
        events
    }
}

} // verus!
