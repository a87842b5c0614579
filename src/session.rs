//! Audio sessions: which applications hold the microphone, which play to a
//! Bluetooth endpoint, and which sessions a mute request reaches.

use vstd::prelude::*;
use crate::device::AudioDevice;
use crate::text::{decimal_of, decimal_string};

verus! {

/// An application with an active capture session.
#[derive(Debug, Clone)]
pub struct MicUsingApp {
    pub process_id: u32,
    pub process_name: String,
    pub display_name: String,
    pub icon_path: Option<String>,
    pub is_muted: bool,
    /// Whether one of its capture sessions is on a Bluetooth endpoint.
    pub is_using_bluetooth_mic: bool,
}

/// The value of a `MicUsingApp`, with its strings as character sequences.
pub struct MicAppView {
    pub process_id: u32,
    pub process_name: Seq<char>,
    pub display_name: Seq<char>,
    pub icon_path: Option<Seq<char>>,
    pub is_muted: bool,
    pub is_using_bluetooth_mic: bool,
}

/// The view of an optional string.
pub open spec fn opt_view(o: Option<String>) -> Option<Seq<char>> {
    match o {
        Some(s) => Some(s@),
        None => None,
    }
}

impl View for MicUsingApp {
    type V = MicAppView;

    open spec fn view(&self) -> MicAppView {
        MicAppView {
            process_id: self.process_id,
            process_name: self.process_name@,
            display_name: self.display_name@,
            icon_path: opt_view(self.icon_path),
            is_muted: self.is_muted,
            is_using_bluetooth_mic: self.is_using_bluetooth_mic,
        }
    }
}

/// The views of a sequence of apps.
pub open spec fn app_views(s: Seq<MicUsingApp>) -> Seq<MicAppView> {
    s.map_values(|a: MicUsingApp| a@)
}

/// No process id occurs twice.
pub open spec fn unique_pids(s: Seq<MicAppView>) -> bool {
    forall|i: int, j: int|
        0 <= i < s.len() && 0 <= j < s.len() && i != j ==> s[i].process_id != s[j].process_id
}

impl MicUsingApp {
    /// An unmuted app with no icon, not yet seen on a Bluetooth microphone.
    pub fn new(process_id: u32, process_name: String, display_name: String) -> (r: Self)
        ensures
            r.process_id == process_id,
            r.process_name == process_name,
            r.display_name == display_name,
            r.icon_path is None,
            !r.is_muted,
            !r.is_using_bluetooth_mic,
    {
        MicUsingApp {
            process_id,
            process_name,
            display_name,
            icon_path: None,
            is_muted: false,
            is_using_bluetooth_mic: false,
        }
    }
}

/// An application with an active session on a Bluetooth render endpoint.
#[derive(Debug, Clone)]
pub struct HfpUsingApp {
    pub process_id: u32,
    pub process_name: String,
    pub display_name: String,
}

/// The value of an `HfpUsingApp`.
pub struct HfpAppView {
    pub process_id: u32,
    pub process_name: Seq<char>,
    pub display_name: Seq<char>,
}

impl View for HfpUsingApp {
    type V = HfpAppView;

    open spec fn view(&self) -> HfpAppView {
        HfpAppView {
            process_id: self.process_id,
            process_name: self.process_name@,
            display_name: self.display_name@,
        }
    }
}

impl HfpUsingApp {
    pub fn new(process_id: u32, process_name: String, display_name: String) -> (r: Self)
        ensures
            r.process_id == process_id,
            r.process_name == process_name,
            r.display_name == display_name,
    {
        HfpUsingApp { process_id, process_name, display_name }
    }
}

/// One audio session as the platform reports it.
#[derive(Debug, Clone)]
pub struct SessionInfo {
    pub process_id: u32,
    pub display_name: String,
    /// The executable's name, where the process list still has the process.
    pub process_name: Option<String>,
    pub icon_path: Option<String>,
    pub is_active: bool,
    pub is_muted: bool,
}

/// The sessions of one endpoint.
#[derive(Debug, Clone)]
pub struct EndpointSessions {
    pub endpoint: AudioDevice,
    pub sessions: Vec<SessionInfo>,
}

/// Why a session operation could not be carried out.
#[derive(Debug, Clone, Copy, PartialEq, Eq, Structural)]
pub enum SessionError {
    /// No active session of this process on any endpoint searched.
    SessionNotFound(u32),
}

/// The name shown for a process: its executable name, else `PID <n>`.
pub open spec fn process_label(pid: u32, name: Option<String>) -> Seq<char> {
    match name {
        Some(n) => n@,
        None => "PID "@ + decimal_of(pid as nat),
    }
}

/// A session that counts as usage: active, and not the system's (id 0).
pub open spec fn counts(s: SessionInfo) -> bool {
    s.is_active && s.process_id != 0
}

/// The display name of a session, falling back to the process label.
pub open spec fn shown_name(s: SessionInfo) -> Seq<char> {
    if s.display_name@.len() == 0 {
        process_label(s.process_id, s.process_name)
    } else {
        s.display_name@
    }
}

/// The app a counted capture session reports.
pub open spec fn session_app(s: SessionInfo) -> MicAppView {
    MicAppView {
        process_id: s.process_id,
        process_name: process_label(s.process_id, s.process_name),
        display_name: shown_name(s),
        icon_path: opt_view(s.icon_path),
        is_muted: s.is_muted,
        is_using_bluetooth_mic: false,
    }
}

/// The apps that the counted sessions of one endpoint report, in order.
pub open spec fn session_apps(s: Seq<SessionInfo>) -> Seq<MicAppView>
    decreases s.len(),
{
    if s.len() == 0 {
        Seq::empty()
    } else {
        let prev = session_apps(s.drop_last());
        if counts(s.last()) {
            prev.push(session_app(s.last()))
        } else {
            prev
        }
    }
}

/// Some app of `all` has this process id.
pub open spec fn has_pid(all: Seq<MicAppView>, pid: u32) -> bool {
    exists|j: int| 0 <= j < all.len() && all[j].process_id == pid
}

/// Adds one app found on an endpoint: a new process is appended with the
/// endpoint's Bluetooth flag; a known one only gains the flag.
pub open spec fn merge_app(all: Seq<MicAppView>, a: MicAppView, bt: bool) -> Seq<MicAppView> {
    if has_pid(all, a.process_id) {
        all.map_values(
            |x: MicAppView|
                if x.process_id == a.process_id && bt {
                    MicAppView { is_using_bluetooth_mic: true, ..x }
                } else {
                    x
                },
        )
    } else {
        all.push(MicAppView { is_using_bluetooth_mic: bt, ..a })
    }
}

/// Adds the apps of one endpoint, in order.
pub open spec fn merge_apps(all: Seq<MicAppView>, apps: Seq<MicAppView>, bt: bool) -> Seq<
    MicAppView,
>
    decreases apps.len(),
{
    if apps.len() == 0 {
        all
    } else {
        merge_app(merge_apps(all, apps.drop_last(), bt), apps.last(), bt)
    }
}

/// The deduplicated microphone users over a sequence of capture endpoints.
pub open spec fn scanned_mic_apps(eps: Seq<EndpointSessions>) -> Seq<MicAppView>
    decreases eps.len(),
{
    if eps.len() == 0 {
        Seq::empty()
    } else {
        merge_apps(
            scanned_mic_apps(eps.drop_last()),
            session_apps(eps.last().sessions@),
            eps.last().endpoint.is_bluetooth,
        )
    }
}

/// The label of a process: its name where known, else `PID <n>`.
pub fn process_label_of(pid: u32, name: &Option<String>) -> (r: String)
    ensures
        r@ == process_label(pid, *name),
{
    match name {
        Some(n) => n.clone(),
        None => {
            let d = decimal_string(pid);
            String::from_str("PID ").concat(d.as_str())
        },
    }
}

pub(crate) fn clone_opt(o: &Option<String>) -> (r: Option<String>)
    ensures
        opt_view(r) == opt_view(*o),
{
    match o {
        Some(s) => Some(s.clone()),
        None => None,
    }
}

/// A copy of an app.
pub fn clone_app(a: &MicUsingApp) -> (r: MicUsingApp)
    ensures
        r@ == a@,
{
    MicUsingApp {
        process_id: a.process_id,
        process_name: a.process_name.clone(),
        display_name: a.display_name.clone(),
        icon_path: clone_opt(&a.icon_path),
        is_muted: a.is_muted,
        is_using_bluetooth_mic: a.is_using_bluetooth_mic,
    }
}

/// A copy of a list of apps.
pub fn clone_apps(v: &Vec<MicUsingApp>) -> (r: Vec<MicUsingApp>)
    ensures
        app_views(r@) == app_views(v@),
{
    let mut r: Vec<MicUsingApp> = Vec::new();
    let mut i: usize = 0;
    while i < v.len()
        invariant
            i <= v@.len(),
            app_views(r@) == app_views(v@.subrange(0, i as int)),
        decreases v@.len() - i,
    {
        let a = clone_app(&v[i]);
        let ghost prev = r@;
        r.push(a);
        proof {
            assert(app_views(r@) =~= app_views(prev).push(a@));
            assert(app_views(v@.subrange(0, i + 1)) =~= app_views(v@.subrange(0, i as int)).push(
                v@[i as int]@,
            ));
            assert(app_views(r@) =~= app_views(v@.subrange(0, i + 1)));
        }
        i += 1;
    }
    proof {
        assert(v@.subrange(0, v@.len() as int) =~= v@);
    }
    r
}

/// The apps behind the counted sessions of one capture endpoint, in session
/// order; none is yet marked as using a Bluetooth microphone.
pub fn mic_apps_of_sessions(sessions: &Vec<SessionInfo>) -> (r: Vec<MicUsingApp>)
    ensures
        app_views(r@) == session_apps(sessions@),
{
    let mut r: Vec<MicUsingApp> = Vec::new();
    let mut i: usize = 0;
    while i < sessions.len()
        invariant
            i <= sessions@.len(),
            app_views(r@) == session_apps(sessions@.subrange(0, i as int)),
        decreases sessions@.len() - i,
    {
        let s = &sessions[i];
        proof {
            assert(sessions@.subrange(0, i + 1).drop_last() =~= sessions@.subrange(0, i as int));
        }
        if s.is_active && s.process_id != 0 {
            let process_name = process_label_of(s.process_id, &s.process_name);
            let display_name = if s.display_name.unicode_len() == 0 {
                process_label_of(s.process_id, &s.process_name)
            } else {
                s.display_name.clone()
            };
            let app = MicUsingApp {
                process_id: s.process_id,
                process_name,
                display_name,
                icon_path: clone_opt(&s.icon_path),
                is_muted: s.is_muted,
                is_using_bluetooth_mic: false,
            };
            let ghost prev = r@;
            r.push(app);
            proof {
                assert(app_views(r@) =~= app_views(prev).push(app@));
                assert(app@ == session_app(sessions@[i as int]));
            }
        }
        i += 1;
    }
    proof {
        assert(sessions@.subrange(0, sessions@.len() as int) =~= sessions@);
    }
    r
}

/// Adds one app found on an endpoint to the running list.
fn merge_into(all: &mut Vec<MicUsingApp>, app: MicUsingApp, bt: bool)
    requires
        unique_pids(app_views(old(all)@)),
    ensures
        app_views(final(all)@) == merge_app(app_views(old(all)@), app@, bt),
        unique_pids(app_views(final(all)@)),
{
    let ghost old_v = app_views(all@);
    let mut j: usize = 0;
    while j < all.len()
        invariant
            j <= all@.len(),
            all@ == old(all)@,
            old_v == app_views(old(all)@),
            old_v.len() == all@.len(),
            unique_pids(old_v),
            forall|k: int| 0 <= k < j ==> all@[k].process_id != app.process_id,
        decreases all@.len() - j,
    {
        if all[j].process_id == app.process_id {
            proof {
                assert(has_pid(old_v, app.process_id)) by {
                    assert(old_v[j as int].process_id == app.process_id);
                }
            }
            proof {
                assert forall|k: int| 0 <= k < old_v.len() && k != j implies old_v[k].process_id
                    != app.process_id by {
                    assert(old_v[k].process_id != old_v[j as int].process_id);
                }
            }
            if bt {
                all[j].is_using_bluetooth_mic = true;
                proof {
                    assert forall|k: int| 0 <= k < all@.len() implies #[trigger] app_views(
                        all@,
                    )[k] == merge_app(old_v, app@, bt)[k] by {
                        if k != j {
                            assert(all@[k] == old(all)@[k]);
                        }
                    }
                    assert(app_views(all@) =~= merge_app(old_v, app@, bt));
                    assert forall|k: int| 0 <= k < all@.len() implies #[trigger] app_views(
                        all@,
                    )[k].process_id == old_v[k].process_id by {
                        if k != j {
                            assert(all@[k] == old(all)@[k]);
                        }
                    }
                }
            } else {
                proof {
                    assert(app_views(all@) =~= merge_app(old_v, app@, bt));
                }
            }
            return;
        }
        j += 1;
    }
    proof {
        assert(!has_pid(old_v, app.process_id));
    }
    let mut a = app;
    a.is_using_bluetooth_mic = bt;
    all.push(a);
    proof {
        assert(app_views(all@) =~= merge_app(old_v, app@, bt));
    }
}

/// Scans every capture endpoint for applications holding the microphone.
/// The first occurrence of a process is kept; a later one on a Bluetooth
/// endpoint only sets its Bluetooth flag.
pub fn get_all_mic_using_apps(endpoints: &Vec<EndpointSessions>) -> (r: Vec<MicUsingApp>)
    ensures
        app_views(r@) == scanned_mic_apps(endpoints@),
        unique_pids(app_views(r@)),
{
    let mut all: Vec<MicUsingApp> = Vec::new();
    let mut e: usize = 0;
    proof {
        assert(app_views(all@) =~= Seq::<MicAppView>::empty());
    }
    while e < endpoints.len()
        invariant
            e <= endpoints@.len(),
            app_views(all@) == scanned_mic_apps(endpoints@.subrange(0, e as int)),
            unique_pids(app_views(all@)),
        decreases endpoints@.len() - e,
    {
        let ep = &endpoints[e];
        let bt = ep.endpoint.is_bluetooth;
        let mut apps = mic_apps_of_sessions(&ep.sessions);
        let ghost apps_v = app_views(apps@);
        let ghost base = app_views(all@);
        // take the endpoint's apps from the front, in order
        let mut taken: usize = 0;
        let n = apps.len();
        proof {
            assert(apps_v.subrange(0, 0) =~= Seq::<MicAppView>::empty());
        }
        while taken < n
            invariant
                n == apps_v.len(),
                taken <= n,
                app_views(apps@) == apps_v.subrange(taken as int, n as int),
                app_views(all@) == merge_apps(base, apps_v.subrange(0, taken as int), bt),
                unique_pids(app_views(all@)),
            decreases n - taken,
        {
            proof {
                assert(app_views(apps@).len() == apps@.len());
                assert(app_views(apps@)[0] == apps@[0]@);
                assert(apps_v.subrange(taken as int, n as int)[0] == apps_v[taken as int]);
            }
            let ghost before = apps@;
            let a = apps.remove(0);
            proof {
                assert(a@ == apps_v[taken as int]);
                assert(apps@ =~= before.subrange(1, before.len() as int));
                assert forall|k: int| 0 <= k < apps@.len() implies #[trigger] app_views(apps@)[k]
                    == apps_v.subrange(taken + 1, n as int)[k] by {
                    assert(apps@[k] == before[k + 1]);
                    assert(app_views(before)[k + 1] == before[k + 1]@);
                }
                assert(app_views(apps@) =~= apps_v.subrange(taken + 1, n as int));
                assert(apps_v.subrange(0, taken + 1).drop_last() =~= apps_v.subrange(0, taken as int));
            }
            merge_into(&mut all, a, bt);
            taken += 1;
        }
        proof {
            assert(apps_v.subrange(0, n as int) =~= apps_v);
            assert(endpoints@.subrange(0, e + 1).drop_last() =~= endpoints@.subrange(0, e as int));
        }
        e += 1;
    }
    proof {
        assert(endpoints@.subrange(0, endpoints@.len() as int) =~= endpoints@);
    }
    all
}

/// The views of a sequence of output apps.
pub open spec fn hfp_views(s: Seq<HfpUsingApp>) -> Seq<HfpAppView> {
    s.map_values(|a: HfpUsingApp| a@)
}

/// The app a counted render session reports.
pub open spec fn output_app(s: SessionInfo) -> HfpAppView {
    HfpAppView {
        process_id: s.process_id,
        process_name: process_label(s.process_id, s.process_name),
        display_name: shown_name(s),
    }
}

/// Some output app of `acc` has this process id.
pub open spec fn has_output_pid(acc: Seq<HfpAppView>, pid: u32) -> bool {
    exists|j: int| 0 <= j < acc.len() && acc[j].process_id == pid
}

/// Adds the counted sessions of one render endpoint; a process already listed
/// is not listed again.
pub open spec fn add_output_sessions(acc: Seq<HfpAppView>, s: Seq<SessionInfo>) -> Seq<HfpAppView>
    decreases s.len(),
{
    if s.len() == 0 {
        acc
    } else {
        let prev = add_output_sessions(acc, s.drop_last());
        if counts(s.last()) && !has_output_pid(prev, s.last().process_id) {
            prev.push(output_app(s.last()))
        } else {
            prev
        }
    }
}

/// The applications playing to a Bluetooth render endpoint, first occurrence kept.
pub open spec fn scanned_output_apps(eps: Seq<EndpointSessions>) -> Seq<HfpAppView>
    decreases eps.len(),
{
    if eps.len() == 0 {
        Seq::empty()
    } else {
        let prev = scanned_output_apps(eps.drop_last());
        if eps.last().endpoint.is_bluetooth {
            add_output_sessions(prev, eps.last().sessions@)
        } else {
            prev
        }
    }
}

fn output_pid_listed(acc: &Vec<HfpUsingApp>, pid: u32) -> (r: bool)
    ensures
        r == has_output_pid(hfp_views(acc@), pid),
{
    let mut j: usize = 0;
    while j < acc.len()
        invariant
            j <= acc@.len(),
            forall|k: int| 0 <= k < j ==> acc@[k].process_id != pid,
        decreases acc@.len() - j,
    {
        if acc[j].process_id == pid {
            assert(hfp_views(acc@)[j as int].process_id == pid);
            return true;
        }
        j += 1;
    }
    false
}

/// Scans every Bluetooth render endpoint for applications with an active
/// session: these may have brought the headset into hands-free mode.
pub fn get_apps_using_bluetooth_output(endpoints: &Vec<EndpointSessions>) -> (r: Vec<HfpUsingApp>)
    ensures
        hfp_views(r@) == scanned_output_apps(endpoints@),
{
    let mut acc: Vec<HfpUsingApp> = Vec::new();
    let mut e: usize = 0;
    proof {
        assert(hfp_views(acc@) =~= Seq::<HfpAppView>::empty());
    }
    while e < endpoints.len()
        invariant
            e <= endpoints@.len(),
            hfp_views(acc@) == scanned_output_apps(endpoints@.subrange(0, e as int)),
        decreases endpoints@.len() - e,
    {
        let ep = &endpoints[e];
        proof {
            assert(endpoints@.subrange(0, e + 1).drop_last() =~= endpoints@.subrange(0, e as int));
        }
        if ep.endpoint.is_bluetooth {
            let ghost base = hfp_views(acc@);
            let mut i: usize = 0;
            while i < ep.sessions.len()
                invariant
                    i <= ep.sessions@.len(),
                    hfp_views(acc@) == add_output_sessions(base, ep.sessions@.subrange(0, i as int)),
                decreases ep.sessions@.len() - i,
            {
                let s = &ep.sessions[i];
                proof {
                    assert(ep.sessions@.subrange(0, i + 1).drop_last() =~= ep.sessions@.subrange(
                        0,
                        i as int,
                    ));
                }
                if s.is_active && s.process_id != 0 && !output_pid_listed(&acc, s.process_id) {
                    let process_name = process_label_of(s.process_id, &s.process_name);
                    let display_name = if s.display_name.unicode_len() == 0 {
                        process_label_of(s.process_id, &s.process_name)
                    } else {
                        s.display_name.clone()
                    };
                    let app = HfpUsingApp::new(s.process_id, process_name, display_name);
                    let ghost prev = acc@;
                    acc.push(app);
                    proof {
                        assert(hfp_views(acc@) =~= hfp_views(prev).push(app@));
                    }
                }
                i += 1;
            }
            proof {
                assert(ep.sessions@.subrange(0, ep.sessions@.len() as int) =~= ep.sessions@);
            }
        }
        e += 1;
    }
    proof {
        assert(endpoints@.subrange(0, endpoints@.len() as int) =~= endpoints@);
    }
    acc
}

/// A session that a request for `pid` reaches: active and of that process.
pub open spec fn targets_pid(s: SessionInfo, pid: u32) -> bool {
    s.is_active && s.process_id == pid
}

/// The sessions of endpoint `e` that a request for `pid` reaches, as
/// (endpoint, session) pairs in session order.
pub open spec fn matching_sessions(s: Seq<SessionInfo>, e: usize, pid: u32) -> Seq<(usize, usize)>
    decreases s.len(),
{
    if s.len() == 0 {
        Seq::empty()
    } else {
        let prev = matching_sessions(s.drop_last(), e, pid);
        if targets_pid(s.last(), pid) {
            prev.push((e, (s.len() - 1) as usize))
        } else {
            prev
        }
    }
}

/// The (endpoint, session) pairs that a mute or unmute of `pid` acts on:
/// every active session of that process on every endpoint, in order.
pub open spec fn pid_targets(eps: Seq<EndpointSessions>, pid: u32) -> Seq<(usize, usize)>
    decreases eps.len(),
{
    if eps.len() == 0 {
        Seq::empty()
    } else {
        pid_targets(eps.drop_last(), pid) + matching_sessions(
            eps.last().sessions@,
            (eps.len() - 1) as usize,
            pid,
        )
    }
}

/// The (endpoint, session) pairs that muting every application acts on:
/// every counted session, endpoints in order.
pub open spec fn all_targets(eps: Seq<EndpointSessions>) -> Seq<(usize, usize)>
    decreases eps.len(),
{
    if eps.len() == 0 {
        Seq::empty()
    } else {
        all_targets(eps.drop_last()) + counted_sessions(eps.last().sessions@, (eps.len() - 1) as usize)
    }
}

/// The counted sessions of endpoint `e`, as (endpoint, session) pairs.
pub open spec fn counted_sessions(s: Seq<SessionInfo>, e: usize) -> Seq<(usize, usize)>
    decreases s.len(),
{
    if s.len() == 0 {
        Seq::empty()
    } else {
        let prev = counted_sessions(s.drop_last(), e);
        if counts(s.last()) {
            prev.push((e, (s.len() - 1) as usize))
        } else {
            prev
        }
    }
}

/// Where a mute or unmute of `pid` must act: every active session of it on
/// every capture endpoint; an error exactly where there is none.
pub fn pid_session_targets(endpoints: &Vec<EndpointSessions>, pid: u32) -> (r: Result<
    Vec<(usize, usize)>,
    SessionError,
>)
    ensures
        pid_targets(endpoints@, pid).len() == 0 ==> r == Err::<Vec<(usize, usize)>, SessionError>(
            SessionError::SessionNotFound(pid),
        ),
        pid_targets(endpoints@, pid).len() > 0 ==> (r matches Ok(v) && v@ == pid_targets(
            endpoints@,
            pid,
        )),
{
    let mut out: Vec<(usize, usize)> = Vec::new();
    let mut e: usize = 0;
    while e < endpoints.len()
        invariant
            e <= endpoints@.len(),
            out@ == pid_targets(endpoints@.subrange(0, e as int), pid),
        decreases endpoints@.len() - e,
    {
        proof {
            assert(endpoints@.subrange(0, e + 1).drop_last() =~= endpoints@.subrange(0, e as int));
        }
        let sessions = &endpoints[e].sessions;
        let ghost base = out@;
        let mut i: usize = 0;
        proof {
            assert(base + matching_sessions(sessions@.subrange(0, 0), e, pid) =~= base);
        }
        while i < sessions.len()
            invariant
                i <= sessions@.len(),
                out@ == base + matching_sessions(sessions@.subrange(0, i as int), e, pid),
            decreases sessions@.len() - i,
        {
            proof {
                assert(sessions@.subrange(0, i + 1).drop_last() =~= sessions@.subrange(0, i as int));
            }
            if sessions[i].is_active && sessions[i].process_id == pid {
                out.push((e, i));
                proof {
                    assert(out@ =~= base + matching_sessions(sessions@.subrange(0, i + 1), e, pid));
                }
            }
            i += 1;
        }
        proof {
            assert(sessions@.subrange(0, sessions@.len() as int) =~= sessions@);
        }
        e += 1;
    }
    proof {
        assert(endpoints@.subrange(0, endpoints@.len() as int) =~= endpoints@);
    }
    if out.len() == 0 {
        Err(SessionError::SessionNotFound(pid))
    } else {
        Ok(out)
    }
}

/// Where muting every application must act: every counted session on every
/// capture endpoint.
pub fn mute_all_targets(endpoints: &Vec<EndpointSessions>) -> (r: Vec<(usize, usize)>)
    ensures
        r@ == all_targets(endpoints@),
{
    let mut out: Vec<(usize, usize)> = Vec::new();
    let mut e: usize = 0;
    while e < endpoints.len()
        invariant
            e <= endpoints@.len(),
            out@ == all_targets(endpoints@.subrange(0, e as int)),
        decreases endpoints@.len() - e,
    {
        proof {
            assert(endpoints@.subrange(0, e + 1).drop_last() =~= endpoints@.subrange(0, e as int));
        }
        let sessions = &endpoints[e].sessions;
        let ghost base = out@;
        let mut i: usize = 0;
        proof {
            assert(base + counted_sessions(sessions@.subrange(0, 0), e) =~= base);
        }
        while i < sessions.len()
            invariant
                i <= sessions@.len(),
                out@ == base + counted_sessions(sessions@.subrange(0, i as int), e),
            decreases sessions@.len() - i,
        {
            proof {
                assert(sessions@.subrange(0, i + 1).drop_last() =~= sessions@.subrange(0, i as int));
            }
            if sessions[i].is_active && sessions[i].process_id != 0 {
                out.push((e, i));
                proof {
                    assert(out@ =~= base + counted_sessions(sessions@.subrange(0, i + 1), e));
                }
            }
            i += 1;
        }
        proof {
            assert(sessions@.subrange(0, sessions@.len() as int) =~= sessions@);
        }
        e += 1;
    }
    proof {
        assert(endpoints@.subrange(0, endpoints@.len() as int) =~= endpoints@);
    }
    out
}

} // verus!
