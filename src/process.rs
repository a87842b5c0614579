//! Guarded process termination: validation against the protected list, the
//! system account and the current microphone snapshot, an audit trail capped
//! at a fixed length, and the decision between local and elevated termination.

use vstd::prelude::*;
use crate::session::{app_views, has_pid, process_label, process_label_of, MicUsingApp};
use crate::text::{lower_of, str_eq, to_lower};

verus! {

/// The longest the audit log grows; older entries are evicted first.
pub const AUDIT_LOG_CAPACITY: usize = 100;

/// How a termination attempt ended.
#[derive(Debug, Clone, Copy, PartialEq, Eq, Structural)]
pub enum TerminationOutcome {
    Success,
    Blocked,
    Failed,
    UserCancelled,
    ElevationRequired,
}

/// The audit label of an outcome.
pub open spec fn outcome_label(o: TerminationOutcome) -> Seq<char> {
    match o {
        TerminationOutcome::Success => "SUCCESS"@,
        TerminationOutcome::Blocked => "BLOCKED"@,
        TerminationOutcome::Failed => "FAILED"@,
        TerminationOutcome::UserCancelled => "USER_CANCELLED"@,
        TerminationOutcome::ElevationRequired => "ELEVATION_REQUIRED"@,
    }
}

impl TerminationOutcome {
    /// The audit label, in capitals.
    pub fn to_string(&self) -> (r: String)
        ensures
            r@ == outcome_label(*self),
    {
        match self {
            TerminationOutcome::Success => String::from_str("SUCCESS"),
            TerminationOutcome::Blocked => String::from_str("BLOCKED"),
            TerminationOutcome::Failed => String::from_str("FAILED"),
            TerminationOutcome::UserCancelled => String::from_str("USER_CANCELLED"),
            TerminationOutcome::ElevationRequired => String::from_str("ELEVATION_REQUIRED"),
        }
    }
}

/// One entry of the audit trail.
#[derive(Debug, Clone)]
pub struct TerminationAttempt {
    /// Seconds since the Unix epoch.
    pub timestamp: u64,
    pub process_id: u32,
    pub process_name: String,
    pub outcome: TerminationOutcome,
    pub reason: String,
}

/// Why a termination request was refused or failed.
#[derive(Debug, Clone, Copy, PartialEq, Eq, Structural)]
pub enum ProcessError {
    /// No process with this id in the process list.
    ProcessNotFound(u32),
    /// The process is a protected system executable.
    ProtectedProcess(u32),
    /// The process runs as the system account.
    SystemProcess(u32),
    /// The process is not in the current snapshot of microphone users.
    NotUsingMicrophone(u32),
    /// The platform refused to terminate the process.
    TerminationFailed(u32),
}

/// The human-readable reason recorded for an error.
pub open spec fn error_reason(e: ProcessError) -> Seq<char> {
    match e {
        ProcessError::ProcessNotFound(_) => "Could not find the process"@,
        ProcessError::ProtectedProcess(_) => "Protected system process cannot be terminated"@,
        ProcessError::SystemProcess(_) => "Process running as SYSTEM cannot be terminated"@,
        ProcessError::NotUsingMicrophone(_) => "Process is not currently using the microphone"@,
        ProcessError::TerminationFailed(_) => "TerminateProcess failed"@,
    }
}

impl ProcessError {
    /// The human-readable reason recorded in the audit log.
    pub fn reason(&self) -> (r: String)
        ensures
            r@ == error_reason(*self),
    {
        match self {
            ProcessError::ProcessNotFound(_) => String::from_str("Could not find the process"),
            ProcessError::ProtectedProcess(_) => String::from_str(
                "Protected system process cannot be terminated",
            ),
            ProcessError::SystemProcess(_) => String::from_str(
                "Process running as SYSTEM cannot be terminated",
            ),
            ProcessError::NotUsingMicrophone(_) => String::from_str(
                "Process is not currently using the microphone",
            ),
            ProcessError::TerminationFailed(_) => String::from_str("TerminateProcess failed"),
        }
    }
}

/// The protected executables, in lower case.
pub open spec fn protected_name(l: Seq<char>) -> bool {
    l == "csrss.exe"@ || l == "winlogon.exe"@ || l == "lsass.exe"@ || l == "services.exe"@ || l
        == "smss.exe"@ || l == "wininit.exe"@ || l == "svchost.exe"@ || l == "dwm.exe"@ || l
        == "explorer.exe"@ || l == "system"@ || l == "registry"@
}

/// A process name is protected when its lower-case form is exactly one of
/// the protected executables.
pub open spec fn blacklisted(name: Seq<char>) -> bool {
    protected_name(lower_of(name))
}

/// What the platform reported of a process, read under the operation lock.
/// Checks that could not be carried out are reported as `true` (fail closed).
#[derive(Debug, Clone)]
pub struct ProcessFacts {
    /// The executable's name, where the process list has the process.
    pub name: Option<String>,
    /// The process token is the system account's.
    pub is_system: bool,
    /// Terminating the process needs elevated privileges.
    pub needs_elevation: bool,
}

/// The outcome of the validation pipeline, checks in order.
pub open spec fn validation(
    pid: u32,
    facts: ProcessFacts,
    apps: Seq<crate::session::MicAppView>,
) -> Result<(Seq<char>, bool), ProcessError> {
    match facts.name {
        None => Err(ProcessError::ProcessNotFound(pid)),
        Some(n) => if blacklisted(n@) {
            Err(ProcessError::ProtectedProcess(pid))
        } else if facts.is_system {
            Err(ProcessError::SystemProcess(pid))
        } else if !has_pid(apps, pid) {
            Err(ProcessError::NotUsingMicrophone(pid))
        } else {
            Ok((n@, facts.needs_elevation))
        },
    }
}

/// What the caller must do once a request has passed validation.
#[derive(Debug, Clone, PartialEq, Eq)]
pub enum TerminationAction {
    /// The operator declined; nothing is done.
    Nothing,
    /// Launch the elevated helper with only this process id.
    Elevate(u32),
    /// Terminate the process here, then record the result.
    Terminate(u32, String),
}

/// The log after appending one entry: oldest evicted beyond the capacity.
pub open spec fn appended(log: Seq<TerminationAttempt>, a: TerminationAttempt) -> Seq<
    TerminationAttempt,
> {
    if log.len() + 1 > AUDIT_LOG_CAPACITY {
        log.push(a).subrange(1, log.len() + 1int)
    } else {
        log.push(a)
    }
}

/// `new` is `log` with one more entry of this shape appended.
pub open spec fn logged(
    log: Seq<TerminationAttempt>,
    new: Seq<TerminationAttempt>,
    now: u64,
    pid: u32,
    name: Seq<char>,
    outcome: TerminationOutcome,
    reason: Seq<char>,
) -> bool {
    &&& new.len() > 0
    &&& new == appended(log, new.last())
    &&& new.last().timestamp == now
    &&& new.last().process_id == pid
    &&& new.last().process_name@ == name
    &&& new.last().outcome == outcome
    &&& new.last().reason@ == reason
}

/// Validates and records termination requests. The microphone snapshot and
/// every validation that reads it are meant to sit behind one lock: the
/// owner holds the whole manager under it.
pub struct ProcessManager {
    /// The current snapshot of applications holding the microphone.
    pub mic_apps: Vec<MicUsingApp>,
    /// The audit trail, oldest first.
    pub audit_log: Vec<TerminationAttempt>,
}

impl ProcessManager {
    /// The audit trail is within its capacity.
    pub open spec fn wf(&self) -> bool {
        self.audit_log@.len() <= AUDIT_LOG_CAPACITY
    }

    /// A manager with this snapshot and an empty audit log.
    pub fn new(mic_apps: Vec<MicUsingApp>) -> (r: Self)
        ensures
            r.wf(),
            r.mic_apps == mic_apps,
            r.audit_log@.len() == 0,
    {
        ProcessManager { mic_apps, audit_log: Vec::new() }
    }

    /// Publishes a fresh snapshot of microphone users.
    pub fn publish_mic_apps(&mut self, apps: Vec<MicUsingApp>)
        ensures
            final(self).mic_apps == apps,
            final(self).audit_log == old(self).audit_log,
    {
        self.mic_apps = apps;
    }

    /// Exact, case-insensitive match against the protected executables;
    /// a name that merely contains one is not protected.
    pub fn is_blacklisted(process_name: &str) -> (r: bool)
        ensures
            r == blacklisted(process_name@),
    {
        let lower = to_lower(process_name);
        let l = lower.as_str();
        str_eq(l, "csrss.exe") || str_eq(l, "winlogon.exe") || str_eq(l, "lsass.exe") || str_eq(
            l,
            "services.exe",
        ) || str_eq(l, "smss.exe") || str_eq(l, "wininit.exe") || str_eq(l, "svchost.exe")
            || str_eq(l, "dwm.exe") || str_eq(l, "explorer.exe") || str_eq(l, "system") || str_eq(
            l,
            "registry",
        )
    }

    /// Whether the snapshot holds this process.
    fn in_snapshot(&self, pid: u32) -> (r: bool)
        ensures
            r == has_pid(app_views(self.mic_apps@), pid),
    {
        let mut i: usize = 0;
        while i < self.mic_apps.len()
            invariant
                i <= self.mic_apps@.len(),
                forall|k: int| 0 <= k < i ==> self.mic_apps@[k].process_id != pid,
            decreases self.mic_apps@.len() - i,
        {
            if self.mic_apps[i].process_id == pid {
                assert(app_views(self.mic_apps@)[i as int].process_id == pid);
                return true;
            }
            i += 1;
        }
        false
    }

    /// Runs the validation pipeline, short-circuiting in order: the process
    /// exists, is not protected, is not the system's, and is in the current
    /// snapshot. On success returns its name and whether it needs elevation.
    pub fn validate_termination(&self, pid: u32, facts: &ProcessFacts) -> (r: Result<
        (String, bool),
        ProcessError,
    >)
        ensures
            match (r, validation(pid, *facts, app_views(self.mic_apps@))) {
                (Ok((n, e)), Ok((vn, ve))) => n@ == vn && e == ve,
                (Err(a), Err(b)) => a == b,
                _ => false,
            },
    {
        match &facts.name {
            None => Err(ProcessError::ProcessNotFound(pid)),
            Some(n) => {
                if Self::is_blacklisted(n.as_str()) {
                    Err(ProcessError::ProtectedProcess(pid))
                } else if facts.is_system {
                    Err(ProcessError::SystemProcess(pid))
                } else if !self.in_snapshot(pid) {
                    Err(ProcessError::NotUsingMicrophone(pid))
                } else {
                    Ok((n.clone(), facts.needs_elevation))
                }
            },
        }
    }

    /// Appends an entry, evicting the oldest beyond the capacity.
    pub fn log_attempt(&mut self, attempt: TerminationAttempt)
        requires
            old(self).wf(),
        ensures
            final(self).wf(),
            final(self).audit_log@ == appended(old(self).audit_log@, attempt),
            final(self).mic_apps == old(self).mic_apps,
    {
        let ghost prev = self.audit_log@;
        self.audit_log.push(attempt);
        if self.audit_log.len() > AUDIT_LOG_CAPACITY {
            self.audit_log.remove(0);
            proof {
                assert(self.audit_log@ =~= prev.push(attempt).subrange(1, prev.len() + 1int));
            }
        }
    }

    /// A copy of the audit trail, oldest first.
    pub fn get_audit_log(&self) -> (r: Vec<TerminationAttempt>)
        ensures
            r@ == self.audit_log@,
    {
        let mut r: Vec<TerminationAttempt> = Vec::new();
        let mut i: usize = 0;
        while i < self.audit_log.len()
            invariant
                i <= self.audit_log@.len(),
                r@ == self.audit_log@.subrange(0, i as int),
            decreases self.audit_log@.len() - i,
        {
            let a = &self.audit_log[i];
            r.push(
                TerminationAttempt {
                    timestamp: a.timestamp,
                    process_id: a.process_id,
                    process_name: a.process_name.clone(),
                    outcome: a.outcome,
                    reason: a.reason.clone(),
                },
            );
            proof {
                assert(r@ =~= self.audit_log@.subrange(0, i + 1));
            }
            i += 1;
        }
        proof {
            assert(self.audit_log@.subrange(0, self.audit_log@.len() as int) =~= self.audit_log@);
        }
        r
    }

    /// Handles a termination request under the operation lock. `facts` is what
    /// the platform reported of `pid`; `confirmed` is the operator's answer,
    /// asked only when `show_dialog` is set and validation has passed.
    /// A refused request is logged as blocked and returned as the error; a
    /// declined one is logged as cancelled; one that needs elevation is logged
    /// and handed to the elevated helper; otherwise the caller terminates the
    /// process and records the result with `record_termination`.
    pub fn terminate_process(
        &mut self,
        pid: u32,
        show_dialog: bool,
        facts: &ProcessFacts,
        confirmed: bool,
        now: u64,
    ) -> (r: Result<TerminationAction, ProcessError>)
        requires
            old(self).wf(),
        ensures
            final(self).wf(),
            final(self).mic_apps == old(self).mic_apps,
            !has_pid(app_views(old(self).mic_apps@), pid) ==> r is Err,
            match validation(pid, *facts, app_views(old(self).mic_apps@)) {
                Err(e) => r == Err::<TerminationAction, ProcessError>(e) && logged(
                    old(self).audit_log@,
                    final(self).audit_log@,
                    now,
                    pid,
                    process_label(pid, facts.name),
                    TerminationOutcome::Blocked,
                    error_reason(e),
                ),
                Ok((name, needs_elevation)) => if show_dialog && !confirmed {
                    r == Ok::<TerminationAction, ProcessError>(TerminationAction::Nothing) && logged(
                        old(self).audit_log@,
                        final(self).audit_log@,
                        now,
                        pid,
                        name,
                        TerminationOutcome::UserCancelled,
                        "User cancelled termination dialog"@,
                    )
                } else if needs_elevation {
                    r == Ok::<TerminationAction, ProcessError>(TerminationAction::Elevate(pid))
                        && logged(
                        old(self).audit_log@,
                        final(self).audit_log@,
                        now,
                        pid,
                        name,
                        TerminationOutcome::ElevationRequired,
                        "Process requires elevation to terminate"@,
                    )
                } else {
                    &&& r matches Ok(TerminationAction::Terminate(p, n)) && p == pid && n@ == name
                    &&& final(self).audit_log == old(self).audit_log
                },
            },
    {
        match self.validate_termination(pid, facts) {
            Err(e) => {
                let attempt = TerminationAttempt {
                    timestamp: now,
                    process_id: pid,
                    process_name: process_label_of(pid, &facts.name),
                    outcome: TerminationOutcome::Blocked,
                    reason: e.reason(),
                };
                self.log_attempt(attempt);
                Err(e)
            },
            Ok((name, needs_elevation)) => {
                if show_dialog && !confirmed {
                    let attempt = TerminationAttempt {
                        timestamp: now,
                        process_id: pid,
                        process_name: name,
                        outcome: TerminationOutcome::UserCancelled,
                        reason: String::from_str("User cancelled termination dialog"),
                    };
                    self.log_attempt(attempt);
                    Ok(TerminationAction::Nothing)
                } else if needs_elevation {
                    let attempt = TerminationAttempt {
                        timestamp: now,
                        process_id: pid,
                        process_name: name,
                        outcome: TerminationOutcome::ElevationRequired,
                        reason: String::from_str("Process requires elevation to terminate"),
                    };
                    self.log_attempt(attempt);
                    Ok(TerminationAction::Elevate(pid))
                } else {
                    Ok(TerminationAction::Terminate(pid, name))
                }
            },
        }
    }

    /// Records the result of a local termination and reports it.
    pub fn record_termination(&mut self, pid: u32, name: String, succeeded: bool, now: u64) -> (r:
        Result<(), ProcessError>)
        requires
            old(self).wf(),
        ensures
            final(self).wf(),
            final(self).mic_apps == old(self).mic_apps,
            succeeded ==> r is Ok && logged(
                old(self).audit_log@,
                final(self).audit_log@,
                now,
                pid,
                name@,
                TerminationOutcome::Success,
                "Process terminated successfully"@,
            ),
            !succeeded ==> r == Err::<(), ProcessError>(ProcessError::TerminationFailed(pid))
                && logged(
                old(self).audit_log@,
                final(self).audit_log@,
                now,
                pid,
                name@,
                TerminationOutcome::Failed,
                error_reason(ProcessError::TerminationFailed(pid)),
            ),
    {
        if succeeded {
            let attempt = TerminationAttempt {
                timestamp: now,
                process_id: pid,
                process_name: name,
                outcome: TerminationOutcome::Success,
                reason: String::from_str("Process terminated successfully"),
            };
            self.log_attempt(attempt);
            Ok(())
        } else {
            let e = ProcessError::TerminationFailed(pid);
            let attempt = TerminationAttempt {
                timestamp: now,
                process_id: pid,
                process_name: name,
                outcome: TerminationOutcome::Failed,
                reason: e.reason(),
            };
            self.log_attempt(attempt);
            Err(e)
        }
    }
}

/// The elevated helper's own validation, from scratch: the process must be in
/// a fresh snapshot of microphone users, not protected, and not the system's.
pub open spec fn elevated_validation(pid: u32, apps: Seq<crate::session::MicAppView>, is_system: bool) -> Result<
    Seq<char>,
    ProcessError,
> {
    if !has_pid(apps, pid) {
        Err(ProcessError::NotUsingMicrophone(pid))
    } else {
        let a = apps[choose|j: int| 0 <= j < apps.len() && apps[j].process_id == pid];
        if blacklisted(a.process_name) {
            Err(ProcessError::ProtectedProcess(pid))
        } else if is_system {
            Err(ProcessError::SystemProcess(pid))
        } else {
            Ok(a.process_name)
        }
    }
}

/// Re-validates a request handed to the elevated helper; the process id it
/// was given is trusted for nothing. `fresh_apps` is a new snapshot of
/// microphone users (unique by process id) and `is_system` the system-account
/// check for `pid`, failing closed.
pub fn validate_elevated_request(pid: u32, fresh_apps: &Vec<MicUsingApp>, is_system: bool) -> (r:
    Result<String, ProcessError>)
    requires
        crate::session::unique_pids(app_views(fresh_apps@)),
    ensures
        match (r, elevated_validation(pid, app_views(fresh_apps@), is_system)) {
            (Ok(n), Ok(vn)) => n@ == vn,
            (Err(a), Err(b)) => a == b,
            _ => false,
        },
{
    let ghost apps = app_views(fresh_apps@);
    let mut i: usize = 0;
    while i < fresh_apps.len()
        invariant
            apps == app_views(fresh_apps@),
            crate::session::unique_pids(apps),
            i <= fresh_apps@.len(),
            forall|k: int| 0 <= k < i ==> fresh_apps@[k].process_id != pid,
        decreases fresh_apps@.len() - i,
    {
        if fresh_apps[i].process_id == pid {
            proof {
                assert(apps[i as int].process_id == pid);
                let j = choose|j: int| 0 <= j < apps.len() && apps[j].process_id == pid;
                assert(j == i) by {
                    if j != i {
                        assert(apps[j].process_id != apps[i as int].process_id);
                    }
                }
            }
            let name = &fresh_apps[i].process_name;
            if ProcessManager::is_blacklisted(name.as_str()) {
                return Err(ProcessError::ProtectedProcess(pid));
            } else if is_system {
                return Err(ProcessError::SystemProcess(pid));
            } else {
                return Ok(name.clone());
            }
        }
        i += 1;
    }
    Err(ProcessError::NotUsingMicrophone(pid))
}

/// The audit log never holds more than its capacity, and appending to a full
/// log evicts exactly the oldest entry.
pub proof fn lemma_audit_log_bounded(log: Seq<TerminationAttempt>, a: TerminationAttempt)
    requires
        log.len() <= AUDIT_LOG_CAPACITY,
    ensures
        appended(log, a).len() <= AUDIT_LOG_CAPACITY,
        appended(log, a).last() == a,
        log.len() == AUDIT_LOG_CAPACITY ==> appended(log, a) == log.subrange(1, log.len() as int).push(a),
        log.len() < AUDIT_LOG_CAPACITY ==> appended(log, a) == log.push(a),
{
    if log.len() == AUDIT_LOG_CAPACITY {
        assert(log.push(a).subrange(1, log.len() + 1int) =~= log.subrange(1, log.len() as int).push(a));
    }
}

} // verus!
