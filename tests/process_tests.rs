use win_bt_stereo_vs_handsfree::process::{
    validate_elevated_request, ProcessError, ProcessFacts, ProcessManager, TerminationAction,
    TerminationAttempt, TerminationOutcome, AUDIT_LOG_CAPACITY,
};
use win_bt_stereo_vs_handsfree::session::MicUsingApp;

fn is_blacklisted(name: &str) -> bool {
    ProcessManager::is_blacklisted(name)
}

fn facts(name: Option<&str>, is_system: bool, needs_elevation: bool) -> ProcessFacts {
    ProcessFacts { name: name.map(|n| n.to_string()), is_system, needs_elevation }
}

fn manager_with(pids: &[(u32, &str)]) -> ProcessManager {
    let apps = pids
        .iter()
        .map(|(pid, name)| MicUsingApp::new(*pid, name.to_string(), name.to_string()))
        .collect();
    ProcessManager::new(apps)
}

#[test]
fn test_blacklist_check() {
    assert!(ProcessManager::is_blacklisted("csrss.exe"));
    assert!(ProcessManager::is_blacklisted("CSRSS.EXE"));
    assert!(ProcessManager::is_blacklisted("lsass.exe"));
    assert!(ProcessManager::is_blacklisted("svchost.exe"));
    assert!(!ProcessManager::is_blacklisted("notepad.exe"));
    assert!(!ProcessManager::is_blacklisted("chrome.exe"));
}

#[test]
fn process_test_termination_outcome_display() {
    assert_eq!(TerminationOutcome::Success.to_string(), "SUCCESS");
    assert_eq!(TerminationOutcome::Blocked.to_string(), "BLOCKED");
    assert_eq!(TerminationOutcome::Failed.to_string(), "FAILED");
    assert_eq!(TerminationOutcome::UserCancelled.to_string(), "USER_CANCELLED");
    assert_eq!(TerminationOutcome::ElevationRequired.to_string(), "ELEVATION_REQUIRED");
}

#[test]
fn process_validation_tests_test_termination_outcome_display() {
    assert_eq!(format!("{}", TerminationOutcome::Success.to_string()), "SUCCESS");
    assert_eq!(format!("{}", TerminationOutcome::Blocked.to_string()), "BLOCKED");
    assert_eq!(format!("{}", TerminationOutcome::Failed.to_string()), "FAILED");
    assert_eq!(format!("{}", TerminationOutcome::UserCancelled.to_string()), "USER_CANCELLED");
    assert_eq!(format!("{}", TerminationOutcome::ElevationRequired.to_string()), "ELEVATION_REQUIRED");
}

#[test]
fn test_system_process_blacklist() {
    let blacklisted = [
        "csrss.exe",
        "winlogon.exe",
        "lsass.exe",
        "services.exe",
        "smss.exe",
        "wininit.exe",
        "svchost.exe",
        "dwm.exe",
        "explorer.exe",
        "system",
        "registry",
    ];

    for process in &blacklisted {
        assert!(is_blacklisted(process), "{} should be blacklisted", process);
        assert!(
            is_blacklisted(&process.to_uppercase()),
            "{} uppercase should be blacklisted",
            process
        );
    }
}

#[test]
fn test_non_system_processes_not_blacklisted() {
    let allowed = [
        "notepad.exe",
        "chrome.exe",
        "firefox.exe",
        "code.exe",
        "discord.exe",
        "zoom.exe",
        "teams.exe",
        "spotify.exe",
    ];

    for process in &allowed {
        assert!(!is_blacklisted(process), "{} should not be blacklisted", process);
    }
}

#[test]
fn test_blacklist_case_insensitivity() {
    assert!(is_blacklisted("CSRSS.EXE"));
    assert!(is_blacklisted("Csrss.Exe"));
    assert!(is_blacklisted("csrss.exe"));
    assert!(is_blacklisted("LSASS.EXE"));
}

#[test]
fn test_blacklist_exact_match() {
    assert!(!is_blacklisted("my_csrss.exe"));
    assert!(!is_blacklisted("csrss"));
    assert!(!is_blacklisted("csrss.exe.bak"));
    assert!(!is_blacklisted("not_lsass.exe"));
}

#[test]
fn test_termination_outcome_clone() {
    let outcome = TerminationOutcome::Success;
    let cloned = outcome.clone();
    assert_eq!(outcome.to_string(), cloned.to_string());
}

#[test]
fn test_audit_log_structure() {
    let attempt = TerminationAttempt {
        timestamp: 1_700_000_000,
        process_id: 1234,
        process_name: "test.exe".to_string(),
        outcome: TerminationOutcome::Blocked,
        reason: "Test reason".to_string(),
    };

    assert_eq!(attempt.process_id, 1234);
    assert_eq!(attempt.process_name, "test.exe");
    assert_eq!(attempt.outcome.to_string(), "BLOCKED");
    assert_eq!(attempt.reason, "Test reason");
}

#[test]
fn pid_absent_from_snapshot_is_refused_even_if_it_exists() {
    let mut m = manager_with(&[(10, "zoom.exe")]);
    let r = m.terminate_process(20, false, &facts(Some("notepad.exe"), false, false), true, 5);
    assert_eq!(r, Err(ProcessError::NotUsingMicrophone(20)));
    let log = m.get_audit_log();
    assert_eq!(log.len(), 1);
    assert_eq!(log[0].outcome, TerminationOutcome::Blocked);
    assert_eq!(log[0].process_name, "notepad.exe");
    assert_eq!(log[0].reason, "Process is not currently using the microphone");
    assert_eq!(log[0].timestamp, 5);
}

#[test]
fn validation_runs_in_order() {
    let m = manager_with(&[(10, "csrss.exe"), (11, "zoom.exe")]);
    assert_eq!(m.validate_termination(99, &facts(None, true, true)), Err(ProcessError::ProcessNotFound(99)));
    assert_eq!(
        m.validate_termination(10, &facts(Some("CSRSS.exe"), true, false)),
        Err(ProcessError::ProtectedProcess(10))
    );
    assert_eq!(
        m.validate_termination(11, &facts(Some("zoom.exe"), true, false)),
        Err(ProcessError::SystemProcess(11))
    );
    assert_eq!(
        m.validate_termination(11, &facts(Some("zoom.exe"), false, true)),
        Ok(("zoom.exe".to_string(), true))
    );
}

#[test]
fn unknown_process_is_logged_by_pid() {
    let mut m = manager_with(&[]);
    let r = m.terminate_process(77, false, &facts(None, false, false), true, 1);
    assert_eq!(r, Err(ProcessError::ProcessNotFound(77)));
    assert_eq!(m.get_audit_log()[0].process_name, "PID 77");
}

#[test]
fn declined_confirmation_is_not_an_error() {
    let mut m = manager_with(&[(11, "zoom.exe")]);
    let r = m.terminate_process(11, true, &facts(Some("zoom.exe"), false, false), false, 2);
    assert_eq!(r, Ok(TerminationAction::Nothing));
    let log = m.get_audit_log();
    assert_eq!(log[0].outcome, TerminationOutcome::UserCancelled);
}

#[test]
fn elevation_is_handed_to_the_helper() {
    let mut m = manager_with(&[(11, "zoom.exe")]);
    let r = m.terminate_process(11, true, &facts(Some("zoom.exe"), false, true), true, 2);
    assert_eq!(r, Ok(TerminationAction::Elevate(11)));
    assert_eq!(m.get_audit_log()[0].outcome, TerminationOutcome::ElevationRequired);
}

#[test]
fn local_termination_is_recorded() {
    let mut m = manager_with(&[(11, "zoom.exe")]);
    let r = m.terminate_process(11, false, &facts(Some("zoom.exe"), false, false), false, 2);
    assert_eq!(r, Ok(TerminationAction::Terminate(11, "zoom.exe".to_string())));
    assert!(m.get_audit_log().is_empty());
    assert_eq!(m.record_termination(11, "zoom.exe".to_string(), true, 3), Ok(()));
    assert_eq!(m.record_termination(11, "zoom.exe".to_string(), false, 4), Err(ProcessError::TerminationFailed(11)));
    let log = m.get_audit_log();
    assert_eq!(log[0].outcome, TerminationOutcome::Success);
    assert_eq!(log[1].outcome, TerminationOutcome::Failed);
}

#[test]
fn audit_log_keeps_the_latest_hundred() {
    let mut m = manager_with(&[]);
    for i in 0..101u64 {
        m.log_attempt(TerminationAttempt {
            timestamp: i,
            process_id: i as u32,
            process_name: format!("p{}", i),
            outcome: TerminationOutcome::Blocked,
            reason: "r".to_string(),
        });
        assert!(m.get_audit_log().len() <= AUDIT_LOG_CAPACITY);
    }
    let log = m.get_audit_log();
    assert_eq!(log.len(), 100);
    assert_eq!(log[0].process_id, 1);
    assert_eq!(log[99].process_id, 100);
}

#[test]
fn elevated_helper_revalidates() {
    let fresh = vec![
        MicUsingApp::new(5, "LSASS.exe".to_string(), "x".to_string()),
        MicUsingApp::new(6, "zoom.exe".to_string(), "Zoom".to_string()),
    ];
    assert_eq!(validate_elevated_request(7, &fresh, false), Err(ProcessError::NotUsingMicrophone(7)));
    assert_eq!(validate_elevated_request(5, &fresh, false), Err(ProcessError::ProtectedProcess(5)));
    assert_eq!(validate_elevated_request(6, &fresh, true), Err(ProcessError::SystemProcess(6)));
    assert_eq!(validate_elevated_request(6, &fresh, false), Ok("zoom.exe".to_string()));
}
