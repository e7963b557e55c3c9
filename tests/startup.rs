use egret::lifecycle::{LifecycleAction, LifecycleEvent, Phase, SessionLifecycle, StartupFault};
use egret::session::{load_outcome, temp_path_for, LoadOutcome, Session};
use egret::sync::{SyncDriver, SyncStep, SYNC_BACKOFF_SECS};

fn snapshot() -> Session {
    Session::new(
        "syt_token".to_string(),
        Some("refresh".to_string()),
        "@bot:example.org".to_string(),
        "DEVICEID".to_string(),
    )
}

#[test]
fn load_on_absent_file_is_not_found() {
    assert!(matches!(load_outcome(false, None), LoadOutcome::NotFound));
    assert!(matches!(load_outcome(false, Some(snapshot())), LoadOutcome::NotFound));
}

#[test]
fn load_of_undecodable_file_is_corrupt() {
    assert!(matches!(load_outcome(true, None), LoadOutcome::Corrupt));
}

#[test]
fn load_of_decoded_file_is_found() {
    match load_outcome(true, Some(snapshot())) {
        LoadOutcome::Found(s) => {
            assert_eq!(s.user_id, "@bot:example.org");
            assert_eq!(s.device_id, "DEVICEID");
            assert_eq!(s.access_token, "syt_token");
            assert_eq!(s.refresh_token.as_deref(), Some("refresh"));
        }
        _ => panic!("expected a snapshot"),
    }
}

#[test]
fn save_writes_a_temporary_file_first() {
    assert_eq!(temp_path_for("session.json"), "session.json.tmp");
    assert_eq!(temp_path_for(""), ".tmp");
}

#[test]
fn fresh_login_path_without_session_file() {
    let mut lc = SessionLifecycle::new();
    assert!(matches!(lc.handle(LifecycleEvent::Begin), LifecycleAction::LoadSession));
    let loaded = load_outcome(false, None);
    assert!(matches!(
        lc.handle(LifecycleEvent::SessionLoaded(loaded)),
        LifecycleAction::LoginWithPassword
    ));
    assert_eq!(lc.phase, Phase::FreshLogin);
    match lc.handle(LifecycleEvent::LoggedIn(Some(snapshot()))) {
        LifecycleAction::SaveSession(s) => assert_eq!(s.user_id, "@bot:example.org"),
        _ => panic!("the snapshot must be persisted"),
    }
    assert!(matches!(lc.handle(LifecycleEvent::Saved(true)), LifecycleAction::UnlockRecovery));
    assert!(matches!(lc.handle(LifecycleEvent::Unlocked(true)), LifecycleAction::StartSync));
    let mut driver = SyncDriver::new();
    let step = driver.record_attempt(true);
    assert_eq!(step, SyncStep::Report { succeeded: true });
    assert_eq!(driver.handoff, Some(true));
    assert!(matches!(lc.handle(LifecycleEvent::FirstSyncDone(true)), LifecycleAction::Proceed));
    assert_eq!(lc.phase, Phase::Ready);
}

#[test]
fn restore_path_with_session_file() {
    let mut lc = SessionLifecycle::new();
    lc.handle(LifecycleEvent::Begin);
    let loaded = load_outcome(true, Some(snapshot()));
    match lc.handle(LifecycleEvent::SessionLoaded(loaded)) {
        LifecycleAction::RestoreSession(s) => assert_eq!(s.access_token, "syt_token"),
        _ => panic!("expected the restore path"),
    }
    assert_eq!(lc.phase, Phase::Restoring);
    // a stray login result is not acted on
    assert!(matches!(lc.handle(LifecycleEvent::LoggedIn(Some(snapshot()))), LifecycleAction::Ignore));
    assert!(matches!(lc.handle(LifecycleEvent::Restored(true)), LifecycleAction::UnlockRecovery));
    assert!(matches!(lc.handle(LifecycleEvent::Unlocked(true)), LifecycleAction::StartSync));
    assert!(matches!(lc.handle(LifecycleEvent::FirstSyncDone(true)), LifecycleAction::Proceed));
    assert_eq!(lc.phase, Phase::Ready);
}

fn started_to(phase_events: Vec<LifecycleEvent>) -> SessionLifecycle {
    let mut lc = SessionLifecycle::new();
    for e in phase_events {
        lc.handle(e);
    }
    lc
}

#[test]
fn each_startup_fault_aborts() {
    let mut lc = started_to(vec![LifecycleEvent::Begin]);
    assert!(matches!(
        lc.handle(LifecycleEvent::SessionLoaded(LoadOutcome::Corrupt)),
        LifecycleAction::Abort(StartupFault::CorruptSession)
    ));
    assert_eq!(lc.phase, Phase::Failed);

    let mut lc = started_to(vec![LifecycleEvent::Begin, LifecycleEvent::SessionLoaded(LoadOutcome::Found(snapshot()))]);
    assert!(matches!(lc.handle(LifecycleEvent::Restored(false)), LifecycleAction::Abort(StartupFault::RestoreRejected)));

    let mut lc = started_to(vec![LifecycleEvent::Begin, LifecycleEvent::SessionLoaded(LoadOutcome::NotFound)]);
    assert!(matches!(lc.handle(LifecycleEvent::LoggedIn(None)), LifecycleAction::Abort(StartupFault::LoginRejected)));

    let mut lc = started_to(vec![
        LifecycleEvent::Begin,
        LifecycleEvent::SessionLoaded(LoadOutcome::NotFound),
        LifecycleEvent::LoggedIn(Some(snapshot())),
    ]);
    assert!(matches!(lc.handle(LifecycleEvent::Saved(false)), LifecycleAction::Abort(StartupFault::SessionNotSaved)));

    let mut lc = started_to(vec![
        LifecycleEvent::Begin,
        LifecycleEvent::SessionLoaded(LoadOutcome::Found(snapshot())),
        LifecycleEvent::Restored(true),
    ]);
    assert!(matches!(lc.handle(LifecycleEvent::Unlocked(false)), LifecycleAction::Abort(StartupFault::RecoveryFailed)));

    let mut lc = started_to(vec![
        LifecycleEvent::Begin,
        LifecycleEvent::SessionLoaded(LoadOutcome::Found(snapshot())),
        LifecycleEvent::Restored(true),
        LifecycleEvent::Unlocked(true),
    ]);
    assert!(matches!(lc.handle(LifecycleEvent::FirstSyncDone(false)), LifecycleAction::Abort(StartupFault::FirstSyncFailed)));
    assert_eq!(lc.phase, Phase::Failed);
    assert!(matches!(lc.handle(LifecycleEvent::Begin), LifecycleAction::Ignore));
}

#[test]
fn handoff_keeps_first_failed_attempt() {
    let mut driver = SyncDriver::new();
    assert_eq!(driver.handoff, None);
    assert_eq!(driver.record_attempt(false), SyncStep::Report { succeeded: false });
    assert_eq!(driver.record_attempt(false), SyncStep::Backoff { secs: 5 });
    assert_eq!(driver.record_attempt(false), SyncStep::Backoff { secs: SYNC_BACKOFF_SECS });
    assert_eq!(driver.record_attempt(true), SyncStep::SyncAgain);
    assert_eq!(driver.handoff, Some(false));
}

#[test]
fn handoff_keeps_first_successful_attempt() {
    let mut driver = SyncDriver::new();
    driver.record_attempt(true);
    driver.record_attempt(false);
    assert_eq!(driver.handoff, Some(true));
}
