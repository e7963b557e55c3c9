use crate::session::{LoadOutcome, Session};
use vstd::prelude::*;

verus! {

/// Where start-up stands, from no session to a running background sync.
#[derive(PartialEq, Eq, Structural, Clone, Copy, Debug)]
pub enum Phase {
    Uninitialized,
    LoadingSession,
    Restoring,
    FreshLogin,
    Persisting,
    RecoveryUnlocking,
    Syncing,
    Ready,
    Failed,
}

/// Why start-up stopped. Each of these is fatal for the run.
#[derive(PartialEq, Eq, Structural, Clone, Copy, Debug)]
pub enum StartupFault {
    CorruptSession,
    RestoreRejected,
    LoginRejected,
    SessionNotSaved,
    RecoveryFailed,
    FirstSyncFailed,
}

/// What the caller reports back after carrying out an action.
pub enum LifecycleEvent {
    Begin,
    SessionLoaded(LoadOutcome),
    Restored(bool),
    LoggedIn(Option<Session>),
    Saved(bool),
    Unlocked(bool),
    FirstSyncDone(bool),
}

/// What the caller is to do next.
pub enum LifecycleAction {
    LoadSession,
    RestoreSession(Session),
    LoginWithPassword,
    SaveSession(Session),
    UnlockRecovery,
    StartSync,
    Proceed,
    Abort(StartupFault),
    Ignore,
}

/// One transition: the next phase and the action that goes with it. An event
/// that does not belong to the phase changes nothing.
pub open spec fn transition(p: Phase, e: LifecycleEvent) -> (Phase, LifecycleAction) {
    match (p, e) {
        (Phase::Uninitialized, LifecycleEvent::Begin) => (
            Phase::LoadingSession,
            LifecycleAction::LoadSession,
        ),
        (Phase::LoadingSession, LifecycleEvent::SessionLoaded(o)) => match o {
            LoadOutcome::Found(s) => (Phase::Restoring, LifecycleAction::RestoreSession(s)),
            LoadOutcome::NotFound => (Phase::FreshLogin, LifecycleAction::LoginWithPassword),
            LoadOutcome::Corrupt => (
                Phase::Failed,
                LifecycleAction::Abort(StartupFault::CorruptSession),
            ),
        },
        (Phase::Restoring, LifecycleEvent::Restored(ok)) => if ok {
            (Phase::RecoveryUnlocking, LifecycleAction::UnlockRecovery)
        } else {
            (Phase::Failed, LifecycleAction::Abort(StartupFault::RestoreRejected))
        },
        (Phase::FreshLogin, LifecycleEvent::LoggedIn(r)) => match r {
            Some(s) => (Phase::Persisting, LifecycleAction::SaveSession(s)),
            None => (Phase::Failed, LifecycleAction::Abort(StartupFault::LoginRejected)),
        },
        (Phase::Persisting, LifecycleEvent::Saved(ok)) => if ok {
            (Phase::RecoveryUnlocking, LifecycleAction::UnlockRecovery)
        } else {
            (Phase::Failed, LifecycleAction::Abort(StartupFault::SessionNotSaved))
        },
        (Phase::RecoveryUnlocking, LifecycleEvent::Unlocked(ok)) => if ok {
            (Phase::Syncing, LifecycleAction::StartSync)
        } else {
            (Phase::Failed, LifecycleAction::Abort(StartupFault::RecoveryFailed))
        },
        (Phase::Syncing, LifecycleEvent::FirstSyncDone(ok)) => if ok {
            (Phase::Ready, LifecycleAction::Proceed)
        } else {
            (Phase::Failed, LifecycleAction::Abort(StartupFault::FirstSyncFailed))
        },
        _ => (p, LifecycleAction::Ignore),
    }
}

/// Drives start-up: login or restore, recovery unlock, first sync.
pub struct SessionLifecycle {
    pub phase: Phase,
}

impl SessionLifecycle {
    pub fn new() -> (r: SessionLifecycle)
        ensures
            r.phase == Phase::Uninitialized,
    {
        SessionLifecycle { phase: Phase::Uninitialized }
    }

    /// Takes in what the last action gave and returns the next action.
    pub fn handle(&mut self, event: LifecycleEvent) -> (a: LifecycleAction)
        ensures
            (final(self).phase, a) == transition(old(self).phase, event),
    {
        let (p, a) = match (self.phase, event) {
            (Phase::Uninitialized, LifecycleEvent::Begin) => (
                Phase::LoadingSession,
                LifecycleAction::LoadSession,
            ),
            (Phase::LoadingSession, LifecycleEvent::SessionLoaded(o)) => match o {
                LoadOutcome::Found(s) => (Phase::Restoring, LifecycleAction::RestoreSession(s)),
                LoadOutcome::NotFound => (Phase::FreshLogin, LifecycleAction::LoginWithPassword),
                LoadOutcome::Corrupt => (
                    Phase::Failed,
                    LifecycleAction::Abort(StartupFault::CorruptSession),
                ),
            },
            (Phase::Restoring, LifecycleEvent::Restored(ok)) => if ok {
                (Phase::RecoveryUnlocking, LifecycleAction::UnlockRecovery)
            } else {
                (Phase::Failed, LifecycleAction::Abort(StartupFault::RestoreRejected))
            },
            (Phase::FreshLogin, LifecycleEvent::LoggedIn(r)) => match r {
                Some(s) => (Phase::Persisting, LifecycleAction::SaveSession(s)),
                None => (Phase::Failed, LifecycleAction::Abort(StartupFault::LoginRejected)),
            },
            (Phase::Persisting, LifecycleEvent::Saved(ok)) => if ok {
                (Phase::RecoveryUnlocking, LifecycleAction::UnlockRecovery)
            } else {
                (Phase::Failed, LifecycleAction::Abort(StartupFault::SessionNotSaved))
            },
            (Phase::RecoveryUnlocking, LifecycleEvent::Unlocked(ok)) => if ok {
                (Phase::Syncing, LifecycleAction::StartSync)
            } else {
                (Phase::Failed, LifecycleAction::Abort(StartupFault::RecoveryFailed))
            },
            (Phase::Syncing, LifecycleEvent::FirstSyncDone(ok)) => if ok {
                (Phase::Ready, LifecycleAction::Proceed)
            } else {
                (Phase::Failed, LifecycleAction::Abort(StartupFault::FirstSyncFailed))
            },
            (p, _) => (p, LifecycleAction::Ignore),
        };
        self.phase = p;
        a
    }
}

/// The actions that a run of events yields from phase `p`, in order.
pub open spec fn actions_from(p: Phase, events: Seq<LifecycleEvent>) -> Seq<LifecycleAction>
    decreases events.len(),
{
    if events.len() == 0 {
        Seq::empty()
    } else {
        let (q, a) = transition(p, events[0]);
        seq![a] + actions_from(q, events.drop_first())
    }
}

/// The phases in which the choice between restore and password login is
/// behind, and no password login can come.
pub open spec fn past_login(p: Phase) -> bool {
    !(p == Phase::Uninitialized || p == Phase::LoadingSession || p == Phase::FreshLogin)
}

proof fn lemma_no_login_past_choice(p: Phase, events: Seq<LifecycleEvent>)
    requires
        past_login(p),
    ensures
        forall|i: int|
            0 <= i < actions_from(p, events).len() ==> !(#[trigger] actions_from(p, events)[i] is LoginWithPassword),
    decreases events.len(),
{
    if events.len() > 0 {
        let (q, a) = transition(p, events[0]);
        lemma_no_login_past_choice(q, events.drop_first());
        let rest = actions_from(q, events.drop_first());
        assert(actions_from(p, events) == seq![a] + rest);
        assert forall|i: int|
            0 <= i < actions_from(p, events).len() implies !(#[trigger] actions_from(
                p,
                events,
            )[i] is LoginWithPassword) by {
            if i > 0 {
                assert(actions_from(p, events)[i] == rest[i - 1]);
            }
        }
    }
}

/// When the session file yields a snapshot, start-up restores it, and no
/// event that follows ever leads to a password login. A restored session
/// still goes through the recovery unlock before syncing.
pub proof fn lemma_restore_skips_login(s: Session, events: Seq<LifecycleEvent>)
    ensures
        transition(Phase::LoadingSession, LifecycleEvent::SessionLoaded(LoadOutcome::Found(s))) == (
            Phase::Restoring,
            LifecycleAction::RestoreSession(s),
        ),
        transition(Phase::Restoring, LifecycleEvent::Restored(true)) == (
            Phase::RecoveryUnlocking,
            LifecycleAction::UnlockRecovery,
        ),
        forall|i: int|
            0 <= i < actions_from(Phase::Restoring, events).len() ==> !(#[trigger] actions_from(
                Phase::Restoring,
                events,
            )[i] is LoginWithPassword),
{
    lemma_no_login_past_choice(Phase::Restoring, events);
}

/// When no session file is found, start-up logs in with the password and
/// then saves the new snapshot; from there, only a successful save leads on
/// to the recovery unlock.
pub proof fn lemma_fresh_login_saves_before_unlock(s: Session, e: LifecycleEvent)
    ensures
        transition(Phase::LoadingSession, LifecycleEvent::SessionLoaded(LoadOutcome::NotFound)) == (
            Phase::FreshLogin,
            LifecycleAction::LoginWithPassword,
        ),
        transition(Phase::FreshLogin, LifecycleEvent::LoggedIn(Some(s))) == (
            Phase::Persisting,
            LifecycleAction::SaveSession(s),
        ),
        transition(Phase::Persisting, e).1 is UnlockRecovery ==> e == LifecycleEvent::Saved(true),
{
}

} // verus!
