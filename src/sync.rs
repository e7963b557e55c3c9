use vstd::prelude::*;

verus! {

/// Seconds to wait after a failed background sync before trying again.
pub const SYNC_BACKOFF_SECS: u64 = 5;

/// Timeout, in seconds, of the first sync, whose outcome is handed off.
pub const FIRST_SYNC_TIMEOUT_SECS: u64 = 20;

/// What the sync loop does after an attempt.
#[derive(PartialEq, Eq, Structural, Clone, Copy, Debug)]
pub enum SyncStep {
    /// The first attempt: hand its outcome to the waiting start-up path.
    Report { succeeded: bool },
    /// A later attempt that succeeded: sync again at once.
    SyncAgain,
    /// A later attempt that failed: wait, then sync again.
    Backoff { secs: u64 },
}

/// The background sync loop's state: the outcome handed off to start-up, once
/// the first attempt is over.
#[derive(PartialEq, Eq, Structural, Clone, Copy, Debug)]
pub struct SyncDriver {
    pub handoff: Option<bool>,
}

pub open spec fn step_of(handoff: Option<bool>, succeeded: bool) -> SyncStep {
    match handoff {
        None => SyncStep::Report { succeeded },
        Some(_) => if succeeded {
            SyncStep::SyncAgain
        } else {
            SyncStep::Backoff { secs: SYNC_BACKOFF_SECS }
        },
    }
}

pub open spec fn handoff_after(handoff: Option<bool>, succeeded: bool) -> Option<bool> {
    match handoff {
        None => Some(succeeded),
        Some(h) => Some(h),
    }
}

/// The driver after a run of attempts with the given outcomes, in order.
pub open spec fn after_attempts(d: SyncDriver, outcomes: Seq<bool>) -> SyncDriver
    decreases outcomes.len(),
{
    if outcomes.len() == 0 {
        d
    } else {
        after_attempts(
            SyncDriver { handoff: handoff_after(d.handoff, outcomes[0]) },
            outcomes.drop_first(),
        )
    }
}

impl SyncDriver {
    /// A driver before its first attempt: nothing handed off yet.
    pub fn new() -> (r: SyncDriver)
        ensures
            r.handoff is None,
    {
        SyncDriver { handoff: None }
    }

    /// Records the outcome of one sync attempt and says what comes next.
    pub fn record_attempt(&mut self, succeeded: bool) -> (step: SyncStep)
        ensures
            step == step_of(old(self).handoff, succeeded),
            final(self).handoff == handoff_after(old(self).handoff, succeeded),
    {
        match self.handoff {
            None => {
                self.handoff = Some(succeeded);
                SyncStep::Report { succeeded }
            },
            Some(_) => {
                if succeeded {
                    SyncStep::SyncAgain
                } else {
                    SyncStep::Backoff { secs: SYNC_BACKOFF_SECS }
                }
            },
        }
    }
}

proof fn lemma_handoff_kept(d: SyncDriver, outcomes: Seq<bool>)
    requires
        d.handoff is Some,
    ensures
        after_attempts(d, outcomes).handoff == d.handoff,
    decreases outcomes.len(),
{
    if outcomes.len() > 0 {
        lemma_handoff_kept(
            SyncDriver { handoff: handoff_after(d.handoff, outcomes[0]) },
            outcomes.drop_first(),
        );
    }
}

/// Whatever the later attempts give, the outcome handed off to start-up is
/// that of the first attempt.
pub proof fn lemma_handoff_is_first_outcome(outcomes: Seq<bool>)
    requires
        outcomes.len() > 0,
    ensures
        after_attempts(SyncDriver { handoff: None }, outcomes).handoff == Some(outcomes[0]),
{
    lemma_handoff_kept(SyncDriver { handoff: Some(outcomes[0]) }, outcomes.drop_first());
}

} // verus!
