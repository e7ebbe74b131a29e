//! Recovery of an empty pool: one worker reloads the accounts again and again,
//! after ever longer delays, until there are sessions.

use crate::client::SekaiClient;
use vstd::arithmetic::power2::{lemma2_to64, lemma_pow2_unfold, pow2};
use vstd::prelude::*;

verus! {

/// The delay before the first attempt, in nanoseconds.
pub const INITIAL_RECOVERY_DELAY: u128 = 5_000_000_000;

/// The longest delay between two attempts, in nanoseconds.
pub const MAX_RECOVERY_DELAY: u128 = 300_000_000_000;

/// Twice as long, but no longer than the longest delay.
pub open spec fn longer_delay(current: int) -> int {
    if 2 * current <= MAX_RECOVERY_DELAY {
        2 * current
    } else {
        MAX_RECOVERY_DELAY as int
    }
}

/// The delay that follows on another, in nanoseconds.
pub fn next_recovery_delay(current: u128) -> (r: u128)
    ensures
        r == longer_delay(current as int),
{
    if current <= MAX_RECOVERY_DELAY / 2 {
        current * 2
    } else {
        MAX_RECOVERY_DELAY
    }
}

/// What a claim does: whether it is granted, which it is where the recovery is
/// free, and whether the recovery is claimed then.
pub open spec fn claim(claimed: bool) -> (bool, bool) {
    (!claimed, true)
}

/// Claims the recovery; says whether it was free.
pub fn try_claim_recovery(flag: &mut bool) -> (r: bool)
    ensures
        (r, *final(flag)) == claim(*old(flag)),
{
    let free = !*flag;
    *flag = true;
    free
}

/// Leaves the recovery to whoever claims it next.
pub fn release_recovery(flag: &mut bool)
    ensures
        !*final(flag),
{
    *flag = false;
}

/// What the worker is about.
#[derive(Debug, Clone, Copy, PartialEq, Eq, Structural)]
pub enum RecoveryPhase {
    /// It waits for the end of the delay.
    Sleeping,
    /// It waits until no other reload is on its way.
    Locking,
    /// It waits for the end of its reload.
    Reloading,
    /// There are sessions again.
    Finished,
}

/// How far the worker has got.
#[derive(Debug, Clone, Copy, PartialEq, Eq, Structural)]
pub struct Recovery {
    /// The delay of this attempt, in nanoseconds.
    pub delay: u128,
    pub phase: RecoveryPhase,
}

/// What the worker has to do next.
#[derive(Debug, Clone, Copy, PartialEq, Eq, Structural)]
pub enum RecoveryAction {
    /// Wait for so many nanoseconds.
    Sleep(u128),
    /// Wait until no other reload is on its way, and keep others from
    /// beginning.
    Lock,
    /// Reload the accounts, and let others reload again.
    Reload,
    /// Leave the recovery.
    Finish,
}

impl Recovery {
    /// The first attempt.
    pub open spec fn first() -> (Recovery, RecoveryAction) {
        (
            Recovery { delay: INITIAL_RECOVERY_DELAY, phase: RecoveryPhase::Sleeping },
            RecoveryAction::Sleep(INITIAL_RECOVERY_DELAY),
        )
    }

    /// What follows when the last action is done and there are so many sessions:
    /// with any session the recovery is over, without one it goes on.
    pub open spec fn after(self, session_count: nat) -> (Recovery, RecoveryAction) {
        if session_count > 0 {
            (Recovery { phase: RecoveryPhase::Finished, ..self }, RecoveryAction::Finish)
        } else {
            match self.phase {
                RecoveryPhase::Sleeping => (
                    Recovery { phase: RecoveryPhase::Locking, ..self },
                    RecoveryAction::Lock,
                ),
                RecoveryPhase::Locking => (
                    Recovery { phase: RecoveryPhase::Reloading, ..self },
                    RecoveryAction::Reload,
                ),
                RecoveryPhase::Reloading => {
                    let delay = longer_delay(self.delay as int) as u128;
                    (
                        Recovery { delay, phase: RecoveryPhase::Sleeping },
                        RecoveryAction::Sleep(delay),
                    )
                },
                RecoveryPhase::Finished => (self, RecoveryAction::Finish),
            }
        }
    }
}

impl<S> SekaiClient<S> {
    /// Begins the recovery of the pool, where it is empty and nobody is at work
    /// on it.
    pub fn start_empty_pool_recovery(&mut self) -> (r: Option<(Recovery, RecoveryAction)>)
        ensures
            old(self).pool.sessions@.len() > 0 || old(self).recovery_started ==> {
                &&& r is None
                &&& *final(self) == *old(self)
            },
            old(self).pool.sessions@.len() == 0 && !old(self).recovery_started ==> {
                &&& r == Some(Recovery::first())
                &&& *final(self) == (SekaiClient { recovery_started: true, ..*old(self) })
            },
    {
        if self.session_count() > 0 || !try_claim_recovery(&mut self.recovery_started) {
            return None;
        }
        Some(
            (
                Recovery { delay: INITIAL_RECOVERY_DELAY, phase: RecoveryPhase::Sleeping },
                RecoveryAction::Sleep(INITIAL_RECOVERY_DELAY),
            ),
        )
    }

    /// What follows when the worker's last action is done.
    pub fn continue_recovery(&self, recovery: Recovery) -> (r: (Recovery, RecoveryAction))
        ensures
            r == recovery.after(self.pool.sessions@.len()),
    {
        if self.session_count() > 0 {
            return (
                Recovery { phase: RecoveryPhase::Finished, ..recovery },
                RecoveryAction::Finish,
            );
        }
        match recovery.phase {
            RecoveryPhase::Sleeping => (
                Recovery { phase: RecoveryPhase::Locking, ..recovery },
                RecoveryAction::Lock,
            ),
            RecoveryPhase::Locking => (
                Recovery { phase: RecoveryPhase::Reloading, ..recovery },
                RecoveryAction::Reload,
            ),
            RecoveryPhase::Reloading => {
                let delay: u128 = next_recovery_delay(recovery.delay);
                (Recovery { delay, phase: RecoveryPhase::Sleeping }, RecoveryAction::Sleep(delay))
            },
            RecoveryPhase::Finished => (recovery, RecoveryAction::Finish),
        }
    }
}

// ---------------------------------------------------------------------------
// Laws
// ---------------------------------------------------------------------------

/// The delay before an attempt, counted from 0.
pub open spec fn delay_before(attempt: nat) -> int
    decreases attempt,
{
    if attempt == 0 {
        INITIAL_RECOVERY_DELAY as int
    } else {
        longer_delay(delay_before((attempt - 1) as nat))
    }
}

/// The delays double from one attempt to the next, until they reach the longest
/// delay; there they stay.
pub proof fn delays_double_up_to_the_longest(attempt: nat)
    ensures
        delay_before(attempt) == if INITIAL_RECOVERY_DELAY * pow2(attempt) <= MAX_RECOVERY_DELAY {
            INITIAL_RECOVERY_DELAY * pow2(attempt)
        } else {
            MAX_RECOVERY_DELAY as int
        },
        INITIAL_RECOVERY_DELAY <= delay_before(attempt) <= MAX_RECOVERY_DELAY,
        delay_before(attempt) <= delay_before(attempt + 1),
    decreases attempt,
{
    lemma2_to64();
    if attempt > 0 {
        let before = (attempt - 1) as nat;
        delays_double_up_to_the_longest(before);
        lemma_pow2_unfold(attempt);
        assert(INITIAL_RECOVERY_DELAY * pow2(attempt) == 2 * (INITIAL_RECOVERY_DELAY * pow2(
            before,
        ))) by (nonlinear_arith)
            requires
                pow2(attempt) == 2 * pow2(before),
        ;
    }
}

/// No delay is longer than the longest one, wherever one starts.
pub proof fn delays_are_capped(current: int)
    ensures
        longer_delay(current) <= MAX_RECOVERY_DELAY,
        longer_delay(MAX_RECOVERY_DELAY as int) == MAX_RECOVERY_DELAY,
{
}

/// How many of so many claims in a row are granted, where nobody leaves the
/// recovery in between.
pub open spec fn granted_claims(claimed: bool, claims: nat) -> nat
    decreases claims,
{
    if claims == 0 {
        0
    } else {
        (if claim(claimed).0 {
            1nat
        } else {
            0
        }) + granted_claims(claim(claimed).1, (claims - 1) as nat)
    }
}

/// Of any number of workers that claim the recovery one gets it, and none where
/// it is claimed already.
pub proof fn one_worker_recovers_the_pool(claimed: bool, claims: nat)
    ensures
        granted_claims(claimed, claims) == if claimed || claims == 0 {
            0nat
        } else {
            1
        },
    decreases claims,
{
    if claims > 0 {
        one_worker_recovers_the_pool(true, (claims - 1) as nat);
    }
}

/// A worker that finds sessions stops, whatever it is about; one that finds none
/// sleeps, waits for its turn and reloads, in this order, and then sleeps for the
/// next delay.
pub proof fn workers_go_on_until_there_are_sessions(recovery: Recovery, session_count: nat)
    requires
        recovery.phase is Sleeping,
    ensures
        session_count > 0 ==> recovery.after(session_count).1 is Finish,
        session_count == 0 ==> {
            let locking = recovery.after(0).0;
            let reloading = locking.after(0).0;
            &&& recovery.after(0).1 is Lock
            &&& locking.after(0).1 is Reload
            &&& reloading.after(0).1 == RecoveryAction::Sleep(
                longer_delay(recovery.delay as int) as u128,
            )
            &&& locking.after(1).1 is Finish
            &&& reloading.after(1).1 is Finish
        },
{
}

/// The first delay is five seconds, each delay is twice the one before, and none
/// is longer than five minutes.
pub proof fn delays_are_five_seconds_to_five_minutes(attempt: nat)
    ensures
        delay_before(attempt) == if 5_000_000_000 * pow2(attempt) <= 300_000_000_000 {
            5_000_000_000 * pow2(attempt)
        } else {
            300_000_000_000
        },
        Recovery::first().0.delay == 5_000_000_000,
        Recovery::first().1 == RecoveryAction::Sleep(5_000_000_000),
        Recovery::first().0.phase is Sleeping,
{
    delays_double_up_to_the_longest(attempt);
}

/// A delay is followed by twice as long a delay, but by none of more than five
/// minutes.
pub proof fn each_delay_is_twice_the_one_before(current: int)
    ensures
        2 * current <= 300_000_000_000 ==> longer_delay(current) == 2 * current,
        2 * current > 300_000_000_000 ==> longer_delay(current) == 300_000_000_000,
{
}

/// A worker ends as soon as it finds a session, in whatever phase, and at no other
/// time.
pub proof fn workers_end_with_the_first_session(recovery: Recovery, session_count: nat)
    requires
        !(recovery.phase is Finished),
    ensures
        recovery.after(session_count).1 is Finish <==> session_count > 0,
        recovery.after(session_count).0.phase is Finished <==> session_count > 0,
        recovery.phase is Locking && session_count == 0 ==> recovery.after(session_count).0.phase
            is Reloading && recovery.after(session_count).1 is Reload,
        recovery.phase is Reloading && session_count == 0 ==> recovery.after(session_count).0.phase
            is Sleeping && recovery.after(session_count).0.delay == longer_delay(
            recovery.delay as int,
        ) && recovery.after(session_count).1 == RecoveryAction::Sleep(
            recovery.after(session_count).0.delay,
        ),
        recovery.phase is Sleeping && session_count == 0 ==> recovery.after(session_count).0.phase
            is Locking && recovery.after(session_count).1 is Lock,
        !(recovery.phase is Reloading) ==> recovery.after(session_count).0.delay == recovery.delay,
{
}

/// A claim is granted exactly where nobody holds the recovery, and then it is
/// held.
pub proof fn claims_are_granted_while_free()
    ensures
        claim(false) == (true, true),
        claim(true) == (false, true),
{
}

} // verus!
