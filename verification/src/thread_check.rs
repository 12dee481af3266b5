//! Enforces that Postgres is only ever called from one thread.
//!
//! It's UB to call into Postgres functions from multiple threads.  The first thread to
//! call into Postgres is remembered (by a nonzero id, with 0 meaning "none yet"), and a
//! call from any other thread is refused.
use vstd::prelude::*;

verus! {

/// What a thread check decides.
pub enum ThreadCheck {
    /// No thread is recorded yet: record the current one (if no other thread beats it).
    Claim,
    /// The current thread is the recorded one.
    Pass,
    /// Another thread is recorded: the check fails.
    Fail,
}

/// The check for the thread `current` against the recorded thread `active`
/// (0 when none is recorded).
pub open spec fn spec_check(active: usize, current: usize) -> ThreadCheck {
    if active == 0 {
        ThreadCheck::Claim
    } else if active == current {
        ThreadCheck::Pass
    } else {
        ThreadCheck::Fail
    }
}

/// Decides the check for the thread `current` (nonzero) against the recorded thread
/// `active` (0 when none is recorded).
pub fn check_active_thread(active: usize, current: usize) -> (r: ThreadCheck)
    requires
        current != 0,
    ensures
        r == spec_check(active, current),
{
    if active == 0 {
        ThreadCheck::Claim
    } else if current != active {
        ThreadCheck::Fail
    } else {
        ThreadCheck::Pass
    }
}

/// Whether claiming the thread succeeded, given the outcome of the compare-and-exchange
/// of the recorded id from 0 to the current thread's id: it succeeds exactly when the
/// exchange did, and fails when another thread was recorded first.
pub fn init_active_thread(exchanged: Result<usize, usize>) -> (r: bool)
    ensures
        r == exchanged is Ok,
{
    match exchanged {
        Ok(_) => true,
        Err(_) => false,
    }
}

/// The recorded thread after a check by `current` against `active`: a claim records
/// `current` (when the exchange succeeds), and otherwise nothing changes.
pub open spec fn recorded_after(active: usize, current: usize) -> usize {
    if active == 0 {
        current
    } else {
        active
    }
}

/// Once the thread `first` has been recorded (whether it claimed the slot or found
/// itself there), it passes every later check, every other thread fails it, and
/// the recorded thread never changes again.
pub proof fn lemma_only_recorded_thread_passes(active: usize, first: usize, later: usize)
    requires
        first != 0,
        later != 0,
        active == 0 || active == first,
    ensures
        recorded_after(active, first) == first,
        spec_check(recorded_after(active, first), later) is Pass <==> later == first,
        spec_check(recorded_after(active, first), later) is Fail <==> later != first,
        recorded_after(recorded_after(active, first), later) == first,
{
}

} // verus!
