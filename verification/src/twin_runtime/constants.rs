//! Timing and retry budget of zone tell-backs.
use vstd::prelude::*;

use crate::time::Duration;

verus! {

/// How long the brain waits for one zone tell-back before re-telling, in milliseconds.
pub const ZONE_TELL_BACK_WAIT_MILLIS: u64 = 50;

/// How often a silent zone is told again before the brain gives up on it.
pub const ZONE_TELL_BACK_MAX_RETRIES: u32 = 2;

/// Tells per turn and zone in all: the first one and every retry.
pub const ZONE_TELL_BACK_ATTEMPT_COUNT: usize = 3;

/// How long the brain waits for one zone tell-back before re-telling.
pub fn zone_tell_back_wait() -> (d: Duration)
    ensures
        d@ == ZONE_TELL_BACK_WAIT_MILLIS * 1_000_000,
{
    Duration::from_millis(ZONE_TELL_BACK_WAIT_MILLIS)
}

/// The attempt count is the first tell plus every retry.
pub proof fn lemma_attempts_are_first_tell_and_retries()
    ensures
        ZONE_TELL_BACK_ATTEMPT_COUNT == ZONE_TELL_BACK_MAX_RETRIES + 1,
{
}

} // verus!
