//! Per-signal duplicate classification kept by the zone runtime.
use vstd::prelude::*;

use crate::vehicle_state::ObservationDisposition;

verus! {

/// The running streak of one boolean signal: its last value and how often it repeated.
#[derive(Debug, Clone, Copy, PartialEq, Eq)]
pub struct ObservationStreak {
    current: Option<bool>,
    duplicates: u64,
}

impl Default for ObservationStreak {
    fn default() -> (s: ObservationStreak)
        ensures
            s.spec_current() is None,
            s.spec_duplicates() == 0,
    {
        ObservationStreak { current: None, duplicates: 0 }
    }
}

/// The classification of `value` against a streak, and the streak afterwards.
pub open spec fn spec_observe(current: Option<bool>, duplicates: u64, value: bool) -> (
    ObservationDisposition,
    Option<bool>,
    u64,
) {
    match current {
        None => (ObservationDisposition::Initial, Some(value), 0),
        Some(previous) => if previous == value {
            let n = if duplicates == u64::MAX {
                u64::MAX
            } else {
                (duplicates + 1) as u64
            };
            (ObservationDisposition::Duplicate { current_duplicates: n }, Some(value), n)
        } else {
            (ObservationDisposition::Changed { completed_duplicates: duplicates }, Some(value), 0)
        },
    }
}

impl ObservationStreak {
    /// The last observed value, if any.
    pub closed spec fn spec_current(self) -> Option<bool> {
        self.current
    }

    /// How often the last value repeated.
    pub closed spec fn spec_duplicates(self) -> u64 {
        self.duplicates
    }

    /// Classify one sample against the last one and update the streak: the first sample is
    /// `Initial`; a repeat is a `Duplicate` carrying the (saturating) repeat count; a new value
    /// is `Changed`, reporting how many repeats the ended streak had, and starts a new streak.
    pub fn observe(&mut self, value: bool) -> (d: ObservationDisposition)
        ensures
            (d, final(self).spec_current(), final(self).spec_duplicates()) == spec_observe(
                old(self).spec_current(),
                old(self).spec_duplicates(),
                value,
            ),
    {
        match self.current {
            None => {
                self.current = Some(value);
                self.duplicates = 0;
                ObservationDisposition::Initial
            },
            Some(previous) => if previous == value {
                self.duplicates = self.duplicates.saturating_add(1);
                ObservationDisposition::Duplicate { current_duplicates: self.duplicates }
            } else {
                let completed_duplicates = self.duplicates;
                self.current = Some(value);
                self.duplicates = 0;
                ObservationDisposition::Changed { completed_duplicates }
            },
        }
    }

    /// The last value and its repeat count, if any value was observed.
    pub fn pending_summary(&self) -> (r: Option<(bool, u64)>)
        ensures
            r == match self.spec_current() {
                Some(v) => Some((v, self.spec_duplicates())),
                None => None,
            },
    {
        match self.current {
            Some(value) => Some((value, self.duplicates)),
            None => None,
        }
    }
}

/// After any observation the summary reports exactly the value just observed.
pub proof fn lemma_observe_then_summary(current: Option<bool>, duplicates: u64, value: bool)
    ensures
        spec_observe(current, duplicates, value).1 == Some(value),
{
}

/// The streak after observing `vs`, in order, from a fresh (default) streak.
pub open spec fn spec_streak_after(vs: Seq<bool>) -> (Option<bool>, u64)
    decreases vs.len(),
{
    if vs.len() == 0 {
        (None, 0)
    } else {
        let before = spec_streak_after(vs.drop_last());
        let after = spec_observe(before.0, before.1, vs.last());
        (after.1, after.2)
    }
}

/// How many of the last samples of `vs` equal its last sample, in a row.
pub open spec fn spec_run_length(vs: Seq<bool>) -> nat
    decreases vs.len(),
{
    if vs.len() == 0 {
        0
    } else if vs.len() == 1 {
        1
    } else if vs[vs.len() - 2] == vs.last() {
        spec_run_length(vs.drop_last()) + 1
    } else {
        1
    }
}

/// `n`, saturating at `u64::MAX`.
pub open spec fn spec_saturated(n: int) -> u64 {
    if n > u64::MAX {
        u64::MAX
    } else {
        n as u64
    }
}

/// The summary a streak reports after observing `vs` from fresh: nothing before the first
/// sample; afterwards the last sample and how many times it repeated at the end of the sequence
/// (the length of its final run, less one, saturating).
pub proof fn law_streak_summary_after_observations(vs: Seq<bool>)
    ensures
        vs.len() == 0 ==> spec_streak_after(vs).0 is None,
        vs.len() > 0 ==> spec_streak_after(vs).0 == Some(vs.last()),
        vs.len() > 0 ==> spec_run_length(vs) >= 1,
        vs.len() > 0 ==> spec_streak_after(vs).1 == spec_saturated(spec_run_length(vs) - 1),
    decreases vs.len(),
{
    if vs.len() == 1 {
        assert(vs.drop_last().len() == 0);
        assert(spec_streak_after(vs.drop_last()) == (None::<bool>, 0u64));
    } else if vs.len() > 1 {
        let prev = vs.drop_last();
        law_streak_summary_after_observations(prev);
        assert(prev.last() == vs[vs.len() - 2]);
        let before = spec_streak_after(prev);
        let r = spec_run_length(prev);
        if vs[vs.len() - 2] == vs.last() {
            assert(spec_run_length(vs) == r + 1);
            assert(before.1 == spec_saturated(r - 1));
        } else {
            assert(spec_run_length(vs) == 1);
        }
    }
}

} // verus!
