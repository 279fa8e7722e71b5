//! A timer-gated fault latch with time-based debouncing.

use vstd::prelude::*;

verus! {

/// A boolean condition debounced over time.
///
/// The latch reports a fault only once its condition has held continuously
/// for a caller-supplied minimum duration, and reports recovery only once
/// the condition has been continuously false for as long. A single
/// instantaneous excursion therefore never trips a fault and never clears
/// one.
#[derive(Clone, Copy, Debug, PartialEq, Eq, Structural)]
pub struct HysteresisFault {
    /// Time at which the condition last became true, while it stays true.
    pub condition_true_since: Option<u64>,
    /// Time at which the condition last became false, while it stays false.
    pub condition_false_since: Option<u64>,
}

impl HysteresisFault {
    /// Every timestamp the latch holds was observed no later than `now`.
    pub open spec fn observed_by(self, now: u64) -> bool {
        &&& (self.condition_true_since matches Some(t) ==> t <= now)
        &&& (self.condition_false_since matches Some(t) ==> t <= now)
    }

    /// The latch state after one check at time `now`.
    pub open spec fn spec_step(self, condition_now: bool, now: u64) -> HysteresisFault {
        if condition_now {
            HysteresisFault {
                condition_true_since: if self.condition_true_since is Some {
                    self.condition_true_since
                } else {
                    Some(now)
                },
                condition_false_since: None,
            }
        } else {
            HysteresisFault {
                condition_true_since: None,
                condition_false_since: if self.condition_false_since is Some {
                    self.condition_false_since
                } else {
                    Some(now)
                },
            }
        }
    }

    /// Whether a check at time `now` reports the fault.
    pub open spec fn spec_trips(self, condition_now: bool, min_duration: u64, now: u64) -> bool {
        condition_now && match self.condition_true_since {
            Some(t) => now >= t + min_duration,
            None => min_duration == 0,
        }
    }

    /// Whether the condition has been continuously false for `min_duration`
    /// at time `now`.
    pub open spec fn spec_cleared(self, min_duration: u64, now: u64) -> bool {
        match self.condition_false_since {
            Some(t) => now >= t + min_duration,
            None => false,
        }
    }

    /// A fresh latch that has observed no condition yet.
    pub fn new() -> (r: Self)
        ensures
            r.condition_true_since is None,
            r.condition_false_since is None,
    {
        HysteresisFault { condition_true_since: None, condition_false_since: None }
    }

    /// Feeds the current condition value and reports whether it has held
    /// continuously for at least `min_duration`.
    ///
    /// The internal timestamp is recorded on a false-to-true transition and
    /// cleared the instant the condition is false again.
    pub fn condition_exceeded_duration(
        &mut self,
        condition_now: bool,
        min_duration: u64,
        now: u64,
    ) -> (r: bool)
        requires
            old(self).observed_by(now),
        ensures
            *final(self) == old(self).spec_step(condition_now, now),
            r == old(self).spec_trips(condition_now, min_duration, now),
            final(self).observed_by(now),
    {
        if condition_now {
            let since: u64 = match self.condition_true_since {
                Some(t) => t,
                None => now,
            };
            self.condition_true_since = Some(since);
            self.condition_false_since = None;
            now - since >= min_duration
        } else {
            let since: u64 = match self.condition_false_since {
                Some(t) => t,
                None => now,
            };
            self.condition_true_since = None;
            self.condition_false_since = Some(since);
            false
        }
    }

    /// Reports whether the condition has been continuously false for at
    /// least `min_duration`, without feeding a new condition value.
    pub fn condition_cleared_duration(&self, min_duration: u64, now: u64) -> (r: bool)
        requires
            self.observed_by(now),
        ensures
            r == self.spec_cleared(min_duration, now),
    {
        match self.condition_false_since {
            Some(t) => now - t >= min_duration,
            None => false,
        }
    }
}

/// The latch state after a fresh latch has checked every sample in order;
/// each sample pairs a timestamp with the condition value observed then.
pub open spec fn spec_run(samples: Seq<(u64, bool)>) -> HysteresisFault
    decreases samples.len(),
{
    if samples.len() == 0 {
        HysteresisFault { condition_true_since: None, condition_false_since: None }
    } else {
        spec_run(samples.drop_last()).spec_step(samples.last().1, samples.last().0)
    }
}

/// One further check extends a run of checks: the model steps exactly as
/// `condition_exceeded_duration` says the latch does.
pub proof fn lemma_spec_run_snoc(samples: Seq<(u64, bool)>, now: u64, condition_now: bool)
    ensures
        spec_run(samples.push((now, condition_now))) == spec_run(samples).spec_step(
            condition_now,
            now,
        ),
{
    let extended = samples.push((now, condition_now));
    assert(extended.drop_last() =~= samples);
    assert(extended.last() == (now, condition_now));
}

/// The condition held at every sample from `j` to the end.
pub open spec fn true_throughout(samples: Seq<(u64, bool)>, j: int) -> bool {
    forall|k: int| j <= k < samples.len() ==> #[trigger] samples[k].1
}

/// Sample `j` opens the trailing window during which the condition held
/// without interruption, and the window started at time `t`.
pub open spec fn continuous_window_start(samples: Seq<(u64, bool)>, j: int, t: u64) -> bool {
    &&& 0 <= j < samples.len()
    &&& samples[j].0 == t
    &&& true_throughout(samples, j)
}

/// Whatever run of checks a latch has seen, its recorded start-of-streak
/// timestamp marks the opening of an unbroken run of true conditions that
/// reaches the latest sample.
pub proof fn lemma_true_since_continuous(samples: Seq<(u64, bool)>)
    requires
        spec_run(samples).condition_true_since is Some,
    ensures
        exists|j: int|
            continuous_window_start(samples, j, spec_run(samples).condition_true_since.unwrap()),
    decreases samples.len(),
{
    let t = spec_run(samples).condition_true_since.unwrap();
    let prefix = samples.drop_last();
    let last = samples.last();
    assert(samples.len() > 0);
    assert(last.1);
    if spec_run(prefix).condition_true_since is Some {
        lemma_true_since_continuous(prefix);
        let j = choose|j: int|
            continuous_window_start(prefix, j, spec_run(prefix).condition_true_since.unwrap());
        assert(samples[j] == prefix[j]);
        assert forall|k: int| j <= k < samples.len() implies #[trigger] samples[k].1 by {
            if k < samples.len() - 1 {
                assert(samples[k] == prefix[k]);
                assert(prefix[k].1);
            } else {
                assert(samples[k] == last);
            }
        }
        assert(continuous_window_start(samples, j, t));
    } else {
        let j = samples.len() - 1;
        assert(samples[j] == last);
        assert forall|k: int| j <= k < samples.len() implies #[trigger] samples[k].1 by {
            assert(samples[k] == last);
        }
        assert(continuous_window_start(samples, j, t));
    }
}

/// Sample `j` opens an unbroken run of true conditions reaching the latest
/// sample, and at least `min_duration` has passed since then.
pub open spec fn trip_window(
    samples: Seq<(u64, bool)>,
    j: int,
    min_duration: u64,
    now: u64,
) -> bool {
    &&& 0 <= j < samples.len()
    &&& now >= samples[j].0 + min_duration
    &&& true_throughout(samples, j)
}

/// A hysteresis latch never reports a fault before its condition has held
/// continuously for the minimum duration: whenever a check at time `now`
/// trips after any run of earlier checks, the condition was observed true
/// over an unbroken trailing window opened at least `min_duration` before
/// `now`. An intermittent condition therefore never trips until a fresh
/// continuous window of the full duration has been observed.
pub proof fn lemma_never_trips_early(
    samples: Seq<(u64, bool)>,
    condition_now: bool,
    min_duration: u64,
    now: u64,
)
    requires
        min_duration > 0,
        spec_run(samples).spec_trips(condition_now, min_duration, now),
    ensures
        condition_now,
        exists|j: int| trip_window(samples, j, min_duration, now),
{
    lemma_true_since_continuous(samples);
    let t = spec_run(samples).condition_true_since.unwrap();
    let j = choose|j: int| continuous_window_start(samples, j, t);
    assert(trip_window(samples, j, min_duration, now));
}

} // verus!
