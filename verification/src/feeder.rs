//! The sampler's state and the decisions it takes on every tick.
//!
//! The sampler runs on a fixed cadence. On each tick it finds out whether the
//! estimator it feeds still exists, reads the cumulative busy time of the
//! pool, and folds the busy time since the previous tick into the smoothed
//! ratio. Waiting for the tick, resolving the estimator and reading the
//! counters happen outside; this module decides what follows from them.

use crate::duration::duration_millis;
use std::time::Duration;
use vstd::prelude::*;

verus! {

/// Nanoseconds in one millisecond.
pub const NANOS_PER_MILLI: u128 = 1_000_000;

/// The sum of the cumulative busy times of the workers.
pub open spec fn total_busy_nanos(worker_busy_nanos: Seq<u128>) -> int
    decreases worker_busy_nanos.len(),
{
    if worker_busy_nanos.len() == 0 {
        0
    } else {
        total_busy_nanos(worker_busy_nanos.drop_last()) + worker_busy_nanos.last()
    }
}

/// The cumulative busy time averaged across the workers, in whole
/// milliseconds: the sum is divided by the number of workers first and
/// the quotient by the nanoseconds in a millisecond, each rounding down.
pub open spec fn mean_busy_millis_of(worker_busy_nanos: Seq<u128>) -> int
    recommends
        worker_busy_nanos.len() > 0,
{
    total_busy_nanos(worker_busy_nanos) / (worker_busy_nanos.len() as int) / (NANOS_PER_MILLI as int)
}

/// The sum over a prefix never exceeds the sum over the whole.
pub proof fn lemma_total_busy_nanos_prefix(worker_busy_nanos: Seq<u128>, n: int)
    requires
        0 <= n <= worker_busy_nanos.len(),
    ensures
        total_busy_nanos(worker_busy_nanos.take(n)) <= total_busy_nanos(worker_busy_nanos),
    decreases worker_busy_nanos.len(),
{
    if n == worker_busy_nanos.len() {
        assert(worker_busy_nanos.take(n) =~= worker_busy_nanos);
    } else {
        lemma_total_busy_nanos_prefix(worker_busy_nanos.drop_last(), n);
        assert(worker_busy_nanos.drop_last().take(n) =~= worker_busy_nanos.take(n));
    }
}

/// Averages the cumulative busy times of the workers, given in nanoseconds,
/// into whole milliseconds. There is no mean of no workers, and none where
/// the sum does not fit in 128 bits.
pub fn mean_busy_millis(worker_busy_nanos: &Vec<u128>) -> (mean: Option<u128>)
    ensures
        mean.is_some() <==> worker_busy_nanos@.len() > 0 && total_busy_nanos(worker_busy_nanos@)
            <= u128::MAX,
        mean matches Some(millis) ==> millis == mean_busy_millis_of(worker_busy_nanos@),
{
    let workers: usize = worker_busy_nanos.len();
    if workers == 0 {
        return None;
    }
    let mut total: u128 = 0;
    let mut i: usize = 0;
    while i < workers
        invariant
            workers == worker_busy_nanos@.len(),
            0 <= i <= workers,
            total == total_busy_nanos(worker_busy_nanos@.take(i as int)),
        decreases workers - i,
    {
        let busy: u128 = worker_busy_nanos[i];
        proof {
            assert(worker_busy_nanos@.take(i + 1).drop_last() =~= worker_busy_nanos@.take(
                i as int,
            ));
            lemma_total_busy_nanos_prefix(worker_busy_nanos@, i + 1);
        }
        if busy > u128::MAX - total {
            return None;
        }
        total = total + busy;
        i = i + 1;
    }
    proof {
        assert(worker_busy_nanos@.take(workers as int) =~= worker_busy_nanos@);
    }
    Some(total / (workers as u128) / NANOS_PER_MILLI)
}

/// What the sampler found on a tick.
#[derive(Debug, Clone, Copy, PartialEq, Eq)]
pub enum Observation {
    /// The estimator is gone: no handle to it is left.
    TargetGone,
    /// The estimator is alive, and the pool's cumulative busy time, averaged
    /// across its workers, now stands at this many milliseconds.
    Busy(u128),
}

/// What the sampler does after a tick.
#[derive(Debug, Clone, Copy, PartialEq, Eq)]
pub enum Action {
    /// End the sampling loop for good.
    Stop,
    /// Fold this many milliseconds of busy time, spent since the previous
    /// tick, into the smoothed ratio and publish it.
    Fold(u128),
}

/// The sampler's state as the contracts see it.
pub struct FeederState {
    /// The sampling interval.
    pub interval: Duration,
    /// The weight of the previous smoothed value, as the bits of a
    /// single-precision number.
    pub ewma_alpha: u32,
    /// The cumulative busy time at the previous tick, in milliseconds.
    pub latest_total_busy_accumulated: u128,
    /// Whether the sampler has ended.
    pub stopped: bool,
}

/// The state after a tick.
pub open spec fn state_after(state: FeederState, observed: Observation) -> FeederState {
    match observed {
        Observation::Busy(total) if !state.stopped => FeederState {
            latest_total_busy_accumulated: total,
            ..state
        },
        _ => FeederState { stopped: true, ..state },
    }
}

/// The action that a tick calls for.
pub open spec fn action_after(state: FeederState, observed: Observation) -> Action {
    match observed {
        Observation::Busy(total) if !state.stopped => Action::Fold(
            (total - state.latest_total_busy_accumulated) as u128,
        ),
        _ => Action::Stop,
    }
}

/// Whether the counters may be observed in this state: cumulative busy time
/// never runs backwards.
pub open spec fn observable(state: FeederState, observed: Observation) -> bool {
    observed matches Observation::Busy(total) ==> state.stopped
        || state.latest_total_busy_accumulated <= total
}

/// A sampler that has ended stays ended: whatever it observes, it stops
/// again and its state does not change.
pub proof fn lemma_stop_is_final(state: FeederState, observed: Observation)
    requires
        state.stopped,
    ensures
        action_after(state, observed) == Action::Stop,
        state_after(state, observed) == state,
{
}

/// A running sampler ends on exactly one observation: that the estimator is
/// gone. It is then ended for good.
pub proof fn lemma_stops_only_where_target_is_gone(state: FeederState, observed: Observation)
    requires
        !state.stopped,
    ensures
        action_after(state, observed) == Action::Stop <==> observed == Observation::TargetGone,
        state_after(state, observed).stopped <==> observed == Observation::TargetGone,
{
}

/// Over two ticks of a running sampler the busy times that are folded add up
/// to the growth of the cumulative busy time: none is lost and none is
/// counted twice.
pub proof fn lemma_folds_add_up(state: FeederState, first: u128, second: u128)
    requires
        !state.stopped,
        state.latest_total_busy_accumulated <= first <= second,
    ensures
        ({
            let between = state_after(state, Observation::Busy(first));
            &&& action_after(state, Observation::Busy(first)) matches Action::Fold(early)
            &&& action_after(between, Observation::Busy(second)) matches Action::Fold(late)
            &&& early + late == second - state.latest_total_busy_accumulated
        }),
{
}

/// The sampler that feeds one estimator.
pub struct LoadFeeder {
    interval: Duration,
    ewma_alpha: u32,
    latest_total_busy_accumulated: u128,
    stopped: bool,
}

impl View for LoadFeeder {
    type V = FeederState;

    closed spec fn view(&self) -> FeederState {
        FeederState {
            interval: self.interval,
            ewma_alpha: self.ewma_alpha,
            latest_total_busy_accumulated: self.latest_total_busy_accumulated,
            stopped: self.stopped,
        }
    }
}

impl LoadFeeder {
    /// Creates a sampler that has seen no busy time yet.
    pub fn new(interval: Duration, ewma_alpha: u32) -> (feeder: Self)
        ensures
            feeder@ == (FeederState {
                interval,
                ewma_alpha,
                latest_total_busy_accumulated: 0,
                stopped: false,
            }),
    {
        LoadFeeder { interval, ewma_alpha, latest_total_busy_accumulated: 0, stopped: false }
    }

    /// The sampling interval.
    pub fn interval(&self) -> (interval: Duration)
        ensures
            interval == self@.interval,
    {
        self.interval
    }

    /// The sampling interval in whole milliseconds.
    pub fn interval_millis(&self) -> (millis: u128)
        ensures
            millis == duration_millis(self@.interval),
    {
        self.interval.as_millis()
    }

    /// The weight of the previous smoothed value, as the bits of a
    /// single-precision number.
    pub fn ewma_alpha(&self) -> (bits: u32)
        ensures
            bits == self@.ewma_alpha,
    {
        self.ewma_alpha
    }

    /// The cumulative busy time at the previous tick, in milliseconds.
    pub fn latest_total_busy_accumulated(&self) -> (millis: u128)
        ensures
            millis == self@.latest_total_busy_accumulated,
    {
        self.latest_total_busy_accumulated
    }

    /// Whether the sampler has ended.
    pub fn stopped(&self) -> (stopped: bool)
        ensures
            stopped == self@.stopped,
    {
        self.stopped
    }

    /// Records the cumulative busy time from which the first tick measures.
    pub fn start(&mut self, total_busy_accumulated: u128)
        ensures
            final(self)@ == (FeederState {
                latest_total_busy_accumulated: total_busy_accumulated,
                ..old(self)@
            }),
    {
        self.latest_total_busy_accumulated = total_busy_accumulated;
    }

    /// Takes one tick: ends the sampler where the estimator is gone, and
    /// otherwise measures the busy time since the previous tick.
    pub fn tick(&mut self, observed: Observation) -> (action: Action)
        requires
            observable(old(self)@, observed),
        ensures
            final(self)@ == state_after(old(self)@, observed),
            action == action_after(old(self)@, observed),
    {
        if self.stopped {
            return Action::Stop;
        }
        match observed {
            Observation::TargetGone => {
                self.stopped = true;
                Action::Stop
            },
            Observation::Busy(total_busy_accumulated) => {
                let total_busy_since_last_iteration: u128 = total_busy_accumulated
                    - self.latest_total_busy_accumulated;
                self.latest_total_busy_accumulated = total_busy_accumulated;
                Action::Fold(total_busy_since_last_iteration)
            },
        }
    }
}

} // verus!
