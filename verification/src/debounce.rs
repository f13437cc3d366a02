//! Coalescing bursts of changes: after a firing, further events are dropped
//! until the minimum interval has passed.

use vstd::prelude::*;

verus! {

/// The minimum interval, in milliseconds, that a watcher uses unless told
/// otherwise.
pub const DEFAULT_INTERVAL_MS: u64 = 100;

/// What the debouncer decides for one event.
#[derive(Clone, Copy, Debug, PartialEq, Eq, Structural)]
pub enum Decision {
    /// The event is dropped.
    Suppress,
    /// The event triggers a run.
    Fire,
}

/// What the debouncer remembers between events. Timestamps are milliseconds
/// on the caller's clock.
#[derive(Clone, Copy, Debug, PartialEq, Eq, Structural)]
pub struct DebounceState {
    /// The timestamp of the latest event that fired.
    pub last_fired_at: Option<u64>,
    /// The timestamp of the first event dropped since the latest firing.
    pub pending_since: Option<u64>,
}

/// The state before any event.
pub open spec fn fresh() -> DebounceState {
    DebounceState { last_fired_at: None, pending_since: None }
}

/// An event at `now` may fire: nothing has fired yet, or at least `interval`
/// has passed since the latest firing.
pub open spec fn due(state: DebounceState, interval: u64, now: u64) -> bool {
    match state.last_fired_at {
        None => true,
        Some(last) => now - last >= interval,
    }
}

/// The decision for an event at `now`.
pub open spec fn decide(state: DebounceState, interval: u64, now: u64) -> Decision {
    if due(state, interval, now) {
        Decision::Fire
    } else {
        Decision::Suppress
    }
}

/// The state after an event at `now`. A dropped event leaves the time of the
/// latest firing as it was: it does not extend the quiet period.
pub open spec fn advance(state: DebounceState, interval: u64, now: u64) -> DebounceState {
    if due(state, interval, now) {
        DebounceState { last_fired_at: Some(now), pending_since: None }
    } else {
        DebounceState {
            last_fired_at: state.last_fired_at,
            pending_since: match state.pending_since {
                None => Some(now),
                Some(first) => Some(first),
            },
        }
    }
}

/// The state after the first `n` of the events at `times`.
pub open spec fn state_at(state: DebounceState, interval: u64, times: Seq<u64>, n: nat) -> DebounceState
    decreases n,
{
    if n == 0 {
        state
    } else {
        advance(state_at(state, interval, times, (n - 1) as nat), interval, times[n - 1])
    }
}

/// The decision for the event at `times[k]`, after the events before it.
pub open spec fn decision_at(state: DebounceState, interval: u64, times: Seq<u64>, k: int) -> Decision {
    decide(state_at(state, interval, times, k as nat), interval, times[k])
}

/// The decisions for the events at `times`, in order.
pub open spec fn decisions(state: DebounceState, interval: u64, times: Seq<u64>) -> Seq<Decision> {
    Seq::new(times.len(), |k: int| decision_at(state, interval, times, k))
}

/// How many of the decisions are firings.
pub open spec fn count_fires(decisions: Seq<Decision>) -> nat
    decreases decisions.len(),
{
    if decisions.len() == 0 {
        0
    } else if decisions.last() == Decision::Fire {
        count_fires(decisions.drop_last()) + 1
    } else {
        count_fires(decisions.drop_last())
    }
}

/// The time of the latest firing among the first `n` events, if any fired.
pub open spec fn latest_firing(state: DebounceState, interval: u64, times: Seq<u64>, n: int) -> Option<u64> {
    state_at(state, interval, times, n as nat).last_fired_at
}

/// The gap between the event at `times[k]` and the latest firing before it
/// is at least the interval, or nothing fired before it.
pub open spec fn gap_reached(state: DebounceState, interval: u64, times: Seq<u64>, k: int) -> bool {
    match latest_firing(state, interval, times, k) {
        None => true,
        Some(last) => times[k] - last >= interval,
    }
}

/// How many of the first `n` events have reached the gap.
pub open spec fn gap_count(state: DebounceState, interval: u64, times: Seq<u64>, n: nat) -> nat
    decreases n,
{
    if n == 0 {
        0
    } else if gap_reached(state, interval, times, n - 1) {
        gap_count(state, interval, times, (n - 1) as nat) + 1
    } else {
        gap_count(state, interval, times, (n - 1) as nat)
    }
}

/// The index of the latest firing among the first `n` events, or -1 where
/// none of them fired.
spec fn latest_index(state: DebounceState, interval: u64, times: Seq<u64>, n: nat) -> int
    decreases n,
{
    if n == 0 {
        -1
    } else if decision_at(state, interval, times, n - 1) == Decision::Fire {
        n - 1
    } else {
        latest_index(state, interval, times, (n - 1) as nat)
    }
}

/// Drops the events that follow a firing too closely.
#[derive(Debug)]
pub struct Debouncer {
    interval: u64,
    state: DebounceState,
}

impl Debouncer {
    /// The minimum interval between two firings.
    pub closed spec fn interval(&self) -> u64 {
        self.interval
    }

    /// What the debouncer remembers.
    pub closed spec fn state(&self) -> DebounceState {
        self.state
    }

    /// A debouncer that has not fired yet.
    pub fn new(interval: u64) -> (debouncer: Debouncer)
        ensures
            debouncer.interval() == interval,
            debouncer.state() == fresh(),
    {
        Debouncer { interval, state: DebounceState { last_fired_at: None, pending_since: None } }
    }

    /// The minimum interval between two firings.
    pub fn min_interval(&self) -> (interval: u64)
        ensures
            interval == self.interval(),
    {
        self.interval
    }

    /// What the debouncer remembers.
    pub fn current(&self) -> (state: DebounceState)
        ensures
            state == self.state(),
    {
        self.state
    }

    /// Decides on an event observed at `now` and remembers it.
    pub fn on_event(&mut self, now: u64) -> (decision: Decision)
        ensures
            decision == decide(old(self).state(), old(self).interval(), now),
            final(self).state() == advance(old(self).state(), old(self).interval(), now),
            final(self).interval() == old(self).interval(),
    {
        let fire = match self.state.last_fired_at {
            None => true,
            Some(last) => now >= last && now - last >= self.interval,
        };
        if fire {
            self.state = DebounceState { last_fired_at: Some(now), pending_since: None };
            Decision::Fire
        } else {
            if self.state.pending_since.is_none() {
                self.state.pending_since = Some(now);
            }
            Decision::Suppress
        }
    }
}

/// The time of the latest firing never moves back.
pub proof fn law_last_fired_monotone(state: DebounceState, interval: u64, now: u64)
    ensures
        match (state.last_fired_at, advance(state, interval, now).last_fired_at) {
            (Some(before), Some(after)) => before <= after,
            (Some(_), None) => false,
            (None, _) => true,
        },
{
}

/// An event fires exactly when nothing has fired before it or its gap since
/// the latest firing is at least the interval, and the number of firings is
/// the number of such events.
pub proof fn law_fires_when_due(state: DebounceState, interval: u64, times: Seq<u64>)
    ensures
        decisions(state, interval, times).len() == times.len(),
        forall|k: int|
            0 <= k < times.len() ==> (#[trigger] decisions(state, interval, times)[k]
                == Decision::Fire <==> gap_reached(state, interval, times, k)),
        count_fires(decisions(state, interval, times)) == gap_count(
            state,
            interval,
            times,
            times.len(),
        ),
{
    lemma_count_prefix(state, interval, times, times.len());
    assert(decisions(state, interval, times).take(times.len() as int) =~= decisions(
        state,
        interval,
        times,
    ));
}

/// Among the first `n` decisions there are as many firings as events that
/// have reached the gap.
proof fn lemma_count_prefix(state: DebounceState, interval: u64, times: Seq<u64>, n: nat)
    requires
        n <= times.len(),
    ensures
        count_fires(decisions(state, interval, times).take(n as int)) == gap_count(
            state,
            interval,
            times,
            n,
        ),
    decreases n,
{
    let all = decisions(state, interval, times);
    if n > 0 {
        lemma_count_prefix(state, interval, times, (n - 1) as nat);
        assert(all.take(n as int).drop_last() =~= all.take(n - 1));
        assert(all.take(n as int).last() == decision_at(state, interval, times, n - 1));
    }
}

/// What `latest_index` finds: the latest firing among the first `n` events,
/// which set the time that the state holds; after it every event is dropped.
proof fn lemma_latest_index(state: DebounceState, interval: u64, times: Seq<u64>, n: nat)
    ensures
        -1 <= latest_index(state, interval, times, n) < n,
        latest_index(state, interval, times, n) == -1 ==> latest_firing(state, interval, times, n as int)
            == state.last_fired_at,
        latest_index(state, interval, times, n) >= 0 ==> decision_at(
            state,
            interval,
            times,
            latest_index(state, interval, times, n),
        ) == Decision::Fire && latest_firing(state, interval, times, n as int) == Some(
            times[latest_index(state, interval, times, n)],
        ),
        forall|j: int|
            latest_index(state, interval, times, n) < j < n ==> #[trigger] decision_at(
                state,
                interval,
                times,
                j,
            ) == Decision::Suppress,
    decreases n,
{
    if n > 0 {
        lemma_latest_index(state, interval, times, (n - 1) as nat);
    }
}

/// Starting from a debouncer that has not fired, two firings are at least
/// the interval apart.
pub proof fn law_firings_are_spaced(interval: u64, times: Seq<u64>, i: int, j: int)
    requires
        0 <= i < j < times.len(),
        decisions(fresh(), interval, times)[i] == Decision::Fire,
        decisions(fresh(), interval, times)[j] == Decision::Fire,
    ensures
        times[j] - times[i] >= interval,
{
    lemma_gap_between_firings(interval, times, i, j);
}

/// Starting from a debouncer that has not fired, a dropped event lies less
/// than the interval after an earlier firing.
pub proof fn law_dropped_follows_firing(interval: u64, times: Seq<u64>, j: int) -> (i: int)
    requires
        0 <= j < times.len(),
        decisions(fresh(), interval, times)[j] == Decision::Suppress,
    ensures
        0 <= i < j,
        decisions(fresh(), interval, times)[i] == Decision::Fire,
        times[j] - times[i] < interval,
{
    lemma_latest_index(fresh(), interval, times, j as nat);
    latest_index(fresh(), interval, times, j as nat)
}

/// A firing at `times[j]` lies at least the interval after a firing at an
/// earlier `times[i]`.
proof fn lemma_gap_between_firings(interval: u64, times: Seq<u64>, i: int, j: int)
    requires
        0 <= i < j < times.len(),
        decision_at(fresh(), interval, times, i) == Decision::Fire,
        decision_at(fresh(), interval, times, j) == Decision::Fire,
    ensures
        times[j] - times[i] >= interval,
    decreases j - i,
{
    lemma_latest_index(fresh(), interval, times, j as nat);
    let k = latest_index(fresh(), interval, times, j as nat);
    assert(k >= i);
    assert(times[j] - times[k] >= interval);
    if i < k {
        lemma_gap_between_firings(interval, times, i, k);
    }
}

/// Of two events half an interval apart, the first fires and the second is
/// dropped.
pub proof fn law_half_interval_fires_once(start: u64, interval: u64)
    requires
        interval > 0,
        start + interval / 2 <= u64::MAX,
    ensures
        decisions(fresh(), interval, seq![start, (start + interval / 2) as u64]) == seq![
            Decision::Fire,
            Decision::Suppress,
        ],
        count_fires(decisions(fresh(), interval, seq![start, (start + interval / 2) as u64])) == 1,
{
    let times = seq![start, (start + interval / 2) as u64];
    lemma_two_events(fresh(), interval, times);
    assert(decisions(fresh(), interval, times) =~= seq![Decision::Fire, Decision::Suppress]);
    lemma_count_two(Decision::Fire, Decision::Suppress);
}

/// Of two events two intervals apart, both fire.
pub proof fn law_double_interval_fires_twice(start: u64, interval: u64)
    requires
        start + 2 * interval <= u64::MAX,
    ensures
        decisions(fresh(), interval, seq![start, (start + 2 * interval) as u64]) == seq![
            Decision::Fire,
            Decision::Fire,
        ],
        count_fires(decisions(fresh(), interval, seq![start, (start + 2 * interval) as u64])) == 2,
{
    let times = seq![start, (start + 2 * interval) as u64];
    lemma_two_events(fresh(), interval, times);
    assert(decisions(fresh(), interval, times) =~= seq![Decision::Fire, Decision::Fire]);
    lemma_count_two(Decision::Fire, Decision::Fire);
}

/// The decisions for two events, spelled out.
proof fn lemma_two_events(state: DebounceState, interval: u64, times: Seq<u64>)
    requires
        times.len() == 2,
    ensures
        decision_at(state, interval, times, 0) == decide(state, interval, times[0]),
        decision_at(state, interval, times, 1) == decide(
            advance(state, interval, times[0]),
            interval,
            times[1],
        ),
{
    reveal_with_fuel(state_at, 3);
}

/// The number of firings among two decisions.
proof fn lemma_count_two(first: Decision, second: Decision)
    ensures
        count_fires(seq![first, second]) == (if first == Decision::Fire {
            1nat
        } else {
            0nat
        }) + (if second == Decision::Fire {
            1nat
        } else {
            0nat
        }),
{
    let both = seq![first, second];
    assert(both.drop_last() =~= seq![first]);
    assert(seq![first].drop_last() =~= Seq::<Decision>::empty());
    assert(both.last() == second);
    assert(seq![first].last() == first);
    reveal_with_fuel(count_fires, 3);
}

} // verus!
