//! Rate limiting: redraws and update notifications happen at most once per
//! refresh interval, however often they are asked for.

use vstd::prelude::*;

verus! {

/// The refresh interval in nanoseconds: eight milliseconds, which caps
/// redraws and notifications near 120 a second.
pub const MIN_REFRESH_NANOS: u64 = 8_000_000;

/// How long the event loop waits for an event before it wakes by itself, in
/// milliseconds.
pub const IDLE_TIMEOUT_MILLIS: u64 = 500;

/// How many update notifications may wait for the event loop. One that
/// finds the queue full is dropped.
pub const UPDATE_QUEUE_CAPACITY: usize = 20;

/// Nanoseconds from `earlier` to `now`; zero where the clock did not advance.
pub open spec fn elapsed(earlier: u64, now: u64) -> nat {
    if now >= earlier {
        (now - earlier) as nat
    } else {
        0
    }
}

/// Whether something last done at `last` is due again at `now`.
pub open spec fn due(last: u64, now: u64) -> bool {
    elapsed(last, now) >= MIN_REFRESH_NANOS
}

/// The time of the last redraw or notification. Times are nanoseconds on a
/// clock that never runs backwards.
#[derive(Clone, Copy, Debug, PartialEq, Eq, Structural)]
pub struct Throttle {
    pub last: u64,
}

impl Throttle {
    /// A throttle that counts from `now`.
    pub fn new(now: u64) -> (throttle: Throttle)
        ensures
            throttle.last == now,
    {
        Throttle { last: now }
    }

    /// Asks at time `now` whether the next redraw or notification may
    /// happen. It may once a full interval has passed since the last one,
    /// and `now` is then taken as the time of the new one.
    pub fn ready(&mut self, now: u64) -> (go: bool)
        ensures
            go == due(old(self).last, now),
            final(self).last == if go {
                now
            } else {
                old(self).last
            },
    {
        if now >= self.last && now - self.last >= MIN_REFRESH_NANOS {
            self.last = now;
            true
        } else {
            false
        }
    }
}

/// The throttle after it was asked at each of `times` in turn.
pub open spec fn asked_at(throttle: Throttle, times: Seq<u64>) -> Throttle
    decreases times.len(),
{
    if times.len() == 0 {
        throttle
    } else {
        let before = asked_at(throttle, times.drop_last());
        if due(before.last, times.last()) {
            Throttle { last: times.last() }
        } else {
            before
        }
    }
}

/// Whether asking at the last of `times`, after all the others, gets a yes.
pub open spec fn granted_at_last(throttle: Throttle, times: Seq<u64>) -> bool
    recommends
        times.len() > 0,
{
    due(asked_at(throttle, times.drop_last()).last, times.last())
}

/// Whether the times of `times` never fall: each is at least the one
/// before it.
pub open spec fn rising(times: Seq<u64>) -> bool {
    forall|i: int, j: int| 0 <= i <= j < times.len() ==> times[i] <= times[j]
}

/// A rising run without its last time is rising still.
proof fn lemma_rising_without_last(first: Seq<u64>, more: Seq<u64>)
    requires
        more.len() > 0,
        rising(first + more),
    ensures
        (first + more).drop_last() == first + more.drop_last(),
        rising(first + more.drop_last()),
{
    let all = first + more;
    let shorter = first + more.drop_last();
    assert(all.drop_last() =~= shorter);
    assert forall|i: int, j: int| 0 <= i <= j < shorter.len() implies shorter[i] <= shorter[j] by {
        assert(shorter[i] == all[i]);
        assert(shorter[j] == all[j]);
    }
}

/// Two grants are never closer than the refresh interval: where the throttle
/// says yes at the end of `first` and again at the end of the longer run
/// `first + more`, at least a full interval lies between the two times.
pub proof fn lemma_grants_are_spaced(throttle: Throttle, first: Seq<u64>, more: Seq<u64>)
    requires
        first.len() > 0,
        more.len() > 0,
        granted_at_last(throttle, first),
        granted_at_last(throttle, first + more),
        rising(first + more),
    ensures
        more.last() - first.last() >= MIN_REFRESH_NANOS,
{
    lemma_rising_without_last(first, more);
    lemma_last_grant_not_before(throttle, first, more.drop_last());
    assert((first + more).last() == more.last());
}

/// After a grant at the end of `first`, the time of the last grant never
/// falls behind it while later times are asked in rising order.
proof fn lemma_last_grant_not_before(throttle: Throttle, first: Seq<u64>, more: Seq<u64>)
    requires
        first.len() > 0,
        granted_at_last(throttle, first),
        rising(first + more),
    ensures
        asked_at(throttle, first + more).last >= first.last(),
    decreases more.len(),
{
    let all = first + more;
    if more.len() == 0 {
        assert(all =~= first);
    } else {
        lemma_rising_without_last(first, more);
        lemma_last_grant_not_before(throttle, first, more.drop_last());
        assert(all.last() == more.last());
        assert(all[first.len() - 1] == first.last());
        assert(all[first.len() - 1] <= all[all.len() - 1]);
    }
}

} // verus!
