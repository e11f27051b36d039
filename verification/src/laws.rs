//! What holds of every schedule: the invariant that each operation keeps,
//! and the laws that relate admission, refill and adjustment.

use crate::schedule::fewer;
use crate::schedule::Admission;
use crate::schedule::Schedule;
use vstd::arithmetic::div_mod::lemma_div_is_ordered;
use vstd::arithmetic::div_mod::lemma_div_multiples_vanish;
use vstd::arithmetic::div_mod::lemma_hoist_over_denominator;
use vstd::prelude::*;

verus! {

/// Adding `j` whole intervals of length `d` to a time adds `j` to the
/// number of whole intervals in it.
proof fn lemma_whole_intervals(x: int, j: int, d: int)
    requires
        0 < d,
    ensures
        (x + j * d) / d == x / d + j,
        (x + d * j) / d == x / d + j,
{
    lemma_hoist_over_denominator(x, j, d as nat);
    assert(j * d == d * j) by (nonlinear_arith);
}

/// A schedule that has just been made is well formed.
pub proof fn lemma_create_wf(rate: nat, period: nat, max_burst: nat, now: nat)
    requires
        Schedule::create(rate, period, max_burst, now) is Ok,
    ensures
        Schedule::create(rate, period, max_burst, now)->Ok_0.wf(),
{
}

/// An admitted request leaves a well-formed schedule with the parameters
/// unchanged. The schedule only moves forward, and unless the request asked
/// for nothing while the limiter was in deficit, the deficit is cleared by
/// the time of the request.
pub proof fn lemma_request_wf(s: Schedule, n: nat, now: nat)
    requires
        s.wf(),
        s.request_at(n, now) is Admitted,
    ensures
        s.request_at(n, now)->Admitted_0.wf(),
        s.request_at(n, now)->Admitted_0.emission_interval == s.emission_interval,
        s.request_at(n, now)->Admitted_0.delay_tolerance == s.delay_tolerance,
        s.request_at(n, now)->Admitted_0.max_burst == s.max_burst,
        s.request_at(n, now)->Admitted_0.allow_at >= s.allow_at,
        s.request_at(n, now)->Admitted_0.theoretical_arrival_time == s.arrival_after(n, now),
        n > 0 || s.allow_at <= now ==> s.request_at(n, now)->Admitted_0.allow_at <= now,
{
    let d = s.emission_interval as int;
    let e = now - s.allow_at;
    assert(n * d <= d * s.max_burst) by (nonlinear_arith)
        requires
            n <= s.max_burst,
            d > 0,
    ;
    if s.allow_at <= now {
        assert(n * d <= e) by (nonlinear_arith)
            requires
                n <= e / d,
                d > 0,
                e >= 0,
        ;
    }
}

/// An adjustment leaves a well-formed schedule.
pub proof fn lemma_adjust_wf(s: Schedule, rate: nat, period: nat, max_burst: nat, now: nat)
    requires
        s.wf(),
        s.adjust_at(rate, period, max_burst, now) is Ok,
    ensures
        s.adjust_at(rate, period, max_burst, now)->Ok_0.wf(),
{
}

/// The capacity is never more than the burst.
pub proof fn lemma_capacity_is_bounded(s: Schedule, now: nat)
    ensures
        s.capacity_at(now) <= s.max_burst,
{
}

/// As long as nothing is requested, the capacity does not shrink as time
/// passes.
pub proof fn lemma_capacity_grows_with_time(s: Schedule, now: nat, later: nat)
    requires
        s.wf(),
        now <= later,
    ensures
        s.capacity_at(now) <= s.capacity_at(later),
{
    if s.allow_at <= now {
        lemma_div_is_ordered(now - s.allow_at, later - s.allow_at, s.emission_interval as int);
    }
}

/// Initial burst: where the rate is not zero, a unit costs at least a
/// nanosecond and the clock has run for as long as a full burst takes to
/// refill, the limiter is made, holds its full burst at once, and keeps it
/// for as long as nothing is requested.
pub proof fn lemma_initial_burst(rate: nat, period: nat, max_burst: nat, now: nat, later: nat)
    requires
        rate > 0,
        period / rate > 0,
        (period / rate) * max_burst <= now,
        now <= later,
    ensures
        Schedule::create(rate, period, max_burst, now) is Ok,
        Schedule::create(rate, period, max_burst, now)->Ok_0.capacity_at(later) == max_burst,
{
    let s = Schedule::create(rate, period, max_burst, now)->Ok_0;
    let d = s.emission_interval as int;
    lemma_div_multiples_vanish(max_burst as int, d);
    lemma_div_is_ordered(now - s.allow_at, later - s.allow_at, d);
}

/// A limiter is made exactly where `lemma_initial_burst` asks for it.
pub proof fn lemma_create_succeeds_iff(rate: nat, period: nat, max_burst: nat, now: nat)
    ensures
        Schedule::create(rate, period, max_burst, now) is Ok <==> rate > 0 && period / rate > 0 && (
        period / rate) * max_burst <= now,
{
}

/// Permanent rejection: a request for more than the burst is too large at
/// every time, whatever the schedule holds.
pub proof fn lemma_oversized_request_is_refused(s: Schedule, n: nat, now: nat)
    requires
        n > s.max_burst,
    ensures
        s.request_at(n, now) == Admission::TooLarge,
{
}

/// A request within the burst is admitted exactly when the capacity covers
/// it; otherwise it is denied for a time that is not zero.
pub proof fn lemma_request_is_decided_by_capacity(s: Schedule, n: nat, now: nat)
    requires
        s.wf(),
        n <= s.max_burst,
    ensures
        s.request_at(n, now) is Admitted <==> n <= s.capacity_at(now),
        s.request_at(n, now) is DeniedFor <==> n > s.capacity_at(now),
        s.request_at(n, now) matches Admission::DeniedFor(wait) ==> wait > 0 && now + wait
            == s.allow_at + s.cost(n),
{
    let d = s.emission_interval as int;
    if n > s.capacity_at(now) && now >= s.allow_at {
        let e = now - s.allow_at;
        assert(n * d > e) by (nonlinear_arith)
            requires
                n > e / d,
                d > 0,
                e >= 0,
        ;
    }
}

/// Monotone admission: a request for `n` units that the capacity covers is
/// admitted and takes exactly `n` units off the capacity at the time of the
/// request.
pub proof fn lemma_admission_consumes(s: Schedule, n: nat, now: nat)
    requires
        s.wf(),
        n <= s.capacity_at(now),
    ensures
        s.request_at(n, now) is Admitted,
        s.request_at(n, now)->Admitted_0.capacity_at(now) == s.capacity_at(now) - n,
{
    let left = s.request_at(n, now)->Admitted_0;
    let d = s.emission_interval as int;
    lemma_request_wf(s, n, now);
    if now < s.allow_at {
        // In deficit only a request for nothing is admitted.
        assert(n * d == 0) by (nonlinear_arith)
            requires
                n == 0,
        ;
    } else if now >= s.theoretical_arrival_time {
        // The full burst was at hand: what is left is the burst less `n`.
        assert(now - left.allow_at == d * (s.max_burst - n)) by (nonlinear_arith)
            requires
                now - left.allow_at == d * s.max_burst - n * d,
        ;
        lemma_div_multiples_vanish(s.max_burst - n, d);
        lemma_div_multiples_vanish(s.max_burst as int, d);
        lemma_div_is_ordered(d * s.max_burst, now - s.allow_at, d);
    } else {
        // The clearing time moves on by the cost of `n` units.
        lemma_whole_intervals(now - left.allow_at, n as int, d);
        lemma_div_is_ordered(now - s.allow_at, d * s.max_burst, d);
        lemma_div_multiples_vanish(s.max_burst as int, d);
    }
}

/// Refill linearity: once a request has been admitted and has left no
/// capacity, `k` whole emission intervals later the capacity is `k`, up to
/// the burst. A request for nothing that was made in deficit is left out:
/// it is admitted without clearing the deficit.
pub proof fn lemma_refill_is_linear(s: Schedule, n: nat, now: nat, k: nat)
    requires
        s.wf(),
        n > 0 || s.allow_at <= now,
        s.request_at(n, now) is Admitted,
        s.request_at(n, now)->Admitted_0.capacity_at(now) == 0,
    ensures
        s.request_at(n, now)->Admitted_0.capacity_at(now + k * s.emission_interval) == fewer(
            k,
            s.max_burst,
        ),
{
    let left = s.request_at(n, now)->Admitted_0;
    let d = s.emission_interval as int;
    lemma_request_wf(s, n, now);
    lemma_whole_intervals(now - left.allow_at, k as int, d);
    assert(k * d >= 0) by (nonlinear_arith)
        requires
            k >= 0,
            d > 0,
    ;
}

/// Denial accuracy: a request that is denied for a time is admitted at any
/// reading that lies at least that time later, as long as nothing else is
/// consumed in between.
pub proof fn lemma_denial_is_accurate(s: Schedule, n: nat, now: nat, later: nat)
    requires
        s.wf(),
        s.request_at(n, now) is DeniedFor,
        later >= now + s.request_at(n, now)->DeniedFor_0,
    ensures
        n <= s.capacity_at(later),
        s.request_at(n, later) is Admitted,
{
    let d = s.emission_interval as int;
    lemma_request_is_decided_by_capacity(s, n, now);
    lemma_div_is_ordered(d * n, later - s.allow_at, d);
    lemma_div_multiples_vanish(n as int, d);
    assert(n * d == d * n) by (nonlinear_arith);
}

/// The capacity after an adjustment, at the time of the adjustment: with
/// capacity at hand, the whole intervals that had passed, up to the new
/// burst; in deficit, the full new burst.
pub proof fn lemma_adjusted_capacity(s: Schedule, rate: nat, period: nat, max_burst: nat, now: nat)
    requires
        s.wf(),
        s.adjust_at(rate, period, max_burst, now) is Ok,
    ensures
        s.adjust_at(rate, period, max_burst, now)->Ok_0.capacity_at(now) == if now < s.allow_at {
            max_burst
        } else {
            fewer(s.elapsed_intervals(now), max_burst)
        },
{
    let next = s.adjust_at(rate, period, max_burst, now)->Ok_0;
    let d = next.emission_interval as int;
    if now < s.allow_at {
        lemma_initial_burst(rate, period, max_burst, now, now);
    } else {
        lemma_div_multiples_vanish(s.elapsed_intervals(now) as int, d);
        assert(s.elapsed_intervals(now) * d == d * s.elapsed_intervals(now)) by (nonlinear_arith);
    }
}

/// Adjustment preserves capacity: where capacity is at hand and either the
/// burst stays as it is or the intervals that have passed fit in both the
/// old burst and the new one, the capacity at the time of the adjustment
/// is the same before and after.
pub proof fn lemma_adjust_preserves_capacity(
    s: Schedule,
    rate: nat,
    period: nat,
    max_burst: nat,
    now: nat,
)
    requires
        s.wf(),
        s.allow_at <= now,
        s.adjust_at(rate, period, max_burst, now) is Ok,
        max_burst == s.max_burst || s.elapsed_intervals(now) <= fewer(s.max_burst, max_burst),
    ensures
        s.adjust_at(rate, period, max_burst, now)->Ok_0.capacity_at(now) == s.capacity_at(now),
{
    lemma_adjusted_capacity(s, rate, period, max_burst, now);
}

} // verus!
