//! Proved laws of the time base and the sleep machinery.
//!
//! Each proof function states one guarantee of the service over the spec
//! functions that the executable contracts use, so the guarantees compose
//! with every verified caller.

use vstd::arithmetic::div_mod::{
    lemma_div_is_ordered, lemma_div_pos_is_pos, lemma_fundamental_div_mod, lemma_mod_bound,
    lemma_small_mod,
};
use vstd::arithmetic::mul::lemma_mul_nonnegative;
use vstd::prelude::*;

use crate::service::{
    drift_adjusted_spec, elapsed_ns_spec, mono_time_spec, pow2_64, wall_time_spec,
    wrapping_sub_u64, MarchService,
};
use crate::time::sleep_deadline_spec;

verus! {

/// The drift correction keeps an elapsed-nanosecond value inside the 64-bit
/// range and never below zero.
pub proof fn lemma_drift_adjusted_bounds(e: int, ppb: int)
    requires
        0 <= e < pow2_64(),
    ensures
        0 <= drift_adjusted_spec(e, ppb) <= u64::MAX,
{
    if ppb > 0 {
        lemma_mul_nonnegative(e, ppb);
        lemma_div_pos_is_pos(e * ppb, 1_000_000_000);
    }
}

/// Monotonic time never decreases between two tick samples with no
/// intervening counter wrap: for `t1 <= t2`, with the later sample still
/// inside the 64-bit nanosecond range, `mono_now` at `t1` is at most
/// `mono_now` at `t2`.
pub proof fn lemma_mono_nondecreasing(s: MarchService, t1: u64, t2: u64)
    requires
        s.freq > 0,
        t1 <= t2,
        t2 * 1_000_000_000 / (s.freq as int) < pow2_64(),
    ensures
        mono_time_spec(s, t1) <= mono_time_spec(s, t2),
{
    let f = s.freq as int;
    let a = t1 * 1_000_000_000;
    let b = t2 * 1_000_000_000;
    lemma_div_is_ordered(a, b, f);
    lemma_div_pos_is_pos(a, f);
    lemma_small_mod((a / f) as nat, pow2_64() as nat);
    lemma_small_mod((b / f) as nat, pow2_64() as nat);
}

/// Two monotonic readings separated by `t2 - t1` ticks differ by the
/// elapsed nanoseconds of that tick count, to within one nanosecond of
/// division rounding — within one tick quantum.
pub proof fn lemma_mono_tracks_elapsed(s: MarchService, t1: u64, t2: u64)
    requires
        s.freq > 0,
        t1 <= t2,
        t2 * 1_000_000_000 / (s.freq as int) < pow2_64(),
    ensures
        (t2 - t1) * 1_000_000_000 / (s.freq as int) <= mono_time_spec(s, t2) - mono_time_spec(
            s,
            t1,
        ) <= (t2 - t1) * 1_000_000_000 / (s.freq as int) + 1,
{
    let f = s.freq as int;
    let a = t1 * 1_000_000_000;
    let b = t2 * 1_000_000_000;
    let c = (t2 - t1) * 1_000_000_000;
    assert(b - a == c);
    let qa = a / f;
    let qb = b / f;
    let qc = c / f;
    lemma_fundamental_div_mod(a, f);
    lemma_fundamental_div_mod(b, f);
    lemma_fundamental_div_mod(c, f);
    lemma_mod_bound(a, f);
    lemma_mod_bound(b, f);
    lemma_mod_bound(c, f);
    let x = qb - qa - qc;
    assert(f * x == (c % f) - (b % f) + (a % f)) by {
        assert(a == f * qa + a % f);
        assert(b == f * qb + b % f);
        assert(c == f * qc + c % f);
        assert(f * x == f * qb - f * qa - f * qc) by (nonlinear_arith)
            requires
                x == qb - qa - qc,
        ;
    }
    assert(x == 0 || x == 1) by (nonlinear_arith)
        requires
            f > 0,
            -f < f * x < 2 * f,
    ;
    lemma_div_is_ordered(a, b, f);
    lemma_div_pos_is_pos(a, f);
    lemma_div_pos_is_pos(c, f);
    lemma_small_mod(qa as nat, pow2_64() as nat);
    lemma_small_mod(qb as nat, pow2_64() as nat);
}

/// After a clock adjustment that re-anchors the base, reading the wall clock
/// at the very tick sample of the adjustment returns exactly the absolute
/// time that was set.
pub proof fn lemma_wall_at_base_tick(s: MarchService)
    requires
        s.freq > 0,
    ensures
        wall_time_spec(s, s.initial_ticks) == s.initial_ns,
{
    let f = s.freq as int;
    assert(wrapping_sub_u64(s.initial_ticks, s.initial_ticks) == 0);
    lemma_small_mod(0, pow2_64() as nat);
    assert(elapsed_ns_spec(0, f) == 0) by {
        assert(0int * 1_000_000_000 == 0);
        assert(0int / f == 0) by (nonlinear_arith)
            requires
                f > 0,
        ;
    }
    assert(drift_adjusted_spec(0, s.drift_ppb as int) == 0) by {
        let ppb = s.drift_ppb as int;
        if ppb > 0 {
            assert(0int * ppb == 0);
            assert(0int / 1_000_000_000 == 0);
        } else if ppb < 0 {
            assert(0int * (-ppb) == 0);
            assert(0int / 1_000_000_000 == 0);
        }
    }
    lemma_small_mod(s.initial_ns as nat, pow2_64() as nat);
}

/// The wall clock decomposes as the base plus the drift-adjusted elapsed
/// time, and so never reads below the base while the sum stays in range:
/// after `adj_time` sets an absolute time `A`, every later reading before
/// the counter wraps lies in `[A, A + e]` with `e` the adjusted elapsed
/// nanoseconds between the two tick samples.
pub proof fn lemma_wall_reflects_base(s: MarchService, t: u64)
    requires
        s.freq > 0,
        s.initial_ns + drift_adjusted_spec(
            elapsed_ns_spec(wrapping_sub_u64(t, s.initial_ticks), s.freq as int),
            s.drift_ppb as int,
        ) <= u64::MAX,
    ensures
        wall_time_spec(s, t) == s.initial_ns + drift_adjusted_spec(
            elapsed_ns_spec(wrapping_sub_u64(t, s.initial_ticks), s.freq as int),
            s.drift_ppb as int,
        ),
        wall_time_spec(s, t) >= s.initial_ns,
{
    let dt = wrapping_sub_u64(t, s.initial_ticks);
    let e = elapsed_ns_spec(dt, s.freq as int);
    lemma_mod_bound(dt * 1_000_000_000 / (s.freq as int), pow2_64());
    lemma_drift_adjusted_bounds(e, s.drift_ppb as int);
    let a = drift_adjusted_spec(e, s.drift_ppb as int);
    lemma_small_mod((s.initial_ns + a) as nat, pow2_64() as nat);
}

/// The wall clock survives a tick-counter wrap: two configurations whose
/// bases agree and whose samples stand the same number of wrapped ticks
/// after their anchors read the same wall time, whether or not the raw
/// counter wrapped past zero in between.
pub proof fn lemma_wall_independent_of_wrap(s1: MarchService, t1: u64, s2: MarchService, t2: u64)
    requires
        s1.freq > 0,
        s2.initial_ns == s1.initial_ns,
        s2.freq == s1.freq,
        s2.drift_ppb == s1.drift_ppb,
        wrapping_sub_u64(t1, s1.initial_ticks) == wrapping_sub_u64(t2, s2.initial_ticks),
    ensures
        wall_time_spec(s1, t1) == wall_time_spec(s2, t2),
{
}

/// A positive drift rate slews the clock by exactly `e * ppb / 10^9`
/// nanoseconds over `e` elapsed nanoseconds, and a negative rate by exactly
/// the opposite, whenever no clamping takes place.
pub proof fn lemma_drift_slew_exact(e: int, ppb: int)
    requires
        0 <= e < pow2_64(),
        ppb > 0 ==> e + e * ppb / 1_000_000_000 <= u64::MAX,
        ppb < 0 ==> e * (-ppb) / 1_000_000_000 < e,
    ensures
        ppb > 0 ==> drift_adjusted_spec(e, ppb) == e + e * ppb / 1_000_000_000,
        ppb < 0 ==> drift_adjusted_spec(e, ppb) == e - e * (-ppb) / 1_000_000_000,
        ppb == 0 ==> drift_adjusted_spec(e, ppb) == e,
{
}

/// A sleeper is never woken early: its deadline is the enqueue-time wall
/// clock plus the requested milliseconds, and `pop_expired` releases the
/// reply capability only once the wall clock has reached that deadline, so
/// the reply goes out at wall time at least `enqueue + ms * 10^6`.
pub proof fn lemma_sleep_reply_on_time(
    s0: MarchService,
    t0: u64,
    ms: int,
    deadline: int,
    now_wall: int,
)
    requires
        s0.freq > 0,
        ms >= 0,
        deadline == sleep_deadline_spec(s0, t0, ms),
        wall_time_spec(s0, t0) + ms * 1_000_000 <= u64::MAX,
        deadline <= now_wall,
    ensures
        now_wall >= wall_time_spec(s0, t0) + ms * 1_000_000,
{
}

/// A sleep of zero milliseconds is due immediately: its deadline equals the
/// wall clock at its own enqueue tick, so the next drain pass delivers it.
pub proof fn lemma_sleep_zero_deadline(s: MarchService, t: u64)
    requires
        s.freq > 0,
    ensures
        sleep_deadline_spec(s, t, 0) == wall_time_spec(s, t),
{
    let dt = wrapping_sub_u64(t, s.initial_ticks);
    lemma_mod_bound((s.initial_ns + drift_adjusted_spec(
        elapsed_ns_spec(dt, s.freq as int),
        s.drift_ppb as int,
    )), pow2_64());
    assert(0int * 1_000_000 == 0);
}

} // verus!
