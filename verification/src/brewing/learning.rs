//! Arithmetic of the overshoot learning, in fixed point: overshoots and their
//! moving average in centigrams, the learning rate in percent and the
//! confidence in thousandths.

use vstd::prelude::*;
use crate::bounded::{overshoot_items, overshoots_get, overshoots_len};
use crate::overshoot::{overshoot_sum, seq_sum};
use crate::types::abs;

verus! {

/// Bound on the magnitude of an overshoot: a weight minus a target, both `i32`.
pub const OVERSHOOT_MAGNITUDE_BOUND: i64 = 0x1_0000_0000;
/// Longest stop delay the learning sets.
pub const MAX_STOP_DELAY_MS: i32 = 2000;
/// Shortest stop delay the learning sets.
pub const MIN_STOP_DELAY_MS: i32 = 100;

/// Integer division rounding toward zero (as Rust's `/` on signed integers).
pub open spec fn div_trunc(a: int, b: int) -> int
    recommends
        b > 0,
{
    if a >= 0 { a / b } else { -((-a) / b) }
}

/// Exponentially weighted moving average with `rate` percent of new data.
pub open spec fn ewma_next(rate_pct: u32, overshoot: i64, ewma: i64) -> int {
    div_trunc(rate_pct * overshoot + (100 - rate_pct) * ewma, 100)
}

/// Base of a delay adjustment in half milliseconds: 50 ms per gram of moving
/// average, between 10 ms and 200 ms.
pub open spec fn base_adjustment_half_ms(ewma: i64) -> int {
    let e = abs(ewma as int);
    if e < 20 { 20 } else if e > 400 { 400 } else { e }
}

/// Confidence modifier in half thousandths: half the confidence plus one half,
/// at most one.
pub open spec fn confidence_modifier_half_permille(confidence_permille: u32) -> int {
    if confidence_permille + 1000 > 2000 { 2000 } else { confidence_permille + 1000 }
}

/// Delay adjustment in milliseconds (rounded down).
pub open spec fn delay_adjustment_ms(ewma: i64, confidence_permille: u32) -> int {
    base_adjustment_half_ms(ewma) * confidence_modifier_half_permille(confidence_permille) / 4000
}

/// The stop delay after the moving average changed: overshooting by more than
/// 0.5 g stops earlier (capped at 2 s), undershooting by more than 0.5 g stops
/// later (at least 100 ms), anything in between keeps the delay.
pub open spec fn delay_next(delay: i32, ewma: i64, confidence_permille: u32) -> int {
    let adj = delay_adjustment_ms(ewma, confidence_permille);
    if ewma > 50 {
        if delay + adj > MAX_STOP_DELAY_MS { MAX_STOP_DELAY_MS as int } else { delay + adj }
    } else if ewma < -50 {
        if delay - adj < MIN_STOP_DELAY_MS { MIN_STOP_DELAY_MS as int } else { delay - adj }
    } else {
        delay as int
    }
}

/// Whether `s` is the integer square root of `m`.
pub open spec fn is_floor_sqrt(m: int, s: int) -> bool {
    0 <= s && s * s <= m && m < (s + 1) * (s + 1)
}

/// Integer square root of a non-negative `m`.
pub open spec fn floor_sqrt(m: int) -> int {
    choose|s: int| is_floor_sqrt(m, s)
}

/// Sum over `h` of the squared deviations `(n * x - s)^2`; divided by `n^3`
/// this is the variance of `h` when `n` is its length and `s` its sum.
pub open spec fn dev_sq_sum(h: Seq<i64>, n: int, s: int) -> int
    decreases h.len(),
{
    if h.len() == 0 {
        0
    } else {
        dev_sq_sum(h.drop_last(), n, s) + (n * h.last() - s) * (n * h.last() - s)
    }
}

/// Standard deviation of the overshoots in centigrams, rounded down.
pub open spec fn std_dev_cg(h: Seq<i64>) -> int {
    let n = h.len() as int;
    floor_sqrt(dev_sq_sum(h, n, seq_sum(h)) / (n * n * n))
}

/// Consistency in thousandths: 3 g of standard deviation or more is none, and
/// every 2.5 g less is one more unit.
pub open spec fn consistency_permille(h: Seq<i64>) -> int {
    let sd = std_dev_cg(h);
    if sd < 300 { (300 - sd) * 4 } else { 0 }
}

/// Experience in thousandths: full after twenty brews.
pub open spec fn experience_permille(brew_count: u32) -> int {
    if brew_count * 50 > 1000 { 1000 } else { brew_count * 50 }
}

/// Confidence in thousandths after a measurement: none with fewer than three
/// overshoots, else consistency times experience, at most one.
pub open spec fn confidence_next(h: Seq<i64>, brew_count: u32) -> int {
    if h.len() < 3 {
        0
    } else {
        let c = consistency_permille(h) * experience_permille(brew_count) / 1000;
        if c > 1000 { 1000 } else { c }
    }
}

/// Learning rate in percent for a confidence: slow when confident.
pub open spec fn learning_rate_for(confidence_permille: int) -> u32 {
    if confidence_permille > 800 { 10 } else if confidence_permille > 500 { 20 } else { 30 }
}

/// Every overshoot of `h` stays within the bound.
pub open spec fn overshoots_bounded(h: Seq<i64>) -> bool {
    forall|i: int| 0 <= i < h.len() ==> -OVERSHOOT_MAGNITUDE_BOUND <= #[trigger] h[i] <= OVERSHOOT_MAGNITUDE_BOUND
}

proof fn lemma_square_monotonic(a: int, b: int)
    by (nonlinear_arith)
    requires
        0 <= a <= b,
    ensures
        a * a <= b * b,
{
}

proof fn lemma_floor_sqrt_unique(m: int, a: int, b: int)
    requires
        is_floor_sqrt(m, a),
        is_floor_sqrt(m, b),
    ensures
        a == b,
{
    if a < b {
        lemma_square_monotonic(a + 1, b);
    } else if b < a {
        lemma_square_monotonic(b + 1, a);
    }
}

/// Integer square root of `m` (below 2^76), by bisection.
pub fn isqrt(m: u128) -> (r: u64)
    requires
        m < 0x1000_0000_0000_0000_0000,
    ensures
        r as int == floor_sqrt(m as int),
{
    let mut lo: u64 = 0;
    let mut hi: u64 = 0x40_0000_0000;
    proof {
        assert((hi as int) * (hi as int) == 0x1000_0000_0000_0000_0000) by (nonlinear_arith)
            requires hi == 0x40_0000_0000u64;
    }
    while hi - lo > 1
        invariant
            lo < hi <= 0x40_0000_0000,
            (lo as int) * (lo as int) <= m,
            (m as int) < (hi as int) * (hi as int),
        decreases hi - lo,
    {
        let mid = lo + (hi - lo) / 2;
        proof {
            lemma_square_monotonic(mid as int, 0x40_0000_0000);
        }
        if (mid as u128) * (mid as u128) <= m {
            lo = mid;
        } else {
            hi = mid;
        }
    }
    proof {
        assert(is_floor_sqrt(m as int, lo as int));
        let c = choose|s: int| is_floor_sqrt(m as int, s);
        lemma_floor_sqrt_unique(m as int, lo as int, c);
    }
    lo
}

/// Next moving average of the overshoot.
pub fn ewma_update(rate_pct: u32, overshoot: i64, ewma: i64) -> (r: i64)
    requires
        rate_pct <= 100,
        -OVERSHOOT_MAGNITUDE_BOUND <= overshoot <= OVERSHOOT_MAGNITUDE_BOUND,
        -OVERSHOOT_MAGNITUDE_BOUND <= ewma <= OVERSHOOT_MAGNITUDE_BOUND,
    ensures
        r == ewma_next(rate_pct, overshoot, ewma),
        -OVERSHOOT_MAGNITUDE_BOUND <= r <= OVERSHOOT_MAGNITUDE_BOUND,
{
    let r = rate_pct as i64;
    proof {
        assert(-100 * OVERSHOOT_MAGNITUDE_BOUND <= r * overshoot <= 100 * OVERSHOOT_MAGNITUDE_BOUND) by (nonlinear_arith)
            requires 0 <= r <= 100, -OVERSHOOT_MAGNITUDE_BOUND <= overshoot <= OVERSHOOT_MAGNITUDE_BOUND;
        assert(-100 * OVERSHOOT_MAGNITUDE_BOUND <= (100 - r) * ewma <= 100 * OVERSHOOT_MAGNITUDE_BOUND) by (nonlinear_arith)
            requires 0 <= r <= 100, -OVERSHOOT_MAGNITUDE_BOUND <= ewma <= OVERSHOOT_MAGNITUDE_BOUND;
        assert(-100 * OVERSHOOT_MAGNITUDE_BOUND <= r * overshoot + (100 - r) * ewma <= 100
            * OVERSHOOT_MAGNITUDE_BOUND) by (nonlinear_arith)
            requires
                0 <= r <= 100,
                -OVERSHOOT_MAGNITUDE_BOUND <= overshoot <= OVERSHOOT_MAGNITUDE_BOUND,
                -OVERSHOOT_MAGNITUDE_BOUND <= ewma <= OVERSHOOT_MAGNITUDE_BOUND,
        ;
    }
    let num = r * overshoot + (100 - r) * ewma;
    if num >= 0 {
        num / 100
    } else {
        -((-num) / 100)
    }
}

/// Next stop delay after the moving average changed.
pub fn delay_update(delay: i32, ewma: i64, confidence_permille: u32) -> (r: i32)
    requires
        MIN_STOP_DELAY_MS <= delay <= MAX_STOP_DELAY_MS,
        confidence_permille <= 1000,
    ensures
        r == delay_next(delay, ewma, confidence_permille),
        MIN_STOP_DELAY_MS <= r <= MAX_STOP_DELAY_MS,
{
    let e: i64 = if ewma < 0 { if ewma == i64::MIN { i64::MAX } else { -ewma } } else { ewma };
    let base: i64 = if e < 20 { 20 } else if e > 400 { 400 } else { e };
    let modifier: i64 = if confidence_permille + 1000 > 2000 { 2000 } else { (confidence_permille + 1000) as i64 };
    proof {
        assert(abs(ewma as int) < 20 ==> base == 20);
        assert(base * modifier <= 400 * 2000) by (nonlinear_arith)
            requires 0 <= base <= 400, 0 <= modifier <= 2000;
        assert(base * modifier >= 0) by (nonlinear_arith)
            requires 0 <= base, 0 <= modifier;
    }
    let adj = (base * modifier / 4000) as i32;
    if ewma > 50 {
        if delay + adj > MAX_STOP_DELAY_MS { MAX_STOP_DELAY_MS } else { delay + adj }
    } else if ewma < -50 {
        if delay - adj < MIN_STOP_DELAY_MS { MIN_STOP_DELAY_MS } else { delay - adj }
    } else {
        delay
    }
}

/// Learning rate in percent for a confidence.
pub fn learning_rate(confidence_permille: u32) -> (r: u32)
    ensures
        r == learning_rate_for(confidence_permille as int),
        r <= 100,
{
    if confidence_permille > 800 { 10 } else if confidence_permille > 500 { 20 } else { 30 }
}

proof fn lemma_dev_sq_sum_step(h: Seq<i64>, n: int, s: int, i: int)
    requires
        0 <= i < h.len(),
    ensures
        dev_sq_sum(h.take(i + 1), n, s) == dev_sq_sum(h.take(i), n, s) + (n * h[i] - s) * (n * h[i] - s),
{
    assert(h.take(i + 1).drop_last() =~= h.take(i));
}

proof fn lemma_seq_sum_bounded(h: Seq<i64>)
    requires
        overshoots_bounded(h),
    ensures
        -h.len() * OVERSHOOT_MAGNITUDE_BOUND <= seq_sum(h) <= h.len() * OVERSHOOT_MAGNITUDE_BOUND,
    decreases h.len(),
{
    if h.len() > 0 {
        assert(overshoots_bounded(h.drop_last()));
        lemma_seq_sum_bounded(h.drop_last());
        assert(h.last() == h[h.len() - 1]);
    }
}

/// Sum of the squared deviations of the overshoots held in `h`.
fn deviation_square_sum(h: &heapless::Vec<i64, 5>, n: i128, s: i128) -> (r: i128)
    requires
        overshoots_bounded(overshoot_items(*h)),
        n == overshoot_items(*h).len(),
        -5 * OVERSHOOT_MAGNITUDE_BOUND <= s <= 5 * OVERSHOOT_MAGNITUDE_BOUND,
    ensures
        r == dev_sq_sum(overshoot_items(*h), n as int, s as int),
        0 <= r <= 5 * 0x100_0000_0000_0000_0000,
{
    let ghost v = overshoot_items(*h);
    let len = overshoots_len(h);
    let mut acc: i128 = 0;
    let mut i: usize = 0;
    while i < len
        invariant
            v == overshoot_items(*h),
            overshoots_bounded(v),
            len == v.len(),
            len <= 5,
            n == len,
            -5 * OVERSHOOT_MAGNITUDE_BOUND <= s <= 5 * OVERSHOOT_MAGNITUDE_BOUND,
            i <= len,
            acc == dev_sq_sum(v.take(i as int), n as int, s as int),
            0 <= acc <= (i as int) * 0x100_0000_0000_0000_0000,
        decreases len - i,
    {
        let x = overshoots_get(h, i);
        proof {
            lemma_dev_sq_sum_step(v, n as int, s as int, i as int);
            assert(-OVERSHOOT_MAGNITUDE_BOUND <= x <= OVERSHOOT_MAGNITUDE_BOUND);
            assert(-10 * OVERSHOOT_MAGNITUDE_BOUND <= n * x - s <= 10 * OVERSHOOT_MAGNITUDE_BOUND) by (nonlinear_arith)
                requires
                    0 <= n <= 5,
                    -OVERSHOOT_MAGNITUDE_BOUND <= x <= OVERSHOOT_MAGNITUDE_BOUND,
                    -5 * OVERSHOOT_MAGNITUDE_BOUND <= s <= 5 * OVERSHOOT_MAGNITUDE_BOUND,
            ;
        }
        let d: i128 = n * (x as i128) - s;
        proof {
            assert(0 <= d * d <= 0x100_0000_0000_0000_0000) by (nonlinear_arith)
                requires -10 * OVERSHOOT_MAGNITUDE_BOUND <= d <= 10 * OVERSHOOT_MAGNITUDE_BOUND;
        }
        acc = acc + d * d;
        i = i + 1;
    }
    assert(v.take(len as int) =~= v);
    acc
}

/// Confidence in thousandths after a measurement.
pub fn confidence_update(h: &heapless::Vec<i64, 5>, brew_count: u32) -> (r: u32)
    requires
        overshoots_bounded(overshoot_items(*h)),
    ensures
        r == confidence_next(overshoot_items(*h), brew_count),
        r <= 1000,
{
    let ghost v = overshoot_items(*h);
    let len = overshoots_len(h);
    if len < 3 {
        return 0;
    }
    let n = len as i128;
    let s = overshoot_sum(h);
    proof {
        lemma_seq_sum_bounded(v);
        assert(-5 * OVERSHOOT_MAGNITUDE_BOUND <= s <= 5 * OVERSHOOT_MAGNITUDE_BOUND) by (nonlinear_arith)
            requires
                -n * OVERSHOOT_MAGNITUDE_BOUND <= s <= n * OVERSHOOT_MAGNITUDE_BOUND,
                0 <= n <= 5;
    }
    let dev = deviation_square_sum(h, n, s);
    proof {
        assert(n * n <= 25) by (nonlinear_arith) requires 0 <= n <= 5;
        assert(n * n * n <= 125) by (nonlinear_arith) requires 0 <= n <= 5;
    }
    let cube = n * n * n;
    proof {
        assert(27 <= cube <= 125) by (nonlinear_arith)
            requires 3 <= n <= 5, cube == n * n * n;
        assert(dev / cube <= dev) by (nonlinear_arith)
            requires 0 <= dev, 1 <= cube;
    }
    let sd = isqrt((dev / cube) as u128) as i128;
    let consistency: i128 = if sd < 300 { (300 - sd) * 4 } else { 0 };
    let experience: i128 = if (brew_count as i128) * 50 > 1000 { 1000 } else { (brew_count as i128) * 50 };
    proof {
        assert(0 <= consistency * experience <= 1200 * 1000) by (nonlinear_arith)
            requires 0 <= consistency <= 1200, 0 <= experience <= 1000;
    }
    let c = consistency * experience / 1000;
    if c > 1000 { 1000 } else { c as u32 }
}

/// The stop delay follows the sign of the moving average: overshooting by
/// more than 0.5 g makes the stop earlier (a longer delay, strictly longer
/// below the 2 s cap), undershooting by more than 0.5 g makes it later (a
/// shorter delay, strictly shorter above 100 ms), anything within ±0.5 g
/// keeps it; each step moves the delay by 5 ms to 200 ms, within 100 ms to
/// 2 s.
pub proof fn law_delay_follows_overshoot(delay: i32, ewma: i64, confidence_permille: u32)
    requires
        MIN_STOP_DELAY_MS <= delay <= MAX_STOP_DELAY_MS,
    ensures
        MIN_STOP_DELAY_MS <= delay_next(delay, ewma, confidence_permille) <= MAX_STOP_DELAY_MS,
        ewma > 50 ==> delay_next(delay, ewma, confidence_permille) >= delay,
        ewma > 50 && delay < MAX_STOP_DELAY_MS ==> delay_next(delay, ewma, confidence_permille) > delay,
        ewma < -50 ==> delay_next(delay, ewma, confidence_permille) <= delay,
        ewma < -50 && delay > MIN_STOP_DELAY_MS ==> delay_next(delay, ewma, confidence_permille) < delay,
        -50 <= ewma <= 50 ==> delay_next(delay, ewma, confidence_permille) == delay,
        delay_next(delay, ewma, confidence_permille) - delay <= 200,
        delay - delay_next(delay, ewma, confidence_permille) <= 200,
{
    let b = base_adjustment_half_ms(ewma);
    let m = confidence_modifier_half_permille(confidence_permille);
    assert(20 <= b <= 400);
    assert(1000 <= m <= 2000);
    assert(5 <= b * m / 4000 <= 200) by (nonlinear_arith)
        requires
            20 <= b <= 400,
            1000 <= m <= 2000,
    ;
}

} // verus!
