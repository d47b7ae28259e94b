use vstd::prelude::*;

verus! {

/// Distance of tick `c` from the nearest tide boundary, a triangular wave
/// of period `2 * t` that runs between 0 and `t`.
pub open spec fn tide_distance(c: int, t: int) -> int {
    let x = (c + t) % (2 * t);
    if x >= t { x - t } else { t - x }
}

/// Out of `10 * t * t`, the draws below this value trigger a reseed: the
/// chance is `1/10 + p/5` with tide position `p = a * a / (t * t)`.
pub open spec fn trigger_threshold(c: int, t: int) -> int {
    let a = tide_distance(c, t);
    t * t + 2 * a * a
}

/// The number of draws that a trigger draw is taken from.
pub open spec fn trigger_range(t: int) -> int {
    10 * t * t
}

/// `round(sand_max * p)` with tide position `p = a * a / (t * t)`, halves
/// rounded up.
pub open spec fn extent_at(c: int, t: int, sand_max: int) -> int {
    let a = tide_distance(c, t);
    (2 * sand_max * a * a + t * t) / (2 * t * t)
}

/// The distance of tick `counter` from the nearest tide boundary.
pub fn tide_position(counter: u64, tide_period: u32) -> (a: u64)
    requires
        tide_period > 0,
    ensures
        a == tide_distance(counter as int, tide_period as int),
        a <= tide_period,
{
    let t = tide_period as u128;
    let x = (counter as u128 + t) % (2 * t);
    if x >= t {
        (x - t) as u64
    } else {
        (t - x) as u64
    }
}

/// The trigger threshold of tick `counter`; see `trigger_threshold`.
pub fn reseed_threshold(counter: u64, tide_period: u32) -> (r: u128)
    requires
        tide_period > 0,
    ensures
        r == trigger_threshold(counter as int, tide_period as int),
        r <= 3 * tide_period * tide_period,
{
    let a = tide_position(counter, tide_period) as u128;
    let t = tide_period as u128;
    proof {
        assert(a * a <= t * t) by (nonlinear_arith)
            requires
                a <= t,
        ;
        assert(t * t <= 0xffff_ffff_ffff_ffffu128) by (nonlinear_arith)
            requires
                t <= 0xffff_ffff,
        ;
        assert(t * t + 2 * (a * a) == t * t + 2 * a * a) by (nonlinear_arith);
        assert(t * t + 2 * (a * a) <= 3 * t * t) by (nonlinear_arith)
            requires
                a * a <= t * t,
        ;
    }
    t * t + 2 * (a * a)
}

/// The number of draws that a trigger draw of tide period `tide_period`
/// is taken from.
pub fn reseed_range(tide_period: u32) -> (r: u128)
    requires
        tide_period > 0,
    ensures
        r == trigger_range(tide_period as int),
        r > 0,
{
    let t = tide_period as u128;
    proof {
        assert(t * t <= 0xffff_ffff_ffff_ffffu128) by (nonlinear_arith)
            requires
                t <= 0xffff_ffff,
        ;
        assert(t * t > 0) by (nonlinear_arith)
            requires
                t > 0,
        ;
        assert(10 * (t * t) == 10 * t * t) by (nonlinear_arith);
    }
    10 * (t * t)
}

/// The reseed extent of tick `counter`; see `extent_at`. It never exceeds
/// `sand_max`.
pub fn reseed_extent(counter: u64, tide_period: u32, sand_max: u32) -> (s: u32)
    requires
        tide_period > 0,
    ensures
        s == extent_at(counter as int, tide_period as int, sand_max as int),
        s <= sand_max,
{
    let a = tide_position(counter, tide_period) as u128;
    let t = tide_period as u128;
    let m = sand_max as u128;
    proof {
        assert(a * a <= t * t) by (nonlinear_arith)
            requires
                a <= t,
        ;
        assert(t * t <= 0xffff_ffff_ffff_ffffu128) by (nonlinear_arith)
            requires
                t <= 0xffff_ffff,
        ;
        assert(t * t > 0) by (nonlinear_arith)
            requires
                t > 0,
        ;
        assert(m * (a * a) <= 0xffff_ffff * 0xffff_ffff_ffff_ffffu128) by (nonlinear_arith)
            requires
                m <= 0xffff_ffff,
                a * a <= 0xffff_ffff_ffff_ffffu128,
        ;
        assert(m * (a * a) <= m * (t * t)) by (nonlinear_arith)
            requires
                a * a <= t * t,
        ;
    }
    let num = 2 * (m * (a * a)) + t * t;
    let den = 2 * (t * t);
    proof {
        assert(num < (m + 1) * den) by (nonlinear_arith)
            requires
                num == 2 * (m * (a * a)) + t * t,
                den == 2 * (t * t),
                m * (a * a) <= m * (t * t),
                t * t > 0,
        ;
        assert(num / den <= m) by (nonlinear_arith)
            requires
                num < (m + 1) * den,
                den > 0,
                num >= 0,
        ;
        assert(2 * sand_max * a * a + t * t == num) by (nonlinear_arith)
            requires
                num == 2 * (m * (a * a)) + t * t,
                m == sand_max,
        ;
        assert(2 * t * t == den) by (nonlinear_arith)
            requires
                den == 2 * (t * t),
        ;
    }
    (num / den) as u32
}

/// Whether a trigger draw `draw`, taken below `trigger_range`, starts a
/// reseed on tick `counter`.
pub fn reseed_due(counter: u64, tide_period: u32, draw: u128) -> (b: bool)
    requires
        tide_period > 0,
    ensures
        b == (draw < trigger_threshold(counter as int, tide_period as int)),
{
    draw < reseed_threshold(counter, tide_period)
}

} // verus!
