//! Linear mapping of a value from one integer interval onto another.

use vstd::prelude::*;
use vstd::arithmetic::div_mod::{
    lemma_div_is_ordered, lemma_fundamental_div_mod, lemma_fundamental_div_mod_converse,
};
use vstd::arithmetic::mul::lemma_mul_inequality;

verus! {

/// The quotient `n / d` rounded toward negative infinity, for any `d != 0`.
pub open spec fn floor_div(n: int, d: int) -> int {
    if d > 0 {
        n / d
    } else {
        (-n) / (-d)
    }
}

/// Where `x` lands when the interval from `x_min` to `x_max` is laid linearly
/// onto the interval from `y_min` to `y_max`, rounded down to an integer.
pub open spec fn map_spec(x: int, x_min: int, x_max: int, y_min: int, y_max: int) -> int {
    y_min + floor_div((x - x_min) * (y_max - y_min), x_max - x_min)
}

/// `lo` where `v` lies below it, `hi` where `v` lies above it, else `v`.
pub open spec fn clamp_spec(v: int, lo: int, hi: int) -> int {
    if v < lo {
        lo
    } else if v > hi {
        hi
    } else {
        v
    }
}

/// `map_spec`, held inside the target interval.
pub open spec fn map_clamped_spec(x: int, x_min: int, x_max: int, y_min: int, y_max: int) -> int {
    clamp_spec(map_spec(x, x_min, x_max, y_min, y_max), y_min, y_max)
}

/// Truncating division of a negative numerator differs from the floor by one
/// exactly when the division leaves a remainder.
proof fn lemma_floor_of_negative(n: int, d: int)
    requires
        n < 0,
        d > 0,
    ensures
        (-n) % d == 0 ==> n / d == -((-n) / d),
        (-n) % d != 0 ==> n / d == -((-n) / d) - 1,
{
    let m = -n;
    let q = m / d;
    let r = m % d;
    lemma_fundamental_div_mod(m, d);
    assert(0 <= r < d) by (nonlinear_arith)
        requires
            d > 0,
            r == m % d,
    ;
    if r == 0 {
        assert(n == (-q) * d + 0) by (nonlinear_arith)
            requires
                m == d * q + r,
                r == 0,
                n == -m,
        ;
        lemma_fundamental_div_mod_converse(n, d, -q, 0);
    } else {
        assert(n == (-q - 1) * d + (d - r)) by (nonlinear_arith)
            requires
                m == d * q + r,
                n == -m,
        ;
        lemma_fundamental_div_mod_converse(n, d, -q - 1, d - r);
    }
}

/// Lays `x` from the source interval onto the target interval:
/// `y_min + (x - x_min) * (y_max - y_min) / (x_max - x_min)`, the quotient
/// rounded down.
///
/// The source bounds must differ. They may stand in either order, and so may
/// the target bounds; `x` may lie outside the source interval, in which case
/// the result lies outside the target interval. The source is 64 bits wide
/// and the target 32, so that every result fits the 128 bits returned.
pub fn map(x: i64, x_min: i64, x_max: i64, y_min: i32, y_max: i32) -> (y: i128)
    requires
        x_min != x_max,
    ensures
        y == map_spec(x as int, x_min as int, x_max as int, y_min as int, y_max as int),
{
    let dx: i128 = x as i128 - x_min as i128;
    let dy: i128 = y_max as i128 - y_min as i128;
    let span: i128 = x_max as i128 - x_min as i128;
    assert(-0x1_0000_0000_0000_0000_0000_0000 < dx * dy < 0x1_0000_0000_0000_0000_0000_0000)
        by (nonlinear_arith)
        requires
            -0x1_0000_0000_0000_0000 < dx < 0x1_0000_0000_0000_0000,
            -0x1_0000_0000 < dy < 0x1_0000_0000,
    ;
    let product: i128 = dx * dy;
    let (n, d): (i128, i128) = if span < 0 {
        (-product, -span)
    } else {
        (product, span)
    };
    let quotient: i128 = n / d;
    let remainder: i128 = n % d;
    proof {
        if n < 0 {
            lemma_floor_of_negative(n as int, d as int);
        }
        assert(-0x1_0000_0000_0000_0000_0000_0000 < n / d < 0x1_0000_0000_0000_0000_0000_0000)
            by (nonlinear_arith)
            requires
                -0x1_0000_0000_0000_0000_0000_0000 < n < 0x1_0000_0000_0000_0000_0000_0000,
                d > 0,
        ;
    }
    let floor: i128 = if remainder < 0 {
        quotient - 1
    } else {
        quotient
    };
    y_min as i128 + floor
}

/// Lays `x` from the source interval onto the target interval and holds the
/// result inside the target interval, however far `x` lies outside the source.
pub fn map_clamped(x: i64, x_min: i64, x_max: i64, y_min: i32, y_max: i32) -> (y: i32)
    requires
        x_min != x_max,
        y_min <= y_max,
    ensures
        y == map_clamped_spec(x as int, x_min as int, x_max as int, y_min as int, y_max as int),
        y_min <= y <= y_max,
{
    let mapped: i128 = map(x, x_min, x_max, y_min, y_max);
    if mapped < y_min as i128 {
        y_min
    } else if mapped > y_max as i128 {
        y_max
    } else {
        mapped as i32
    }
}

/// The mapping is the exact value of the linear formula, rounded down: it
/// lies at most at the exact value, and less than one below it.
pub proof fn lemma_map_rounds_down(x: int, x_min: int, x_max: int, y_min: int, y_max: int)
    requires
        x_min != x_max,
    ensures
        ({
            let steps = map_spec(x, x_min, x_max, y_min, y_max) - y_min;
            let exact_times_span = (x - x_min) * (y_max - y_min);
            let span = x_max - x_min;
            &&& span > 0 ==> steps * span <= exact_times_span < (steps + 1) * span
            &&& span < 0 ==> steps * span >= exact_times_span > (steps + 1) * span
        }),
{
    let n = (x - x_min) * (y_max - y_min);
    let d = x_max - x_min;
    if d > 0 {
        lemma_fundamental_div_mod(n, d);
        assert((n / d) * d <= n < (n / d + 1) * d) by (nonlinear_arith)
            requires
                d > 0,
                n == d * (n / d) + n % d,
                0 <= n % d < d,
        ;
    } else {
        let q = (-n) / (-d);
        lemma_fundamental_div_mod(-n, -d);
        assert(q * d >= n > (q + 1) * d) by (nonlinear_arith)
            requires
                d < 0,
                -n == (-d) * q + (-n) % (-d),
                0 <= (-n) % (-d) < -d,
        ;
    }
}

/// The source bounds land on the target bounds: `x_min` on `y_min` and
/// `x_max` on `y_max`, with no rounding.
pub proof fn lemma_map_endpoints(x_min: int, x_max: int, y_min: int, y_max: int)
    requires
        x_min != x_max,
    ensures
        map_spec(x_min, x_min, x_max, y_min, y_max) == y_min,
        map_spec(x_max, x_min, x_max, y_min, y_max) == y_max,
{
    let d = x_max - x_min;
    let dy = y_max - y_min;
    assert((x_min - x_min) * dy == 0) by (nonlinear_arith);
    assert(floor_div(0, d) == 0) by (nonlinear_arith)
        requires
            d != 0,
    ;
    if d > 0 {
        assert(d * dy == dy * d + 0) by (nonlinear_arith);
        lemma_fundamental_div_mod_converse(d * dy, d, dy, 0);
    } else {
        assert(-(d * dy) == dy * (-d) + 0) by (nonlinear_arith);
        lemma_fundamental_div_mod_converse(-(d * dy), -d, dy, 0);
    }
}

/// The mapping is monotonic in `x`: it never falls as `x` grows where source
/// and target interval run the same way, and never rises where they run
/// against each other.
pub proof fn lemma_map_monotonic(
    x1: int,
    x2: int,
    x_min: int,
    x_max: int,
    y_min: int,
    y_max: int,
)
    requires
        x_min != x_max,
        x1 <= x2,
    ensures
        (x_min < x_max && y_min <= y_max) || (x_min > x_max && y_min >= y_max) ==> map_spec(
            x1,
            x_min,
            x_max,
            y_min,
            y_max,
        ) <= map_spec(x2, x_min, x_max, y_min, y_max),
        (x_min < x_max && y_min >= y_max) || (x_min > x_max && y_min <= y_max) ==> map_spec(
            x1,
            x_min,
            x_max,
            y_min,
            y_max,
        ) >= map_spec(x2, x_min, x_max, y_min, y_max),
{
    let d = x_max - x_min;
    let dy = y_max - y_min;
    let n1 = (x1 - x_min) * dy;
    let n2 = (x2 - x_min) * dy;
    if dy == 0 {
        assert(n1 == 0 && n2 == 0) by (nonlinear_arith)
            requires
                dy == 0,
                n1 == (x1 - x_min) * dy,
                n2 == (x2 - x_min) * dy,
        ;
    } else if dy > 0 {
        lemma_mul_inequality(x1 - x_min, x2 - x_min, dy);
        assert(n1 <= n2);
        if d > 0 {
            lemma_div_is_ordered(n1, n2, d);
        } else {
            lemma_div_is_ordered(-n2, -n1, -d);
        }
    } else {
        lemma_mul_inequality(x1 - x_min, x2 - x_min, -dy);
        assert((x1 - x_min) * (-dy) == -n1) by (nonlinear_arith)
            requires
                n1 == (x1 - x_min) * dy,
        ;
        assert((x2 - x_min) * (-dy) == -n2) by (nonlinear_arith)
            requires
                n2 == (x2 - x_min) * dy,
        ;
        assert(n2 <= n1);
        if d > 0 {
            lemma_div_is_ordered(n2, n1, d);
        } else {
            lemma_div_is_ordered(-n1, -n2, -d);
        }
    }
}

/// Onto the unit interval the mapping is monotonic in `x`, with the source
/// bounds landing on 0 and on 1.
pub proof fn lemma_map_onto_unit_interval(x1: int, x2: int, a: int, b: int)
    requires
        a != b,
        x1 <= x2,
    ensures
        map_spec(a, a, b, 0, 1) == 0,
        map_spec(b, a, b, 0, 1) == 1,
        a < b ==> map_spec(x1, a, b, 0, 1) <= map_spec(x2, a, b, 0, 1),
        a > b ==> map_spec(x1, a, b, 0, 1) >= map_spec(x2, a, b, 0, 1),
{
    lemma_map_endpoints(a, b, 0, 1);
    lemma_map_monotonic(x1, x2, a, b, 0, 1);
}

/// The clamped mapping never leaves the target interval, wherever `x` lies.
pub proof fn lemma_map_clamped_in_range(x: int, x_min: int, x_max: int, y_min: int, y_max: int)
    requires
        y_min <= y_max,
    ensures
        y_min <= map_clamped_spec(x, x_min, x_max, y_min, y_max) <= y_max,
{
}

/// Inside the source interval the clamped mapping is the plain mapping.
pub proof fn lemma_map_clamped_inside(x: int, x_min: int, x_max: int, y_min: int, y_max: int)
    requires
        x_min < x_max,
        y_min <= y_max,
        x_min <= x <= x_max,
    ensures
        map_clamped_spec(x, x_min, x_max, y_min, y_max) == map_spec(x, x_min, x_max, y_min, y_max),
{
    lemma_map_endpoints(x_min, x_max, y_min, y_max);
    lemma_map_monotonic(x_min, x, x_min, x_max, y_min, y_max);
    lemma_map_monotonic(x, x_max, x_min, x_max, y_min, y_max);
}

} // verus!
