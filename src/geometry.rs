use vstd::prelude::*;

verus! {

/// Largest magnitude that a stored coordinate may take.
pub const POS_LIMIT: i64 = 1_000_000_000;

/// Largest magnitude that a stored velocity component may take
/// (length units per second).
pub const SPEED_LIMIT: i64 = 1_000_000_000;

/// A point or a vector of the plane, in thousandths of a pixel.
#[derive(Clone, Copy, Debug, PartialEq, Eq, Structural)]
pub struct Point {
    pub x: i64,
    pub y: i64,
}

impl Point {
    /// Both coordinates lie in `[-lim, lim]`.
    pub open spec fn in_range(self, lim: int) -> bool {
        -lim <= self.x <= lim && -lim <= self.y <= lim
    }

    pub fn new(x: i64, y: i64) -> (r: Point)
        ensures
            r.x == x,
            r.y == y,
    {
        Point { x, y }
    }
}

/// Squared euclidean distance between two points.
pub open spec fn dist_sq(a: Point, b: Point) -> int {
    (a.x - b.x) * (a.x - b.x) + (a.y - b.y) * (a.y - b.y)
}

/// Integer division rounding toward zero (what `/` does on machine integers).
pub open spec fn tdiv(a: int, b: int) -> int {
    if a >= 0 {
        a / b
    } else {
        -((-a) / b)
    }
}

pub open spec fn clamp(v: int, lo: int, hi: int) -> int {
    if v < lo {
        lo
    } else if v > hi {
        hi
    } else {
        v
    }
}

/// `s` is the integer square root of `n`, rounded down.
pub open spec fn is_floor_sqrt(n: int, s: int) -> bool {
    0 <= s && s * s <= n < (s + 1) * (s + 1)
}

/// The integer square root of a nonnegative `n`, rounded down.
pub open spec fn floor_sqrt(n: int) -> int {
    choose|s: int| is_floor_sqrt(n, s)
}

/// Every nonnegative number has a rounded-down square root.
pub proof fn lemma_floor_sqrt_exists(n: int)
    requires
        n >= 0,
    ensures
        is_floor_sqrt(n, floor_sqrt(n)),
    decreases n,
{
    if n == 0 {
        assert(is_floor_sqrt(0, 0));
    } else {
        lemma_floor_sqrt_exists(n - 1);
        let s = floor_sqrt(n - 1);
        if (s + 1) * (s + 1) <= n {
            assert((s + 1) * (s + 1) <= n < (s + 2) * (s + 2)) by (nonlinear_arith)
                requires
                    s >= 0,
                    n - 1 < (s + 1) * (s + 1),
                    (s + 1) * (s + 1) <= n,
            ;
            assert(is_floor_sqrt(n, s + 1));
        } else {
            assert(is_floor_sqrt(n, s));
        }
    }
}

/// A number has at most one rounded-down square root.
pub proof fn lemma_floor_sqrt_unique(n: int, s: int, t: int)
    requires
        is_floor_sqrt(n, s),
        is_floor_sqrt(n, t),
    ensures
        s == t,
{
    if s < t {
        assert((s + 1) * (s + 1) <= t * t) by (nonlinear_arith)
            requires
                0 <= s,
                s + 1 <= t,
        ;
    }
    if t < s {
        assert((t + 1) * (t + 1) <= s * s) by (nonlinear_arith)
            requires
                0 <= t,
                t + 1 <= s,
        ;
    }
}

/// Truncating division never grows a magnitude.
pub proof fn lemma_tdiv_bound(a: int, b: int)
    requires
        b >= 1,
    ensures
        a >= 0 ==> 0 <= tdiv(a, b) <= a,
        a < 0 ==> a <= tdiv(a, b) <= 0,
{
    let m = if a >= 0 {
        a
    } else {
        -a
    };
    vstd::arithmetic::div_mod::lemma_div_pos_is_pos(m, b);
    vstd::arithmetic::div_mod::lemma_div_is_ordered_by_denominator(m, 1, b);
}

/// Truncating division of an exact multiple gives the factor back.
pub proof fn lemma_tdiv_exact(k: int, d: int)
    requires
        d > 0,
    ensures
        tdiv(k * d, d) == k,
{
    if k >= 0 {
        assert(k * d >= 0) by (nonlinear_arith)
            requires
                k >= 0,
                d > 0,
        ;
        vstd::arithmetic::div_mod::lemma_div_by_multiple(k, d);
    } else {
        assert(k * d < 0) by (nonlinear_arith)
            requires
                k < 0,
                d > 0,
        ;
        assert(-(k * d) == (-k) * d) by (nonlinear_arith);
        vstd::arithmetic::div_mod::lemma_div_by_multiple(-k, d);
    }
}

/// Division rounding toward zero, by a positive divisor.
pub fn div_trunc(a: i128, b: i128) -> (r: i128)
    requires
        b > 0,
        a > i128::MIN,
    ensures
        r == tdiv(a as int, b as int),
{
    if a >= 0 {
        a / b
    } else {
        let m: i128 = -a;
        let q: i128 = m / b;
        -q
    }
}

/// Brings `v` into `[-lim, lim]`.
pub fn clamp_to_i64(v: i128, lim: i64) -> (r: i64)
    requires
        lim >= 0,
    ensures
        r == clamp(v as int, -lim, lim as int),
{
    if v < -(lim as i128) {
        -lim
    } else if v > lim as i128 {
        lim
    } else {
        v as i64
    }
}

/// Integer square root, rounded down.
pub fn isqrt(n: u64) -> (r: u64)
    ensures
        is_floor_sqrt(n as int, r as int),
        r == floor_sqrt(n as int),
        r < 0x1_0000_0000,
{
    let mut lo: u64 = 0;
    let mut hi: u64 = 0x1_0000_0000;
    assert(0x1_0000_0000 * 0x1_0000_0000 > u64::MAX) by (nonlinear_arith);
    while hi - lo > 1
        invariant
            lo < hi <= 0x1_0000_0000,
            lo * lo <= n,
            n < hi * hi,
        decreases hi - lo,
    {
        let mid: u64 = lo + (hi - lo) / 2;
        proof {
            lemma_mul_bound(mid as int, mid as int, 0x1_0000_0000, 0x1_0000_0000);
        }
        let sq: u128 = (mid as u128) * (mid as u128);
        if sq <= n as u128 {
            lo = mid;
        } else {
            hi = mid;
        }
    }
    assert(hi == lo + 1);
    proof {
        assert(is_floor_sqrt(n as int, lo as int));
        let c = floor_sqrt(n as int);
        assert(is_floor_sqrt(n as int, c));
        lemma_floor_sqrt_unique(n as int, lo as int, c);
    }
    lo
}

/// `|a - b| <= r`, decided without rounding.
pub fn within(a: Point, b: Point, r: i64) -> (res: bool)
    requires
        a.in_range(POS_LIMIT as int),
        b.in_range(POS_LIMIT as int),
        0 <= r,
    ensures
        res == (dist_sq(a, b) <= r * r),
{
    let dx: i128 = a.x as i128 - b.x as i128;
    let dy: i128 = a.y as i128 - b.y as i128;
    let rr: i128 = r as i128;
    proof {
        lemma_sq_bound(dx as int, 2_000_000_000);
        lemma_sq_bound(dy as int, 2_000_000_000);
        lemma_sq_bound(rr as int, i64::MAX as int);
    }
    dx * dx + dy * dy <= rr * rr
}

/// `|a - b| < r`, decided without rounding.
pub fn strictly_within(a: Point, b: Point, r: i64) -> (res: bool)
    requires
        a.in_range(POS_LIMIT as int),
        b.in_range(POS_LIMIT as int),
        0 <= r,
    ensures
        res == (dist_sq(a, b) < r * r),
{
    let dx: i128 = a.x as i128 - b.x as i128;
    let dy: i128 = a.y as i128 - b.y as i128;
    let rr: i128 = r as i128;
    proof {
        lemma_sq_bound(dx as int, 2_000_000_000);
        lemma_sq_bound(dy as int, 2_000_000_000);
        lemma_sq_bound(rr as int, i64::MAX as int);
    }
    dx * dx + dy * dy < rr * rr
}

/// A square is nonnegative and bounded by the square of a bound.
pub proof fn lemma_sq_bound(v: int, b: int)
    requires
        -b <= v <= b,
    ensures
        0 <= v * v <= b * b,
{
    assert(0 <= v * v <= b * b) by (nonlinear_arith)
        requires
            -b <= v <= b,
    ;
}

/// A product of two bounded numbers is bounded by the product of the bounds.
pub proof fn lemma_mul_bound(a: int, b: int, ba: int, bb: int)
    requires
        -ba <= a <= ba,
        -bb <= b <= bb,
    ensures
        -(ba * bb) <= a * b <= ba * bb,
{
    assert(-(ba * bb) <= a * b <= ba * bb) by (nonlinear_arith)
        requires
            -ba <= a <= ba,
            -bb <= b <= bb,
    ;
}

/// A component of an offset is no longer than the rounded-down length.
pub proof fn lemma_component_within_root(c: int, dd: int, s: int)
    requires
        c * c <= dd,
        is_floor_sqrt(dd, s),
    ensures
        -s <= c <= s,
{
    assert(-s <= c <= s) by (nonlinear_arith)
        requires
            c * c <= dd,
            dd < (s + 1) * (s + 1),
            s >= 0,
    ;
}

/// `tdiv(c * speed, s)` stays within the speed when `|c| <= s`.
pub proof fn lemma_scaled_within_speed(c: int, speed: int, s: int)
    requires
        -s <= c <= s,
        s >= 1,
        0 <= speed,
    ensures
        -speed <= tdiv(c * speed, s) <= speed,
{
    let ac = if c >= 0 {
        c
    } else {
        -c
    };
    assert(0 <= ac * speed <= s * speed) by (nonlinear_arith)
        requires
            0 <= ac <= s,
            0 <= speed,
    ;
    vstd::arithmetic::div_mod::lemma_div_is_ordered(ac * speed, s * speed, s);
    vstd::arithmetic::div_mod::lemma_div_pos_is_pos(ac * speed, s);
    assert((s * speed) / s == speed) by {
        vstd::arithmetic::div_mod::lemma_div_by_multiple(speed, s);
        assert(s * speed == speed * s) by (nonlinear_arith);
    }
    if c < 0 {
        assert(c * speed == -(ac * speed)) by (nonlinear_arith)
            requires
                ac == -c,
        ;
    }
}

/// A vector of length `speed` (rounded toward zero per component) along
/// the offset `(dx, dy)`; the zero vector for a zero offset.
pub open spec fn aimed(dx: int, dy: int, speed: int) -> Point {
    let dd = dx * dx + dy * dy;
    if dd == 0 {
        Point { x: 0, y: 0 }
    } else {
        let s = floor_sqrt(dd);
        Point { x: tdiv(dx * speed, s) as i64, y: tdiv(dy * speed, s) as i64 }
    }
}

/// Scales the offset `(dx, dy)` to length `speed`.
pub fn aim(dx: i128, dy: i128, speed: i64) -> (r: Point)
    requires
        -2_000_000_000 <= dx <= 2_000_000_000,
        -2_000_000_000 <= dy <= 2_000_000_000,
        0 <= speed <= SPEED_LIMIT,
    ensures
        r == aimed(dx as int, dy as int, speed as int),
        r.in_range(speed as int),
{
    proof {
        lemma_sq_bound(dx as int, 2_000_000_000);
        lemma_sq_bound(dy as int, 2_000_000_000);
    }
    let dd: i128 = dx * dx + dy * dy;
    if dd == 0 {
        Point { x: 0, y: 0 }
    } else {
        let s: u64 = isqrt(dd as u64);
        proof {
            assert(dd as u64 as int == dd as int);
            assert(dx * dx <= dd) by (nonlinear_arith)
                requires
                    dd == dx * dx + dy * dy,
            ;
            assert(dy * dy <= dd) by (nonlinear_arith)
                requires
                    dd == dx * dx + dy * dy,
            ;
            assert(s >= 1) by (nonlinear_arith)
                requires
                    dd >= 1,
                    dd < (s + 1) * (s + 1),
                    s >= 0,
            ;
            lemma_component_within_root(dx as int, dd as int, s as int);
            lemma_component_within_root(dy as int, dd as int, s as int);
            lemma_scaled_within_speed(dx as int, speed as int, s as int);
            lemma_scaled_within_speed(dy as int, speed as int, s as int);
            lemma_mul_bound(dx as int, speed as int, 2_000_000_000, 1_000_000_000);
            lemma_mul_bound(dy as int, speed as int, 2_000_000_000, 1_000_000_000);
        }
        let sp: i128 = speed as i128;
        let vx = div_trunc(dx * sp, s as i128);
        let vy = div_trunc(dy * sp, s as i128);
        Point { x: vx as i64, y: vy as i64 }
    }
}

} // verus!
