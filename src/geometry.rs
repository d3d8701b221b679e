use vstd::prelude::*;

verus! {

/// Length of a direction vector that stands for a unit vector.
pub const DIR_SCALE: i64 = 1000;

/// A point or vector on the plane, in integer coordinates.
#[derive(Clone, Copy, Debug, PartialEq, Eq, Structural)]
pub struct Point {
    pub x: i64,
    pub y: i64,
}

impl Point {
    pub fn new(x: i64, y: i64) -> (r: Point)
        ensures
            r.x == x,
            r.y == y,
    {
        Point { x, y }
    }
}

/// The integer square root: the largest `r` with `r * r <= n`.
pub open spec fn is_isqrt(n: int, r: int) -> bool {
    0 <= r && r * r <= n && n < (r + 1) * (r + 1)
}

/// `isqrt` takes values below this bound (two to the hundredth).
pub const ISQRT_LIMIT: u128 = 0x10000000000000000000000000;

/// Integer square root by bisection.
pub fn isqrt(n: u128) -> (r: u128)
    requires
        n < ISQRT_LIMIT,
    ensures
        is_isqrt(n as int, r as int),
{
    let mut lo: u128 = 0;
    let mut hi: u128 = 0x4000000000000; // its square is ISQRT_LIMIT
    assert(0x4000000000000u128 * 0x4000000000000u128 == 0x10000000000000000000000000u128)
        by (nonlinear_arith);
    while hi - lo > 1
        invariant
            lo < hi <= 0x4000000000000,
            lo * lo <= n,
            n < hi * hi,
        decreases hi - lo,
    {
        let mid: u128 = lo + (hi - lo) / 2;
        assert(mid * mid <= 0x4000000000000u128 * 0x4000000000000u128) by (nonlinear_arith)
            requires mid <= 0x4000000000000u128;
        if mid * mid <= n {
            lo = mid;
        } else {
            hi = mid;
        }
    }
    lo
}

/// `a / d` rounded toward zero.
pub open spec fn trunc_div(a: int, d: int) -> int {
    if a >= 0 {
        a / d
    } else {
        -((-a) / d)
    }
}

/// Components of a vector that `normalize` accepts stay within this bound.
pub const NORMALIZE_LIMIT: i64 = 0x80000000000; // 2^43

/// `v` scaled to length about `DIR_SCALE`: each component times `DIR_SCALE`,
/// divided by the integer length of `v` and rounded toward zero.
pub open spec fn normalized(v: Point, len: int) -> Point {
    Point {
        x: trunc_div(v.x * DIR_SCALE, len) as i64,
        y: trunc_div(v.y * DIR_SCALE, len) as i64,
    }
}

pub open spec fn norm_squared(v: Point) -> int {
    v.x * v.x + v.y * v.y
}

/// `c * DIR_SCALE / len` rounded toward zero, where `len >= |c|`.
fn scale_component(c: i64, len: u128) -> (r: i64)
    requires
        -NORMALIZE_LIMIT <= c <= NORMALIZE_LIMIT,
        len > 0,
        c <= len,
        -c <= len,
    ensures
        r == trunc_div(c * DIR_SCALE, len as int),
        -DIR_SCALE <= r <= DIR_SCALE,
{
    let m: i128 = c as i128 * 1000;
    let a: u128 = if m >= 0 { m as u128 } else { (-m) as u128 };
    assert(a / len <= 1000) by (nonlinear_arith)
        requires
            a <= len * 1000,
            len > 0,
    ;
    let q: u128 = a / len;
    if m >= 0 {
        q as i64
    } else {
        -(q as i64)
    }
}

/// `v` turned into a direction of length about `DIR_SCALE`.
pub fn normalize(v: Point) -> (r: Point)
    requires
        v != (Point { x: 0, y: 0 }),
        -NORMALIZE_LIMIT <= v.x <= NORMALIZE_LIMIT,
        -NORMALIZE_LIMIT <= v.y <= NORMALIZE_LIMIT,
    ensures
        exists|len: int| is_isqrt(norm_squared(v), len) && r == normalized(v, len),
        -DIR_SCALE <= r.x <= DIR_SCALE,
        -DIR_SCALE <= r.y <= DIR_SCALE,
{
    assert(0 <= v.x * v.x <= 0x4000000000000000000000) by (nonlinear_arith)
        requires
            -0x80000000000 <= v.x <= 0x80000000000,
    ;
    assert(0 <= v.y * v.y <= 0x4000000000000000000000) by (nonlinear_arith)
        requires
            -0x80000000000 <= v.y <= 0x80000000000,
    ;
    let xx: u128 = (v.x as i128 * v.x as i128) as u128;
    let yy: u128 = (v.y as i128 * v.y as i128) as u128;
    let len: u128 = isqrt(xx + yy);
    proof {
        let l = len as int;
        assert(v.x <= l && -v.x <= l && v.y <= l && -v.y <= l && l > 0) by (nonlinear_arith)
            requires
                l * l <= v.x * v.x + v.y * v.y,
                v.x * v.x + v.y * v.y < (l + 1) * (l + 1),
                v.x != 0 || v.y != 0,
                l >= 0,
        ;
    }
    let r = Point { x: scale_component(v.x, len), y: scale_component(v.y, len) };
    assert(is_isqrt(norm_squared(v), len as int) && r == normalized(v, len as int));
    r
}

} // verus!
