use vstd::math::abs;
use vstd::prelude::*;

use crate::options::{heart_sizes, spec_heart_sizes, Options};

verus! {

/// Largest heart extent that `heart_contains` accepts; it keeps the
/// arithmetic inside 128-bit integers.
pub const MAX_HEART_SIZE: i32 = 1000;

/// `l <= c * sqrt(n)` over the reals, for `n >= 0`, decided in integers.
pub open spec fn le_mul_sqrt(l: int, c: int, n: int) -> bool {
    if c >= 0 {
        l <= 0 || l * l <= c * c * n
    } else {
        l <= 0 && l * l >= c * c * n
    }
}

/// Where `n` is a perfect square, `le_mul_sqrt` is the plain comparison
/// `l <= c * sqrt(n)`.
pub proof fn lemma_le_mul_sqrt_of_square(l: int, c: int, q: int)
    requires
        q >= 0,
    ensures
        le_mul_sqrt(l, c, q * q) == (l <= c * q),
{
    let p = c * q;
    assert(c * c * (q * q) == p * p) by (nonlinear_arith)
        requires
            p == c * q,
    ;
    assert(c >= 0 ==> p >= 0) by (nonlinear_arith)
        requires
            p == c * q,
            q >= 0,
    ;
    assert(c < 0 ==> p <= 0) by (nonlinear_arith)
        requires
            p == c * q,
            q >= 0,
    ;
    assert(l > 0 && p >= 0 ==> (l * l <= p * p <==> l <= p)) by (nonlinear_arith);
    assert(l <= 0 && p <= 0 ==> (l * l >= p * p <==> l <= p)) by (nonlinear_arith);
}

/// Whether cell (`x`, `y`) lies inside a heart of extent `size`.
///
/// The cell is mapped to `nx = (x / size - 0.5) * 2.2` and
/// `ny = ((size - y) / size - 0.4) * 3.0`, and lies inside when
/// `|nx| <= 1` and `-sqrt(1 - nx^2) + 0.7 sqrt|nx| <= ny <= sqrt(1 - nx^2) + 0.7 sqrt|nx|`.
/// With `d = 10 * size`, `m = |11 (2x - size)| = d |nx|` and
/// `b = 3 (6 size - 10 y) = d ny`, the band condition
/// `(ny - 0.7 sqrt|nx|)^2 <= 1 - nx^2`, scaled by `100 d^2`, reads
/// `100 b^2 + 100 m^2 + 49 m d - 100 d^2 <= 140 b sqrt(m d)`.
pub open spec fn spec_heart_contains(x: int, y: int, size: int) -> bool {
    let d = 10 * size;
    let m = abs(11 * (2 * x - size));
    let b = 3 * (6 * size - 10 * y);
    m <= d && le_mul_sqrt(100 * (b * b) + 100 * (m * m) + 49 * (m * d) - 100 * (d * d), 140 * b, m * d)
}

/// Rows far above or below the heart's band are never inside it.
proof fn lemma_far_rows_outside(m: int, d: int, b: int)
    requires
        0 <= m <= d,
        b > 2 * d || b < -2 * d,
    ensures
        !le_mul_sqrt(100 * (b * b) + 100 * (m * m) + 49 * (m * d) - 100 * (d * d), 140 * b, m * d),
{
    let l = 100 * (b * b) + 100 * (m * m) + 49 * (m * d) - 100 * (d * d);
    assert(m * m >= 0 && m * d >= 0 && d * d >= 0) by (nonlinear_arith)
        requires
            0 <= m <= d,
    ;
    assert(4 * (d * d) < b * b) by (nonlinear_arith)
        requires
            0 <= d,
            b > 2 * d || b < -2 * d,
    ;
    assert(l >= 75 * (b * b));
    if b > 2 * d {
        assert(m * d <= d * d) by (nonlinear_arith)
            requires
                0 <= m <= d,
        ;
        let bb = b * b;
        assert(bb > 0) by (nonlinear_arith)
            requires
                b > 0,
                bb == b * b,
        ;
        assert(bb * bb > 0) by (nonlinear_arith)
            requires
                bb > 0,
        ;
        assert(l * l >= 5625 * (bb * bb)) by (nonlinear_arith)
            requires
                l >= 75 * bb,
                bb > 0,
        ;
        assert((140 * b) * (140 * b) * (m * d) <= 19600 * bb * (d * d)) by (nonlinear_arith)
            requires
                0 <= m * d <= d * d,
                bb == b * b,
        ;
        assert(19600 * bb * (d * d) < 4900 * (bb * bb) + 1) by (nonlinear_arith)
            requires
                4 * (d * d) < bb,
                bb > 0,
                d >= 0,
        ;
    }
}

/// Whether cell (`x`, `y`) lies inside a heart of extent `size`; row 0 is
/// the top of the shape.
pub fn heart_contains(x: i32, y: i32, size: i32) -> (r: bool)
    requires
        0 < size <= MAX_HEART_SIZE,
    ensures
        r == spec_heart_contains(x as int, y as int, size as int),
{
    let s = size as i64;
    assert(0 < s <= 1000);
    let d: i64 = 10 * s;
    let a: i64 = 11 * (2 * (x as i64) - s);
    let m: i64 = if a < 0 {
        -a
    } else {
        a
    };
    if m > d {
        return false;
    }
    let b: i64 = 3 * (6 * s - 10 * (y as i64));
    let band: i64 = 2 * d;
    if b > band || b < -band {
        proof {
            lemma_far_rows_outside(m as int, d as int, b as int);
        }
        return false;
    }
    let m = m as i128;
    let d = d as i128;
    let b = b as i128;
    assert(0 <= b * b <= 400000000 && 0 <= m * m <= 100000000 && 0 <= m * d <= 100000000
        && 0 <= d * d <= 100000000) by (nonlinear_arith)
        requires
            0 <= m <= d <= 10000,
            -2 * d <= b <= 2 * d,
    ;
    let l: i128 = 100 * (b * b) + 100 * (m * m) + 49 * (m * d) - 100 * (d * d);
    let c: i128 = 140 * b;
    let n: i128 = m * d;
    assert(0 <= l * l <= 10000000000000000000000 && 0 <= c * c <= 7840000000000 && c * c * n
        <= 1000000000000000000000) by (nonlinear_arith)
        requires
            -100000000000 <= l <= 100000000000,
            -2800000 <= c <= 2800000,
            0 <= n <= 100000000,
    ;
    if c >= 0 {
        l <= 0 || l * l <= c * c * n
    } else {
        l <= 0 && l * l >= c * c * n
    }
}

/// Whether cell (`x`, `y`) lies inside the heart of the size `options` selects.
pub fn is_in_love(x: i32, y: i32, options: &Options) -> (r: bool)
    ensures
        r == spec_heart_contains(x as int, y as int, spec_heart_sizes(options.petite).0 as int),
{
    let (heart_size, _) = heart_sizes(options);
    heart_contains(x, y, heart_size)
}

} // verus!
