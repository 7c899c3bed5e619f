//! The number type underneath the vectors and the matrix.

use vstd::prelude::*;

verus! {

/// A number that vectors and matrices can be built over.
///
/// Each operation comes as a pair: a specification function that names the
/// result, and an executable method that returns it. An operation that is
/// not defined everywhere (a sum that would leave the range of a machine
/// integer, a division by zero) has a third member, ending in `_ok`, that
/// says where it is defined.
pub trait Scalar: Copy {
    /// The additive identity.
    spec fn zero_spec() -> Self;

    /// The multiplicative identity.
    spec fn one_spec() -> Self;

    /// The scalar that stands for the machine integer `k`.
    spec fn from_int_spec(k: i32) -> Self;

    /// Whether `self + rhs` is defined.
    spec fn plus_ok(self, rhs: Self) -> bool;

    /// `self + rhs`.
    spec fn plus_spec(self, rhs: Self) -> Self;

    /// Whether `self - rhs` is defined.
    spec fn minus_ok(self, rhs: Self) -> bool;

    /// `self - rhs`.
    spec fn minus_spec(self, rhs: Self) -> Self;

    /// Whether `self * rhs` is defined.
    spec fn times_ok(self, rhs: Self) -> bool;

    /// `self * rhs`.
    spec fn times_spec(self, rhs: Self) -> Self;

    /// Whether `self / rhs` is defined.
    spec fn over_ok(self, rhs: Self) -> bool;

    /// `self / rhs`.
    spec fn over_spec(self, rhs: Self) -> Self;

    /// Whether the square root of `self` is defined.
    spec fn sqrt_ok(self) -> bool;

    /// The square root of `self`, rounded as the number type rounds.
    spec fn sqrt_spec(self) -> Self;

    /// Whether the two are equal up to the tolerance of the number type.
    spec fn near_spec(self, rhs: Self) -> bool;

    fn zero() -> (r: Self)
        ensures
            r == Self::zero_spec(),
    ;

    fn one() -> (r: Self)
        ensures
            r == Self::one_spec(),
    ;

    fn from_int(k: i32) -> (r: Self)
        ensures
            r == Self::from_int_spec(k),
    ;

    fn plus(self, rhs: Self) -> (r: Self)
        requires
            self.plus_ok(rhs),
        ensures
            r == self.plus_spec(rhs),
    ;

    fn minus(self, rhs: Self) -> (r: Self)
        requires
            self.minus_ok(rhs),
        ensures
            r == self.minus_spec(rhs),
    ;

    fn times(self, rhs: Self) -> (r: Self)
        requires
            self.times_ok(rhs),
        ensures
            r == self.times_spec(rhs),
    ;

    fn over(self, rhs: Self) -> (r: Self)
        requires
            self.over_ok(rhs),
        ensures
            r == self.over_spec(rhs),
    ;

    fn sqrt(self) -> (r: Self)
        requires
            self.sqrt_ok(),
        ensures
            r == self.sqrt_spec(),
    ;

    fn near(self, rhs: Self) -> (r: bool)
        ensures
            r == self.near_spec(rhs),
    ;
}

/// The quotient of `a` by `d` rounded toward zero, for `d != 0`.
pub open spec fn quotient(a: int, d: int) -> int {
    if a >= 0 && d > 0 {
        a / d
    } else if a < 0 && d < 0 {
        (-a) / (-d)
    } else if a < 0 {
        -((-a) / d)
    } else {
        -(a / (-d))
    }
}

/// Whether `r` is the square root of `x` rounded down: the largest integer
/// whose square is at most `x`.
pub open spec fn is_floor_sqrt(x: int, r: int) -> bool {
    0 <= r && r * r <= x < (r + 1) * (r + 1)
}

/// The exact scalar: a 64-bit integer, with every operation defined where
/// its mathematical result fits. Quotients are rounded toward zero and
/// square roots down. Two integers are near when they are equal.
impl Scalar for i64 {
    open spec fn zero_spec() -> i64 {
        0
    }

    open spec fn one_spec() -> i64 {
        1
    }

    open spec fn from_int_spec(k: i32) -> i64 {
        k as i64
    }

    open spec fn plus_ok(self, rhs: i64) -> bool {
        i64::MIN <= self + rhs <= i64::MAX
    }

    open spec fn plus_spec(self, rhs: i64) -> i64 {
        (self + rhs) as i64
    }

    open spec fn minus_ok(self, rhs: i64) -> bool {
        i64::MIN <= self - rhs <= i64::MAX
    }

    open spec fn minus_spec(self, rhs: i64) -> i64 {
        (self - rhs) as i64
    }

    open spec fn times_ok(self, rhs: i64) -> bool {
        i64::MIN <= self * rhs <= i64::MAX
    }

    open spec fn times_spec(self, rhs: i64) -> i64 {
        (self * rhs) as i64
    }

    open spec fn over_ok(self, rhs: i64) -> bool {
        rhs != 0 && quotient(self as int, rhs as int) <= i64::MAX
    }

    open spec fn over_spec(self, rhs: i64) -> i64 {
        quotient(self as int, rhs as int) as i64
    }

    open spec fn sqrt_ok(self) -> bool {
        self >= 0
    }

    open spec fn sqrt_spec(self) -> i64 {
        choose|r: i64| is_floor_sqrt(self as int, r as int)
    }

    open spec fn near_spec(self, rhs: i64) -> bool {
        self == rhs
    }

    fn zero() -> (r: i64) {
        0
    }

    fn one() -> (r: i64) {
        1
    }

    fn from_int(k: i32) -> (r: i64) {
        k as i64
    }

    fn plus(self, rhs: i64) -> (r: i64) {
        self + rhs
    }

    fn minus(self, rhs: i64) -> (r: i64) {
        self - rhs
    }

    fn times(self, rhs: i64) -> (r: i64) {
        self * rhs
    }

    fn over(self, rhs: i64) -> (r: i64) {
        proof {
            lemma_quotient_bounds(self as int, rhs as int);
        }
        self.checked_div(rhs).unwrap()
    }

    fn sqrt(self) -> (r: i64) {
        let mut lo: i64 = 0;
        let mut hi: i64 = 3037000500;
        while hi - lo > 1
            invariant
                0 <= lo < hi <= 3037000500,
                lo * lo <= self < hi * hi,
            decreases hi - lo,
        {
            let mid: i64 = lo + (hi - lo) / 2;
            proof {
                lemma_square_monotonic(mid as int, 3037000499);
            }
            if mid * mid <= self {
                lo = mid;
            } else {
                hi = mid;
            }
        }
        proof {
            let s = choose|r: i64| is_floor_sqrt(self as int, r as int);
            assert(is_floor_sqrt(self as int, lo as int));
            lemma_floor_sqrt_unique(self as int, lo as int, s as int);
        }
        lo
    }

    fn near(self, rhs: i64) -> (r: bool) {
        self == rhs
    }
}

/// The quotient is no larger in magnitude than the dividend.
pub proof fn lemma_quotient_bounds(a: int, d: int)
    requires
        d != 0,
    ensures
        a >= 0 ==> -a <= quotient(a, d) <= a,
        a < 0 ==> a <= quotient(a, d) <= -a,
{
    if a >= 0 && d > 0 {
        lemma_div_bounds(a, d);
    } else if a < 0 && d < 0 {
        lemma_div_bounds(-a, -d);
    } else if a < 0 {
        lemma_div_bounds(-a, d);
    } else {
        lemma_div_bounds(a, -d);
    }
}

/// For `a >= 0` and `d > 0`, `0 <= a / d <= a`.
proof fn lemma_div_bounds(a: int, d: int)
    requires
        a >= 0,
        d > 0,
    ensures
        0 <= a / d <= a,
{
    assert(0 <= a / d <= a) by (nonlinear_arith)
        requires
            a >= 0,
            d > 0,
    ;
}

/// Squaring keeps the order of non-negative integers.
proof fn lemma_square_monotonic(a: int, b: int)
    requires
        0 <= a <= b,
    ensures
        a * a <= b * b,
{
    assert(a * a <= b * b) by (nonlinear_arith)
        requires
            0 <= a <= b,
    ;
}

/// An integer has at most one square root rounded down.
pub proof fn lemma_floor_sqrt_unique(x: int, r: int, s: int)
    requires
        is_floor_sqrt(x, r),
        is_floor_sqrt(x, s),
    ensures
        r == s,
{
    if r < s {
        lemma_square_monotonic(r + 1, s);
    } else if s < r {
        lemma_square_monotonic(s + 1, r);
    }
}

} // verus!
