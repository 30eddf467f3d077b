//! Exact non-negative rational numbers.
//!
//! Rates and scores are quotients of counts. They are kept as quotients, so
//! that two of them compare exactly, however large the counts.

use vstd::prelude::*;

verus! {

/// A non-negative rational number `numer / denom`, with `denom` above zero.
#[derive(Clone, Copy, Debug)]
pub struct Ratio {
    num: u128,
    den: u128,
}

/// `a / b >= c / d` for positive `b` and `d`, without division.
pub open spec fn quotient_ge(a: int, b: int, c: int, d: int) -> bool {
    a * d >= c * b
}

impl Ratio {
    #[verifier::type_invariant]
    spec fn positive_denominator(self) -> bool {
        self.den > 0
    }

    pub closed spec fn numer(self) -> nat {
        self.num as nat
    }

    /// The denominator; it is above zero for every ratio.
    pub closed spec fn denom(self) -> nat {
        if self.den == 0 {
            1
        } else {
            self.den as nat
        }
    }

    /// The ratio with the given numerator and denominator.
    pub closed spec fn of(numer: nat, denom: nat) -> Ratio {
        Ratio { num: numer as u128, den: denom as u128 }
    }

    /// `self > n / d` as numbers, for a positive `d`.
    pub open spec fn exceeds(self, n: nat, d: nat) -> bool {
        self.numer() * d > n * self.denom()
    }

    /// `self >= other` as numbers.
    pub open spec fn spec_ge(self, other: Ratio) -> bool {
        quotient_ge(self.numer() as int, self.denom() as int, other.numer() as int, other.denom() as int)
    }

    /// `self > other` as numbers.
    pub open spec fn spec_gt(self, other: Ratio) -> bool {
        !other.spec_ge(self)
    }

    /// `self` is the number `n / d`, for a positive `d`.
    pub open spec fn is_quotient(self, n: nat, d: nat) -> bool {
        self.numer() * d == n * self.denom()
    }

    /// The quotient `num / den`, where there is one.
    pub fn new(num: u128, den: u128) -> (ratio: Option<Ratio>)
        ensures
            ratio is Some <==> den > 0,
            ratio matches Some(r) ==> r == Ratio::of(num as nat, den as nat) && r.numer() == num
                && r.denom() == den,
    {
        if den == 0 {
            None
        } else {
            Some(Ratio { num, den })
        }
    }

    /// The number zero.
    pub fn zero() -> (ratio: Ratio)
        ensures
            ratio == Ratio::of(0, 1),
            ratio.numer() == 0,
            ratio.denom() == 1,
    {
        Ratio { num: 0, den: 1 }
    }

    pub fn numerator(&self) -> (n: u128)
        ensures
            n == self.numer(),
    {
        self.num
    }

    pub fn denominator(&self) -> (d: u128)
        ensures
            d == self.denom(),
            d > 0,
    {
        proof {
            use_type_invariant(self);
        }
        self.den
    }

    pub fn is_zero(&self) -> (zero: bool)
        ensures
            zero == (self.numer() == 0),
    {
        self.num == 0
    }

    /// Compares two ratios exactly.
    pub fn ge(&self, other: &Ratio) -> (holds: bool)
        ensures
            holds == self.spec_ge(*other),
    {
        proof {
            use_type_invariant(self);
            use_type_invariant(other);
        }
        quotient_at_least(self.num, self.den, other.num, other.den)
    }

    pub fn gt(&self, other: &Ratio) -> (holds: bool)
        ensures
            holds == self.spec_gt(*other),
    {
        !other.ge(self)
    }

    /// The parts of `Ratio::of(numer, denom)` are the ones it was made of.
    pub proof fn lemma_of(numer: nat, denom: nat)
        requires
            numer <= u128::MAX,
            0 < denom <= u128::MAX,
        ensures
            Ratio::of(numer, denom).numer() == numer,
            Ratio::of(numer, denom).denom() == denom,
    {
    }

    /// No ratio has a denominator of zero.
    pub proof fn lemma_denom_positive(self)
        ensures
            self.denom() > 0,
    {
    }
}

/// Decides `a / b >= c / d` by the whole parts of the two quotients and,
/// where those agree, by the remainders, the way Euclid's algorithm descends.
/// No product is formed, so nothing can overflow.
fn quotient_at_least(a: u128, b: u128, c: u128, d: u128) -> (holds: bool)
    requires
        b > 0,
        d > 0,
    ensures
        holds == quotient_ge(a as int, b as int, c as int, d as int),
    decreases b + d,
{
    let whole_left: u128 = a / b;
    let rest_left: u128 = a % b;
    let whole_right: u128 = c / d;
    let rest_right: u128 = c % d;
    proof {
        lemma_compare_by_parts(
            a as int,
            b as int,
            c as int,
            d as int,
        );
    }
    if whole_left > whole_right {
        true
    } else if whole_left < whole_right {
        false
    } else if rest_right == 0 {
        true
    } else if rest_left == 0 {
        false
    } else {
        quotient_at_least(d, rest_right, b, rest_left)
    }
}

/// How the comparison of two quotients follows from their whole parts and
/// remainders.
proof fn lemma_compare_by_parts(a: int, b: int, c: int, d: int)
    requires
        a >= 0,
        c >= 0,
        b > 0,
        d > 0,
    ensures
        a / b > c / d ==> quotient_ge(a, b, c, d),
        a / b < c / d ==> !quotient_ge(a, b, c, d),
        a / b == c / d ==> (quotient_ge(a, b, c, d) <==> (a % b) * d >= (c % d) * b),
        a / b == c / d && c % d == 0 ==> quotient_ge(a, b, c, d),
        a / b == c / d && c % d > 0 && a % b == 0 ==> !quotient_ge(a, b, c, d),
        a / b == c / d && c % d > 0 && a % b > 0 ==> (quotient_ge(a, b, c, d) <==> quotient_ge(
            d,
            c % d,
            b,
            a % b,
        )),
{
    let q1 = a / b;
    let r1 = a % b;
    let q2 = c / d;
    let r2 = c % d;
    assert(a == q1 * b + r1 && 0 <= r1 < b) by (nonlinear_arith)
        requires
            b > 0,
            q1 == a / b,
            r1 == a % b,
    ;
    assert(c == q2 * d + r2 && 0 <= r2 < d) by (nonlinear_arith)
        requires
            d > 0,
            q2 == c / d,
            r2 == c % d,
    ;
    assert(a * d - c * b == (q1 - q2) * (b * d) + (r1 * d - r2 * b)) by (nonlinear_arith)
        requires
            a == q1 * b + r1,
            c == q2 * d + r2,
    ;
    assert(-(b * d) < r1 * d - r2 * b < b * d && b * d > 0) by (nonlinear_arith)
        requires
            0 <= r1 < b,
            0 <= r2 < d,
            b > 0,
            d > 0,
    ;
    if q1 > q2 {
        assert((q1 - q2) * (b * d) >= b * d) by (nonlinear_arith)
            requires
                q1 > q2,
                b * d > 0,
        ;
    }
    if q1 < q2 {
        assert((q1 - q2) * (b * d) <= -(b * d)) by (nonlinear_arith)
            requires
                q1 < q2,
                b * d > 0,
        ;
    }
    if q1 == q2 {
        assert((q1 - q2) * (b * d) == 0) by (nonlinear_arith)
            requires
                q1 == q2,
        ;
        if r2 > 0 && r1 == 0 {
            assert(r2 * b > 0) by (nonlinear_arith)
                requires
                    r2 > 0,
                    b > 0,
            ;
        }
        if r2 == 0 {
            assert(r2 * b == 0 && r1 * d >= 0) by (nonlinear_arith)
                requires
                    r2 == 0,
                    r1 >= 0,
                    d > 0,
            ;
        }
        assert(r1 * d == d * r1 && r2 * b == b * r2) by (nonlinear_arith);
    }
}

/// The order of ratios is total.
pub proof fn lemma_ratio_order_total(x: Ratio, y: Ratio)
    ensures
        x.spec_ge(y) || y.spec_ge(x),
{
}

/// The order of ratios is transitive.
pub proof fn lemma_ratio_order_transitive(x: Ratio, y: Ratio, z: Ratio)
    requires
        x.spec_ge(y),
        y.spec_ge(z),
    ensures
        x.spec_ge(z),
{
    let (a, b) = (x.numer() as int, x.denom() as int);
    let (c, d) = (y.numer() as int, y.denom() as int);
    let (e, f) = (z.numer() as int, z.denom() as int);
    assert(a * f >= e * b) by (nonlinear_arith)
        requires
            a * d >= c * b,
            c * f >= e * d,
            a >= 0,
            c >= 0,
            e >= 0,
            b > 0,
            d > 0,
            f > 0,
    ;
}

} // verus!
