//! Exact rational scalars. The integration method's coefficients and the
//! model of the state vector's algebra are rationals: a fraction is kept
//! as a numerator over a positive denominator and is never reduced, so
//! every arithmetic result is pinned down exactly. Two fractions stand
//! for the same rational exactly when cross-multiplication agrees.

use vstd::prelude::*;

verus! {

/// A rational number in specification form: an unbounded integer
/// numerator over a positive unbounded integer denominator.
pub struct Rat {
    pub num: int,
    pub den: int,
}

/// A well-formed rational has a positive denominator.
pub open spec fn rat_wf(a: Rat) -> bool {
    a.den > 0
}

/// The rational with the value of the integer `n`.
pub open spec fn rat_of_int(n: int) -> Rat {
    Rat { num: n, den: 1 }
}

/// Two fractions denote the same rational exactly when
/// cross-multiplication agrees.
pub open spec fn rat_eq(a: Rat, b: Rat) -> bool {
    a.num * b.den == b.num * a.den
}

/// The sum of two fractions, over the common denominator. No reduction
/// is performed, so the result is a single well-defined pair.
pub open spec fn rat_add(a: Rat, b: Rat) -> Rat {
    Rat { num: a.num * b.den + b.num * a.den, den: a.den * b.den }
}

/// The difference of two fractions, over the common denominator.
pub open spec fn rat_sub(a: Rat, b: Rat) -> Rat {
    Rat { num: a.num * b.den - b.num * a.den, den: a.den * b.den }
}

/// The product of two fractions.
pub open spec fn rat_mul(a: Rat, b: Rat) -> Rat {
    Rat { num: a.num * b.num, den: a.den * b.den }
}

/// The negation of a fraction.
pub open spec fn rat_neg(a: Rat) -> Rat {
    Rat { num: -a.num, den: a.den }
}

/// A fraction denotes a non-negative rational exactly when numerator and
/// denominator do not have opposite signs.
pub open spec fn rat_nonneg(a: Rat) -> bool {
    a.num * a.den >= 0
}

/// Whether an unbounded integer is representable as an `i64`.
pub open spec fn fits_i64(n: int) -> bool {
    i64::MIN <= n <= i64::MAX
}

/// Whether the sum of two fractions can be computed in `i64` arithmetic,
/// every intermediate product included.
pub open spec fn rat_add_fits(a: Rat, b: Rat) -> bool {
    &&& fits_i64(a.num * b.den)
    &&& fits_i64(b.num * a.den)
    &&& fits_i64(a.num * b.den + b.num * a.den)
    &&& fits_i64(a.den * b.den)
}

/// Whether the difference of two fractions can be computed in `i64`
/// arithmetic, every intermediate product included.
pub open spec fn rat_sub_fits(a: Rat, b: Rat) -> bool {
    &&& fits_i64(a.num * b.den)
    &&& fits_i64(b.num * a.den)
    &&& fits_i64(a.num * b.den - b.num * a.den)
    &&& fits_i64(a.den * b.den)
}

/// Whether the product of two fractions can be computed in `i64`
/// arithmetic.
pub open spec fn rat_mul_fits(a: Rat, b: Rat) -> bool {
    &&& fits_i64(a.num * b.num)
    &&& fits_i64(a.den * b.den)
}

/// Whether the cross products that decide equality of two fractions can
/// be computed in `i64` arithmetic.
pub open spec fn rat_eq_fits(a: Rat, b: Rat) -> bool {
    &&& fits_i64(a.num * b.den)
    &&& fits_i64(b.num * a.den)
}

/// An exact rational carried at run time: an `i64` numerator over a
/// positive `i64` denominator, never reduced.
#[derive(Clone, Copy, Debug)]
pub struct Frac {
    pub num: i64,
    pub den: i64,
}

impl View for Frac {
    type V = Rat;

    open spec fn view(&self) -> Rat {
        Rat { num: self.num as int, den: self.den as int }
    }
}

impl Frac {
    /// A well-formed fraction has a positive denominator.
    pub open spec fn wf(self) -> bool {
        rat_wf(self@)
    }

    /// Builds the fraction `num / den`.
    pub fn new(num: i64, den: i64) -> (r: Frac)
        requires
            den > 0,
        ensures
            r@ == (Rat { num: num as int, den: den as int }),
            r.wf(),
    {
        Frac { num, den }
    }

    /// The fraction with the value of the integer `n`.
    pub fn from_int(n: i64) -> (r: Frac)
        ensures
            r@ == rat_of_int(n as int),
            r.wf(),
    {
        Frac { num: n, den: 1 }
    }

    /// The zero fraction.
    pub fn zero() -> (r: Frac)
        ensures
            r@ == rat_of_int(0),
            r.wf(),
    {
        Frac { num: 0, den: 1 }
    }

    /// The exact sum of two fractions.
    pub fn add(self, other: Frac) -> (r: Frac)
        requires
            self.wf(),
            other.wf(),
            rat_add_fits(self@, other@),
        ensures
            r@ == rat_add(self@, other@),
            r.wf(),
    {
        proof {
            assert(self.den as int * other.den as int > 0) by (nonlinear_arith)
                requires
                    self.den > 0,
                    other.den > 0,
            ;
        }
        Frac { num: self.num * other.den + other.num * self.den, den: self.den * other.den }
    }

    /// The exact difference of two fractions.
    pub fn sub(self, other: Frac) -> (r: Frac)
        requires
            self.wf(),
            other.wf(),
            rat_sub_fits(self@, other@),
        ensures
            r@ == rat_sub(self@, other@),
            r.wf(),
    {
        proof {
            assert(self.den as int * other.den as int > 0) by (nonlinear_arith)
                requires
                    self.den > 0,
                    other.den > 0,
            ;
        }
        Frac { num: self.num * other.den - other.num * self.den, den: self.den * other.den }
    }

    /// The exact product of two fractions.
    pub fn mul(self, other: Frac) -> (r: Frac)
        requires
            self.wf(),
            other.wf(),
            rat_mul_fits(self@, other@),
        ensures
            r@ == rat_mul(self@, other@),
            r.wf(),
    {
        proof {
            assert(self.den as int * other.den as int > 0) by (nonlinear_arith)
                requires
                    self.den > 0,
                    other.den > 0,
            ;
        }
        Frac { num: self.num * other.num, den: self.den * other.den }
    }

    /// The exact negation of a fraction.
    pub fn neg(self) -> (r: Frac)
        requires
            self.wf(),
            self.num > i64::MIN,
        ensures
            r@ == rat_neg(self@),
            r.wf(),
    {
        Frac { num: -self.num, den: self.den }
    }

    /// Decides whether two fractions denote the same rational.
    pub fn eq_frac(self, other: Frac) -> (r: bool)
        requires
            self.wf(),
            other.wf(),
            rat_eq_fits(self@, other@),
        ensures
            r == rat_eq(self@, other@),
    {
        self.num * other.den == other.num * self.den
    }
}

/// The sum of well-formed fractions is well-formed.
pub proof fn lemma_rat_add_wf(a: Rat, b: Rat)
    requires
        rat_wf(a),
        rat_wf(b),
    ensures
        rat_wf(rat_add(a, b)),
{
    assert(a.den * b.den > 0) by (nonlinear_arith)
        requires
            a.den > 0,
            b.den > 0,
    ;
}

/// The product of well-formed fractions is well-formed.
pub proof fn lemma_rat_mul_wf(a: Rat, b: Rat)
    requires
        rat_wf(a),
        rat_wf(b),
    ensures
        rat_wf(rat_mul(a, b)),
{
    assert(a.den * b.den > 0) by (nonlinear_arith)
        requires
            a.den > 0,
            b.den > 0,
    ;
}

/// Denoting the same rational is transitive over well-formed fractions.
pub proof fn lemma_rat_eq_trans(a: Rat, b: Rat, c: Rat)
    requires
        rat_wf(a),
        rat_wf(b),
        rat_wf(c),
        rat_eq(a, b),
        rat_eq(b, c),
    ensures
        rat_eq(a, c),
{
    assert(a.num * c.den == c.num * a.den) by (nonlinear_arith)
        requires
            b.den > 0,
            a.num * b.den == b.num * a.den,
            b.num * c.den == c.num * b.den,
    ;
}

/// Multiplication by a common factor distributes over the sum: `a*k +
/// b*k` denotes the same rational as `(a + b)*k`.
pub proof fn lemma_mul_distributes_over_add(a: Rat, b: Rat, k: Rat)
    requires
        rat_wf(a),
        rat_wf(b),
        rat_wf(k),
    ensures
        rat_eq(rat_add(rat_mul(a, k), rat_mul(b, k)), rat_mul(rat_add(a, b), k)),
{
    let l = rat_add(rat_mul(a, k), rat_mul(b, k));
    let r = rat_mul(rat_add(a, b), k);
    let x: int = a.den * k.den;
    let y: int = b.den * k.den;
    let p: int = a.num * k.num;
    let q: int = b.num * k.num;
    let s: int = a.num * b.den;
    let s2: int = b.num * a.den;
    assert(x * b.den == (a.den * b.den) * k.den) by (nonlinear_arith)
        requires
            x == a.den * k.den,
    ;
    assert(y * a.den == (a.den * b.den) * k.den) by (nonlinear_arith)
        requires
            y == b.den * k.den,
    ;
    assert(p * b.den == s * k.num) by (nonlinear_arith)
        requires
            p == a.num * k.num,
            s == a.num * b.den,
    ;
    assert(q * a.den == s2 * k.num) by (nonlinear_arith)
        requires
            q == b.num * k.num,
            s2 == b.num * a.den,
    ;
    assert((p * y) * (x * b.den) == (s * k.num) * (x * y)) by (nonlinear_arith)
        requires
            p * b.den == s * k.num,
    ;
    assert((q * x) * (y * a.den) == (s2 * k.num) * (x * y)) by (nonlinear_arith)
        requires
            q * a.den == s2 * k.num,
    ;
    assert(l.num * r.den == (p * y) * r.den + (q * x) * r.den) by (nonlinear_arith)
        requires
            l.num == p * y + q * x,
    ;
    assert(r.num * l.den == (s * k.num) * (x * y) + (s2 * k.num) * (x * y)) by (nonlinear_arith)
        requires
            r.num == (s + s2) * k.num,
            l.den == x * y,
    ;
    assert(x * b.den == r.den);
    assert(y * a.den == r.den);
    assert((p * y) * (x * b.den) == (p * y) * r.den);
    assert((q * x) * (y * a.den) == (q * x) * r.den);
}

/// A fraction that denotes one is a multiplicative identity: `s*k`
/// denotes the same rational as `k` when `s` denotes one.
pub proof fn lemma_one_mul(s: Rat, k: Rat)
    requires
        rat_wf(s),
        rat_wf(k),
        rat_eq(s, rat_of_int(1)),
    ensures
        rat_eq(rat_mul(s, k), k),
{
    assert((s.num * k.num) * k.den == k.num * (s.den * k.den)) by (nonlinear_arith)
        requires
            s.num * 1 == 1 * s.den,
    ;
}

/// A fraction added to itself denotes the same rational as the fraction
/// scaled by two.
pub proof fn lemma_add_self_eq_double(a: Rat)
    requires
        rat_wf(a),
    ensures
        rat_eq(rat_add(a, a), rat_mul(a, rat_of_int(2))),
{
    assert((a.num * a.den + a.num * a.den) * (a.den * 1) == (a.num * 2) * (a.den * a.den))
        by (nonlinear_arith);
}

/// Two times a fraction minus three times the fraction denotes the same
/// rational as minus one times it.
pub proof fn lemma_double_minus_triple_eq_neg(a: Rat)
    requires
        rat_wf(a),
    ensures
        rat_eq(
            rat_sub(rat_mul(a, rat_of_int(2)), rat_mul(a, rat_of_int(3))),
            rat_mul(a, rat_of_int(-1)),
        ),
{
    assert(((a.num * 2) * (a.den * 1) - (a.num * 3) * (a.den * 1)) * (a.den * 1) == (a.num * -1) * (
    (a.den * 1) * (a.den * 1))) by (nonlinear_arith);
}

/// A fraction denoting zero times any fraction denotes zero.
pub proof fn lemma_zero_mul(a: Rat, s: Rat)
    requires
        rat_wf(a),
        rat_wf(s),
        rat_eq(a, rat_of_int(0)),
    ensures
        rat_eq(rat_mul(a, s), rat_of_int(0)),
{
    assert(a.num == 0);
    assert((a.num * s.num) * 1 == 0 * (a.den * s.den)) by (nonlinear_arith)
        requires
            a.num == 0,
    ;
}

/// Addition respects denoting the same rational: replacing each operand
/// by a fraction that denotes the same rational leaves a sum that does
/// too.
pub proof fn lemma_rat_add_congruence(a: Rat, a2: Rat, b: Rat, b2: Rat)
    requires
        rat_wf(a),
        rat_wf(a2),
        rat_wf(b),
        rat_wf(b2),
        rat_eq(a, a2),
        rat_eq(b, b2),
    ensures
        rat_eq(rat_add(a, b), rat_add(a2, b2)),
{
    assert((a.num * b.den) * (a2.den * b2.den) == (a.num * a2.den) * (b.den * b2.den))
        by (nonlinear_arith);
    assert((b.num * a.den) * (a2.den * b2.den) == (b.num * b2.den) * (a.den * a2.den))
        by (nonlinear_arith);
    assert((a2.num * b2.den) * (a.den * b.den) == (a2.num * a.den) * (b.den * b2.den))
        by (nonlinear_arith);
    assert((b2.num * a2.den) * (a.den * b.den) == (b2.num * b.den) * (a.den * a2.den))
        by (nonlinear_arith);
    assert((a.num * b.den + b.num * a.den) * (a2.den * b2.den) == (a.num * b.den) * (a2.den
        * b2.den) + (b.num * a.den) * (a2.den * b2.den)) by (nonlinear_arith);
    assert((a2.num * b2.den + b2.num * a2.den) * (a.den * b.den) == (a2.num * b2.den) * (a.den
        * b.den) + (b2.num * a2.den) * (a.den * b.den)) by (nonlinear_arith);
}

/// Multiplication respects denoting the same rational.
pub proof fn lemma_rat_mul_congruence(a: Rat, a2: Rat, b: Rat, b2: Rat)
    requires
        rat_wf(a),
        rat_wf(a2),
        rat_wf(b),
        rat_wf(b2),
        rat_eq(a, a2),
        rat_eq(b, b2),
    ensures
        rat_eq(rat_mul(a, b), rat_mul(a2, b2)),
{
    assert((a.num * b.num) * (a2.den * b2.den) == (a2.num * b2.num) * (a.den * b.den))
        by (nonlinear_arith)
        requires
            a.num * a2.den == a2.num * a.den,
            b.num * b2.den == b2.num * b.den,
    ;
}

} // verus!
