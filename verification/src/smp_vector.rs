//! The time-tagged state vector: a dense sequence of exact rational
//! components paired with a scalar time coordinate, with the arithmetic
//! the integrator needs (element-wise sum and difference, scaling, inner
//! product). Operands of one arithmetic expression must have equal
//! dimension; that is a caller contract, stated in the preconditions.
//! The sum's and difference's time is taken from the left operand, and
//! scaling preserves the time, exactly as the operations are defined.

use vstd::prelude::*;

use crate::rational::{
    lemma_add_self_eq_double, lemma_double_minus_triple_eq_neg, lemma_rat_add_congruence,
    lemma_rat_mul_congruence, lemma_zero_mul, rat_add, rat_add_fits, rat_eq, rat_mul,
    rat_mul_fits, rat_nonneg, rat_of_int, rat_sub, rat_sub_fits, rat_wf, Frac, Rat,
};

verus! {

/// A dense vector of exact rational components, tagged with the
/// simulation time the state corresponds to.
#[derive(Clone, Debug)]
pub struct SmpVector {
    pub time: Frac,
    pub vec: Vec<Frac>,
}

/// Pointwise well-formedness of a component sequence.
pub open spec fn seq_wf(a: Seq<Rat>) -> bool {
    forall|i: int| 0 <= i < a.len() ==> rat_wf(#[trigger] a[i])
}

/// The element-wise sum of two equal-dimension component sequences.
pub open spec fn seq_add(a: Seq<Rat>, b: Seq<Rat>) -> Seq<Rat> {
    Seq::new(a.len(), |i: int| rat_add(a[i], b[i]))
}

/// The element-wise difference of two equal-dimension component
/// sequences.
pub open spec fn seq_sub(a: Seq<Rat>, b: Seq<Rat>) -> Seq<Rat> {
    Seq::new(a.len(), |i: int| rat_sub(a[i], b[i]))
}

/// A component sequence scaled element-wise by a rational.
pub open spec fn seq_scale(a: Seq<Rat>, s: Rat) -> Seq<Rat> {
    Seq::new(a.len(), |i: int| rat_mul(a[i], s))
}

/// Two component sequences denote the same vector of rationals: equal
/// dimension, and each pair of components denotes the same rational.
pub open spec fn seq_eq_rat(a: Seq<Rat>, b: Seq<Rat>) -> bool {
    a.len() == b.len() && forall|i: int| 0 <= i < a.len() ==> rat_eq(#[trigger] a[i], b[i])
}

/// The inner product of two equal-dimension component sequences, summed
/// from the first component to the last.
pub open spec fn rat_dot(a: Seq<Rat>, b: Seq<Rat>) -> Rat
    decreases a.len(),
{
    if a.len() == 0 {
        rat_of_int(0)
    } else {
        rat_add(rat_dot(a.drop_last(), b.drop_last()), rat_mul(a.last(), b.last()))
    }
}

/// Whether the inner product of two component sequences can be computed
/// in `i64` arithmetic: each product of components fits, and so does each
/// running sum.
pub open spec fn dot_fits(a: Seq<Rat>, b: Seq<Rat>) -> bool {
    forall|i: int|
        0 <= i < a.len() ==> rat_mul_fits(#[trigger] a[i], b[i]) && rat_add_fits(
            rat_dot(a.take(i), b.take(i)),
            rat_mul(a[i], b[i]),
        )
}

impl SmpVector {
    /// The mathematical value of the component sequence.
    pub open spec fn model(self) -> Seq<Rat> {
        self.vec@.map_values(|f: Frac| f@)
    }

    /// A well-formed vector: the time and every component are well-formed
    /// fractions.
    pub open spec fn wf(self) -> bool {
        rat_wf(self.time@) && seq_wf(self.model())
    }

    /// The empty vector: dimension zero, time zero.
    pub fn initialize() -> (v: SmpVector)
        ensures
            v.wf(),
            v.model().len() == 0,
            v.time@ == rat_of_int(0),
    {
        SmpVector { time: Frac::zero(), vec: Vec::new() }
    }

    /// A vector of the given dimension with every component zero, at time
    /// zero.
    pub fn set_zero_vector(dim: usize) -> (v: SmpVector)
        ensures
            v.wf(),
            v.model().len() == dim,
            forall|i: int| 0 <= i < dim ==> #[trigger] v.model()[i] == rat_of_int(0),
            v.time@ == rat_of_int(0),
    {
        let mut vec: Vec<Frac> = Vec::new();
        let mut i: usize = 0;
        while i < dim
            invariant
                i <= dim,
                vec@.len() == i,
                forall|j: int| 0 <= j < i ==> #[trigger] vec@[j] == (Frac { num: 0, den: 1 }),
            decreases dim - i,
        {
            vec.push(Frac::zero());
            i = i + 1;
        }
        SmpVector { time: Frac::zero(), vec }
    }

    /// A vector of the given dimension with every component one, at time
    /// zero.
    pub fn set_one_fill(dim: usize) -> (v: SmpVector)
        ensures
            v.wf(),
            v.model().len() == dim,
            forall|i: int| 0 <= i < dim ==> #[trigger] v.model()[i] == rat_of_int(1),
            v.time@ == rat_of_int(0),
    {
        let mut vec: Vec<Frac> = Vec::new();
        let mut i: usize = 0;
        while i < dim
            invariant
                i <= dim,
                vec@.len() == i,
                forall|j: int| 0 <= j < i ==> #[trigger] vec@[j] == (Frac { num: 1, den: 1 }),
            decreases dim - i,
        {
            vec.push(Frac::new(1, 1));
            i = i + 1;
        }
        SmpVector { time: Frac::zero(), vec }
    }

    /// The harmonic-sequence vector: component `i` is `1/(i+1)`, at time
    /// zero.
    pub fn set_harmonic_vector(dim: usize) -> (v: SmpVector)
        requires
            dim <= i64::MAX,
        ensures
            v.wf(),
            v.model().len() == dim,
            forall|i: int|
                0 <= i < dim ==> #[trigger] v.model()[i] == (Rat { num: 1, den: i + 1 }),
            v.time@ == rat_of_int(0),
    {
        let mut vec: Vec<Frac> = Vec::new();
        let mut i: usize = 0;
        while i < dim
            invariant
                i <= dim,
                dim <= i64::MAX,
                vec@.len() == i,
                forall|j: int|
                    0 <= j < i ==> #[trigger] vec@[j]@ == (Rat { num: 1, den: j + 1 }),
            decreases dim - i,
        {
            let den: i64 = (i as i64) + 1;
            vec.push(Frac::new(1, den));
            i = i + 1;
        }
        SmpVector { time: Frac::zero(), vec }
    }

    /// The element-wise sum. The result's time is taken from `self`, the
    /// left operand; the dimensions must agree.
    pub fn add(&self, right: &SmpVector) -> (r: SmpVector)
        requires
            self.wf(),
            right.wf(),
            self.model().len() == right.model().len(),
            forall|i: int|
                0 <= i < self.model().len() ==> rat_add_fits(
                    #[trigger] self.model()[i],
                    right.model()[i],
                ),
        ensures
            r.wf(),
            r.time == self.time,
            r.model() == seq_add(self.model(), right.model()),
    {
        let n: usize = self.vec.len();
        let mut vec: Vec<Frac> = Vec::new();
        let mut i: usize = 0;
        while i < n
            invariant
                i <= n,
                n == self.model().len(),
                n == right.model().len(),
                self.wf(),
                right.wf(),
                forall|k: int|
                    0 <= k < n ==> rat_add_fits(#[trigger] self.model()[k], right.model()[k]),
                vec@.len() == i,
                forall|j: int|
                    0 <= j < i ==> #[trigger] vec@[j]@ == rat_add(
                        self.model()[j],
                        right.model()[j],
                    ) && rat_wf(vec@[j]@),
            decreases n - i,
        {
            proof {
                assert(self.model()[i as int] == self.vec@[i as int]@);
                assert(right.model()[i as int] == right.vec@[i as int]@);
            }
            let s = self.vec[i].add(right.vec[i]);
            vec.push(s);
            i = i + 1;
        }
        let r = SmpVector { time: self.time, vec };
        proof {
            assert(r.model() =~= seq_add(self.model(), right.model()));
        }
        r
    }

    /// The element-wise difference. The result's time is taken from
    /// `self`, the left operand; the dimensions must agree.
    pub fn sub(&self, right: &SmpVector) -> (r: SmpVector)
        requires
            self.wf(),
            right.wf(),
            self.model().len() == right.model().len(),
            forall|i: int|
                0 <= i < self.model().len() ==> rat_sub_fits(
                    #[trigger] self.model()[i],
                    right.model()[i],
                ),
        ensures
            r.wf(),
            r.time == self.time,
            r.model() == seq_sub(self.model(), right.model()),
    {
        let n: usize = self.vec.len();
        let mut vec: Vec<Frac> = Vec::new();
        let mut i: usize = 0;
        while i < n
            invariant
                i <= n,
                n == self.model().len(),
                n == right.model().len(),
                self.wf(),
                right.wf(),
                forall|k: int|
                    0 <= k < n ==> rat_sub_fits(#[trigger] self.model()[k], right.model()[k]),
                vec@.len() == i,
                forall|j: int|
                    0 <= j < i ==> #[trigger] vec@[j]@ == rat_sub(
                        self.model()[j],
                        right.model()[j],
                    ) && rat_wf(vec@[j]@),
            decreases n - i,
        {
            proof {
                assert(self.model()[i as int] == self.vec@[i as int]@);
                assert(right.model()[i as int] == right.vec@[i as int]@);
            }
            let s = self.vec[i].sub(right.vec[i]);
            vec.push(s);
            i = i + 1;
        }
        let r = SmpVector { time: self.time, vec };
        proof {
            assert(r.model() =~= seq_sub(self.model(), right.model()));
        }
        r
    }

    /// The vector scaled element-wise by a rational. Both operand orders
    /// of the scalar product compute this same element-wise product; the
    /// time is preserved.
    pub fn scale(&self, s: Frac) -> (r: SmpVector)
        requires
            self.wf(),
            s.wf(),
            forall|i: int|
                0 <= i < self.model().len() ==> rat_mul_fits(#[trigger] self.model()[i], s@),
        ensures
            r.wf(),
            r.time == self.time,
            r.model() == seq_scale(self.model(), s@),
    {
        let n: usize = self.vec.len();
        let mut vec: Vec<Frac> = Vec::new();
        let mut i: usize = 0;
        while i < n
            invariant
                i <= n,
                n == self.model().len(),
                self.wf(),
                s.wf(),
                forall|k: int| 0 <= k < n ==> rat_mul_fits(#[trigger] self.model()[k], s@),
                vec@.len() == i,
                forall|j: int|
                    0 <= j < i ==> #[trigger] vec@[j]@ == rat_mul(self.model()[j], s@) && rat_wf(
                        vec@[j]@,
                    ),
            decreases n - i,
        {
            proof {
                assert(self.model()[i as int] == self.vec@[i as int]@);
            }
            let p = self.vec[i].mul(s);
            vec.push(p);
            i = i + 1;
        }
        let r = SmpVector { time: self.time, vec };
        proof {
            assert(r.model() =~= seq_scale(self.model(), s@));
        }
        r
    }

    /// The inner product of the component sequences. The times play no
    /// part; the dimensions must agree.
    pub fn dot(&self, right: &SmpVector) -> (r: Frac)
        requires
            self.wf(),
            right.wf(),
            self.model().len() == right.model().len(),
            dot_fits(self.model(), right.model()),
        ensures
            r@ == rat_dot(self.model(), right.model()),
            r.wf(),
    {
        let n: usize = self.vec.len();
        let mut acc = Frac::zero();
        let mut i: usize = 0;
        while i < n
            invariant
                i <= n,
                n == self.model().len(),
                n == right.model().len(),
                self.wf(),
                right.wf(),
                dot_fits(self.model(), right.model()),
                acc@ == rat_dot(self.model().take(i as int), right.model().take(i as int)),
                acc.wf(),
            decreases n - i,
        {
            proof {
                assert(self.model()[i as int] == self.vec@[i as int]@);
                assert(right.model()[i as int] == right.vec@[i as int]@);
            }
            let p = self.vec[i].mul(right.vec[i]);
            let next = acc.add(p);
            proof {
                let a = self.model();
                let b = right.model();
                let i1: int = i + 1;
                assert(a.take(i1).drop_last() =~= a.take(i as int));
                assert(b.take(i1).drop_last() =~= b.take(i as int));
                assert(a.take(i1).last() == a[i as int]);
                assert(b.take(i1).last() == b[i as int]);
            }
            acc = next;
            i = i + 1;
        }
        proof {
            assert(self.model().take(n as int) =~= self.model());
            assert(right.model().take(n as int) =~= right.model());
        }
        acc
    }

    /// The squared Euclidean norm: the inner product of the component
    /// sequence with itself. Zero for the empty vector.
    pub fn norm_sq(&self) -> (r: Frac)
        requires
            self.wf(),
            dot_fits(self.model(), self.model()),
        ensures
            r@ == rat_dot(self.model(), self.model()),
            r.wf(),
    {
        self.dot(self)
    }
}

/// Dropping the last component keeps a sequence pointwise well-formed.
proof fn lemma_seq_wf_drop_last(a: Seq<Rat>)
    requires
        seq_wf(a),
        a.len() > 0,
    ensures
        seq_wf(a.drop_last()),
{
    assert forall|i: int| 0 <= i < a.drop_last().len() implies rat_wf(
        #[trigger] a.drop_last()[i],
    ) by {
        assert(a.drop_last()[i] == a[i]);
    }
}

/// The inner product of well-formed sequences is a well-formed fraction.
pub proof fn lemma_rat_dot_wf(a: Seq<Rat>, b: Seq<Rat>)
    requires
        seq_wf(a),
        seq_wf(b),
        a.len() == b.len(),
    ensures
        rat_wf(rat_dot(a, b)),
    decreases a.len(),
{
    if a.len() > 0 {
        lemma_seq_wf_drop_last(a);
        lemma_seq_wf_drop_last(b);
        lemma_rat_dot_wf(a.drop_last(), b.drop_last());
        let d = rat_dot(a.drop_last(), b.drop_last());
        let p = rat_mul(a.last(), b.last());
        assert(rat_wf(a.last()));
        assert(rat_wf(b.last()));
        assert(p.den > 0) by (nonlinear_arith)
            requires
                p.den == a.last().den * b.last().den,
                a.last().den > 0,
                b.last().den > 0,
        ;
        assert(rat_add(d, p).den > 0) by (nonlinear_arith)
            requires
                rat_add(d, p).den == d.den * p.den,
                d.den > 0,
                p.den > 0,
        ;
    }
}

/// The element-wise sum of well-formed sequences is pointwise
/// well-formed.
pub proof fn lemma_seq_add_wf(a: Seq<Rat>, b: Seq<Rat>)
    requires
        seq_wf(a),
        seq_wf(b),
        a.len() == b.len(),
    ensures
        seq_wf(seq_add(a, b)),
{
    assert forall|i: int| 0 <= i < seq_add(a, b).len() implies rat_wf(
        #[trigger] seq_add(a, b)[i],
    ) by {
        assert(rat_wf(a[i]));
        assert(rat_wf(b[i]));
        assert(a[i].den * b[i].den > 0) by (nonlinear_arith)
            requires
                a[i].den > 0,
                b[i].den > 0,
        ;
    }
}

/// The element-wise difference of well-formed sequences is pointwise
/// well-formed.
pub proof fn lemma_seq_sub_wf(a: Seq<Rat>, b: Seq<Rat>)
    requires
        seq_wf(a),
        seq_wf(b),
        a.len() == b.len(),
    ensures
        seq_wf(seq_sub(a, b)),
{
    assert forall|i: int| 0 <= i < seq_sub(a, b).len() implies rat_wf(
        #[trigger] seq_sub(a, b)[i],
    ) by {
        assert(rat_wf(a[i]));
        assert(rat_wf(b[i]));
        assert(a[i].den * b[i].den > 0) by (nonlinear_arith)
            requires
                a[i].den > 0,
                b[i].den > 0,
        ;
    }
}

/// A well-formed sequence scaled by a well-formed fraction is pointwise
/// well-formed.
pub proof fn lemma_seq_scale_wf(a: Seq<Rat>, s: Rat)
    requires
        seq_wf(a),
        rat_wf(s),
    ensures
        seq_wf(seq_scale(a, s)),
{
    assert forall|i: int| 0 <= i < seq_scale(a, s).len() implies rat_wf(
        #[trigger] seq_scale(a, s)[i],
    ) by {
        assert(rat_wf(a[i]));
        assert(a[i].den * s.den > 0) by (nonlinear_arith)
            requires
                a[i].den > 0,
                s.den > 0,
        ;
    }
}

/// The squared norm is never negative: the inner product of a
/// well-formed sequence with itself denotes a rational that is at least
/// zero, which is what makes the Euclidean norm defined for any
/// dimension.
pub proof fn lemma_norm_sq_nonneg(a: Seq<Rat>)
    requires
        seq_wf(a),
    ensures
        rat_nonneg(rat_dot(a, a)),
    decreases a.len(),
{
    if a.len() > 0 {
        lemma_seq_wf_drop_last(a);
        lemma_norm_sq_nonneg(a.drop_last());
        lemma_rat_dot_wf(a.drop_last(), a.drop_last());
        let d = rat_dot(a.drop_last(), a.drop_last());
        assert(rat_wf(a[a.len() - 1]));
        let x = a.last();
        let p = rat_mul(x, x);
        assert(p.num >= 0) by (nonlinear_arith)
            requires
                p.num == x.num * x.num,
        ;
        assert(p.den > 0) by (nonlinear_arith)
            requires
                p.den == x.den * x.den,
                x.den > 0,
        ;
        let s = rat_add(d, p);
        assert(s.num * s.den >= 0) by (nonlinear_arith)
            requires
                s.num == d.num * p.den + p.num * d.den,
                s.den == d.den * p.den,
                d.num * d.den >= 0,
                d.den > 0,
                p.num >= 0,
                p.den > 0,
        ;
    }
}

/// The inner product respects denoting the same vector: replacing both
/// operands by sequences that denote the same rationals componentwise
/// leaves an inner product that denotes the same rational.
pub proof fn lemma_rat_dot_congruence(a: Seq<Rat>, b: Seq<Rat>, a2: Seq<Rat>, b2: Seq<Rat>)
    requires
        seq_wf(a),
        seq_wf(b),
        seq_wf(a2),
        seq_wf(b2),
        a.len() == b.len(),
        seq_eq_rat(a, a2),
        seq_eq_rat(b, b2),
    ensures
        rat_eq(rat_dot(a, b), rat_dot(a2, b2)),
    decreases a.len(),
{
    if a.len() == 0 {
    } else {
        lemma_seq_wf_drop_last(a);
        lemma_seq_wf_drop_last(b);
        lemma_seq_wf_drop_last(a2);
        lemma_seq_wf_drop_last(b2);
        assert(seq_eq_rat(a.drop_last(), a2.drop_last())) by {
            assert forall|i: int| 0 <= i < a.drop_last().len() implies rat_eq(
                #[trigger] a.drop_last()[i],
                a2.drop_last()[i],
            ) by {
                assert(a.drop_last()[i] == a[i]);
                assert(a2.drop_last()[i] == a2[i]);
                assert(rat_eq(a[i], a2[i]));
            }
        };
        assert(seq_eq_rat(b.drop_last(), b2.drop_last())) by {
            assert forall|i: int| 0 <= i < b.drop_last().len() implies rat_eq(
                #[trigger] b.drop_last()[i],
                b2.drop_last()[i],
            ) by {
                assert(b.drop_last()[i] == b[i]);
                assert(b2.drop_last()[i] == b2[i]);
                assert(rat_eq(b[i], b2[i]));
            }
        };
        lemma_rat_dot_congruence(a.drop_last(), b.drop_last(), a2.drop_last(), b2.drop_last());
        let d = rat_dot(a.drop_last(), b.drop_last());
        let d2 = rat_dot(a2.drop_last(), b2.drop_last());
        lemma_rat_dot_wf(a.drop_last(), b.drop_last());
        lemma_rat_dot_wf(a2.drop_last(), b2.drop_last());
        assert(rat_wf(a.last()));
        assert(rat_wf(b.last()));
        assert(rat_wf(a2.last()));
        assert(rat_wf(b2.last()));
        assert(rat_eq(a.last(), a2.last())) by {
            assert(rat_eq(a[a.len() - 1], a2[a.len() - 1]));
        };
        assert(rat_eq(b.last(), b2.last())) by {
            assert(rat_eq(b[b.len() - 1], b2[b.len() - 1]));
        };
        lemma_rat_mul_congruence(a.last(), a2.last(), b.last(), b2.last());
        let p = rat_mul(a.last(), b.last());
        let p2 = rat_mul(a2.last(), b2.last());
        assert(p.den > 0) by (nonlinear_arith)
            requires
                p.den == a.last().den * b.last().den,
                a.last().den > 0,
                b.last().den > 0,
        ;
        assert(p2.den > 0) by (nonlinear_arith)
            requires
                p2.den == a2.last().den * b2.last().den,
                a2.last().den > 0,
                b2.last().den > 0,
        ;
        lemma_rat_add_congruence(d, d2, p, p2);
    }
}

/// For equal vectors, the sum denotes the same vector as either operand
/// scaled by two, and therefore has exactly the same squared norm: the
/// model behind comparing `(a + b).norm()` with `(2 * a).norm()` when
/// `a == b`.
pub proof fn lemma_sum_of_equal_vectors_is_double(a: Seq<Rat>)
    requires
        seq_wf(a),
    ensures
        seq_eq_rat(seq_add(a, a), seq_scale(a, rat_of_int(2))),
        rat_eq(
            rat_dot(seq_add(a, a), seq_add(a, a)),
            rat_dot(seq_scale(a, rat_of_int(2)), seq_scale(a, rat_of_int(2))),
        ),
{
    assert forall|i: int| 0 <= i < seq_add(a, a).len() implies rat_eq(
        #[trigger] seq_add(a, a)[i],
        seq_scale(a, rat_of_int(2))[i],
    ) by {
        assert(rat_wf(a[i]));
        lemma_add_self_eq_double(a[i]);
    }
    lemma_seq_add_wf(a, a);
    lemma_seq_scale_wf(a, rat_of_int(2));
    lemma_rat_dot_congruence(
        seq_add(a, a),
        seq_add(a, a),
        seq_scale(a, rat_of_int(2)),
        seq_scale(a, rat_of_int(2)),
    );
}

/// Two times a vector minus three times the vector denotes the same
/// vector as minus one times it, and has exactly the same squared norm:
/// the model behind comparing `(2a - 3a).norm()` with `(-1 * a).norm()`.
pub proof fn lemma_scale_difference_is_negation(a: Seq<Rat>)
    requires
        seq_wf(a),
    ensures
        seq_eq_rat(
            seq_sub(seq_scale(a, rat_of_int(2)), seq_scale(a, rat_of_int(3))),
            seq_scale(a, rat_of_int(-1)),
        ),
        rat_eq(
            rat_dot(
                seq_sub(seq_scale(a, rat_of_int(2)), seq_scale(a, rat_of_int(3))),
                seq_sub(seq_scale(a, rat_of_int(2)), seq_scale(a, rat_of_int(3))),
            ),
            rat_dot(seq_scale(a, rat_of_int(-1)), seq_scale(a, rat_of_int(-1))),
        ),
{
    let lhs = seq_sub(seq_scale(a, rat_of_int(2)), seq_scale(a, rat_of_int(3)));
    let rhs = seq_scale(a, rat_of_int(-1));
    assert forall|i: int| 0 <= i < lhs.len() implies rat_eq(#[trigger] lhs[i], rhs[i]) by {
        assert(rat_wf(a[i]));
        lemma_double_minus_triple_eq_neg(a[i]);
    }
    lemma_seq_scale_wf(a, rat_of_int(2));
    lemma_seq_scale_wf(a, rat_of_int(3));
    lemma_seq_scale_wf(a, rat_of_int(-1));
    lemma_seq_sub_wf(seq_scale(a, rat_of_int(2)), seq_scale(a, rat_of_int(3)));
    lemma_rat_dot_congruence(lhs, lhs, rhs, rhs);
}

/// The inner product of a sequence that denotes the zero vector with any
/// well-formed sequence denotes zero.
pub proof fn lemma_dot_of_zero_vector(x: Seq<Rat>, y: Seq<Rat>)
    requires
        seq_wf(x),
        seq_wf(y),
        x.len() == y.len(),
        forall|i: int| 0 <= i < x.len() ==> rat_eq(#[trigger] x[i], rat_of_int(0)),
    ensures
        rat_eq(rat_dot(x, y), rat_of_int(0)),
    decreases x.len(),
{
    if x.len() > 0 {
        lemma_seq_wf_drop_last(x);
        lemma_seq_wf_drop_last(y);
        assert forall|i: int| 0 <= i < x.drop_last().len() implies rat_eq(
            #[trigger] x.drop_last()[i],
            rat_of_int(0),
        ) by {
            assert(x.drop_last()[i] == x[i]);
            assert(rat_eq(x[i], rat_of_int(0)));
        }
        lemma_dot_of_zero_vector(x.drop_last(), y.drop_last());
        let d = rat_dot(x.drop_last(), y.drop_last());
        assert(rat_eq(x[x.len() - 1], rat_of_int(0)));
        assert(x.last() == x[x.len() - 1]);
        assert(x.last().num * 1 == 0 * x.last().den);
        assert(x.last().num == 0) by (nonlinear_arith)
            requires
                x.last().num * 1 == 0 * x.last().den,
        ;
        let p = rat_mul(x.last(), y.last());
        assert(p.num == 0) by (nonlinear_arith)
            requires
                x.last().num == 0,
                p.num == x.last().num * y.last().num,
        ;
        assert(d.num == 0);
        assert(rat_add(d, p).num == d.num * p.den + p.num * d.den);
        assert(d.num * p.den == 0) by (nonlinear_arith)
            requires
                d.num == 0,
        ;
        assert(p.num * d.den == 0) by (nonlinear_arith)
            requires
                p.num == 0,
        ;
    }
}

/// Scaling a zero vector by any scalar yields a vector whose squared norm
/// is zero.
pub proof fn lemma_scaled_zero_vector_norm(a: Seq<Rat>, s: Rat)
    requires
        seq_wf(a),
        rat_wf(s),
        forall|i: int| 0 <= i < a.len() ==> rat_eq(#[trigger] a[i], rat_of_int(0)),
    ensures
        rat_eq(rat_dot(seq_scale(a, s), seq_scale(a, s)), rat_of_int(0)),
{
    let x = seq_scale(a, s);
    lemma_seq_scale_wf(a, s);
    assert forall|i: int| 0 <= i < x.len() implies rat_eq(#[trigger] x[i], rat_of_int(0)) by {
        assert(rat_wf(a[i]));
        assert(rat_eq(a[i], rat_of_int(0)));
        lemma_zero_mul(a[i], s);
    }
    lemma_dot_of_zero_vector(x, x);
}

} // verus!
