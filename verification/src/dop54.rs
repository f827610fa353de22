//! The Dormand-Prince 5(4) method, in its exact parts: the Butcher
//! tableau as a table of rational coefficients with its defining
//! identities proved, and the adaptive step bookkeeping (step and
//! rejection counters with the accept/reject verdict). Evaluating the
//! seven stages on a concrete state is double-precision floating-point
//! work and is left to the caller, which reads its coefficients from
//! this table.

use vstd::prelude::*;

use crate::rational::{
    lemma_mul_distributes_over_add, lemma_one_mul, lemma_rat_add_congruence, lemma_rat_add_wf,
    lemma_rat_eq_trans, lemma_rat_mul_wf, rat_add, rat_eq, rat_mul, rat_of_int, rat_wf, Frac, Rat,
};

verus! {

/// The fixed coefficient table of the Dormand-Prince 5(4) embedded pair:
/// stage-time fractions `c2..c7`, stage-coupling coefficients `a21..a76`
/// (strictly lower-triangular: stage `i` draws only on stages below it,
/// which is what makes the scheme explicit), and the two
/// output-combination rows, `b11..b17` for the fifth-order solution and
/// `b21..b27` for the embedded fourth-order solution.
pub struct ButcherTableau {
    pub c2: Frac,
    pub c3: Frac,
    pub c4: Frac,
    pub c5: Frac,
    pub c6: Frac,
    pub c7: Frac,
    pub a21: Frac,
    pub a31: Frac,
    pub a32: Frac,
    pub a41: Frac,
    pub a42: Frac,
    pub a43: Frac,
    pub a51: Frac,
    pub a52: Frac,
    pub a53: Frac,
    pub a54: Frac,
    pub a61: Frac,
    pub a62: Frac,
    pub a63: Frac,
    pub a64: Frac,
    pub a65: Frac,
    pub a71: Frac,
    pub a72: Frac,
    pub a73: Frac,
    pub a74: Frac,
    pub a75: Frac,
    pub a76: Frac,
    pub b11: Frac,
    pub b12: Frac,
    pub b13: Frac,
    pub b14: Frac,
    pub b15: Frac,
    pub b16: Frac,
    pub b17: Frac,
    pub b21: Frac,
    pub b22: Frac,
    pub b23: Frac,
    pub b24: Frac,
    pub b25: Frac,
    pub b26: Frac,
    pub b27: Frac,
}

/// The Dormand-Prince 5(4) coefficients, exactly.
pub open spec fn dop54_tableau_spec() -> ButcherTableau {
    ButcherTableau {
        c2: Frac { num: 1, den: 5 },
        c3: Frac { num: 3, den: 10 },
        c4: Frac { num: 4, den: 5 },
        c5: Frac { num: 8, den: 9 },
        c6: Frac { num: 1, den: 1 },
        c7: Frac { num: 1, den: 1 },
        a21: Frac { num: 1, den: 5 },
        a31: Frac { num: 3, den: 40 },
        a32: Frac { num: 9, den: 40 },
        a41: Frac { num: 44, den: 45 },
        a42: Frac { num: -56i64, den: 15 },
        a43: Frac { num: 32, den: 9 },
        a51: Frac { num: 19372, den: 6561 },
        a52: Frac { num: -25360i64, den: 2187 },
        a53: Frac { num: 64448, den: 6561 },
        a54: Frac { num: -212i64, den: 729 },
        a61: Frac { num: 9017, den: 3168 },
        a62: Frac { num: -355i64, den: 33 },
        a63: Frac { num: 46732, den: 5247 },
        a64: Frac { num: 49, den: 176 },
        a65: Frac { num: -5103i64, den: 18656 },
        a71: Frac { num: 35, den: 384 },
        a72: Frac { num: 0, den: 1 },
        a73: Frac { num: 500, den: 1113 },
        a74: Frac { num: 125, den: 192 },
        a75: Frac { num: -2187i64, den: 6784 },
        a76: Frac { num: 11, den: 84 },
        b11: Frac { num: 35, den: 384 },
        b12: Frac { num: 0, den: 1 },
        b13: Frac { num: 500, den: 1113 },
        b14: Frac { num: 125, den: 192 },
        b15: Frac { num: -2187i64, den: 6784 },
        b16: Frac { num: 11, den: 84 },
        b17: Frac { num: 0, den: 1 },
        b21: Frac { num: 5179, den: 57600 },
        b22: Frac { num: 0, den: 1 },
        b23: Frac { num: 7571, den: 16695 },
        b24: Frac { num: 393, den: 640 },
        b25: Frac { num: -92097i64, den: 339200 },
        b26: Frac { num: 187, den: 2100 },
        b27: Frac { num: 1, den: 40 },
    }
}

/// The sum of a seven-entry coefficient row, added left to right.
pub open spec fn row_sum7(x1: Rat, x2: Rat, x3: Rat, x4: Rat, x5: Rat, x6: Rat, x7: Rat) -> Rat {
    rat_add(rat_add(rat_add(rat_add(rat_add(rat_add(x1, x2), x3), x4), x5), x6), x7)
}

impl ButcherTableau {
    /// Every coefficient is a well-formed fraction.
    pub open spec fn wf(self) -> bool {
        &&& rat_wf(self.c2@) && rat_wf(self.c3@) && rat_wf(self.c4@)
        &&& rat_wf(self.c5@) && rat_wf(self.c6@) && rat_wf(self.c7@)
        &&& rat_wf(self.a21@)
        &&& rat_wf(self.a31@) && rat_wf(self.a32@)
        &&& rat_wf(self.a41@) && rat_wf(self.a42@) && rat_wf(self.a43@)
        &&& rat_wf(self.a51@) && rat_wf(self.a52@) && rat_wf(self.a53@) && rat_wf(self.a54@)
        &&& rat_wf(self.a61@) && rat_wf(self.a62@) && rat_wf(self.a63@) && rat_wf(self.a64@)
        &&& rat_wf(self.a65@)
        &&& rat_wf(self.a71@) && rat_wf(self.a72@) && rat_wf(self.a73@) && rat_wf(self.a74@)
        &&& rat_wf(self.a75@) && rat_wf(self.a76@)
        &&& rat_wf(self.b11@) && rat_wf(self.b12@) && rat_wf(self.b13@) && rat_wf(self.b14@)
        &&& rat_wf(self.b15@) && rat_wf(self.b16@) && rat_wf(self.b17@)
        &&& rat_wf(self.b21@) && rat_wf(self.b22@) && rat_wf(self.b23@) && rat_wf(self.b24@)
        &&& rat_wf(self.b25@) && rat_wf(self.b26@) && rat_wf(self.b27@)
    }

    /// Builds the Dormand-Prince 5(4) tableau.
    pub fn dop54() -> (t: ButcherTableau)
        ensures
            t == dop54_tableau_spec(),
            t.wf(),
    {
        ButcherTableau {
            c2: Frac::new(1, 5),
            c3: Frac::new(3, 10),
            c4: Frac::new(4, 5),
            c5: Frac::new(8, 9),
            c6: Frac::new(1, 1),
            c7: Frac::new(1, 1),
            a21: Frac::new(1, 5),
            a31: Frac::new(3, 40),
            a32: Frac::new(9, 40),
            a41: Frac::new(44, 45),
            a42: Frac::new(-56, 15),
            a43: Frac::new(32, 9),
            a51: Frac::new(19372, 6561),
            a52: Frac::new(-25360, 2187),
            a53: Frac::new(64448, 6561),
            a54: Frac::new(-212, 729),
            a61: Frac::new(9017, 3168),
            a62: Frac::new(-355, 33),
            a63: Frac::new(46732, 5247),
            a64: Frac::new(49, 176),
            a65: Frac::new(-5103, 18656),
            a71: Frac::new(35, 384),
            a72: Frac::new(0, 1),
            a73: Frac::new(500, 1113),
            a74: Frac::new(125, 192),
            a75: Frac::new(-2187, 6784),
            a76: Frac::new(11, 84),
            b11: Frac::new(35, 384),
            b12: Frac::new(0, 1),
            b13: Frac::new(500, 1113),
            b14: Frac::new(125, 192),
            b15: Frac::new(-2187, 6784),
            b16: Frac::new(11, 84),
            b17: Frac::new(0, 1),
            b21: Frac::new(5179, 57600),
            b22: Frac::new(0, 1),
            b23: Frac::new(7571, 16695),
            b24: Frac::new(393, 640),
            b25: Frac::new(-92097, 339200),
            b26: Frac::new(187, 2100),
            b27: Frac::new(1, 40),
        }
    }
}

/// The stage times are consistent with the coupling coefficients: each
/// stage-time fraction `c_i` equals the sum of row `i` of the `a`
/// coefficients, so every stage is evaluated at the time its inputs are
/// formed for.
pub proof fn lemma_stage_nodes_match_row_sums(t: ButcherTableau)
    requires
        t == dop54_tableau_spec(),
    ensures
        rat_eq(t.a21@, t.c2@),
        rat_eq(rat_add(t.a31@, t.a32@), t.c3@),
        rat_eq(rat_add(rat_add(t.a41@, t.a42@), t.a43@), t.c4@),
        rat_eq(rat_add(rat_add(rat_add(t.a51@, t.a52@), t.a53@), t.a54@), t.c5@),
        rat_eq(rat_add(rat_add(rat_add(rat_add(t.a61@, t.a62@), t.a63@), t.a64@), t.a65@), t.c6@),
        rat_eq(
            rat_add(rat_add(rat_add(rat_add(rat_add(t.a71@, t.a72@), t.a73@), t.a74@), t.a75@), t.a76@),
            t.c7@,
        ),
{
}

/// The fifth-order output-combination row sums to one, so the fifth-order
/// solution reproduces a constant state exactly.
pub proof fn lemma_fifth_order_weights_sum_to_one(t: ButcherTableau)
    requires
        t == dop54_tableau_spec(),
    ensures
        rat_eq(row_sum7(t.b11@, t.b12@, t.b13@, t.b14@, t.b15@, t.b16@, t.b17@), rat_of_int(1)),
{
}

/// The embedded fourth-order output-combination row sums to one as well,
/// so the error estimate of a constant state is exactly zero.
pub proof fn lemma_fourth_order_weights_sum_to_one(t: ButcherTableau)
    requires
        t == dop54_tableau_spec(),
    ensures
        rat_eq(row_sum7(t.b21@, t.b22@, t.b23@, t.b24@, t.b25@, t.b26@, t.b27@), rat_of_int(1)),
{
}

/// The first-same-as-last property: the seventh stage is formed with the
/// fifth-order weights themselves, so the last stage derivative of an
/// accepted step is the first stage derivative of the next one.
pub proof fn lemma_first_same_as_last(t: ButcherTableau)
    requires
        t == dop54_tableau_spec(),
    ensures
        t.b11 == t.a71,
        t.b12 == t.a72,
        t.b13 == t.a73,
        t.b14 == t.a74,
        t.b15 == t.a75,
        t.b16 == t.a76,
        rat_eq(t.b17@, rat_of_int(0)),
{
}

/// The weighted sum of seven equal stage derivatives `k` under a weight
/// row, added left to right as the output combination adds its terms.
pub open spec fn weighted_row7(
    k: Rat,
    b1: Rat,
    b2: Rat,
    b3: Rat,
    b4: Rat,
    b5: Rat,
    b6: Rat,
    b7: Rat,
) -> Rat {
    rat_add(
        rat_add(
            rat_add(
                rat_add(rat_add(rat_add(rat_mul(b1, k), rat_mul(b2, k)), rat_mul(b3, k)), rat_mul(b4, k)),
                rat_mul(b5, k),
            ),
            rat_mul(b6, k),
        ),
        rat_mul(b7, k),
    )
}

/// One fold step: a weighted sum known to collapse to its weight total
/// times `k` still collapses after one more weighted term.
proof fn lemma_weighted_row_step(w: Rat, s: Rat, b: Rat, k: Rat)
    requires
        rat_wf(w),
        rat_wf(s),
        rat_wf(b),
        rat_wf(k),
        rat_eq(w, rat_mul(s, k)),
    ensures
        rat_eq(rat_add(w, rat_mul(b, k)), rat_mul(rat_add(s, b), k)),
        rat_wf(rat_add(w, rat_mul(b, k))),
        rat_wf(rat_add(s, b)),
{
    lemma_rat_mul_wf(s, k);
    lemma_rat_mul_wf(b, k);
    lemma_rat_add_wf(w, rat_mul(b, k));
    lemma_rat_add_wf(rat_mul(s, k), rat_mul(b, k));
    lemma_rat_add_wf(s, b);
    lemma_rat_mul_wf(rat_add(s, b), k);
    lemma_rat_add_congruence(w, rat_mul(s, k), rat_mul(b, k), rat_mul(b, k));
    lemma_mul_distributes_over_add(s, b, k);
    lemma_rat_eq_trans(
        rat_add(w, rat_mul(b, k)),
        rat_add(rat_mul(s, k), rat_mul(b, k)),
        rat_mul(rat_add(s, b), k),
    );
}

/// A weighted sum of seven equal stage derivatives collapses to the
/// weight row's total times the shared derivative.
proof fn lemma_weighted_row_collapses(
    k: Rat,
    b1: Rat,
    b2: Rat,
    b3: Rat,
    b4: Rat,
    b5: Rat,
    b6: Rat,
    b7: Rat,
)
    requires
        rat_wf(k),
        rat_wf(b1),
        rat_wf(b2),
        rat_wf(b3),
        rat_wf(b4),
        rat_wf(b5),
        rat_wf(b6),
        rat_wf(b7),
    ensures
        rat_eq(
            weighted_row7(k, b1, b2, b3, b4, b5, b6, b7),
            rat_mul(row_sum7(b1, b2, b3, b4, b5, b6, b7), k),
        ),
        rat_wf(weighted_row7(k, b1, b2, b3, b4, b5, b6, b7)),
        rat_wf(row_sum7(b1, b2, b3, b4, b5, b6, b7)),
{
    let w2 = rat_add(rat_mul(b1, k), rat_mul(b2, k));
    let s2 = rat_add(b1, b2);
    lemma_rat_mul_wf(b1, k);
    lemma_rat_mul_wf(b2, k);
    lemma_rat_add_wf(rat_mul(b1, k), rat_mul(b2, k));
    lemma_rat_add_wf(b1, b2);
    lemma_mul_distributes_over_add(b1, b2, k);
    let w3 = rat_add(w2, rat_mul(b3, k));
    let s3 = rat_add(s2, b3);
    lemma_weighted_row_step(w2, s2, b3, k);
    let w4 = rat_add(w3, rat_mul(b4, k));
    let s4 = rat_add(s3, b4);
    lemma_weighted_row_step(w3, s3, b4, k);
    let w5 = rat_add(w4, rat_mul(b5, k));
    let s5 = rat_add(s4, b5);
    lemma_weighted_row_step(w4, s4, b5, k);
    let w6 = rat_add(w5, rat_mul(b6, k));
    let s6 = rat_add(s5, b6);
    lemma_weighted_row_step(w5, s5, b6, k);
    lemma_weighted_row_step(w6, s6, b7, k);
}

/// With every stage derivative equal -- as they all are when the
/// derivative function is constant -- either output-combination row
/// advances a component by exactly that shared derivative, because each
/// weight row sums to one. The fifth- and fourth-order solutions of such
/// a step therefore denote the same value: its embedded error estimate is
/// exactly zero, and the step is never rejected.
pub proof fn lemma_equal_stages_advance_by_slope(t: ButcherTableau, x0: Rat, k: Rat)
    requires
        t == dop54_tableau_spec(),
        rat_wf(x0),
        rat_wf(k),
    ensures
        rat_eq(
            rat_add(x0, weighted_row7(k, t.b11@, t.b12@, t.b13@, t.b14@, t.b15@, t.b16@, t.b17@)),
            rat_add(x0, k),
        ),
        rat_eq(
            rat_add(x0, weighted_row7(k, t.b21@, t.b22@, t.b23@, t.b24@, t.b25@, t.b26@, t.b27@)),
            rat_add(x0, k),
        ),
        rat_eq(
            rat_add(x0, weighted_row7(k, t.b11@, t.b12@, t.b13@, t.b14@, t.b15@, t.b16@, t.b17@)),
            rat_add(x0, weighted_row7(k, t.b21@, t.b22@, t.b23@, t.b24@, t.b25@, t.b26@, t.b27@)),
        ),
{
    let w5 = weighted_row7(k, t.b11@, t.b12@, t.b13@, t.b14@, t.b15@, t.b16@, t.b17@);
    let s5 = row_sum7(t.b11@, t.b12@, t.b13@, t.b14@, t.b15@, t.b16@, t.b17@);
    let w4 = weighted_row7(k, t.b21@, t.b22@, t.b23@, t.b24@, t.b25@, t.b26@, t.b27@);
    let s4 = row_sum7(t.b21@, t.b22@, t.b23@, t.b24@, t.b25@, t.b26@, t.b27@);
    lemma_weighted_row_collapses(k, t.b11@, t.b12@, t.b13@, t.b14@, t.b15@, t.b16@, t.b17@);
    lemma_weighted_row_collapses(k, t.b21@, t.b22@, t.b23@, t.b24@, t.b25@, t.b26@, t.b27@);
    lemma_fifth_order_weights_sum_to_one(t);
    lemma_fourth_order_weights_sum_to_one(t);
    lemma_one_mul(s5, k);
    lemma_one_mul(s4, k);
    lemma_rat_mul_wf(s5, k);
    lemma_rat_mul_wf(s4, k);
    lemma_rat_eq_trans(w5, rat_mul(s5, k), k);
    lemma_rat_eq_trans(w4, rat_mul(s4, k), k);
    lemma_rat_add_congruence(x0, x0, w5, k);
    lemma_rat_add_congruence(x0, x0, w4, k);
    lemma_rat_add_wf(x0, w5);
    lemma_rat_add_wf(x0, w4);
    lemma_rat_add_wf(x0, k);
    lemma_rat_eq_trans(rat_add(x0, w5), rat_add(x0, k), rat_add(x0, w4));
}

/// The outcome of one adaptive step: the candidate state was accepted, or
/// it was rejected and the caller must retry from the same state with a
/// smaller step size.
#[derive(Clone, Copy, Debug, PartialEq, Eq, Structural)]
pub enum StepVerdict {
    Accepted,
    Rejected,
}

/// The diagnostic counters of an integration run: how many steps were
/// attempted and how many of them were rejected (each rejection switches
/// the step size down).
#[derive(Clone, Copy, Debug)]
pub struct StepCounters {
    pub num_dt_switch: i64,
    pub num_steps: i64,
}

impl StepCounters {
    /// Rejections never outnumber attempted steps, and neither counter is
    /// negative.
    pub open spec fn wf(self) -> bool {
        0 <= self.num_dt_switch <= self.num_steps
    }

    /// Fresh counters: nothing attempted, nothing rejected.
    pub fn new() -> (c: StepCounters)
        ensures
            c.num_dt_switch == 0,
            c.num_steps == 0,
            c.wf(),
    {
        StepCounters { num_dt_switch: 0, num_steps: 0 }
    }

    /// Records the outcome of one adaptive step, decided by whether the
    /// embedded-pair error estimate exceeded the tolerance. Every step
    /// raises the step counter by one; a rejected step also raises the
    /// rejection counter, and only a rejected step does. Both counters
    /// are monotonically non-decreasing.
    pub fn record_step(&mut self, error_exceeds_tolerance: bool) -> (v: StepVerdict)
        requires
            old(self).wf(),
            old(self).num_steps < i64::MAX,
        ensures
            final(self).wf(),
            final(self).num_steps == old(self).num_steps + 1,
            v is Rejected <==> error_exceeds_tolerance,
            error_exceeds_tolerance ==> final(self).num_dt_switch == old(self).num_dt_switch + 1,
            !error_exceeds_tolerance ==> final(self).num_dt_switch == old(self).num_dt_switch,
    {
        self.num_steps = self.num_steps + 1;
        if error_exceeds_tolerance {
            self.num_dt_switch = self.num_dt_switch + 1;
            StepVerdict::Rejected
        } else {
            StepVerdict::Accepted
        }
    }

    /// How many steps were rejected so far.
    pub fn get_num_of_dt_switch(&self) -> (n: i64)
        ensures
            n == self.num_dt_switch,
    {
        self.num_dt_switch
    }

    /// How many steps were attempted so far.
    pub fn get_num_of_steps(&self) -> (n: i64)
        ensures
            n == self.num_steps,
    {
        self.num_steps
    }
}

} // verus!
