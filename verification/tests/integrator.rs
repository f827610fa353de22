use dop54::dop54::{ButcherTableau, StepCounters, StepVerdict};
use dop54::rational::Frac;

#[test]
fn tableau_coefficients_exact() {
    let t = ButcherTableau::dop54();
    assert_eq!((t.c2.num, t.c2.den), (1, 5));
    assert_eq!((t.c5.num, t.c5.den), (8, 9));
    assert_eq!((t.a21.num, t.a21.den), (1, 5));
    assert_eq!((t.a52.num, t.a52.den), (-25360, 2187));
    assert_eq!((t.a75.num, t.a75.den), (-2187, 6784));
    assert_eq!((t.b14.num, t.b14.den), (125, 192));
    assert_eq!((t.b25.num, t.b25.den), (-92097, 339200));
    assert_eq!((t.b27.num, t.b27.den), (1, 40));
}

#[test]
fn fifth_order_weights_sum_to_one_at_runtime() {
    let t = ButcherTableau::dop54();
    let sum = t
        .b11
        .add(t.b12)
        .add(t.b13)
        .add(t.b14)
        .add(t.b15)
        .add(t.b16)
        .add(t.b17);
    assert!(sum.eq_frac(Frac::from_int(1)));
}

#[test]
fn stage_nodes_match_row_sums_at_runtime() {
    let t = ButcherTableau::dop54();
    assert!(t.a21.eq_frac(t.c2));
    assert!(t.a31.add(t.a32).eq_frac(t.c3));
    assert!(t.a41.add(t.a42).add(t.a43).eq_frac(t.c4));
    assert!(t.a51.add(t.a52).add(t.a53).add(t.a54).eq_frac(t.c5));
}

#[test]
fn first_same_as_last_row() {
    let t = ButcherTableau::dop54();
    assert_eq!((t.b11.num, t.b11.den), (t.a71.num, t.a71.den));
    assert_eq!((t.b12.num, t.b12.den), (t.a72.num, t.a72.den));
    assert_eq!((t.b13.num, t.b13.den), (t.a73.num, t.a73.den));
    assert_eq!((t.b14.num, t.b14.den), (t.a74.num, t.a74.den));
    assert_eq!((t.b15.num, t.b15.den), (t.a75.num, t.a75.den));
    assert_eq!((t.b16.num, t.b16.den), (t.a76.num, t.a76.den));
    assert_eq!(t.b17.num, 0);
}

#[test]
fn constant_slope_combination_advances_exactly() {
    // With all seven stage derivatives equal to k, the fifth-order
    // combination advances a component by exactly k.
    let t = ButcherTableau::dop54();
    let k = Frac::new(1, 2);
    let x0 = Frac::from_int(1);
    let w = t
        .b11
        .mul(k)
        .add(t.b12.mul(k))
        .add(t.b13.mul(k))
        .add(t.b14.mul(k))
        .add(t.b15.mul(k))
        .add(t.b16.mul(k))
        .add(t.b17.mul(k));
    let stepped = x0.add(w);
    assert!(stepped.eq_frac(x0.add(k)));
    assert!(stepped.eq_frac(Frac::new(3, 2)));
}

#[test]
fn step_counters_accept_and_reject() {
    let mut c = StepCounters::new();
    assert_eq!(c.get_num_of_steps(), 0);
    assert_eq!(c.get_num_of_dt_switch(), 0);

    let v = c.record_step(true);
    assert_eq!(v, StepVerdict::Rejected);
    assert_eq!(c.get_num_of_steps(), 1);
    assert_eq!(c.get_num_of_dt_switch(), 1);

    let w = c.record_step(false);
    assert_eq!(w, StepVerdict::Accepted);
    assert_eq!(c.get_num_of_steps(), 2);
    assert_eq!(c.get_num_of_dt_switch(), 1);
}

#[test]
fn step_counters_stay_monotonic() {
    let mut c = StepCounters::new();
    let outcomes = [true, false, false, true, true, false, false, false];
    let mut last_steps: i64 = 0;
    let mut last_switches: i64 = 0;
    for &rejected in outcomes.iter() {
        let verdict = c.record_step(rejected);
        assert_eq!(verdict == StepVerdict::Rejected, rejected);
        assert!(c.get_num_of_steps() > last_steps);
        assert!(c.get_num_of_dt_switch() >= last_switches);
        assert!(c.get_num_of_dt_switch() <= c.get_num_of_steps());
        last_steps = c.get_num_of_steps();
        last_switches = c.get_num_of_dt_switch();
    }
    assert_eq!(c.get_num_of_steps(), 8);
    assert_eq!(c.get_num_of_dt_switch(), 3);
}
