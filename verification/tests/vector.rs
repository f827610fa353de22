use dop54::rational::Frac;
use dop54::smp_vector::SmpVector;

#[test]
fn vector_add() {
    let a = SmpVector::set_one_fill(10);
    let b = SmpVector::set_one_fill(10);
    let c = SmpVector::set_one_fill(10).scale(Frac::from_int(2));
    let sum = a.add(&b);
    for i in 0..10 {
        assert_eq!(sum.vec[i].num, 2);
        assert_eq!(sum.vec[i].den, 1);
        assert_eq!(c.vec[i].num, 2);
        assert_eq!(c.vec[i].den, 1);
    }
    assert!(sum.norm_sq().eq_frac(c.norm_sq()));
}

#[test]
fn vector_sub() {
    let a = SmpVector::set_one_fill(10).scale(Frac::from_int(2));
    let b = SmpVector::set_one_fill(10).scale(Frac::from_int(3));
    let c = SmpVector::set_one_fill(10).scale(Frac::from_int(-1));
    let diff = a.sub(&b);
    for i in 0..10 {
        assert_eq!(diff.vec[i].num, -1);
        assert_eq!(diff.vec[i].den, 1);
        assert_eq!(c.vec[i].num, -1);
        assert_eq!(c.vec[i].den, 1);
    }
    assert!(diff.norm_sq().eq_frac(c.norm_sq()));
}

#[test]
fn vector_zero() {
    let a = SmpVector::set_zero_vector(10).scale(Frac::from_int(2));
    let n = a.norm_sq();
    assert!(n.eq_frac(Frac::zero()));
}

#[test]
fn inner_product_harmonic_exact() {
    // 1/1 + 1/4 + 1/9 == 49/36, the third partial sum behind the
    // pi-squared-over-six limit of the harmonic inner product.
    let a = SmpVector::set_harmonic_vector(3);
    let b = SmpVector::set_harmonic_vector(3);
    let d = a.dot(&b);
    assert!(d.eq_frac(Frac::new(49, 36)));
    assert_eq!(d.num, 49);
    assert_eq!(d.den, 36);
}

#[test]
fn harmonic_components() {
    let h = SmpVector::set_harmonic_vector(5);
    assert_eq!(h.vec.len(), 5);
    for i in 0..5 {
        assert_eq!(h.vec[i].num, 1);
        assert_eq!(h.vec[i].den, i as i64 + 1);
    }
    assert_eq!(h.time.num, 0);
}

#[test]
fn empty_vector_is_well_formed() {
    let v = SmpVector::initialize();
    assert_eq!(v.vec.len(), 0);
    assert!(v.norm_sq().eq_frac(Frac::zero()));
    let z = SmpVector::set_zero_vector(0);
    assert_eq!(z.vec.len(), 0);
    assert!(z.norm_sq().eq_frac(Frac::zero()));
}

#[test]
fn sum_takes_time_from_left_operand() {
    let mut a = SmpVector::set_one_fill(4);
    let mut b = SmpVector::set_one_fill(4);
    a.time = Frac::new(3, 2);
    b.time = Frac::new(7, 5);
    let sum = a.add(&b);
    assert_eq!(sum.time.num, 3);
    assert_eq!(sum.time.den, 2);
    let diff = a.sub(&b);
    assert_eq!(diff.time.num, 3);
    assert_eq!(diff.time.den, 2);
}

#[test]
fn scale_preserves_time() {
    let mut a = SmpVector::set_one_fill(4);
    a.time = Frac::new(9, 4);
    let scaled = a.scale(Frac::from_int(5));
    assert_eq!(scaled.time.num, 9);
    assert_eq!(scaled.time.den, 4);
    for i in 0..4 {
        assert_eq!(scaled.vec[i].num, 5);
        assert_eq!(scaled.vec[i].den, 1);
    }
}

#[test]
fn fraction_arithmetic_exact() {
    let a = Frac::new(1, 2);
    let b = Frac::new(1, 3);
    let s = a.add(b);
    assert_eq!(s.num, 5);
    assert_eq!(s.den, 6);
    let d = a.sub(b);
    assert_eq!(d.num, 1);
    assert_eq!(d.den, 6);
    let p = a.mul(b);
    assert_eq!(p.num, 1);
    assert_eq!(p.den, 6);
    let n = a.neg();
    assert_eq!(n.num, -1);
    assert_eq!(n.den, 2);
    // Unreduced fractions still compare equal when they denote the same
    // rational.
    assert!(Frac::new(2, 4).eq_frac(Frac::new(1, 2)));
    assert!(!Frac::new(2, 4).eq_frac(Frac::new(1, 3)));
}
