use dsp_signals::{Complex64, Signal};
use num_complex::Complex;

#[test]
fn test_shift1() {
    let v = Signal::new(vec![Complex::new(1., 2.),
                             Complex::new(2., 3.),
                             Complex::new(3., 4.),
                             Complex::new(4., 1.)]);
    let v1 = v.shift(1);
    assert!(v1 == Signal::new(vec![Complex::new(0., 0.),
                                   Complex::new(1., 2.),
                                   Complex::new(2., 3.),
                                   Complex::new(3., 4.)]));
}

#[test]
fn test_shift2() {
    let v = Signal::from_reals(vec![1., 2., 3., 4.]);
    let v1 = v.shift(-1);
    assert!(v1 == Signal::new(vec![Complex::new(2., 0.),
                                   Complex::new(3., 0.),
                                   Complex::new(4., 0.),
                                   Complex::new(0., 0.)]));
}

#[test]
fn test_integration() {
    let v = Signal::new(vec![Complex::new(1., 2.),
                             Complex::new(2., -4.),
                             Complex::new(3., -6.),
                             Complex::new(4., 8.)]);
    let v2 = v.integrate();
    assert!(v2.len() == 4);
    assert!(v2 == Signal::new(vec![Complex::new(1., 2.),
                                   Complex::new(3., -2.),
                                   Complex::new(6., -8.),
                                   Complex::new(10., 0.)]));
}

#[test]
fn test_differentiation() {
    let v = Signal::new(vec![Complex::new(1., 2.),
                             Complex::new(2., -4.),
                             Complex::new(3., -6.),
                             Complex::new(4., 8.)]);
    let v2 = v.differentiate();
    assert!(v2.len() == 4);
    assert!(v2 == Signal::new(vec![Complex::new(1., 2.),
                                   Complex::new(1., -6.),
                                   Complex::new(1., -2.),
                                   Complex::new(1., 14.)]));
}

#[test]
fn test_energy() {
    let v = Signal::new(vec![Complex::new(1., 1.),
                             Complex::new(2., -1.),
                             Complex::new(1., -1.),
                             Complex::new(1., -2.)]);
    assert!(v.energy().re == 14.0);
    assert!(v.energy().im == 0.0);
}

#[test]
fn test_power() {
    let v = Signal::new(vec![Complex::new(1., 1.),
                             Complex::new(2., -1.),
                             Complex::new(1., -1.),
                             Complex::new(1., -2.)]);
    assert!(v.power().unwrap().re == 14. / 4.);
    assert!(v.power().unwrap().im == 0.0);
}

fn sample_signal() -> Signal {
    Signal::new(vec![Complex::new(1., 2.),
                     Complex::new(-3., 0.5),
                     Complex::new(0., -7.)])
}

#[test]
fn new_sets_rate_to_length() {
    let v = sample_signal();
    assert_eq!(v.len(), 3);
    assert_eq!(v.sample_rate(), 3);
    assert_eq!(v.to_vec(), vec![Complex::new(1., 2.), Complex::new(-3., 0.5), Complex::new(0., -7.)]);
}

#[test]
fn from_reals_has_zero_imaginary_parts() {
    let v = Signal::from_reals(vec![1.5, -2.0]);
    assert_eq!(v.sample_rate(), 2);
    assert_eq!(v.to_vec(), vec![Complex::new(1.5, 0.), Complex::new(-2.0, 0.)]);
}

#[test]
fn get_reads_zero_outside_range() {
    let v = sample_signal();
    assert_eq!(v.get(0), Complex::new(1., 2.));
    assert_eq!(v.get(2), Complex::new(0., -7.));
    assert_eq!(v.get(-1), Complex::new(0., 0.));
    assert_eq!(v.get(3), Complex::new(0., 0.));
    assert_eq!(v.get(isize::MIN), Complex::new(0., 0.));
    assert_eq!(v.get(isize::MAX), Complex::new(0., 0.));
}

#[test]
fn shift_keeps_length_for_any_offset() {
    let v = sample_signal();
    for k in [-5isize, -1, 0, 1, 2, 3, 100, isize::MIN, isize::MAX] {
        let s = v.shift(k);
        assert_eq!(s.len(), v.len());
        assert_eq!(s.sample_rate(), v.len());
    }
    assert_eq!(v.shift(isize::MIN).to_vec(), vec![Complex64::new(0., 0.); 3]);
    assert_eq!(v.shift(isize::MAX).to_vec(), vec![Complex64::new(0., 0.); 3]);
}

#[test]
fn shift_by_zero_is_the_signal() {
    let v = sample_signal();
    assert!(v.shift(0) == v);
    assert_eq!(v.shift(0).to_vec(), v.to_vec());
}

#[test]
fn shift_by_one_clips() {
    let v = sample_signal();
    let s = v.shift(1);
    assert_eq!(s.get(0), Complex::new(0., 0.));
    assert_eq!(s.get(2), Complex::new(-3., 0.5));
}

#[test]
fn integrate_is_prefix_sum() {
    let v = sample_signal();
    let y = v.integrate();
    let mut acc = Complex64::new(0., 0.);
    for n in 0..3isize {
        acc = acc + v.get(n);
        assert_eq!(y.get(n), acc);
    }
    assert_eq!(y.get(2), Complex::new(-2., -4.5));
}

#[test]
fn differentiate_keeps_first_sample() {
    let v = sample_signal();
    let d = v.differentiate();
    assert_eq!(d.get(0), v.get(0));
    assert_eq!(d.get(1), Complex::new(-4., -1.5));
    assert_eq!(d.get(2), Complex::new(3., -7.5));
}

#[test]
fn empty_signal_operations() {
    let v = Signal::new(vec![]);
    assert_eq!(v.len(), 0);
    assert_eq!(v.shift(1).len(), 0);
    assert_eq!(v.integrate().len(), 0);
    assert_eq!(v.differentiate().len(), 0);
    assert_eq!(v.differentiate().get(0), v.get(0));
    assert_eq!(v.energy(), Complex::new(0., 0.));
    assert!(v.power().is_none());
}

#[test]
fn energy_of_one_sample() {
    let v = Signal::new(vec![Complex::new(3., -4.)]);
    assert_eq!(v.energy(), Complex::new(25., 0.));
    assert_eq!(v.power(), Some(Complex::new(25., 0.)));
}

#[test]
fn power_divides_by_length() {
    let v = Signal::from_reals(vec![2., 2.]);
    assert_eq!(v.energy(), Complex::new(8., 0.));
    assert_eq!(v.power(), Some(Complex::new(4., 0.)));
}

#[test]
fn perturb_adds_noise_and_keeps_rate() {
    let v = sample_signal();
    let noise = vec![Complex::new(0.5, 0.), Complex::new(-1., 0.), Complex::new(2., 0.)];
    let p = v.perturb(&noise);
    assert_eq!(p.sample_rate(), 3);
    assert_eq!(p.to_vec(), vec![Complex::new(1.5, 2.), Complex::new(-4., 0.5), Complex::new(2., -7.)]);
}

#[test]
fn equality_ignores_rate_and_compares_samples() {
    let v = sample_signal();
    let shorter = Signal::new(vec![Complex::new(1., 2.), Complex::new(-3., 0.5)]);
    assert!(!(v == shorter));
    let other = Signal::new(vec![Complex::new(1., 2.), Complex::new(-3., 0.5), Complex::new(0., 7.)]);
    assert!(!(v == other));
    let noise = vec![Complex::new(0., 0.); 3];
    assert!(v.perturb(&noise) == v);
}
