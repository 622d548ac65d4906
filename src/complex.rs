//! Complex samples.
//!
//! A sample is a `num_complex::Complex64`. Verus sees such a value as opaque:
//! the arithmetic on samples is done by `num_complex`, and each operation's
//! result is given a name, so that the signal logic can say exactly which
//! operations it applies to which samples.
use vstd::prelude::*;

pub use num_complex::Complex64;

verus! {

#[verifier::external_type_specification]
#[verifier::external_body]
#[verifier::reject_recursive_types(T)]
pub struct ExComplex<T>(num_complex::Complex<T>);

/// The sample with real part `n` and imaginary part zero.
pub uninterp spec fn complex_of_int(n: int) -> Complex64;

/// The sum `a + b`, component by component.
pub uninterp spec fn complex_sum(a: Complex64, b: Complex64) -> Complex64;

/// The difference `a - b`, component by component.
pub uninterp spec fn complex_diff(a: Complex64, b: Complex64) -> Complex64;

/// The product `a * b`.
pub uninterp spec fn complex_product(a: Complex64, b: Complex64) -> Complex64;

/// The complex conjugate of `a`.
pub uninterp spec fn complex_conj(a: Complex64) -> Complex64;

/// `a` with both parts divided by the real number `n`.
pub uninterp spec fn complex_unscaled(a: Complex64, n: int) -> Complex64;

/// Whether both parts of `a` and `b` compare equal.
pub uninterp spec fn complex_equal(a: Complex64, b: Complex64) -> bool;

/// The zero sample.
pub open spec fn complex_zero() -> Complex64 {
    complex_of_int(0)
}

/// Relies on `num_complex::Complex::new`, with the integer converted to a real.
#[verifier::external_body]
pub(crate) fn from_int(n: i32) -> (r: Complex64)
    ensures
        r == complex_of_int(n as int),
{
    Complex64::new(n.into(), 0.into())
}

/// Relies on `num_complex`'s `Add` for `Complex`.
#[verifier::external_body]
pub(crate) fn sum(a: Complex64, b: Complex64) -> (r: Complex64)
    ensures
        r == complex_sum(a, b),
{
    a + b
}

/// Relies on `num_complex`'s `Sub` for `Complex`.
#[verifier::external_body]
pub(crate) fn diff(a: Complex64, b: Complex64) -> (r: Complex64)
    ensures
        r == complex_diff(a, b),
{
    a - b
}

/// Relies on `num_complex`'s `Mul` for `Complex`.
#[verifier::external_body]
pub(crate) fn product(a: Complex64, b: Complex64) -> (r: Complex64)
    ensures
        r == complex_product(a, b),
{
    a * b
}

/// Relies on `num_complex::Complex::conj`.
#[verifier::external_body]
pub(crate) fn conj(a: Complex64) -> (r: Complex64)
    ensures
        r == complex_conj(a),
{
    a.conj()
}

/// Relies on `num_complex::Complex::unscale`, with the count converted to a real.
#[verifier::external_body]
pub(crate) fn unscaled(a: Complex64, n: usize) -> (r: Complex64)
    ensures
        r == complex_unscaled(a, n as int),
{
    a.unscale(n as _)
}

/// Relies on `num_complex`'s `From<T>` for `Complex<T>`, which makes `x` the
/// real part; nothing is stated of the value.
#[verifier::external_body]
pub(crate) fn from_real<R>(x: R) -> (r: Complex64)
    where
        Complex64: From<R>,
{
    Complex64::from(x)
}

/// Relies on `num_complex`'s derived `PartialEq` for `Complex`.
#[verifier::external_body]
pub(crate) fn equal(a: Complex64, b: Complex64) -> (r: bool)
    ensures
        r == complex_equal(a, b),
{
    a == b
}

} // verus!
