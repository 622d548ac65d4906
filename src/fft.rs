//! Forward and inverse discrete Fourier transforms between signals and
//! spectra.
//!
//! Neither direction is normalised: the inverse of the forward transform of
//! `N` samples gives back the samples multiplied by `N`.
use vstd::prelude::*;

use crate::complex::Complex64;
use crate::signals::Signal;
use crate::spectrums::Spectrum;

verus! {

/// The unnormalised forward discrete Fourier transform of `x`,
/// `X[k] = sum over n of x[n] * exp(-2 pi i k n / N)`, as rustfft computes it.
pub uninterp spec fn forward_dft(x: Seq<Complex64>) -> Seq<Complex64>;

/// The unnormalised inverse discrete Fourier transform of `x`,
/// `x[n] = sum over k of X[k] * exp(2 pi i k n / N)`, as rustfft computes it.
pub uninterp spec fn inverse_dft(x: Seq<Complex64>) -> Seq<Complex64>;

/// Relies on rustfft: `FftPlannerScalar::plan_fft_forward` for the length of
/// `data`, then `Fft::process`, which transforms the buffer in place. The
/// scalar planner picks its algorithm from the length alone, so the result
/// depends on the samples alone. `process` panics on an empty buffer.
#[verifier::external_body]
fn forward_transform(data: Vec<Complex64>) -> (r: Vec<Complex64>)
    requires
        data@.len() > 0,
    ensures
        r@ == forward_dft(data@),
        r@.len() == data@.len(),
{
    let mut buf = data;
    let fft = rustfft::FftPlannerScalar::new().plan_fft_forward(buf.len());
    fft.process(&mut buf);
    buf
}

/// Relies on rustfft: `FftPlannerScalar::plan_fft_inverse` for the length of
/// `data`, then `Fft::process`, which transforms the buffer in place. The
/// scalar planner picks its algorithm from the length alone, so the result
/// depends on the samples alone. `process` panics on an empty buffer.
#[verifier::external_body]
fn inverse_transform(data: Vec<Complex64>) -> (r: Vec<Complex64>)
    requires
        data@.len() > 0,
    ensures
        r@ == inverse_dft(data@),
        r@.len() == data@.len(),
{
    let mut buf = data;
    let fft = rustfft::FftPlannerScalar::new().plan_fft_inverse(buf.len());
    fft.process(&mut buf);
    buf
}

/// The forward transform of a signal's samples; an empty signal has an empty
/// spectrum.
pub open spec fn forward_of(x: Seq<Complex64>) -> Seq<Complex64> {
    if x.len() == 0 {
        x
    } else {
        forward_dft(x)
    }
}

/// The inverse transform of a spectrum's bins; an empty spectrum gives an
/// empty signal.
pub open spec fn inverse_of(x: Seq<Complex64>) -> Seq<Complex64> {
    if x.len() == 0 {
        x
    } else {
        inverse_dft(x)
    }
}

/// A forward transform for signals of one fixed length.
pub struct ForwardFFT {
    size: usize,
}

/// An inverse transform for spectra of one fixed length.
pub struct InverseFFT {
    size: usize,
}

impl ForwardFFT {
    /// The length of the signals this transform takes.
    pub closed spec fn spec_size(&self) -> nat {
        self.size as nat
    }

    /// A forward transform for signals of `sample_size` samples.
    pub fn new(sample_size: usize) -> (r: ForwardFFT)
        ensures
            r.spec_size() == sample_size,
    {
        ForwardFFT { size: sample_size }
    }

    /// The length of the signals this transform takes.
    pub fn size(&self) -> (r: usize)
        ensures
            r == self.spec_size(),
    {
        self.size
    }

    /// The spectrum of `v`: its forward transform, with the sample rate of `v`.
    pub fn process(&mut self, v: &Signal) -> (r: Spectrum)
        requires
            v@.len() == old(self).spec_size(),
        ensures
            final(self).spec_size() == old(self).spec_size(),
            r@ == forward_of(v@),
            r.rate() == v.rate(),
    {
        let raw = v.to_vec();
        let out = if raw.len() == 0 {
            raw
        } else {
            forward_transform(raw)
        };
        Spectrum::new(out, v.sample_rate())
    }
}

impl InverseFFT {
    /// The length of the spectra this transform takes.
    pub closed spec fn spec_size(&self) -> nat {
        self.size as nat
    }

    /// An inverse transform for spectra of `sample_size` bins.
    pub fn new(sample_size: usize) -> (r: InverseFFT)
        ensures
            r.spec_size() == sample_size,
    {
        InverseFFT { size: sample_size }
    }

    /// The length of the spectra this transform takes.
    pub fn size(&self) -> (r: usize)
        ensures
            r == self.spec_size(),
    {
        self.size
    }

    /// The signal of `v`: its inverse transform, with a sample rate equal to
    /// its length.
    pub fn process(&mut self, v: &Spectrum) -> (r: Signal)
        requires
            v@.len() == old(self).spec_size(),
        ensures
            final(self).spec_size() == old(self).spec_size(),
            r@ == inverse_of(v@),
            r.rate() == v@.len(),
    {
        let raw = v.to_vec();
        let out = if raw.len() == 0 {
            raw
        } else {
            inverse_transform(raw)
        };
        Signal::new(out)
    }
}

} // verus!
