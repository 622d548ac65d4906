//! Spectra: the frequency-domain samples of a discrete signal, with the sample
//! rate of the signal they came from.
use vstd::prelude::*;

use crate::complex::Complex64;
use crate::signals::{equal_samples, samples_equal};

verus! {

/// A spectrum: one complex amplitude per frequency bin, and a sample rate.
#[derive(Debug)]
pub struct Spectrum {
    data: Vec<Complex64>,
    sample_rate: usize,
}

impl View for Spectrum {
    type V = Seq<Complex64>;

    closed spec fn view(&self) -> Seq<Complex64> {
        self.data@
    }
}

impl Spectrum {
    /// The sample rate of the spectrum.
    pub closed spec fn rate(&self) -> nat {
        self.sample_rate as nat
    }

    /// A spectrum with the given bins and sample rate.
    pub fn new(data: Vec<Complex64>, sample_rate: usize) -> (r: Spectrum)
        ensures
            r@ == data@,
            r.rate() == sample_rate,
    {
        Spectrum { data, sample_rate }
    }

    /// The number of bins.
    pub fn len(&self) -> (r: usize)
        ensures
            r == self@.len(),
    {
        self.data.len()
    }

    /// The sample rate.
    pub fn sample_rate(&self) -> (r: usize)
        ensures
            r == self.rate(),
    {
        self.sample_rate
    }

    /// A copy of the bins.
    pub fn to_vec(&self) -> (r: Vec<Complex64>)
        ensures
            r@ == self@,
    {
        let mut v: Vec<Complex64> = Vec::with_capacity(self.data.len());
        let mut n: usize = 0;
        while n < self.data.len()
            invariant
                n <= self@.len(),
                v@ == self@.subrange(0, n as int),
            decreases self@.len() - n,
        {
            v.push(self.data[n]);
            n = n + 1;
            assert(v@ =~= self@.subrange(0, n as int));
        }
        assert(v@ =~= self@);
        v
    }
}

/// Two spectra are equal when their bins are; the sample rate is not compared.
impl PartialEq for Spectrum {
    fn eq(&self, other: &Spectrum) -> (r: bool) {
        equal_samples(&self.data, &other.data)
    }
}

impl vstd::std_specs::cmp::PartialEqSpecImpl for Spectrum {
    open spec fn obeys_eq_spec() -> bool {
        true
    }

    open spec fn eq_spec(&self, other: &Spectrum) -> bool {
        samples_equal(self@, other@)
    }
}

} // verus!
