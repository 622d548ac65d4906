//! Discrete-time signals: a fixed-length sequence of complex samples read as
//! zero outside the stored range.
use vstd::prelude::*;

use crate::complex::{
    complex_conj, complex_diff, complex_equal, complex_product, complex_sum, complex_unscaled,
    complex_zero, conj, diff, equal, from_int, from_real, product, sum, unscaled, Complex64,
};

verus! {

/// The sample of `s` at index `i`: the stored value inside `[0, s.len())`,
/// and zero everywhere else.
pub open spec fn sample_at(s: Seq<Complex64>, i: int) -> Complex64 {
    if 0 <= i < s.len() {
        s[i]
    } else {
        complex_zero()
    }
}

/// The clipping shift of `s` by `k`: `y[n] = x[n - k]` for `n` in `[0, s.len())`.
pub open spec fn shifted(s: Seq<Complex64>, k: int) -> Seq<Complex64> {
    Seq::new(s.len(), |n: int| sample_at(s, n - k))
}

/// `x[0] + x[1] + ... + x[n]`, added from the left.
pub open spec fn running_sum(s: Seq<Complex64>, n: int) -> Complex64
    decreases n,
{
    if n <= 0 {
        sample_at(s, 0)
    } else {
        complex_sum(running_sum(s, n - 1), sample_at(s, n))
    }
}

/// The running sum of `s`: `y[n] = x[0] + ... + x[n]`.
pub open spec fn integrated(s: Seq<Complex64>) -> Seq<Complex64> {
    Seq::new(s.len(), |n: int| running_sum(s, n))
}

/// The first difference at `n`, `x[n] - x[n - 1]`; the sample before the
/// first one is zero, so the first difference is `x[0]` itself.
pub open spec fn difference_at(s: Seq<Complex64>, n: int) -> Complex64 {
    if n <= 0 {
        sample_at(s, 0)
    } else {
        complex_diff(sample_at(s, n), sample_at(s, n - 1))
    }
}

/// The first difference of `s`: `y[n] = x[n] - x[n - 1]`.
pub open spec fn differentiated(s: Seq<Complex64>) -> Seq<Complex64> {
    Seq::new(s.len(), |n: int| difference_at(s, n))
}

/// `x * conj(x)`: the squared magnitude of `x`, as a complex value with a zero
/// imaginary part.
pub open spec fn energy_term(c: Complex64) -> Complex64 {
    complex_product(c, complex_conj(c))
}

/// The energy of the first `n` samples, summed from zero.
pub open spec fn energy_upto(s: Seq<Complex64>, n: int) -> Complex64
    decreases n,
{
    if n <= 0 || s.len() < n {
        complex_zero()
    } else {
        complex_sum(energy_upto(s, n - 1), energy_term(s[n - 1]))
    }
}

/// The energy of `s`: the sum of the squared magnitudes of all its samples.
pub open spec fn energy_of(s: Seq<Complex64>) -> Complex64 {
    energy_upto(s, s.len() as int)
}

/// Whether two sample sequences have the same length and compare equal sample
/// by sample.
pub open spec fn samples_equal(a: Seq<Complex64>, b: Seq<Complex64>) -> bool {
    a.len() == b.len() && forall|i: int| 0 <= i < a.len() ==> complex_equal(#[trigger] a[i], b[i])
}

/// A discrete-time signal: its samples and its sample rate (samples per unit
/// of time).
#[derive(Debug)]
pub struct Signal {
    data: Vec<Complex64>,
    sample_freq: usize,
}

impl View for Signal {
    type V = Seq<Complex64>;

    closed spec fn view(&self) -> Seq<Complex64> {
        self.data@
    }
}

impl Signal {
    /// The sample rate of the signal.
    pub closed spec fn rate(&self) -> nat {
        self.sample_freq as nat
    }

    /// A signal with the given samples; its sample rate is their count.
    pub fn new(data: Vec<Complex64>) -> (r: Signal)
        ensures
            r@ == data@,
            r.rate() == data@.len(),
    {
        let n = data.len();
        Signal { data, sample_freq: n }
    }

    /// A signal with the given samples and sample rate.
    fn with_rate(data: Vec<Complex64>, sample_freq: usize) -> (r: Signal)
        ensures
            r@ == data@,
            r.rate() == sample_freq,
    {
        Signal { data, sample_freq }
    }

    /// A signal with the given real samples, each with a zero imaginary part;
    /// its sample rate is their count.
    pub fn from_reals<R: Copy>(data: Vec<R>) -> (r: Signal)
        where
            Complex64: From<R>,
        ensures
            r@.len() == data@.len(),
            r.rate() == data@.len(),
    {
        let mut v: Vec<Complex64> = Vec::with_capacity(data.len());
        let mut n: usize = 0;
        while n < data.len()
            invariant
                n <= data@.len(),
                v@.len() == n,
            decreases data@.len() - n,
        {
            v.push(from_real(data[n]));
            n = n + 1;
        }
        Signal::new(v)
    }

    /// The number of samples.
    pub fn len(&self) -> (r: usize)
        ensures
            r == self@.len(),
    {
        self.data.len()
    }

    /// The sample rate.
    pub fn sample_rate(&self) -> (r: usize)
        ensures
            r == self.rate(),
    {
        self.sample_freq
    }

    fn sample_or_zero(&self, i: i128) -> (r: Complex64)
        ensures
            r == sample_at(self@, i as int),
    {
        if 0 <= i && i < self.data.len() as i128 {
            self.data[i as usize]
        } else {
            from_int(0)
        }
    }

    /// The sample at index `i`; zero where `i` is outside `[0, len)`.
    pub fn get(&self, i: isize) -> (r: Complex64)
        ensures
            r == sample_at(self@, i as int),
    {
        self.sample_or_zero(i as i128)
    }

    /// A copy of the samples.
    pub fn to_vec(&self) -> (r: Vec<Complex64>)
        ensures
            r@ == self@,
    {
        let mut v: Vec<Complex64> = Vec::new();
        let mut n: usize = 0;
        while n < self.data.len()
            invariant
                n <= self@.len(),
                v@ == self@.subrange(0, n as int),
            decreases self@.len() - n,
        {
            v.push(self.data[n]);
            n = n + 1;
            assert(v@ =~= self@.subrange(0, n as int));
        }
        assert(v@ =~= self@);
        v
    }
    /// The signal shifted by `k` samples, `y[n] = x[n - k]`, with the same
    /// length: samples shifted past either end are dropped and the vacated
    /// positions read zero.
    pub fn shift(&self, k: isize) -> (r: Signal)
        ensures
            r@ == shifted(self@, k as int),
            r.rate() == self@.len(),
    {
        let mut v: Vec<Complex64> = Vec::with_capacity(self.data.len());
        let mut n: usize = 0;
        while n < self.data.len()
            invariant
                n <= self@.len(),
                v@.len() == n,
                forall|j: int| 0 <= j < n ==> #[trigger] v@[j] == sample_at(self@, j - k),
            decreases self@.len() - n,
        {
            v.push(self.sample_or_zero(n as i128 - k as i128));
            n = n + 1;
        }
        assert(v@ =~= shifted(self@, k as int));
        Signal::new(v)
    }

    /// The running sum, `y[n] = x[0] + ... + x[n]`.
    pub fn integrate(&self) -> (r: Signal)
        ensures
            r@ == integrated(self@),
            r.rate() == self@.len(),
    {
        let mut v: Vec<Complex64> = Vec::with_capacity(self.data.len());
        let mut n: usize = 0;
        while n < self.data.len()
            invariant
                n <= self@.len(),
                v@.len() == n,
                forall|j: int| 0 <= j < n ==> #[trigger] v@[j] == running_sum(self@, j),
            decreases self@.len() - n,
        {
            let y = if n == 0 {
                self.data[0]
            } else {
                sum(v[n - 1], self.data[n])
            };
            v.push(y);
            n = n + 1;
        }
        assert(v@ =~= integrated(self@));
        Signal::new(v)
    }

    /// The first difference, `y[n] = x[n] - x[n - 1]`, where the sample
    /// before the first one is zero: `y[0] = x[0]`.
    pub fn differentiate(&self) -> (r: Signal)
        ensures
            r@ == differentiated(self@),
            r.rate() == self@.len(),
    {
        let mut v: Vec<Complex64> = Vec::with_capacity(self.data.len());
        let mut n: usize = 0;
        while n < self.data.len()
            invariant
                n <= self@.len(),
                v@.len() == n,
                forall|j: int| 0 <= j < n ==> #[trigger] v@[j] == difference_at(self@, j),
            decreases self@.len() - n,
        {
            let y = if n == 0 {
                self.data[0]
            } else {
                diff(self.data[n], self.data[n - 1])
            };
            v.push(y);
            n = n + 1;
        }
        assert(v@ =~= differentiated(self@));
        Signal::new(v)
    }

    /// The energy, the sum of `x[n] * conj(x[n])` over all samples, starting
    /// from zero. Its imaginary part is zero.
    pub fn energy(&self) -> (r: Complex64)
        ensures
            r == energy_of(self@),
    {
        let mut acc = from_int(0);
        let mut n: usize = 0;
        while n < self.data.len()
            invariant
                n <= self@.len(),
                acc == energy_upto(self@, n as int),
            decreases self@.len() - n,
        {
            let x = self.data[n];
            acc = sum(acc, product(x, conj(x)));
            n = n + 1;
        }
        acc
    }

    /// The power, the energy divided by the number of samples; `None` for an
    /// empty signal, whose power is undefined.
    pub fn power(&self) -> (r: Option<Complex64>)
        ensures
            self@.len() == 0 <==> r is None,
            self@.len() > 0 ==> r == Some(complex_unscaled(energy_of(self@), self@.len() as int)),
    {
        if self.data.len() == 0 {
            None
        } else {
            Some(unscaled(self.energy(), self.data.len()))
        }
    }

    /// The signal with `noise[n]` added to each sample `x[n]`; the sample
    /// rate is kept.
    pub fn perturb(&self, noise: &Vec<Complex64>) -> (r: Signal)
        requires
            noise@.len() == self@.len(),
        ensures
            r@.len() == self@.len(),
            forall|n: int| 0 <= n < self@.len() ==> #[trigger] r@[n] == complex_sum(self@[n], noise@[n]),
            r.rate() == self.rate(),
    {
        let mut v: Vec<Complex64> = Vec::with_capacity(self.data.len());
        let mut n: usize = 0;
        while n < self.data.len()
            invariant
                n <= self@.len(),
                noise@.len() == self@.len(),
                v@.len() == n,
                forall|j: int| 0 <= j < n ==> #[trigger] v@[j] == complex_sum(self@[j], noise@[j]),
            decreases self@.len() - n,
        {
            v.push(sum(self.data[n], noise[n]));
            n = n + 1;
        }
        Signal::with_rate(v, self.sample_freq)
    }
}

/// Two signals are equal when their samples are; the sample rate is not
/// compared.
impl PartialEq for Signal {
    fn eq(&self, other: &Signal) -> (r: bool) {
        equal_samples(&self.data, &other.data)
    }
}

impl vstd::std_specs::cmp::PartialEqSpecImpl for Signal {
    open spec fn obeys_eq_spec() -> bool {
        true
    }

    open spec fn eq_spec(&self, other: &Signal) -> bool {
        samples_equal(self@, other@)
    }
}

/// Whether `a` and `b` have the same length and compare equal sample by sample.
pub(crate) fn equal_samples(a: &Vec<Complex64>, b: &Vec<Complex64>) -> (r: bool)
    ensures
        r == samples_equal(a@, b@),
{
    if a.len() != b.len() {
        return false;
    }
    let mut n: usize = 0;
    while n < a.len()
        invariant
            n <= a@.len(),
            a@.len() == b@.len(),
            forall|j: int| 0 <= j < n ==> complex_equal(#[trigger] a@[j], b@[j]),
        decreases a@.len() - n,
    {
        if !equal(a[n], b[n]) {
            return false;
        }
        n = n + 1;
    }
    true
}

/// A shift keeps the length of the signal, whatever the offset.
pub proof fn shift_keeps_length(x: Signal, k: isize)
    ensures
        shifted(x@, k as int).len() == x@.len(),
{
}

/// A shift by zero gives back the same samples.
pub proof fn shift_by_zero_is_identity(x: Signal)
    ensures
        shifted(x@, 0) == x@,
{
    assert(shifted(x@, 0) =~= x@);
}

/// A shift is clipping, not circular: after a shift by one the first sample
/// of a non-empty signal is zero.
pub proof fn shift_by_one_starts_with_zero(x: Signal)
    requires
        x@.len() > 0,
    ensures
        sample_at(shifted(x@, 1), 0) == complex_zero(),
{
}

/// Each sample of the running sum is the sum of the samples up to and
/// including its index.
pub proof fn integrate_sums_prefix(x: Signal, n: int)
    requires
        0 <= n < x@.len(),
    ensures
        sample_at(integrated(x@), n) == running_sum(x@, n),
{
}

/// The first sample of the first difference is the first sample of the
/// signal, the one before it being zero.
pub proof fn differentiate_keeps_first(x: Signal)
    ensures
        sample_at(differentiated(x@), 0) == sample_at(x@, 0),
{
}

} // verus!
