use vstd::prelude::*;

use crate::analysis::{spec_spectrum_len, spectrum_len};
use crate::bands::BinRange;

verus! {

/// The shared output spectrum of one synthesis run: `n_samples / 2 + 1` bins
/// of a real signal of `n_samples` samples, bin 0 being DC. Every harmonic of
/// every chord note is added into it before one inverse transform reads it.
pub struct OutputSpectrum<T> {
    pub bins: Vec<T>,
    pub n_samples: usize,
}

impl<T: Copy> OutputSpectrum<T> {
    pub open spec fn wf(&self) -> bool {
        self.bins@.len() == spec_spectrum_len(self.n_samples as nat)
    }

    /// An all-`zero` spectrum for an output of `n_samples` samples.
    pub fn new(n_samples: usize, zero: T) -> (r: Self)
        ensures
            r.wf(),
            r.n_samples == n_samples,
            r.bins@ == Seq::new(spec_spectrum_len(n_samples as nat), |_i: int| zero),
    {
        let n_bins = spectrum_len(n_samples);
        let mut bins: Vec<T> = Vec::new();
        let mut i: usize = 0;
        while i < n_bins
            invariant
                i <= n_bins,
                n_bins == spec_spectrum_len(n_samples as nat),
                bins@ == Seq::new(i as nat, |_i: int| zero),
            decreases n_bins - i,
        {
            bins.push(zero);
            i = i + 1;
            assert(bins@ =~= Seq::new(i as nat, |_i: int| zero));
        }
        OutputSpectrum { bins, n_samples }
    }

    pub fn n_bins(&self) -> (r: usize)
        ensures
            r == self.bins@.len(),
    {
        self.bins.len()
    }

    /// The bins of `[lower, upper)` that this spectrum holds, or `None` when
    /// the window starts at or past its last bin and the harmonic is skipped.
    pub fn window(&self, lower: usize, upper: usize) -> (r: Option<BinRange>)
        requires
            lower <= upper,
        ensures
            r == crate::bands::clipped_range(lower, upper, self.bins@.len() as usize),
            r is Some ==> r->Some_0.wf() && r->Some_0.end <= self.bins@.len(),
    {
        BinRange::clipped(lower, upper, self.bins.len())
    }

    /// The bin that must be made purely real before a real inverse transform:
    /// the Nyquist bin, which is the last bin and exists only for an even
    /// number of samples.
    pub fn nyquist_bin(&self) -> (r: Option<usize>)
        requires
            self.wf(),
        ensures
            r == (if self.n_samples % 2 == 0 {
                Some((self.bins@.len() - 1) as usize)
            } else {
                None::<usize>
            }),
            r is Some ==> r->Some_0 == self.n_samples / 2,
    {
        if self.n_samples % 2 == 0 {
            Some(self.bins.len() - 1)
        } else {
            None
        }
    }

    /// Adds `envelope` into the bins of `window`, entry `k` into bin
    /// `window.start + k`, combining old bin and entry with `combine`. Bins outside
    /// the window are left as they were, so contributions of overlapping
    /// harmonics and notes sum.
    pub fn accumulate<F: Fn(T, T) -> T>(&mut self, window: BinRange, envelope: &Vec<T>, combine: F)
        requires
            window.wf(),
            window.end <= old(self).bins@.len(),
            envelope@.len() == window.spec_len(),
            forall|a: T, b: T| combine.requires((a, b)),
        ensures
            final(self).n_samples == old(self).n_samples,
            final(self).bins@.len() == old(self).bins@.len(),
            forall|i: int|
                0 <= i < old(self).bins@.len() && !window.contains(i) ==> final(self).bins@[i]
                    == old(self).bins@[i],
            forall|i: int|
                #![trigger final(self).bins@[i]]
                window.contains(i) ==> combine.ensures(
                    (old(self).bins@[i], envelope@[i - window.start]),
                    final(self).bins@[i],
                ),
    {
        let mut k: usize = 0;
        let n = window.len();
        while k < n
            invariant
                n == window.spec_len(),
                window.wf(),
                window.end <= old(self).bins@.len(),
                envelope@.len() == n,
                forall|a: T, b: T| combine.requires((a, b)),
                k <= n,
                self.n_samples == old(self).n_samples,
                self.bins@.len() == old(self).bins@.len(),
                forall|i: int|
                    0 <= i < old(self).bins@.len() && !(window.start <= i < window.start + k)
                        ==> self.bins@[i] == old(self).bins@[i],
                forall|i: int|
                    #![trigger self.bins@[i]]
                    window.start <= i < window.start + k ==> combine.ensures(
                        (old(self).bins@[i], envelope@[i - window.start]),
                        self.bins@[i],
                    ),
            decreases n - k,
        {
            let bin = window.start + k;
            let sum = combine(self.bins[bin], envelope[k]);
            self.bins.set(bin, sum);
            k = k + 1;
        }
    }

    /// Hands the accumulated bins to the inverse transform.
    pub fn into_bins(self) -> (r: Vec<T>)
        ensures
            r@ == self.bins@,
    {
        self.bins
    }
}

} // verus!
