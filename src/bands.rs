use vstd::prelude::*;

verus! {

/// A half-open range `[start, end)` of spectrum bins.
#[derive(Debug, Clone, Copy, PartialEq, Eq, Structural)]
pub struct BinRange {
    pub start: usize,
    pub end: usize,
}

/// The bins of `[lower, upper)` that exist in a spectrum of `n_bins` bins, or
/// `None` when the range starts at or past the last bin.
pub open spec fn clipped_range(lower: usize, upper: usize, n_bins: usize) -> Option<BinRange> {
    if lower >= n_bins {
        None
    } else {
        Some(BinRange { start: lower, end: if upper < n_bins { upper } else { n_bins } })
    }
}

impl BinRange {
    pub open spec fn wf(&self) -> bool {
        self.start <= self.end
    }

    pub open spec fn spec_len(&self) -> nat {
        (self.end - self.start) as nat
    }

    pub open spec fn contains(&self, bin: int) -> bool {
        self.start <= bin < self.end
    }

    /// Clips `[lower, upper)` to a spectrum of `n_bins` bins.
    ///
    /// This is the one bin-selection rule of the engine. A harmonic's input
    /// band is `[ceil((h - 1/2) f), ceil((h + 1/2) f))` with `f` the fundamental
    /// in cycles per period; a harmonic's output window is
    /// `[ceil(c - 3s), ceil(c + 3s))` around its center bin `c` with spread `s`.
    /// `None` means the range lies wholly above the Nyquist bin: band
    /// extraction ends there, and a synthesized harmonic is skipped.
    pub fn clipped(lower: usize, upper: usize, n_bins: usize) -> (r: Option<BinRange>)
        requires
            lower <= upper,
        ensures
            r == clipped_range(lower, upper, n_bins),
            r is Some ==> r->Some_0.wf() && r->Some_0.start < n_bins && r->Some_0.end <= n_bins,
    {
        if lower >= n_bins {
            None
        } else {
            let end = if upper < n_bins {
                upper
            } else {
                n_bins
            };
            Some(BinRange { start: lower, end })
        }
    }

    pub fn len(&self) -> (r: usize)
        requires
            self.wf(),
        ensures
            r == self.spec_len(),
    {
        self.end - self.start
    }
}

/// Bands of successive harmonics are ordered and adjacent. Harmonic `h - 1`
/// spans edges `e0..e1` and harmonic `h` spans `e1..e2`, with edges that do not
/// decrease. Whenever harmonic `h` has a band, so does `h - 1`; its band never
/// starts before the band of `h - 1`, and the two bands meet without gap or
/// overlap. Once a harmonic has no band, the next one has none either, so band
/// extraction can stop at the first missing band.
pub proof fn lemma_successive_bands(e0: usize, e1: usize, e2: usize, n_bins: usize)
    requires
        e0 <= e1 <= e2,
    ensures
        clipped_range(e0, e1, n_bins) is None ==> clipped_range(e1, e2, n_bins) is None,
        clipped_range(e1, e2, n_bins) is Some ==> {
            let prev = clipped_range(e0, e1, n_bins)->Some_0;
            let next = clipped_range(e1, e2, n_bins)->Some_0;
            &&& clipped_range(e0, e1, n_bins) is Some
            &&& prev.start <= next.start
            &&& prev.end == next.start
        },
{
}

/// The skip rule is final: once a harmonic's output window starts at or past
/// the last bin, every window that starts no lower is skipped too. Given that
/// the windows of a note's higher harmonics start no lower, synthesis of the
/// note can stop at its first skipped harmonic without losing a contribution.
pub proof fn lemma_skip_is_final(lower1: usize, upper1: usize, lower2: usize, upper2: usize, n_bins: usize)
    requires
        lower1 <= lower2,
        clipped_range(lower1, upper1, n_bins) is None,
    ensures
        clipped_range(lower2, upper2, n_bins) is None,
{
}

} // verus!
