use vstd::prelude::*;

use crate::error::EngineError;

verus! {

/// A non-empty half-open range `[begin, end)` of input samples that forms one
/// period of the instrument loop.
#[derive(Debug, Clone, Copy, PartialEq, Eq, Structural)]
pub struct LoopWindow {
    pub begin: usize,
    pub end: usize,
}

/// Where the loop ends: the configured end, or the end of the input.
pub open spec fn effective_loop_end(loop_end: Option<usize>, len: usize) -> usize {
    match loop_end {
        Some(e) => e,
        None => len,
    }
}

/// The outcome of resolving a configured loop against an input of `len` samples.
pub open spec fn loop_outcome(loop_begin: usize, loop_end: Option<usize>, len: usize) -> Result<
    LoopWindow,
    EngineError,
> {
    let end = effective_loop_end(loop_end, len);
    if end <= loop_begin {
        Err(EngineError::EmptyLoop { loop_begin, loop_end: end })
    } else if end > len {
        Err(EngineError::LoopOutOfBounds { loop_end: end, len })
    } else {
        Ok(LoopWindow { begin: loop_begin, end })
    }
}

impl LoopWindow {
    pub open spec fn wf(&self) -> bool {
        self.begin < self.end
    }

    pub open spec fn spec_len(&self) -> nat {
        (self.end - self.begin) as nat
    }

    /// Resolves the configured loop bounds against an input of `len` samples.
    /// An omitted end means the end of the input.
    pub fn resolve(loop_begin: usize, loop_end: Option<usize>, len: usize) -> (r: Result<
        LoopWindow,
        EngineError,
    >)
        ensures
            r == loop_outcome(loop_begin, loop_end, len),
            r is Ok ==> r->Ok_0.wf() && r->Ok_0.end <= len,
    {
        let end = match loop_end {
            Some(e) => e,
            None => len,
        };
        if end <= loop_begin {
            Err(EngineError::EmptyLoop { loop_begin, loop_end: end })
        } else if end > len {
            Err(EngineError::LoopOutOfBounds { loop_end: end, len })
        } else {
            Ok(LoopWindow { begin: loop_begin, end })
        }
    }

    /// Number of samples in the window: the length of one period.
    pub fn len(&self) -> (r: usize)
        requires
            self.wf(),
        ensures
            r == self.spec_len(),
            r > 0,
    {
        self.end - self.begin
    }
}

/// Copies the samples of `data` that fall inside the configured loop, or
/// reports why the loop is invalid. Nothing is copied on failure.
pub fn trim_to_loop<T: Copy>(data: &[T], loop_begin: usize, loop_end: Option<usize>) -> (r: Result<
    Vec<T>,
    EngineError,
>)
    ensures
        match loop_outcome(loop_begin, loop_end, data@.len() as usize) {
            Ok(w) => r == Ok::<Vec<T>, EngineError>(r->Ok_0) && r->Ok_0@ == data@.subrange(
                w.begin as int,
                w.end as int,
            ),
            Err(e) => r == Err::<Vec<T>, EngineError>(e),
        },
{
    let w = match LoopWindow::resolve(loop_begin, loop_end, data.len()) {
        Ok(w) => w,
        Err(e) => {
            return Err(e);
        },
    };
    let mut out: Vec<T> = Vec::new();
    let mut i: usize = w.begin;
    while i < w.end
        invariant
            w.begin <= i <= w.end,
            w.end <= data@.len(),
            out@ == data@.subrange(w.begin as int, i as int),
        decreases w.end - i,
    {
        out.push(data[i]);
        i = i + 1;
    }
    Ok(out)
}

/// Number of complex bins a real transform of `n_samples` samples keeps:
/// DC up to and including the Nyquist bin.
pub open spec fn spec_spectrum_len(n_samples: nat) -> nat {
    n_samples / 2 + 1
}

pub fn spectrum_len(n_samples: usize) -> (r: usize)
    ensures
        r == spec_spectrum_len(n_samples as nat),
{
    n_samples / 2 + 1
}

/// The sample rate the input is interpreted at before detuning: the
/// configured override when present, else the rate stored with the samples.
pub fn base_sample_rate(rate_override: Option<u32>, stored_rate: u32) -> (r: u32)
    ensures
        r == (match rate_override {
            Some(o) => o,
            None => stored_rate,
        }),
{
    match rate_override {
        Some(o) => o,
        None => stored_rate,
    }
}

} // verus!
