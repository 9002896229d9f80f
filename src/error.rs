use vstd::prelude::*;

verus! {

/// Reasons a synthesis run is refused before any transform work starts.
#[derive(Debug, Clone, Copy, PartialEq, Eq, Structural)]
pub enum EngineError {
    /// The loop window is empty or inverted: its end is not after its begin.
    EmptyLoop { loop_begin: usize, loop_end: usize },
    /// The loop window ends past the last sample of the input.
    LoopOutOfBounds { loop_end: usize, len: usize },
    /// A synthesis option was selected that has no implementation.
    NotImplemented,
}

/// Only random-phase synthesis exists; selecting random amplitudes is refused
/// up front instead of producing wrong output.
pub fn check_phase_mode(random_amplitudes: bool) -> (r: Result<(), EngineError>)
    ensures
        r == (if random_amplitudes {
            Err::<(), EngineError>(EngineError::NotImplemented)
        } else {
            Ok::<(), EngineError>(())
        }),
{
    if random_amplitudes {
        Err(EngineError::NotImplemented)
    } else {
        Ok(())
    }
}

} // verus!
