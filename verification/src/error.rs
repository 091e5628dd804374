//! Failures of work on the accelerator.

use vstd::prelude::*;

verus! {

/// Why a unit of work on the accelerator did not complete.
///
/// `E` is whatever else the work itself can report; the library passes such a
/// failure on untouched.
#[derive(Debug, PartialEq, Eq)]
pub enum GPUError<E> {
    /// The accelerator is held by, or was lost to, another process. The same
    /// value says that no kernel could be had and that a running operation
    /// found the device gone.
    GPUTaken,
    /// Any other failure of the work itself.
    Other(E),
}

/// Result of a unit of work on the accelerator.
pub type GPUResult<R, E> = Result<R, GPUError<E>>;

/// Whether a result reports the loss of the accelerator.
pub open spec fn lost<R, E>(outcome: GPUResult<R, E>) -> bool {
    outcome matches Err(GPUError::GPUTaken)
}

} // verus!
