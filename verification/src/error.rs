//! Error kinds of the particle engine.

use vstd::prelude::*;

verus! {

/// Everything that can go wrong in the engine.
///
/// `InvalidQuantity` is reported at construction when the requested particle
/// count is zero or over the maximum; it is fatal to that construction
/// attempt only. `DeviceAllocationFailure` means a device buffer or program
/// could not be created; it is surfaced to the caller with no automatic
/// retry. `SynchronizationFailure` means an acquire or release barrier
/// failed, leaving buffer ownership indeterminate; it is fatal to the whole
/// engine instance.
#[derive(Clone, Copy, Debug, PartialEq, Eq, Structural)]
pub enum EngineError {
    InvalidQuantity,
    DeviceAllocationFailure,
    SynchronizationFailure,
}

/// The result type of fallible engine operations.
pub type PartResult<T> = Result<T, EngineError>;

/// What [`EngineError::message`] returns for each kind.
pub open spec fn message_spec(e: EngineError) -> Seq<char> {
    match e {
        EngineError::InvalidQuantity => "particle quantity must be in (0, 3000000]"@,
        EngineError::DeviceAllocationFailure => "device buffer or program allocation failed"@,
        EngineError::SynchronizationFailure => "buffer ownership barrier failed"@,
    }
}

impl EngineError {
    /// A human-readable description of the error.
    pub fn message(&self) -> (r: &'static str)
        ensures
            r@ == message_spec(*self),
    {
        match self {
            EngineError::InvalidQuantity => "particle quantity must be in (0, 3000000]",
            EngineError::DeviceAllocationFailure => "device buffer or program allocation failed",
            EngineError::SynchronizationFailure => "buffer ownership barrier failed",
        }
    }
}

} // verus!
