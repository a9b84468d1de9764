//! The error kinds a device operation can surface.

use vstd::prelude::*;

verus! {

/// What a failed device operation reports to its caller.
#[derive(Clone, Copy, Debug, PartialEq, Eq, Structural)]
pub enum DeviceError {
    /// A handle or internal state could not be allocated on open.
    AllocationFailure,
    /// The caller's source or destination buffer could not be fully
    /// read or written.
    TransferFault,
    /// A minor number could not be registered at module load.
    RegistrationFailure,
}

} // verus!
