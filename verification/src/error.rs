//! The failure conditions a TA inspection can run into.
//!
//! Every failure is terminal: the tool performs a single action per
//! invocation and never retries. I/O failures are reported by the caller
//! that performed the I/O; the library itself never touches a file.

use vstd::prelude::*;

use crate::platform::Platform;

verus! {

/// Why an action on a TA image could not be completed.
#[derive(Copy, Clone, Debug, PartialEq, Eq, Structural)]
pub enum TaError {
    /// The input is not exactly the expected TA image size.
    SizeMismatch,
    /// The image does not begin with the TA magic bytes.
    MagicMismatch,
    /// The boot-log offsets of the requested device family are unknown.
    NotImplemented(Platform),
    /// A field documented as text does not decode as UTF-8.
    DecodeError,
    /// A written file's on-disk size differs from the computed size.
    WriteVerificationMismatch,
}

} // verus!
