//! Why a request was turned down.

use vstd::prelude::*;

verus! {

/// The terminal failures of a request. Each is handed to the caller as it
/// arose: nothing is retried and nothing is recovered from.
#[derive(Clone, Copy, Debug, PartialEq, Eq, Structural)]
pub enum VaultError {
    /// A vault record already exists under the given identity.
    AlreadyInitialized,
    /// The token account presented at initialization is not acceptable.
    InvalidAccount,
    /// The handler's own authority test failed.
    IllegalOwner,
    /// The request does not match the stored vault record; found before any
    /// handler ran.
    ConstraintViolation,
    /// The transfer primitive reported a failure.
    TransferFailed,
}

} // verus!
