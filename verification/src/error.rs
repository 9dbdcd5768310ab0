//! The failure taxonomy of the issuance pipeline.
//!
//! Every operation is total: it either commits all of its effects or
//! returns one of these tags and changes nothing.

use vstd::prelude::*;

verus! {

/// Why an operation was refused.
#[derive(Clone, Copy, Debug, PartialEq, Eq, Structural)]
pub enum LedgerError {
    /// An account expected to be fresh already holds data.
    AlreadyInitialized,
    /// An account expected to exist is absent.
    NotInitialized,
    /// An existing account has the wrong owner, shape or derived
    /// binding for its role.
    AccountMismatch,
    /// An address does not match recomputation from its declared seeds.
    SeedMismatch,
    /// The presented signer or seed proof does not match the required
    /// authority.
    Unauthorized,
    /// A supply or balance counter would leave the representable range.
    ArithmeticOverflow,
    /// The metadata registry refused the payload.
    ExternalRejection,
}

} // verus!
