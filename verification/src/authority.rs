//! The authority model.
//!
//! A derived address has no private key; an operation acting as that
//! address presents the seed list and the discriminator instead, and
//! the runtime recomputes the derivation and compares before granting
//! signing rights for the one invocation. The proof is never stored.

use vstd::prelude::*;

use crate::addr::Address;
use crate::addr::addr_eq;
use crate::addr::pda_candidate;
use crate::addr::try_candidate;

verus! {

/// The proof an operation presents to act as a derived address: the
/// original seed list plus the discovered discriminator byte.
pub struct SeedProof {
    pub seeds: Vec<Vec<u8>>,
    pub bump: u8,
}

/// Recompute the derivation from the presented seeds and bump and
/// compare with the address the operation wants to act as. True exactly
/// when the proof does derive that address under `module`.
pub fn verify_derived_authority(presented: &SeedProof, expected: &Address, module: &Address) -> (r:
    bool)
    ensures
        r == (pda_candidate(presented.seeds.deep_view(), presented.bump, module@) == Some(
            expected@,
        )),
{
    match try_candidate(&presented.seeds, presented.bump, module) {
        Some(a) => addr_eq(&a, expected),
        None => false,
    }
}

} // verus!
