//! Issuance and management of digital assets on a ledger.
//!
//! The library models the asset-issuance core: deterministic derivation
//! of module-owned addresses with their discriminator bump, authority
//! through seed-recomputation proofs instead of stored keys, a
//! declarative account lifecycle guard run before any effect, and the
//! atomic issuance pipeline for fungible classes and one-off units.
//! A client-side module derives the same addresses and assembles the
//! account sets an instruction references; a small tutorial counter
//! stands apart from the pipeline.

use vstd::prelude::*;

pub mod addr;
pub mod authority;
pub mod client;
pub mod counter;
pub mod error;
pub mod guard;
pub mod ledger;
pub mod pipeline;
pub mod seeds;

verus! {

} // verus!
