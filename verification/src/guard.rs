//! The account lifecycle guard.
//!
//! Before pipeline logic runs, every account argument is checked
//! against a declared expectation: *init* (must be absent),
//! *mut* (must be present), *seed-bound* (address must equal the
//! recomputation from its declared seeds), and *init-if-needed* for the
//! holder asset account (absent, or present with the right shape).
//! Each check reads the store and changes nothing; a failure aborts the
//! whole operation before any effect.

use vstd::prelude::*;

use crate::addr::Address;
use crate::addr::addr_eq;
use crate::addr::pda_candidate;
use crate::authority::SeedProof;
use crate::authority::verify_derived_authority;
use crate::error::LedgerError;
use crate::ledger::AccountRecord;
use crate::ledger::AccountV;
use crate::ledger::HolderV;
use crate::ledger::Ledger;
use crate::ledger::lookup;

verus! {

/// *init*: the account must not yet exist.
pub fn guard_init(l: &Ledger, a: &Address) -> (r: Result<(), LedgerError>)
    ensures
        (r is Ok) == (lookup(l@, a@) is None),
        r matches Err(e) ==> e == LedgerError::AlreadyInitialized,
{
    if l.occupied(a) {
        Err(LedgerError::AlreadyInitialized)
    } else {
        Ok(())
    }
}

/// *mut*: the account must already exist.
pub fn guard_mut(l: &Ledger, a: &Address) -> (r: Result<(), LedgerError>)
    ensures
        (r is Ok) == (lookup(l@, a@) is Some),
        r matches Err(e) ==> e == LedgerError::NotInitialized,
{
    if l.occupied(a) {
        Ok(())
    } else {
        Err(LedgerError::NotInitialized)
    }
}

/// *seed-bound*: the account's address must equal the recomputation
/// from the presented seeds and discriminator under `module`.
pub fn guard_seed_bound(a: &Address, presented: &SeedProof, module: &Address) -> (r: Result<
    (),
    LedgerError,
>)
    ensures
        (r is Ok) == (pda_candidate(presented.seeds.deep_view(), presented.bump, module@) == Some(
            a@,
        )),
        r matches Err(e) ==> e == LedgerError::SeedMismatch,
{
    if verify_derived_authority(presented, a, module) {
        Ok(())
    } else {
        Err(LedgerError::SeedMismatch)
    }
}

/// *init-if-needed* for the Holder Asset Account: absent is fine (the
/// pipeline will create it); present demands a holder bound to exactly
/// this class and owner, whose balance is handed back.
pub fn guard_holder_if_needed(l: &Ledger, dest: &Address, mint: &Address, owner: &Address) -> (r:
    Result<Option<u64>, LedgerError>)
    ensures
        match r {
            Ok(found) => match found {
                None => lookup(l@, dest@) is None,
                Some(b) => lookup(l@, dest@) == Some(
                    AccountV::Holder((HolderV { mint: mint@, owner: owner@, balance: b })),
                ),
            },
            Err(e) => {
                &&& e == LedgerError::AccountMismatch
                &&& match lookup(l@, dest@) {
                    None => false,
                    Some(acc) => !(acc matches AccountV::Holder(h) && h.mint == mint@ && h.owner
                        == owner@),
                }
            },
        },
{
    match l.get(dest) {
        None => Ok(None),
        Some(AccountRecord::Holder(h)) => {
            if addr_eq(&h.mint, mint) && addr_eq(&h.owner, owner) {
                Ok(Some(h.balance))
            } else {
                Err(LedgerError::AccountMismatch)
            }
        },
        Some(_) => Err(LedgerError::AccountMismatch),
    }
}

} // verus!
