//! The client orchestrator's compute side.
//!
//! A client must derive the very addresses the modules will check —
//! the class address with its bump, the metadata record's address and
//! the holder asset account's address — and assemble them, tagged by
//! role, into the account set of each instruction, together with the
//! seed proof for derived-address authority. Submission and
//! confirmation are transport concerns outside this library.

use vstd::prelude::*;

use crate::addr::Address;
use crate::addr::spec_derive_address;
use crate::authority::SeedProof;
use crate::pipeline::CreateToken;
use crate::pipeline::MintNFT;
use crate::pipeline::MintToken;
use crate::pipeline::holder_addr_ok;
use crate::pipeline::metadata_addr_ok;
use crate::seeds::class_seeds;
use crate::seeds::class_seeds_spec;
use crate::seeds::derive_class_address;
use crate::seeds::derive_holder_address;
use crate::seeds::derive_metadata_address;
use crate::seeds::holder_seeds_spec;
use crate::seeds::metadata_seeds_spec;

verus! {

/// Assemble the account set and seed proof of a create-class
/// instruction: the class address derived from the fixed seeds under
/// the token module, and the metadata address derived under the
/// registry.
pub fn create_token_instruction(
    module: &Address,
    metadata_program: &Address,
    payer: &Address,
) -> (r: Option<(CreateToken, SeedProof)>)
    ensures
        match r {
            Some(p) => {
                &&& p.1.seeds.deep_view() == class_seeds_spec()
                &&& spec_derive_address(class_seeds_spec(), module@) == Some((p.0.mint@, p.1.bump))
                &&& metadata_addr_ok(metadata_program@, p.0.mint@, p.0.metadata@)
                &&& p.0.payer@ == payer@
                &&& p.0.metadata_program@ == metadata_program@
            },
            None => match spec_derive_address(class_seeds_spec(), module@) {
                None => true,
                Some(q) => spec_derive_address(
                    metadata_seeds_spec(metadata_program@, q.0),
                    metadata_program@,
                ) is None,
            },
        },
{
    let (mint, bump) = match derive_class_address(module) {
        Some(p) => p,
        None => return None,
    };
    let metadata = match derive_metadata_address(metadata_program, &mint) {
        Some(p) => p.0,
        None => return None,
    };
    Some(
        (
            CreateToken {
                metadata,
                mint,
                payer: payer.dup(),
                metadata_program: metadata_program.dup(),
            },
            SeedProof { seeds: class_seeds(), bump },
        ),
    )
}

/// Assemble the account set and seed proof of a mint-supply
/// instruction: the class address derived from the fixed seeds, and the
/// payer's holder asset account derived under the associated-account
/// module.
pub fn mint_token_instruction(
    module: &Address,
    token_program: &Address,
    associated_token_program: &Address,
    payer: &Address,
) -> (r: Option<(MintToken, SeedProof)>)
    ensures
        match r {
            Some(p) => {
                &&& p.1.seeds.deep_view() == class_seeds_spec()
                &&& spec_derive_address(class_seeds_spec(), module@) == Some((p.0.mint@, p.1.bump))
                &&& holder_addr_ok(
                    payer@,
                    token_program@,
                    p.0.mint@,
                    associated_token_program@,
                    p.0.destination@,
                )
                &&& p.0.payer@ == payer@
                &&& p.0.token_program@ == token_program@
                &&& p.0.associated_token_program@ == associated_token_program@
            },
            None => match spec_derive_address(class_seeds_spec(), module@) {
                None => true,
                Some(q) => spec_derive_address(
                    holder_seeds_spec(payer@, token_program@, q.0),
                    associated_token_program@,
                ) is None,
            },
        },
{
    let (mint, bump) = match derive_class_address(module) {
        Some(p) => p,
        None => return None,
    };
    let destination = match derive_holder_address(
        payer,
        &mint,
        token_program,
        associated_token_program,
    ) {
        Some(p) => p.0,
        None => return None,
    };
    Some(
        (
            MintToken {
                mint,
                destination,
                payer: payer.dup(),
                token_program: token_program.dup(),
                associated_token_program: associated_token_program.dup(),
            },
            SeedProof { seeds: class_seeds(), bump },
        ),
    )
}

/// Assemble the account set of a mint-unique instruction around a
/// freshly generated class address: the payer's holder asset account
/// and the metadata record's address, both derived for that class.
pub fn mint_nft_instruction(
    metadata_program: &Address,
    token_program: &Address,
    associated_token_program: &Address,
    payer: &Address,
    mint: &Address,
) -> (r: Option<MintNFT>)
    ensures
        match r {
            Some(a) => {
                &&& a.mint@ == mint@
                &&& holder_addr_ok(
                    payer@,
                    token_program@,
                    mint@,
                    associated_token_program@,
                    a.destination@,
                )
                &&& metadata_addr_ok(metadata_program@, mint@, a.metadata@)
                &&& a.payer@ == payer@
                &&& a.token_program@ == token_program@
                &&& a.metadata_program@ == metadata_program@
                &&& a.associated_token_program@ == associated_token_program@
            },
            None => spec_derive_address(
                holder_seeds_spec(payer@, token_program@, mint@),
                associated_token_program@,
            ) is None || spec_derive_address(
                metadata_seeds_spec(metadata_program@, mint@),
                metadata_program@,
            ) is None,
        },
{
    let destination = match derive_holder_address(
        payer,
        mint,
        token_program,
        associated_token_program,
    ) {
        Some(p) => p.0,
        None => return None,
    };
    let metadata = match derive_metadata_address(metadata_program, mint) {
        Some(p) => p.0,
        None => return None,
    };
    Some(
        MintNFT {
            metadata,
            mint: mint.dup(),
            destination,
            payer: payer.dup(),
            token_program: token_program.dup(),
            metadata_program: metadata_program.dup(),
            associated_token_program: associated_token_program.dup(),
        },
    )
}

} // verus!
