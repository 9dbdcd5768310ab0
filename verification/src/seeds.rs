//! The seed lists the system derives its addresses from.
//!
//! The token class lives at the address derived from the fixed tags
//! "mint" and "tick" under the token module. A class's metadata record
//! lives at the address derived from the tag "metadata", the registry's
//! identifier and the class's address, under the registry. A holder's
//! asset account lives at the address derived from the owner, the token
//! module and the class, under the associated-account module.

use vstd::prelude::*;

use crate::addr::Address;
use crate::addr::derive_address;
use crate::addr::spec_derive_address;

verus! {

/// The bytes of the tag "mint".
pub open spec fn mint_tag() -> Seq<u8> {
    seq![109u8, 105u8, 110u8, 116u8]
}

/// The bytes of the tag "tick".
pub open spec fn tick_tag() -> Seq<u8> {
    seq![116u8, 105u8, 99u8, 107u8]
}

/// The bytes of the tag "metadata".
pub open spec fn metadata_tag() -> Seq<u8> {
    seq![109u8, 101u8, 116u8, 97u8, 100u8, 97u8, 116u8, 97u8]
}

/// The seed list of the token class's derived address.
pub open spec fn class_seeds_spec() -> Seq<Seq<u8>> {
    seq![mint_tag(), tick_tag()]
}

/// The seed list of a class's metadata record, under the registry.
pub open spec fn metadata_seeds_spec(registry: Seq<u8>, mint: Seq<u8>) -> Seq<Seq<u8>> {
    seq![metadata_tag(), registry, mint]
}

/// The seed list of a holder's asset account, under the
/// associated-account module.
pub open spec fn holder_seeds_spec(owner: Seq<u8>, token_module: Seq<u8>, mint: Seq<u8>) -> Seq<
    Seq<u8>,
> {
    seq![owner, token_module, mint]
}

fn mint_tag_bytes() -> (r: Vec<u8>)
    ensures
        r@ == mint_tag(),
{
    let mut v: Vec<u8> = Vec::new();
    v.push(109);
    v.push(105);
    v.push(110);
    v.push(116);
    proof {
        assert(v@ =~= mint_tag());
    }
    v
}

fn tick_tag_bytes() -> (r: Vec<u8>)
    ensures
        r@ == tick_tag(),
{
    let mut v: Vec<u8> = Vec::new();
    v.push(116);
    v.push(105);
    v.push(99);
    v.push(107);
    proof {
        assert(v@ =~= tick_tag());
    }
    v
}

fn metadata_tag_bytes() -> (r: Vec<u8>)
    ensures
        r@ == metadata_tag(),
{
    let mut v: Vec<u8> = Vec::new();
    v.push(109);
    v.push(101);
    v.push(116);
    v.push(97);
    v.push(100);
    v.push(97);
    v.push(116);
    v.push(97);
    proof {
        assert(v@ =~= metadata_tag());
    }
    v
}

/// The executable seed list of the token class.
pub fn class_seeds() -> (r: Vec<Vec<u8>>)
    ensures
        r.deep_view() == class_seeds_spec(),
{
    let mut r: Vec<Vec<u8>> = Vec::new();
    r.push(mint_tag_bytes());
    r.push(tick_tag_bytes());
    proof {
        assert(r.deep_view() =~~= class_seeds_spec());
    }
    r
}

/// The executable seed list of a class's metadata record.
pub fn metadata_seeds(registry: &Address, mint: &Address) -> (r: Vec<Vec<u8>>)
    ensures
        r.deep_view() == metadata_seeds_spec(registry@, mint@),
{
    let mut r: Vec<Vec<u8>> = Vec::new();
    r.push(metadata_tag_bytes());
    r.push(registry.dup().bytes);
    r.push(mint.dup().bytes);
    proof {
        assert(r.deep_view() =~~= metadata_seeds_spec(registry@, mint@));
    }
    r
}

/// The executable seed list of a holder's asset account.
pub fn holder_seeds(owner: &Address, token_module: &Address, mint: &Address) -> (r: Vec<Vec<u8>>)
    ensures
        r.deep_view() == holder_seeds_spec(owner@, token_module@, mint@),
{
    let mut r: Vec<Vec<u8>> = Vec::new();
    r.push(owner.dup().bytes);
    r.push(token_module.dup().bytes);
    r.push(mint.dup().bytes);
    proof {
        assert(r.deep_view() =~~= holder_seeds_spec(owner@, token_module@, mint@));
    }
    r
}

/// Derive the token class's address under `module`.
pub fn derive_class_address(module: &Address) -> (r: Option<(Address, u8)>)
    ensures
        match r {
            Some(p) => spec_derive_address(class_seeds_spec(), module@) == Some((p.0@, p.1)),
            None => spec_derive_address(class_seeds_spec(), module@) is None,
        },
{
    let seeds = class_seeds();
    derive_address(&seeds, module)
}

/// Derive the metadata record's address for a class under `registry`.
pub fn derive_metadata_address(registry: &Address, mint: &Address) -> (r: Option<(Address, u8)>)
    ensures
        match r {
            Some(p) => spec_derive_address(metadata_seeds_spec(registry@, mint@), registry@)
                == Some((p.0@, p.1)),
            None => spec_derive_address(metadata_seeds_spec(registry@, mint@), registry@) is None,
        },
{
    let seeds = metadata_seeds(registry, mint);
    derive_address(&seeds, registry)
}

/// Derive a holder's asset-account address for a class and owner.
pub fn derive_holder_address(
    owner: &Address,
    mint: &Address,
    token_module: &Address,
    ata_module: &Address,
) -> (r: Option<(Address, u8)>)
    ensures
        match r {
            Some(p) => spec_derive_address(
                holder_seeds_spec(owner@, token_module@, mint@),
                ata_module@,
            ) == Some((p.0@, p.1)),
            None => spec_derive_address(holder_seeds_spec(owner@, token_module@, mint@), ata_module@)
                is None,
        },
{
    let seeds = holder_seeds(owner, token_module, mint);
    derive_address(&seeds, ata_module)
}

} // verus!
