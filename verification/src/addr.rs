//! Derived addresses.
//!
//! An address is a 32-byte identifier. A module can own *derived*
//! addresses: an ordered list of byte-string seeds plus the owning
//! module's identifier determines an address together with a single
//! discriminator byte (the "bump"). The derivation primitive either
//! yields an off-curve address for a given bump or refuses it; the
//! derivation search walks the bump downward from 255 and takes the
//! first (that is, the highest) bump that the primitive accepts.

use vstd::prelude::*;

verus! {

/// A 32-byte ledger address, held as a plain byte vector.
pub struct Address {
    pub bytes: Vec<u8>,
}

impl View for Address {
    type V = Seq<u8>;

    open spec fn view(&self) -> Seq<u8> {
        self.bytes@
    }
}

impl Address {
    /// Build an address from exactly 32 bytes; any other length is refused.
    pub fn new(bytes: Vec<u8>) -> (r: Option<Address>)
        ensures
            match r {
                Some(a) => a@ == bytes@ && bytes@.len() == 32,
                None => bytes@.len() != 32,
            },
    {
        if bytes.len() == 32 {
            Some(Address { bytes })
        } else {
            None
        }
    }

    /// An independent copy of the address.
    pub fn dup(&self) -> (r: Address)
        ensures
            r@ == self@,
    {
        let bytes = self.bytes.clone();
        proof {
            assert(bytes@ =~= self.bytes@);
        }
        Address { bytes }
    }
}

/// True exactly when the two byte vectors hold the same bytes.
pub fn bytes_eq(a: &Vec<u8>, b: &Vec<u8>) -> (r: bool)
    ensures
        r == (a@ == b@),
{
    if a.len() != b.len() {
        proof {
            assert(a@.len() != b@.len());
        }
        return false;
    }
    let mut i: usize = 0;
    while i < a.len()
        invariant
            i <= a.len(),
            a@.len() == b@.len(),
            forall|j: int| 0 <= j < i ==> a@[j] == b@[j],
        decreases a.len() - i,
    {
        if a[i] != b[i] {
            return false;
        }
        i = i + 1;
    }
    proof {
        assert(a@ =~= b@);
    }
    true
}

/// True exactly when the two addresses are the same.
pub fn addr_eq(a: &Address, b: &Address) -> (r: bool)
    ensures
        r == (a@ == b@),
{
    bytes_eq(&a.bytes, &b.bytes)
}

/// What the derivation primitive answers for one seed list, one bump and
/// one owning module: either the derived 32-byte address, or nothing when
/// the candidate falls on the signing curve or the seeds are malformed.
/// The answer depends on the arguments alone.
pub uninterp spec fn pda_candidate(seeds: Seq<Seq<u8>>, bump: u8, module: Seq<u8>) -> Option<Seq<u8>>;

/// Relies on Pubkey::create_program_address (solana-address, re-exported
/// through anchor-lang): hashing the seeds, the bump and the module
/// identifier gives a 32-byte value; the call returns it when it is not a
/// valid curve point and fails otherwise (also when a seed is longer than
/// 32 bytes or there are too many seeds). The outcome is a function of
/// the arguments alone.
#[verifier::external_body]
pub(crate) fn try_candidate(seeds: &Vec<Vec<u8>>, bump: u8, module: &Address) -> (r: Option<Address>)
    ensures
        match r {
            Some(a) => pda_candidate(seeds.deep_view(), bump, module@) == Some(a@) && a@.len() == 32,
            None => pda_candidate(seeds.deep_view(), bump, module@) is None,
        },
{
    let module_key = match anchor_lang::solana_program::pubkey::Pubkey::try_from(module.bytes.as_slice()) {
        Ok(k) => k,
        Err(_) => return None,
    };
    let mut refs: Vec<&[u8]> = seeds.iter().map(|s| s.as_slice()).collect();
    let bump_seed = [bump];
    refs.push(&bump_seed);
    match anchor_lang::solana_program::pubkey::Pubkey::create_program_address(&refs, &module_key) {
        Ok(addr) => Some(Address { bytes: addr.to_bytes().to_vec() }),
        Err(_) => None,
    }
}

/// The derivation search from a given starting bump downward: the first
/// bump at or below `bump` whose candidate exists, with that candidate.
pub open spec fn derive_from_bump(seeds: Seq<Seq<u8>>, module: Seq<u8>, bump: u8) -> Option<(Seq<u8>, u8)>
    decreases bump,
{
    match pda_candidate(seeds, bump, module) {
        Some(a) => Some((a, bump)),
        None => if bump == 0 {
            None
        } else {
            derive_from_bump(seeds, module, (bump - 1) as u8)
        },
    }
}

/// The derived address of a seed list under a module: the candidate at
/// the highest bump in [0, 255] that the primitive accepts.
pub open spec fn spec_derive_address(seeds: Seq<Seq<u8>>, module: Seq<u8>) -> Option<(Seq<u8>, u8)> {
    derive_from_bump(seeds, module, 255)
}

/// Derive the address owned by `module` for `seeds`: search the bump
/// downward from 255 and return the first accepted candidate with its
/// bump. `None` means the whole search space was exhausted.
pub fn derive_address(seeds: &Vec<Vec<u8>>, module: &Address) -> (r: Option<(Address, u8)>)
    ensures
        match r {
            Some(p) => spec_derive_address(seeds.deep_view(), module@) == Some((p.0@, p.1))
                && p.0@.len() == 32,
            None => spec_derive_address(seeds.deep_view(), module@) is None,
        },
{
    let mut bump: u8 = 255;
    loop
        invariant
            spec_derive_address(seeds.deep_view(), module@)
                == derive_from_bump(seeds.deep_view(), module@, bump),
        decreases bump,
    {
        match try_candidate(seeds, bump, module) {
            Some(a) => {
                return Some((a, bump));
            },
            None => {
                if bump == 0 {
                    return None;
                }
                bump = bump - 1;
            },
        }
    }
}

/// Derivation is deterministic: any two results read off the same seed
/// list and module are the same (address, bump) pair.
pub proof fn lemma_derivation_deterministic(
    seeds: Seq<Seq<u8>>,
    module: Seq<u8>,
    r1: Option<(Seq<u8>, u8)>,
    r2: Option<(Seq<u8>, u8)>,
)
    requires
        r1 == spec_derive_address(seeds, module),
        r2 == spec_derive_address(seeds, module),
    ensures
        r1 == r2,
{
}

proof fn lemma_derive_from_bump_highest(seeds: Seq<Seq<u8>>, module: Seq<u8>, start: u8, a: Seq<u8>, b: u8)
    requires
        derive_from_bump(seeds, module, start) == Some((a, b)),
    ensures
        b <= start,
        pda_candidate(seeds, b, module) == Some(a),
        forall|b2: u8| b < b2 <= start ==> pda_candidate(seeds, b2, module) is None,
    decreases start,
{
    if pda_candidate(seeds, start, module) is Some {
    } else if start > 0 {
        lemma_derive_from_bump_highest(seeds, module, (start - 1) as u8, a, b);
    }
}

/// A successful derivation returns the highest workable bump: the
/// candidate exists at the returned bump and at no larger one.
pub proof fn lemma_derive_highest_bump(seeds: Seq<Seq<u8>>, module: Seq<u8>, a: Seq<u8>, b: u8)
    requires
        spec_derive_address(seeds, module) == Some((a, b)),
    ensures
        pda_candidate(seeds, b, module) == Some(a),
        forall|b2: u8| b2 > b ==> pda_candidate(seeds, b2, module) is None,
{
    lemma_derive_from_bump_highest(seeds, module, 255, a, b);
}

} // verus!
