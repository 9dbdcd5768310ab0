//! The issuance pipeline.
//!
//! Three entry points, each one atomic: `create_token` initializes a
//! token class at its derived address and registers its metadata under
//! the derived-address authority; `mint_token` mints supply into a
//! holder's asset account, creating it on first receipt; `mint_nft`
//! creates a one-off class of zero decimals under the payer's own
//! authority, mints exactly one unit and registers metadata, all in one
//! call. Every entry point first runs the account lifecycle guard as a
//! fixed checklist; any failure returns a tag and leaves the store
//! exactly as it was.

use vstd::prelude::*;

use crate::addr::Address;
use crate::addr::addr_eq;
use crate::addr::pda_candidate;
use crate::addr::spec_derive_address;
use crate::authority::SeedProof;
use crate::error::LedgerError;
use crate::guard::guard_holder_if_needed;
use crate::guard::guard_init;
use crate::guard::guard_seed_bound;
use crate::ledger::AccountRecord;
use crate::ledger::AccountV;
use crate::ledger::HolderRecord;
use crate::ledger::HolderV;
use crate::ledger::Ledger;
use crate::ledger::LedgerView;
use crate::ledger::MetadataRecord;
use crate::ledger::MetadataV;
use crate::ledger::MintRecord;
use crate::ledger::MintV;
use crate::ledger::ledger_wf;
use crate::ledger::lemma_lookup_push;
use crate::ledger::lemma_lookup_update;
use crate::ledger::lemma_wf_push_holder;
use crate::ledger::lemma_wf_push_nonholder;
use crate::ledger::lemma_wf_update;
use crate::ledger::lookup;
use crate::seeds::holder_seeds_spec;
use crate::seeds::metadata_seeds_spec;
use crate::seeds::derive_holder_address;
use crate::seeds::derive_metadata_address;

verus! {

/// The registry's limit on a name.
pub const MAX_NAME_LEN: usize = 32;

/// The registry's limit on a symbol.
pub const MAX_SYMBOL_LEN: usize = 10;

/// The registry's limit on a URI.
pub const MAX_URI_LEN: usize = 200;

/// Whether the metadata registry accepts the payload.
pub open spec fn payload_ok(name: Seq<u8>, symbol: Seq<u8>, uri: Seq<u8>) -> bool {
    name.len() <= MAX_NAME_LEN && symbol.len() <= MAX_SYMBOL_LEN && uri.len() <= MAX_URI_LEN
}

/// Whether `metadata_a` is the metadata record's derived address for
/// the class at `mint_a` under `registry`.
pub open spec fn metadata_addr_ok(registry: Seq<u8>, mint_a: Seq<u8>, metadata_a: Seq<u8>) -> bool {
    match spec_derive_address(metadata_seeds_spec(registry, mint_a), registry) {
        Some(p) => p.0 == metadata_a,
        None => false,
    }
}

/// Whether `dest_a` is the holder asset account's derived address for
/// the class at `mint_a` and the owner.
pub open spec fn holder_addr_ok(
    owner: Seq<u8>,
    token_module: Seq<u8>,
    mint_a: Seq<u8>,
    ata_module: Seq<u8>,
    dest_a: Seq<u8>,
) -> bool {
    match spec_derive_address(holder_seeds_spec(owner, token_module, mint_a), ata_module) {
        Some(p) => p.0 == dest_a,
        None => false,
    }
}

/// The arguments of `create_token`.
pub struct CreateTokenParams {
    pub name: Vec<u8>,
    pub uri: Vec<u8>,
    pub symbol: Vec<u8>,
    pub decimals: u8,
}

/// The arguments of `mint_nft`.
pub struct MintNFTParams {
    pub name: Vec<u8>,
    pub symbol: Vec<u8>,
    pub uri: Vec<u8>,
}

/// The account references of `create_token`, tagged by role.
pub struct CreateToken {
    /// Where the metadata record is to be created.
    pub metadata: Address,
    /// The class's derived address.
    pub mint: Address,
    /// The human signer paying for storage.
    pub payer: Address,
    /// The metadata registry module.
    pub metadata_program: Address,
}

/// The account references of `mint_token`, tagged by role.
pub struct MintToken {
    /// The class's derived address.
    pub mint: Address,
    /// The payer's holder asset account for the class.
    pub destination: Address,
    /// The human signer receiving the minted units.
    pub payer: Address,
    /// The token module.
    pub token_program: Address,
    /// The associated-account module.
    pub associated_token_program: Address,
}

/// The account references of `mint_nft`, tagged by role.
pub struct MintNFT {
    /// Where the metadata record is to be created.
    pub metadata: Address,
    /// The one-off class's address (a fresh key, not seed-derived).
    pub mint: Address,
    /// The payer's holder asset account for the class.
    pub destination: Address,
    /// The human signer who becomes the class authority.
    pub payer: Address,
    /// The token module.
    pub token_program: Address,
    /// The metadata registry module.
    pub metadata_program: Address,
    /// The associated-account module.
    pub associated_token_program: Address,
}

/// The first guard or registry failure `create_token` runs into on a
/// given store, or nothing when the whole checklist passes.
pub open spec fn create_token_err(
    l: LedgerView,
    module: Seq<u8>,
    mint_a: Seq<u8>,
    metadata_a: Seq<u8>,
    registry: Seq<u8>,
    seeds: Seq<Seq<u8>>,
    bump: u8,
    name: Seq<u8>,
    symbol: Seq<u8>,
    uri: Seq<u8>,
) -> Option<LedgerError> {
    if pda_candidate(seeds, bump, module) != Some(mint_a) {
        Some(LedgerError::SeedMismatch)
    } else if lookup(l, mint_a) is Some {
        Some(LedgerError::AlreadyInitialized)
    } else if !metadata_addr_ok(registry, mint_a, metadata_a) {
        Some(LedgerError::SeedMismatch)
    } else if !payload_ok(name, symbol, uri) {
        Some(LedgerError::ExternalRejection)
    } else if metadata_a == mint_a || lookup(l, metadata_a) is Some {
        Some(LedgerError::AlreadyInitialized)
    } else {
        None
    }
}

/// create-class: initialize the Mint Record at its derived address with
/// the caller's precision, the class itself being the authority, then
/// register name, symbol and URI with the metadata registry under the
/// derived-address proof. All or nothing.
pub fn create_token(
    l: &mut Ledger,
    module: &Address,
    accs: &CreateToken,
    presented: &SeedProof,
    params: &CreateTokenParams,
) -> (r: Result<(), LedgerError>)
    requires
        ledger_wf(old(l)@),
    ensures
        ledger_wf(final(l)@),
        match r {
            Ok(()) => {
                &&& create_token_err(
                    old(l)@,
                    module@,
                    accs.mint@,
                    accs.metadata@,
                    accs.metadata_program@,
                    presented.seeds.deep_view(),
                    presented.bump,
                    params.name@,
                    params.symbol@,
                    params.uri@,
                ) is None
                &&& lookup(final(l)@, accs.mint@) == Some(
                    AccountV::Mint(
                        (MintV { decimals: params.decimals, supply: 0, authority: accs.mint@ }),
                    ),
                )
                &&& lookup(final(l)@, accs.metadata@) == Some(
                    AccountV::Metadata(
                        (MetadataV {
                            mint: accs.mint@,
                            name: params.name@,
                            symbol: params.symbol@,
                            uri: params.uri@,
                            seller_fee_basis_points: 0,
                            update_authority: accs.mint@,
                        }),
                    ),
                )
                &&& forall|x: Seq<u8>|
                    x != accs.mint@ && x != accs.metadata@ ==> #[trigger] lookup(final(l)@, x)
                        == lookup(old(l)@, x)
                &&& final(l)@.len() == old(l)@.len() + 2
            },
            Err(e) => {
                &&& create_token_err(
                    old(l)@,
                    module@,
                    accs.mint@,
                    accs.metadata@,
                    accs.metadata_program@,
                    presented.seeds.deep_view(),
                    presented.bump,
                    params.name@,
                    params.symbol@,
                    params.uri@,
                ) == Some(e)
                &&& final(l)@ == old(l)@
            },
        },
{
    if let Err(e) = guard_seed_bound(&accs.mint, presented, module) {
        return Err(e);
    }
    if let Err(e) = guard_init(l, &accs.mint) {
        return Err(e);
    }
    // The metadata account is exempt from the module's own guard (its
    // shape belongs to the registry); the registry is trusted to
    // recompute the derived binding and enforce its limits, which the
    // two checks below model.
    let md_ok = match derive_metadata_address(&accs.metadata_program, &accs.mint) {
        Some(p) => addr_eq(&p.0, &accs.metadata),
        None => false,
    };
    if !md_ok {
        return Err(LedgerError::SeedMismatch);
    }
    if params.name.len() > MAX_NAME_LEN || params.symbol.len() > MAX_SYMBOL_LEN || params.uri.len()
        > MAX_URI_LEN {
        return Err(LedgerError::ExternalRejection);
    }
    if addr_eq(&accs.metadata, &accs.mint) || l.occupied(&accs.metadata) {
        return Err(LedgerError::AlreadyInitialized);
    }
    let ghost l0 = l@;
    let mint_rec = AccountRecord::Mint(
        MintRecord { decimals: params.decimals, supply: 0, authority: accs.mint.dup() },
    );
    let ghost mint_v = mint_rec@;
    proof {
        lemma_lookup_push(l0, accs.mint@, mint_v);
        lemma_wf_push_nonholder(l0, accs.mint@, mint_v);
    }
    l.insert_new(accs.mint.dup(), mint_rec);
    let ghost l1 = l@;
    let meta_rec = AccountRecord::Metadata(
        MetadataRecord {
            mint: accs.mint.dup(),
            name: copy_bytes(&params.name),
            symbol: copy_bytes(&params.symbol),
            uri: copy_bytes(&params.uri),
            seller_fee_basis_points: 0,
            update_authority: accs.mint.dup(),
        },
    );
    let ghost meta_v = meta_rec@;
    proof {
        lemma_lookup_push(l1, accs.metadata@, meta_v);
        lemma_wf_push_nonholder(l1, accs.metadata@, meta_v);
    }
    l.insert_new(accs.metadata.dup(), meta_rec);
    Ok(())
}

/// An independent copy of a byte vector.
fn copy_bytes(v: &Vec<u8>) -> (r: Vec<u8>)
    ensures
        r@ == v@,
{
    let r = v.clone();
    proof {
        assert(r@ =~= v@);
    }
    r
}

/// The first guard or arithmetic failure `mint_token` runs into on a
/// given store, or nothing when the whole checklist passes.
pub open spec fn mint_token_err(
    l: LedgerView,
    module: Seq<u8>,
    mint_a: Seq<u8>,
    dest_a: Seq<u8>,
    payer: Seq<u8>,
    token_module: Seq<u8>,
    ata_module: Seq<u8>,
    seeds: Seq<Seq<u8>>,
    bump: u8,
    amount: u64,
) -> Option<LedgerError> {
    if pda_candidate(seeds, bump, module) != Some(mint_a) {
        Some(LedgerError::SeedMismatch)
    } else {
        match lookup(l, mint_a) {
            None => Some(LedgerError::NotInitialized),
            Some(AccountV::Mint(m)) => {
                if m.authority != mint_a {
                    Some(LedgerError::Unauthorized)
                } else if !holder_addr_ok(payer, token_module, mint_a, ata_module, dest_a) {
                    Some(LedgerError::AccountMismatch)
                } else {
                    match lookup(l, dest_a) {
                        None => if m.supply + amount > u64::MAX {
                            Some(LedgerError::ArithmeticOverflow)
                        } else {
                            None
                        },
                        Some(AccountV::Holder(h)) => {
                            if h.mint != mint_a || h.owner != payer {
                                Some(LedgerError::AccountMismatch)
                            } else if m.supply + amount > u64::MAX || h.balance + amount
                                > u64::MAX {
                                Some(LedgerError::ArithmeticOverflow)
                            } else {
                                None
                            }
                        },
                        Some(_) => Some(LedgerError::AccountMismatch),
                    }
                }
            },
            Some(_) => Some(LedgerError::AccountMismatch),
        }
    }
}

/// mint-supply: mint `amount` units of the class into the payer's
/// holder asset account at its derived address, creating the account on
/// first receipt and otherwise adding to its balance, authorized by the
/// class's own derived-address proof. All or nothing.
pub fn mint_token(
    l: &mut Ledger,
    module: &Address,
    accs: &MintToken,
    presented: &SeedProof,
    amount: u64,
) -> (r: Result<(), LedgerError>)
    requires
        ledger_wf(old(l)@),
    ensures
        ledger_wf(final(l)@),
        match r {
            Ok(()) => {
                &&& mint_token_err(
                    old(l)@,
                    module@,
                    accs.mint@,
                    accs.destination@,
                    accs.payer@,
                    accs.token_program@,
                    accs.associated_token_program@,
                    presented.seeds.deep_view(),
                    presented.bump,
                    amount,
                ) is None
                &&& (lookup(old(l)@, accs.mint@) matches Some(AccountV::Mint(m)) && lookup(
                    final(l)@,
                    accs.mint@,
                ) == Some(
                    AccountV::Mint(
                        (MintV {
                            decimals: m.decimals,
                            supply: (m.supply + amount) as u64,
                            authority: m.authority,
                        }),
                    ),
                ))
                &&& match lookup(old(l)@, accs.destination@) {
                    None => lookup(final(l)@, accs.destination@) == Some(
                        AccountV::Holder(
                            (HolderV { mint: accs.mint@, owner: accs.payer@, balance: amount }),
                        ),
                    ) && final(l)@.len() == old(l)@.len() + 1,
                    Some(AccountV::Holder(h)) => lookup(final(l)@, accs.destination@) == Some(
                        AccountV::Holder(
                            (HolderV {
                                mint: accs.mint@,
                                owner: accs.payer@,
                                balance: (h.balance + amount) as u64,
                            }),
                        ),
                    ) && final(l)@.len() == old(l)@.len(),
                    Some(_) => false,
                }
                &&& forall|x: Seq<u8>|
                    x != accs.mint@ && x != accs.destination@ ==> #[trigger] lookup(final(l)@, x)
                        == lookup(old(l)@, x)
            },
            Err(e) => {
                &&& mint_token_err(
                    old(l)@,
                    module@,
                    accs.mint@,
                    accs.destination@,
                    accs.payer@,
                    accs.token_program@,
                    accs.associated_token_program@,
                    presented.seeds.deep_view(),
                    presented.bump,
                    amount,
                ) == Some(e)
                &&& final(l)@ == old(l)@
            },
        },
{
    if let Err(e) = guard_seed_bound(&accs.mint, presented, module) {
        return Err(e);
    }
    let mi = match l.position(&accs.mint) {
        None => return Err(LedgerError::NotInitialized),
        Some(i) => i,
    };
    let (decimals, supply) = match l.account_at(mi) {
        AccountRecord::Mint(m) => {
            if !addr_eq(&m.authority, &accs.mint) {
                return Err(LedgerError::Unauthorized);
            }
            (m.decimals, m.supply)
        },
        _ => {
            return Err(LedgerError::AccountMismatch);
        },
    };
    let dest_ok = match derive_holder_address(
        &accs.payer,
        &accs.mint,
        &accs.token_program,
        &accs.associated_token_program,
    ) {
        Some(p) => addr_eq(&p.0, &accs.destination),
        None => false,
    };
    if !dest_ok {
        return Err(LedgerError::AccountMismatch);
    }
    let found = match guard_holder_if_needed(l, &accs.destination, &accs.mint, &accs.payer) {
        Ok(f) => f,
        Err(e) => return Err(e),
    };
    if supply > u64::MAX - amount {
        return Err(LedgerError::ArithmeticOverflow);
    }
    if let Some(b) = found {
        if b > u64::MAX - amount {
            return Err(LedgerError::ArithmeticOverflow);
        }
    }
    let ghost l0 = l@;
    let new_mint = AccountRecord::Mint(
        MintRecord { decimals, supply: supply + amount, authority: accs.mint.dup() },
    );
    let ghost new_mint_v = new_mint@;
    proof {
        assert(l0[mi as int].0 == accs.mint@);
        lemma_lookup_update(l0, mi as int, new_mint_v);
        lemma_wf_update(l0, mi as int, new_mint_v);
    }
    l.set_account(mi, new_mint);
    let ghost l1 = l@;
    match found {
        None => {
            let holder = AccountRecord::Holder(
                HolderRecord {
                    mint: accs.mint.dup(),
                    owner: accs.payer.dup(),
                    balance: amount,
                },
            );
            let ghost holder_v = holder@;
            proof {
                assert(accs.destination@ != accs.mint@);
                assert(lookup(l1, accs.destination@) is None);
                lemma_lookup_push(l1, accs.destination@, holder_v);
                match holder_v {
                    AccountV::Holder(h) => {
                        lemma_wf_push_holder(l1, accs.destination@, h);
                    },
                    _ => {},
                }
            }
            l.insert_new(accs.destination.dup(), holder);
        },
        Some(b) => {
            let di = match l.position(&accs.destination) {
                Some(i) => i,
                None => {
                    proof {
                        assert(accs.destination@ != accs.mint@);
                        assert(lookup(l1, accs.destination@) is Some);
                    }
                    return Err(LedgerError::AccountMismatch);
                },
            };
            let new_holder = AccountRecord::Holder(
                HolderRecord {
                    mint: accs.mint.dup(),
                    owner: accs.payer.dup(),
                    balance: b + amount,
                },
            );
            let ghost new_holder_v = new_holder@;
            proof {
                assert(accs.destination@ != accs.mint@);
                assert(l1[di as int].0 == accs.destination@);
                lemma_lookup_update(l1, di as int, new_holder_v);
                lemma_wf_update(l1, di as int, new_holder_v);
            }
            l.set_account(di, new_holder);
        },
    }
    Ok(())
}

/// The first guard or registry failure `mint_nft` runs into on a given
/// store, or nothing when the whole checklist passes. While the class's
/// Mint Record is absent, well-formedness rules out a holder bound to
/// it, so any occupant of the destination fails the init-if-needed
/// shape check and is refused outright.
pub open spec fn mint_nft_err(
    l: LedgerView,
    mint_a: Seq<u8>,
    dest_a: Seq<u8>,
    metadata_a: Seq<u8>,
    payer: Seq<u8>,
    token_module: Seq<u8>,
    registry: Seq<u8>,
    ata_module: Seq<u8>,
    name: Seq<u8>,
    symbol: Seq<u8>,
    uri: Seq<u8>,
) -> Option<LedgerError> {
    if lookup(l, mint_a) is Some {
        Some(LedgerError::AlreadyInitialized)
    } else if !holder_addr_ok(payer, token_module, mint_a, ata_module, dest_a) {
        Some(LedgerError::AccountMismatch)
    } else if dest_a == mint_a || lookup(l, dest_a) is Some {
        Some(LedgerError::AccountMismatch)
    } else if !metadata_addr_ok(registry, mint_a, metadata_a) {
        Some(LedgerError::SeedMismatch)
    } else if !payload_ok(name, symbol, uri) {
        Some(LedgerError::ExternalRejection)
    } else if metadata_a == mint_a || metadata_a == dest_a || lookup(l, metadata_a) is Some {
        Some(LedgerError::AlreadyInitialized)
    } else {
        None
    }
}

/// mint-unique: create a one-off class of zero decimals at a fresh
/// (not seed-derived) address with the payer as authority, mint exactly
/// one indivisible unit into the payer's holder asset account, and
/// register the metadata, all in one call. All or nothing.
pub fn mint_nft(l: &mut Ledger, accs: &MintNFT, nft_params: &MintNFTParams) -> (r: Result<
    (),
    LedgerError,
>)
    requires
        ledger_wf(old(l)@),
    ensures
        ledger_wf(final(l)@),
        match r {
            Ok(()) => {
                &&& mint_nft_err(
                    old(l)@,
                    accs.mint@,
                    accs.destination@,
                    accs.metadata@,
                    accs.payer@,
                    accs.token_program@,
                    accs.metadata_program@,
                    accs.associated_token_program@,
                    nft_params.name@,
                    nft_params.symbol@,
                    nft_params.uri@,
                ) is None
                &&& lookup(final(l)@, accs.mint@) == Some(
                    AccountV::Mint((MintV { decimals: 0, supply: 1, authority: accs.payer@ })),
                )
                &&& lookup(final(l)@, accs.destination@) == Some(
                    AccountV::Holder((HolderV { mint: accs.mint@, owner: accs.payer@, balance: 1 })),
                )
                &&& lookup(final(l)@, accs.metadata@) == Some(
                    AccountV::Metadata(
                        (MetadataV {
                            mint: accs.mint@,
                            name: nft_params.name@,
                            symbol: nft_params.symbol@,
                            uri: nft_params.uri@,
                            seller_fee_basis_points: 0,
                            update_authority: accs.payer@,
                        }),
                    ),
                )
                &&& forall|x: Seq<u8>|
                    x != accs.mint@ && x != accs.destination@ && x != accs.metadata@
                        ==> #[trigger] lookup(final(l)@, x) == lookup(old(l)@, x)
                &&& final(l)@.len() == old(l)@.len() + 3
            },
            Err(e) => {
                &&& mint_nft_err(
                    old(l)@,
                    accs.mint@,
                    accs.destination@,
                    accs.metadata@,
                    accs.payer@,
                    accs.token_program@,
                    accs.metadata_program@,
                    accs.associated_token_program@,
                    nft_params.name@,
                    nft_params.symbol@,
                    nft_params.uri@,
                ) == Some(e)
                &&& final(l)@ == old(l)@
            },
        },
{
    if l.occupied(&accs.mint) {
        return Err(LedgerError::AlreadyInitialized);
    }
    let dest_ok = match derive_holder_address(
        &accs.payer,
        &accs.mint,
        &accs.token_program,
        &accs.associated_token_program,
    ) {
        Some(p) => addr_eq(&p.0, &accs.destination),
        None => false,
    };
    if !dest_ok {
        return Err(LedgerError::AccountMismatch);
    }
    if addr_eq(&accs.destination, &accs.mint) || l.occupied(&accs.destination) {
        return Err(LedgerError::AccountMismatch);
    }
    let md_ok = match derive_metadata_address(&accs.metadata_program, &accs.mint) {
        Some(p) => addr_eq(&p.0, &accs.metadata),
        None => false,
    };
    if !md_ok {
        return Err(LedgerError::SeedMismatch);
    }
    if nft_params.name.len() > MAX_NAME_LEN || nft_params.symbol.len() > MAX_SYMBOL_LEN
        || nft_params.uri.len() > MAX_URI_LEN {
        return Err(LedgerError::ExternalRejection);
    }
    if addr_eq(&accs.metadata, &accs.mint) || addr_eq(&accs.metadata, &accs.destination)
        || l.occupied(&accs.metadata) {
        return Err(LedgerError::AlreadyInitialized);
    }
    let ghost l0 = l@;
    let mint_rec = AccountRecord::Mint(
        MintRecord { decimals: 0, supply: 1, authority: accs.payer.dup() },
    );
    let ghost mint_v = mint_rec@;
    proof {
        lemma_lookup_push(l0, accs.mint@, mint_v);
        lemma_wf_push_nonholder(l0, accs.mint@, mint_v);
    }
    l.insert_new(accs.mint.dup(), mint_rec);
    let ghost l1 = l@;
    let holder = AccountRecord::Holder(
        HolderRecord { mint: accs.mint.dup(), owner: accs.payer.dup(), balance: 1 },
    );
    let ghost holder_v = holder@;
    proof {
        assert(lookup(l1, accs.destination@) is None);
        lemma_lookup_push(l1, accs.destination@, holder_v);
        match holder_v {
            AccountV::Holder(h) => {
                lemma_wf_push_holder(l1, accs.destination@, h);
            },
            _ => {},
        }
    }
    l.insert_new(accs.destination.dup(), holder);
    let ghost l2 = l@;
    let meta_rec = AccountRecord::Metadata(
        MetadataRecord {
            mint: accs.mint.dup(),
            name: copy_bytes(&nft_params.name),
            symbol: copy_bytes(&nft_params.symbol),
            uri: copy_bytes(&nft_params.uri),
            seller_fee_basis_points: 0,
            update_authority: accs.payer.dup(),
        },
    );
    let ghost meta_v = meta_rec@;
    proof {
        assert(lookup(l2, accs.metadata@) is None);
        lemma_lookup_push(l2, accs.metadata@, meta_v);
        lemma_wf_push_nonholder(l2, accs.metadata@, meta_v);
    }
    l.insert_new(accs.metadata.dup(), meta_rec);
    Ok(())
}

/// A token class is created at most once: after any run that left the
/// Mint Record standing at the class's address, running the create
/// checklist again with the same seed proof fails with
/// AlreadyInitialized (and, by the transition contract, a failing run
/// changes nothing).
pub proof fn lemma_create_token_once(
    l1: LedgerView,
    l2: LedgerView,
    module: Seq<u8>,
    mint_a: Seq<u8>,
    metadata_a: Seq<u8>,
    registry: Seq<u8>,
    seeds: Seq<Seq<u8>>,
    bump: u8,
    name: Seq<u8>,
    symbol: Seq<u8>,
    uri: Seq<u8>,
)
    requires
        create_token_err(l1, module, mint_a, metadata_a, registry, seeds, bump, name, symbol, uri)
            is None,
        lookup(l2, mint_a) is Some,
    ensures
        create_token_err(l2, module, mint_a, metadata_a, registry, seeds, bump, name, symbol, uri)
            == Some(LedgerError::AlreadyInitialized),
{
}

} // verus!
