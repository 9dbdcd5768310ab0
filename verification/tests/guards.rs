use token_issuance::addr::Address;
use token_issuance::authority::SeedProof;
use token_issuance::authority::verify_derived_authority;
use token_issuance::client::create_token_instruction;
use token_issuance::client::mint_token_instruction;
use token_issuance::error::LedgerError;
use token_issuance::guard::guard_holder_if_needed;
use token_issuance::guard::guard_init;
use token_issuance::guard::guard_mut;
use token_issuance::guard::guard_seed_bound;
use token_issuance::ledger::Ledger;
use token_issuance::pipeline::CreateTokenParams;
use token_issuance::pipeline::create_token;
use token_issuance::pipeline::mint_token;
use token_issuance::seeds::class_seeds;

fn mk_addr(b: u8) -> Address {
    Address { bytes: vec![b; 32] }
}

fn populated() -> (Ledger, Address, Address, Address) {
    let module = mk_addr(1);
    let registry = mk_addr(2);
    let token_program = mk_addr(3);
    let ata_program = mk_addr(4);
    let payer = mk_addr(5);
    let mut l = Ledger::new();
    let (accs, proof) = create_token_instruction(&module, &registry, &payer).unwrap();
    let params = CreateTokenParams {
        name: b"My Token".to_vec(),
        uri: b"https://example.com/metadata".to_vec(),
        symbol: b"MTK".to_vec(),
        decimals: 9,
    };
    create_token(&mut l, &module, &accs, &proof, &params).unwrap();
    let (mint_accs, mint_proof) =
        mint_token_instruction(&module, &token_program, &ata_program, &payer).unwrap();
    mint_token(&mut l, &module, &mint_accs, &mint_proof, 40).unwrap();
    (l, accs.mint, mint_accs.destination, payer)
}

#[test]
fn init_guard_rejects_occupied_addresses() {
    let (l, mint, dest, _) = populated();
    assert_eq!(guard_init(&l, &mint), Err(LedgerError::AlreadyInitialized));
    assert_eq!(guard_init(&l, &dest), Err(LedgerError::AlreadyInitialized));
    assert_eq!(guard_init(&l, &mk_addr(99)), Ok(()));
}

#[test]
fn mut_guard_demands_existing_accounts() {
    let (l, mint, _, _) = populated();
    assert_eq!(guard_mut(&l, &mint), Ok(()));
    assert_eq!(guard_mut(&l, &mk_addr(99)), Err(LedgerError::NotInitialized));
}

#[test]
fn seed_bound_guard_recomputes_the_address() {
    let module = mk_addr(1);
    let (accs, proof) = create_token_instruction(&module, &mk_addr(2), &mk_addr(5)).unwrap();
    assert_eq!(guard_seed_bound(&accs.mint, &proof, &module), Ok(()));
    assert!(verify_derived_authority(&proof, &accs.mint, &module));

    let bad = SeedProof { seeds: class_seeds(), bump: proof.bump.wrapping_add(1) };
    assert_eq!(
        guard_seed_bound(&accs.mint, &bad, &module),
        Err(LedgerError::SeedMismatch)
    );
    assert!(!verify_derived_authority(&bad, &accs.mint, &module));
}

#[test]
fn holder_guard_accepts_matching_shape_only() {
    let (l, mint, dest, payer) = populated();
    assert_eq!(guard_holder_if_needed(&l, &dest, &mint, &payer), Ok(Some(40)));
    assert_eq!(guard_holder_if_needed(&l, &mk_addr(99), &mint, &payer), Ok(None));
    // The class's own record at the destination role is the wrong shape.
    assert_eq!(
        guard_holder_if_needed(&l, &mint, &mint, &payer),
        Err(LedgerError::AccountMismatch)
    );
    // Right account, wrong expected owner.
    assert_eq!(
        guard_holder_if_needed(&l, &dest, &mint, &mk_addr(98)),
        Err(LedgerError::AccountMismatch)
    );
}
