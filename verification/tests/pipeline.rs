use token_issuance::addr::Address;
use token_issuance::authority::SeedProof;
use token_issuance::client::create_token_instruction;
use token_issuance::client::mint_nft_instruction;
use token_issuance::client::mint_token_instruction;
use token_issuance::error::LedgerError;
use token_issuance::ledger::AccountRecord;
use token_issuance::ledger::Ledger;
use token_issuance::pipeline::CreateTokenParams;
use token_issuance::pipeline::MintNFTParams;
use token_issuance::pipeline::create_token;
use token_issuance::pipeline::mint_nft;
use token_issuance::pipeline::mint_token;
use token_issuance::seeds::class_seeds;

fn mk_addr(b: u8) -> Address {
    Address { bytes: vec![b; 32] }
}

fn params_of(name: &str, symbol: &str, uri: &str, decimals: u8) -> CreateTokenParams {
    CreateTokenParams {
        name: name.as_bytes().to_vec(),
        uri: uri.as_bytes().to_vec(),
        symbol: symbol.as_bytes().to_vec(),
        decimals,
    }
}

fn mint_decimals_supply(l: &Ledger, a: &Address) -> (u8, u64) {
    match l.get(a) {
        Some(AccountRecord::Mint(m)) => (m.decimals, m.supply),
        _ => panic!("expected a mint record"),
    }
}

fn holder_balance(l: &Ledger, a: &Address) -> u64 {
    match l.get(a) {
        Some(AccountRecord::Holder(h)) => h.balance,
        _ => panic!("expected a holder account"),
    }
}

#[test]
fn create_then_mint_scenario() {
    let module = mk_addr(1);
    let registry = mk_addr(2);
    let token_program = mk_addr(3);
    let ata_program = mk_addr(4);
    let payer = mk_addr(5);
    let mut l = Ledger::new();

    let (accs, proof) = create_token_instruction(&module, &registry, &payer).unwrap();
    let params = params_of("My Token", "MTK", "https://example.com/metadata", 9);
    assert_eq!(create_token(&mut l, &module, &accs, &proof, &params), Ok(()));

    let (decimals, supply) = mint_decimals_supply(&l, &accs.mint);
    assert_eq!(decimals, 9);
    assert_eq!(supply, 0);
    match l.get(&accs.metadata) {
        Some(AccountRecord::Metadata(d)) => {
            assert_eq!(d.name, b"My Token".to_vec());
            assert_eq!(d.symbol, b"MTK".to_vec());
            assert_eq!(d.seller_fee_basis_points, 0);
        }
        _ => panic!("expected a metadata record"),
    }

    let (mint_accs, mint_proof) =
        mint_token_instruction(&module, &token_program, &ata_program, &payer).unwrap();
    assert_eq!(
        mint_token(&mut l, &module, &mint_accs, &mint_proof, 10_000_000_000_000),
        Ok(())
    );
    assert_eq!(holder_balance(&l, &mint_accs.destination), 10_000_000_000_000);
    let (_, supply) = mint_decimals_supply(&l, &accs.mint);
    assert_eq!(supply, 10_000_000_000_000);
}

#[test]
fn create_twice_fails_already_initialized() {
    let module = mk_addr(1);
    let registry = mk_addr(2);
    let payer = mk_addr(5);
    let mut l = Ledger::new();

    let (accs, proof) = create_token_instruction(&module, &registry, &payer).unwrap();
    let params = params_of("My Token", "MTK", "https://example.com/metadata", 9);
    assert_eq!(create_token(&mut l, &module, &accs, &proof, &params), Ok(()));
    let len_before = l.len();

    let again = create_token(&mut l, &module, &accs, &proof, &params);
    assert_eq!(again, Err(LedgerError::AlreadyInitialized));
    assert_eq!(l.len(), len_before);
    let (decimals, supply) = mint_decimals_supply(&l, &accs.mint);
    assert_eq!(decimals, 9);
    assert_eq!(supply, 0);
    match l.get(&accs.metadata) {
        Some(AccountRecord::Metadata(d)) => assert_eq!(d.name, b"My Token".to_vec()),
        _ => panic!("expected a metadata record"),
    }
}

#[test]
fn mint_creates_one_account_then_reuses_it() {
    let module = mk_addr(1);
    let registry = mk_addr(2);
    let token_program = mk_addr(3);
    let ata_program = mk_addr(4);
    let payer = mk_addr(5);
    let mut l = Ledger::new();

    let (accs, proof) = create_token_instruction(&module, &registry, &payer).unwrap();
    let params = params_of("My Token", "MTK", "https://example.com/metadata", 6);
    assert_eq!(create_token(&mut l, &module, &accs, &proof, &params), Ok(()));

    let (mint_accs, mint_proof) =
        mint_token_instruction(&module, &token_program, &ata_program, &payer).unwrap();
    let len_before = l.len();
    assert_eq!(mint_token(&mut l, &module, &mint_accs, &mint_proof, 250), Ok(()));
    assert_eq!(l.len(), len_before + 1);
    assert_eq!(holder_balance(&l, &mint_accs.destination), 250);

    let len_after_first = l.len();
    assert_eq!(mint_token(&mut l, &module, &mint_accs, &mint_proof, 50), Ok(()));
    assert_eq!(l.len(), len_after_first);
    assert_eq!(holder_balance(&l, &mint_accs.destination), 300);
}

#[test]
fn mint_overflow_fails_and_changes_nothing() {
    let module = mk_addr(1);
    let registry = mk_addr(2);
    let token_program = mk_addr(3);
    let ata_program = mk_addr(4);
    let payer = mk_addr(5);
    let mut l = Ledger::new();

    let (accs, proof) = create_token_instruction(&module, &registry, &payer).unwrap();
    let params = params_of("My Token", "MTK", "https://example.com/metadata", 0);
    assert_eq!(create_token(&mut l, &module, &accs, &proof, &params), Ok(()));

    let (mint_accs, mint_proof) =
        mint_token_instruction(&module, &token_program, &ata_program, &payer).unwrap();
    assert_eq!(mint_token(&mut l, &module, &mint_accs, &mint_proof, u64::MAX), Ok(()));

    let len_before = l.len();
    let overflowing = mint_token(&mut l, &module, &mint_accs, &mint_proof, 1);
    assert_eq!(overflowing, Err(LedgerError::ArithmeticOverflow));
    assert_eq!(l.len(), len_before);
    assert_eq!(holder_balance(&l, &mint_accs.destination), u64::MAX);
    let (_, supply) = mint_decimals_supply(&l, &accs.mint);
    assert_eq!(supply, u64::MAX);
}

#[test]
fn mint_nft_gives_balance_exactly_one() {
    let registry = mk_addr(2);
    let token_program = mk_addr(3);
    let ata_program = mk_addr(4);
    let payer = mk_addr(5);
    let fresh_mint = mk_addr(42);
    let mut l = Ledger::new();

    let accs = mint_nft_instruction(&registry, &token_program, &ata_program, &payer, &fresh_mint)
        .unwrap();
    let nft_params = MintNFTParams {
        name: b"Art".to_vec(),
        symbol: b"ART".to_vec(),
        uri: b"https://example.com/art".to_vec(),
    };
    assert_eq!(mint_nft(&mut l, &accs, &nft_params), Ok(()));

    assert_eq!(holder_balance(&l, &accs.destination), 1);
    let (decimals, supply) = mint_decimals_supply(&l, &accs.mint);
    assert_eq!(decimals, 0);
    assert_eq!(supply, 1);
    match l.get(&accs.metadata) {
        Some(AccountRecord::Metadata(d)) => {
            assert_eq!(d.name, b"Art".to_vec());
            assert_eq!(d.update_authority.bytes, payer.bytes);
        }
        _ => panic!("expected a metadata record"),
    }
}

#[test]
fn mint_to_foreign_destination_fails_account_mismatch() {
    let module_a = mk_addr(1);
    let module_b = mk_addr(6);
    let registry = mk_addr(2);
    let token_program = mk_addr(3);
    let ata_program = mk_addr(4);
    let payer = mk_addr(5);
    let mut l = Ledger::new();

    // Class A exists and the payer holds some of it.
    let (accs_a, proof_a) = create_token_instruction(&module_a, &registry, &payer).unwrap();
    let params = params_of("My Token", "MTK", "https://example.com/metadata", 9);
    assert_eq!(create_token(&mut l, &module_a, &accs_a, &proof_a, &params), Ok(()));
    let (mint_accs_a, mint_proof_a) =
        mint_token_instruction(&module_a, &token_program, &ata_program, &payer).unwrap();
    assert_eq!(mint_token(&mut l, &module_a, &mint_accs_a, &mint_proof_a, 10), Ok(()));

    // Class B exists too.
    let (accs_b, proof_b) = create_token_instruction(&module_b, &registry, &payer).unwrap();
    assert_eq!(create_token(&mut l, &module_b, &accs_b, &proof_b, &params), Ok(()));

    // Minting B while pointing at A's holder account is refused.
    let (mut mint_accs_b, mint_proof_b) =
        mint_token_instruction(&module_b, &token_program, &ata_program, &payer).unwrap();
    mint_accs_b.destination = Address { bytes: mint_accs_a.destination.bytes.clone() };
    let crossed = mint_token(&mut l, &module_b, &mint_accs_b, &mint_proof_b, 5);
    assert_eq!(crossed, Err(LedgerError::AccountMismatch));
    assert_eq!(holder_balance(&l, &mint_accs_a.destination), 10);
}

#[test]
fn mint_before_create_fails_not_initialized() {
    let module = mk_addr(1);
    let token_program = mk_addr(3);
    let ata_program = mk_addr(4);
    let payer = mk_addr(5);
    let mut l = Ledger::new();

    let (mint_accs, mint_proof) =
        mint_token_instruction(&module, &token_program, &ata_program, &payer).unwrap();
    assert_eq!(
        mint_token(&mut l, &module, &mint_accs, &mint_proof, 5),
        Err(LedgerError::NotInitialized)
    );
}

#[test]
fn wrong_bump_fails_seed_mismatch() {
    let module = mk_addr(1);
    let registry = mk_addr(2);
    let payer = mk_addr(5);
    let mut l = Ledger::new();

    let (accs, proof) = create_token_instruction(&module, &registry, &payer).unwrap();
    let bad_proof = SeedProof { seeds: class_seeds(), bump: proof.bump.wrapping_sub(1) };
    let params = params_of("My Token", "MTK", "https://example.com/metadata", 9);
    assert_eq!(
        create_token(&mut l, &module, &accs, &bad_proof, &params),
        Err(LedgerError::SeedMismatch)
    );
    assert_eq!(l.len(), 0);
}

#[test]
fn oversized_payload_fails_external_rejection() {
    let module = mk_addr(1);
    let registry = mk_addr(2);
    let payer = mk_addr(5);
    let mut l = Ledger::new();

    let (accs, proof) = create_token_instruction(&module, &registry, &payer).unwrap();
    let long_name = String::from_utf8(vec![b'x'; 33]).unwrap();
    let params = params_of(&long_name, "MTK", "https://example.com/metadata", 9);
    assert_eq!(
        create_token(&mut l, &module, &accs, &proof, &params),
        Err(LedgerError::ExternalRejection)
    );
    assert_eq!(l.len(), 0);
}

#[test]
fn seed_proof_cannot_authorize_foreign_authority() {
    let module = mk_addr(1);
    let registry = mk_addr(2);
    let token_program = mk_addr(3);
    let ata_program = mk_addr(4);
    let payer = mk_addr(5);
    let mut l = Ledger::new();

    // A one-off class is parked at the module's derived class address,
    // so its authority is the payer, not the derived address itself.
    let (class_addr, _) = token_issuance::seeds::derive_class_address(&module).unwrap();
    let accs = mint_nft_instruction(&registry, &token_program, &ata_program, &payer, &class_addr)
        .unwrap();
    let nft_params = MintNFTParams {
        name: b"Art".to_vec(),
        symbol: b"ART".to_vec(),
        uri: b"https://example.com/art".to_vec(),
    };
    assert_eq!(mint_nft(&mut l, &accs, &nft_params), Ok(()));

    let (mint_accs, mint_proof) =
        mint_token_instruction(&module, &token_program, &ata_program, &payer).unwrap();
    assert_eq!(
        mint_token(&mut l, &module, &mint_accs, &mint_proof, 5),
        Err(LedgerError::Unauthorized)
    );
}
