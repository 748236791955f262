//! Addresses, their derivation, and the transfers between them.

use anchor_lang::solana_program::pubkey::Pubkey;
use anchor_lang::solana_program::system_instruction;
use anchor_lang::solana_program::system_program;
use deposit_game::address::Address;
use deposit_game::error::ErrorCode;
use deposit_game::seeds::game_address;
use deposit_game::seeds::pool_signer_address;
use deposit_game::seeds::receipt_address;
use deposit_game::seeds::vault_address;
use deposit_game::seeds::vault_address_with_bump;
use deposit_game::seeds::RECEIPT_SEED;
use deposit_game::seeds::ROUND_SEED;
use deposit_game::seeds::VAULT_SEED;
use deposit_game::state::Deposit;
use deposit_game::state::Game;
use deposit_game::transfer::AccountMeta;
use deposit_game::transfer::Payments;

fn program() -> Address {
    Address::new([9u8; 32])
}

fn key(address: &Address) -> Pubkey {
    Pubkey::new_from_array(address.bytes)
}

fn address(key: &Pubkey) -> Address {
    Address::new(key.to_bytes())
}

#[test]
fn addresses_compare_by_their_bytes() {
    let mut bytes = [4u8; 32];
    assert_eq!(Address::new(bytes), Address::new([4u8; 32]));
    assert_eq!(Address::new(bytes).bytes, bytes);
    bytes[31] = 5;
    assert_ne!(Address::new(bytes), Address::new([4u8; 32]));
    bytes[31] = 4;
    bytes[0] = 0;
    assert_ne!(Address::new(bytes), Address::new([4u8; 32]));
    assert_eq!(Address::default(), Address::new([0u8; 32]));
}

#[test]
fn seed_labels() {
    assert_eq!(ROUND_SEED, "round");
    assert_eq!(VAULT_SEED, "vault");
    assert_eq!(RECEIPT_SEED, "receipt");
}

#[test]
fn pool_signer_is_derived_from_the_pool_and_its_bump() {
    let pool = Address::new([1u8; 32]);
    let (expected, bump) = Pubkey::find_program_address(&[&pool.bytes], &key(&program()));
    assert_eq!(pool_signer_address(&pool, bump, &program()), Some(address(&expected)));
    for nonce in [0u8, 1, 100, 254, 255] {
        let expected =
            Pubkey::create_program_address(&[&pool.bytes, &[nonce]], &key(&program())).ok();
        let derived = pool_signer_address(&pool, nonce, &program());
        assert_eq!(derived, expected.map(|k| address(&k)));
        assert_ne!(derived, Some(pool));
    }
}

#[test]
fn pool_signer_depends_on_every_argument() {
    let pool = Address::new([1u8; 32]);
    let (_, bump) = Pubkey::find_program_address(&[&pool.bytes], &key(&program()));
    let derived = pool_signer_address(&pool, bump, &program()).unwrap();
    if let Some(other) = pool_signer_address(&Address::new([2u8; 32]), bump, &program()) {
        assert_ne!(other, derived);
    }
    if let Some(other) = pool_signer_address(&pool, bump, &Address::new([8u8; 32])) {
        assert_ne!(other, derived);
    }
    if let Some(other) = pool_signer_address(&pool, bump.wrapping_sub(1), &program()) {
        assert_ne!(other, derived);
    }
}

#[test]
fn round_vault_and_receipt_are_found_under_their_labels() {
    let pool = Address::new([1u8; 32]);
    let depositor = Address::new([10u8; 32]);
    let id = "alpha";
    let program_key = key(&program());

    let (round, bump) =
        Pubkey::find_program_address(&[&pool.bytes, b"round", id.as_bytes()], &program_key);
    assert_eq!(game_address(&pool, id, &program()), Some((address(&round), bump)));

    let (vault, vault_bump) =
        Pubkey::find_program_address(&[&pool.bytes, b"vault", id.as_bytes()], &program_key);
    assert_eq!(vault_address(&pool, id, &program()), Some((address(&vault), vault_bump)));

    let (receipt, receipt_bump) =
        Pubkey::find_program_address(&[&depositor.bytes, b"receipt", id.as_bytes()], &program_key);
    assert_eq!(
        receipt_address(&depositor, id, &program()),
        Some((address(&receipt), receipt_bump))
    );

    assert_ne!(round, vault);
    assert_ne!(address(&round), pool);
    assert_ne!(address(&receipt), depositor);
}

#[test]
fn vault_under_its_stored_bump_is_the_vault_that_was_found() {
    let pool = Address::new([1u8; 32]);
    for id in ["alpha", "beta", "", "0", "a-much-longer-round-identifier!!"] {
        let (vault, bump) = vault_address(&pool, id, &program()).unwrap();
        assert_eq!(vault_address_with_bump(&pool, id, bump, &program()), Some(vault));
        let expected = Pubkey::create_program_address(
            &[&pool.bytes, b"vault", id.as_bytes(), &[bump]],
            &key(&program()),
        )
        .unwrap();
        assert_eq!(vault, address(&expected));
        if let Some(other) = vault_address_with_bump(&pool, id, bump.wrapping_sub(1), &program()) {
            assert_ne!(other, vault);
        }
    }
}

#[test]
fn receipts_differ_by_depositor_and_by_round() {
    let x = Address::new([10u8; 32]);
    let y = Address::new([11u8; 32]);
    let (x_alpha, _) = receipt_address(&x, "alpha", &program()).unwrap();
    let (y_alpha, _) = receipt_address(&y, "alpha", &program()).unwrap();
    let (x_beta, _) = receipt_address(&x, "beta", &program()).unwrap();
    assert_ne!(x_alpha, y_alpha);
    assert_ne!(x_alpha, x_beta);
    assert_eq!(receipt_address(&x, "alpha", &program()), Some((x_alpha, receipt_address(&x, "alpha", &program()).unwrap().1)));
}

#[test]
fn identifiers_are_seeded_as_utf8() {
    let pool = Address::new([1u8; 32]);
    let id = "r\u{00e9}sum\u{00e9}-\u{2603}";
    let (expected, bump) = Pubkey::find_program_address(
        &[&pool.bytes, b"round", id.as_bytes()],
        &key(&program()),
    );
    assert_eq!(game_address(&pool, id, &program()), Some((address(&expected), bump)));
}

#[test]
fn an_identifier_of_more_than_thirty_two_bytes_has_no_address() {
    let pool = Address::new([1u8; 32]);
    let fits = "a".repeat(32);
    let long = "a".repeat(33);
    assert!(game_address(&pool, &fits, &program()).is_some());
    assert_eq!(game_address(&pool, &long, &program()), None);
    assert_eq!(vault_address(&pool, &long, &program()), None);
    assert_eq!(receipt_address(&pool, &long, &program()), None);
    assert_eq!(vault_address_with_bump(&pool, &long, 255, &program()), None);
}

#[test]
fn payments_are_the_system_programs_transfers() {
    let depositor = Address::new([10u8; 32]);
    let fee_receiver = Address::new([3u8; 32]);
    let vault = Address::new([40u8; 32]);
    let paid = Payments::of_bid(1000, &depositor, &fee_receiver, &vault).unwrap();
    assert_eq!(paid.fee_amount, 30);
    assert_eq!(paid.vault_amount, 970);

    let fee = system_instruction::transfer(&key(&depositor), &key(&fee_receiver), 30);
    assert_eq!(paid.fee_transfer.program_id, address(&fee.program_id));
    assert_eq!(paid.fee_transfer.program_id, address(&system_program::id()));
    assert_eq!(paid.fee_transfer.program_id, Address::new([0u8; 32]));
    assert_eq!(paid.fee_transfer.data, fee.data);
    assert_eq!(
        paid.fee_transfer.accounts,
        vec![
            AccountMeta { pubkey: depositor, is_signer: true, is_writable: true },
            AccountMeta { pubkey: fee_receiver, is_signer: false, is_writable: true },
        ]
    );

    let rest = system_instruction::transfer(&key(&depositor), &key(&vault), 970);
    assert_eq!(paid.vault_transfer.program_id, Address::new([0u8; 32]));
    assert_eq!(paid.vault_transfer.data, rest.data);
    assert_eq!(
        paid.vault_transfer.accounts,
        vec![
            AccountMeta { pubkey: depositor, is_signer: true, is_writable: true },
            AccountMeta { pubkey: vault, is_signer: false, is_writable: true },
        ]
    );
    assert_ne!(paid.fee_transfer.data, paid.vault_transfer.data);
}

#[test]
fn transfer_data_carries_the_amount() {
    let a = Address::new([10u8; 32]);
    let b = Address::new([3u8; 32]);
    let c = Address::new([40u8; 32]);
    let paid = Payments::of_bid(1000, &a, &b, &c).unwrap();
    assert_eq!(paid.fee_transfer.data, vec![2, 0, 0, 0, 30, 0, 0, 0, 0, 0, 0, 0]);
    assert_eq!(paid.vault_transfer.data, vec![2, 0, 0, 0, 202, 3, 0, 0, 0, 0, 0, 0]);
    // The same amount gives the same data, whoever pays whom.
    let other = Payments::of_bid(1000, &c, &a, &b).unwrap();
    assert_eq!(other.fee_transfer.data, paid.fee_transfer.data);
    assert_eq!(other.vault_transfer.data, paid.vault_transfer.data);
}

#[test]
fn payments_of_an_unsplittable_bid_are_refused() {
    let a = Address::new([10u8; 32]);
    let b = Address::new([3u8; 32]);
    let c = Address::new([40u8; 32]);
    assert_eq!(Payments::of_bid(u64::MAX, &a, &b, &c), Err(ErrorCode::ArithmeticOverflow));
    assert_eq!(
        Payments::of_bid(u64::MAX / 97 + 1, &a, &b, &c),
        Err(ErrorCode::ArithmeticOverflow)
    );
    assert!(Payments::of_bid(u64::MAX / 97, &a, &b, &c).is_ok());
    let nothing = Payments::of_bid(0, &a, &b, &c).unwrap();
    assert_eq!(nothing.fee_amount, 0);
    assert_eq!(nothing.vault_amount, 0);
}

#[test]
fn every_refusal_has_its_message() {
    assert_eq!(ErrorCode::FinishedGame.message(), "Finished Game.");
    assert_eq!(ErrorCode::DuplicateDeposit.message(), "This address deposited already.");
    assert_eq!(ErrorCode::AlreadyInitialized.message(), "The pool is initialized already.");
    assert_eq!(ErrorCode::AddressAlreadyInUse.message(), "This game exists already.");
    assert_eq!(ErrorCode::InvalidCapacity.message(), "A game needs at least one player.");
    assert_eq!(
        ErrorCode::ConstraintViolation.message(),
        "An account does not match its constraint."
    );
    assert_eq!(ErrorCode::ArithmeticOverflow.message(), "The bid is too large to be split.");
}

#[test]
fn default_records_are_zeroed() {
    let game = Game::default();
    assert_eq!(game.vault, Address::new([0u8; 32]));
    assert_eq!(game.creator, Address::new([0u8; 32]));
    assert_eq!(game.fee_receiver, Address::new([0u8; 32]));
    assert_eq!(game.authority, Address::new([0u8; 32]));
    assert_eq!(game.last_hash, [0u8; 32]);
    assert_eq!(game.id, "");
    assert_eq!((game.odd, game.players, game.deposited, game.nonce, game.vault_nonce), (0, 0, 0, 0, 0));
    assert_eq!(game.bid, 0);
    assert!(!game.finished);

    let receipt = Deposit::default();
    assert_eq!(receipt.depositor, Address::new([0u8; 32]));
    assert_eq!(receipt.deposit_date, 0);
    assert_eq!(receipt.deposit_index, 0);
    assert_eq!(receipt.game_id, "");
}
