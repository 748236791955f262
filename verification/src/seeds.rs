//! The seed lists from which the addresses of the engine's accounts are
//! derived.
//!
//! | account         | seeds                              | bump      |
//! |-----------------|------------------------------------|-----------|
//! | pool signer     | pool address                       | stored    |
//! | round           | pool address, `"round"`, round id  | canonical |
//! | vault           | pool address, `"vault"`, round id  | both      |
//! | deposit receipt | depositor, `"receipt"`, round id   | canonical |
//!
//! A stored bump is appended to the seeds as one more seed of one byte. A
//! canonical bump is the one that the platform's search finds.

use crate::address::bytes_and_bump_of;
use crate::address::bytes_of;
use crate::address::canonical_program_address;
use crate::address::program_address;
use crate::address::pubkey_create_program_address;
use crate::address::pubkey_try_find_program_address;
use crate::address::Address;
use vstd::prelude::*;

verus! {

/// Label in the seeds of a round's address.
pub const ROUND_SEED: &'static str = "round";

/// Label in the seeds of a vault's address.
pub const VAULT_SEED: &'static str = "vault";

/// Label in the seeds of a receipt's address.
pub const RECEIPT_SEED: &'static str = "receipt";

/// The bytes of an identifier or a label as they enter a seed list: its
/// UTF-8 encoding.
pub open spec fn text_bytes(text: Seq<char>) -> Seq<u8> {
    vstd::utf8::encode_utf8(text)
}

/// Seeds of the pool's signer address.
pub open spec fn pool_signer_seeds(pool: Address, nonce: u8) -> Seq<Seq<u8>> {
    seq![pool@, seq![nonce]]
}

/// Seeds of the address of the round `id` of `pool`, before the bump.
pub open spec fn game_seeds(pool: Address, id: Seq<char>) -> Seq<Seq<u8>> {
    seq![pool@, text_bytes(ROUND_SEED@), text_bytes(id)]
}

/// Seeds of the address of the vault of the round `id` of `pool`, before the
/// bump.
pub open spec fn vault_seeds(pool: Address, id: Seq<char>) -> Seq<Seq<u8>> {
    seq![pool@, text_bytes(VAULT_SEED@), text_bytes(id)]
}

/// Seeds of the address of the receipt of `depositor` for the round `id`,
/// before the bump.
pub open spec fn receipt_seeds(depositor: Address, id: Seq<char>) -> Seq<Seq<u8>> {
    seq![depositor@, text_bytes(RECEIPT_SEED@), text_bytes(id)]
}

/// Derives the address of the seeds `owner`, `label`, `id` and `bump`.
fn derive_labelled(
    owner: &Address,
    label: &str,
    id: &str,
    bump: u8,
    program_id: &Address,
) -> (derived: Option<Address>)
    ensures
        bytes_of(derived) == program_address(
            seq![owner@, text_bytes(label@), text_bytes(id@), seq![bump]],
            program_id@,
        ),
{
    let bump_seed: [u8; 1] = [bump];
    let seeds: [&[u8]; 4] = [
        owner.bytes.as_slice(),
        label.as_bytes(),
        id.as_bytes(),
        bump_seed.as_slice(),
    ];
    let seeds = seeds.as_slice();
    proof {
        assert(bump_seed@ =~= seq![bump]);
        assert forall|i: int| 0 <= i < 4 implies #[trigger] seeds@[i].deep_view() =~= seeds@[i]@ by {}
        assert(seeds.deep_view() =~= seq![
            owner@,
            text_bytes(label@),
            text_bytes(id@),
            seq![bump],
        ]);
    }
    match pubkey_create_program_address(seeds, program_id) {
        Ok(address) => Some(address),
        Err(_) => None,
    }
}

/// Finds the address of the seeds `owner`, `label` and `id`, and its bump.
fn find_labelled(owner: &Address, label: &str, id: &str, program_id: &Address) -> (found: Option<
    (Address, u8),
>)
    ensures
        bytes_and_bump_of(found) == canonical_program_address(
            seq![owner@, text_bytes(label@), text_bytes(id@)],
            program_id@,
        ),
{
    let seeds: [&[u8]; 3] = [owner.bytes.as_slice(), label.as_bytes(), id.as_bytes()];
    let seeds = seeds.as_slice();
    proof {
        assert forall|i: int| 0 <= i < 3 implies #[trigger] seeds@[i].deep_view() =~= seeds@[i]@ by {}
        assert(seeds.deep_view() =~= seq![owner@, text_bytes(label@), text_bytes(id@)]);
    }
    pubkey_try_find_program_address(seeds, program_id)
}

/// The signer address of `pool` under the bump `nonce`, where there is one.
pub fn pool_signer_address(pool: &Address, nonce: u8, program_id: &Address) -> (derived: Option<
    Address,
>)
    ensures
        bytes_of(derived) == program_address(pool_signer_seeds(*pool, nonce), program_id@),
{
    let bump: [u8; 1] = [nonce];
    let seeds: [&[u8]; 2] = [pool.bytes.as_slice(), bump.as_slice()];
    let seeds = seeds.as_slice();
    proof {
        assert(bump@ =~= seq![nonce]);
        assert forall|i: int| 0 <= i < 2 implies #[trigger] seeds@[i].deep_view() =~= seeds@[i]@ by {}
        assert(seeds.deep_view() =~= pool_signer_seeds(*pool, nonce));
    }
    match pubkey_create_program_address(seeds, program_id) {
        Ok(address) => Some(address),
        Err(_) => None,
    }
}

/// The address of the round `id` of `pool`, with its bump.
pub fn game_address(pool: &Address, id: &str, program_id: &Address) -> (found: Option<
    (Address, u8),
>)
    ensures
        bytes_and_bump_of(found) == canonical_program_address(game_seeds(*pool, id@), program_id@),
{
    find_labelled(pool, ROUND_SEED, id, program_id)
}

/// The address of the vault of the round `id` of `pool`, with its bump.
pub fn vault_address(pool: &Address, id: &str, program_id: &Address) -> (found: Option<
    (Address, u8),
>)
    ensures
        bytes_and_bump_of(found) == canonical_program_address(
            vault_seeds(*pool, id@),
            program_id@,
        ),
{
    find_labelled(pool, VAULT_SEED, id, program_id)
}

/// The address of the vault of the round `id` of `pool` under the bump
/// `vault_nonce`, where there is one.
pub fn vault_address_with_bump(
    pool: &Address,
    id: &str,
    vault_nonce: u8,
    program_id: &Address,
) -> (derived: Option<Address>)
    ensures
        bytes_of(derived) == program_address(
            vault_seeds(*pool, id@).push(seq![vault_nonce]),
            program_id@,
        ),
{
    proof {
        assert(vault_seeds(*pool, id@).push(seq![vault_nonce]) =~= seq![
            pool@,
            text_bytes(VAULT_SEED@),
            text_bytes(id@),
            seq![vault_nonce],
        ]);
    }
    derive_labelled(pool, VAULT_SEED, id, vault_nonce, program_id)
}

/// The address of the receipt of `depositor` for the round `id`, with its
/// bump.
pub fn receipt_address(depositor: &Address, id: &str, program_id: &Address) -> (found: Option<
    (Address, u8),
>)
    ensures
        bytes_and_bump_of(found) == canonical_program_address(
            receipt_seeds(*depositor, id@),
            program_id@,
        ),
{
    find_labelled(depositor, RECEIPT_SEED, id, program_id)
}

} // verus!
