//! The accounts that each operation is handed, and the rules that they have
//! to meet before the operation touches a record.

use crate::address::bytes_and_bump_of;
use crate::address::bytes_of;
use crate::address::canonical_program_address;
use crate::address::program_address;
use crate::address::Address;
use crate::error::ErrorCode;
use crate::seeds::game_address;
use crate::seeds::game_seeds;
use crate::seeds::pool_signer_address;
use crate::seeds::pool_signer_seeds;
use crate::seeds::receipt_address;
use crate::seeds::receipt_seeds;
use crate::seeds::vault_address;
use crate::seeds::vault_address_with_bump;
use crate::seeds::vault_seeds;
use crate::split::spec_vault_amount;
use crate::state::Game;
use crate::state::Pool;
use vstd::prelude::*;

verus! {

/// A record together with the address at which the ledger keeps it.
#[derive(Clone, Debug, PartialEq, Eq)]
pub struct Account<T> {
    /// Where the record lives.
    pub key: Address,
    /// The record. For an account that an operation is to create, `None`
    /// says that nothing lives at `key` yet.
    pub data: T,
}

/// Whether `key` is the address that `seeds` derive under `program_id`.
pub open spec fn derives(seeds: Seq<Seq<u8>>, program_id: Address, key: Address) -> bool {
    program_address(seeds, program_id@) == Some(key@)
}

/// Whether `key` is the address that the platform finds for `seeds` under
/// `program_id`.
pub open spec fn finds(seeds: Seq<Seq<u8>>, program_id: Address, key: Address) -> bool {
    match canonical_program_address(seeds, program_id@) {
        Some((found, _)) => found == key@,
        None => false,
    }
}

/// Whether a derived address is the expected one.
fn is_address(derived: Option<Address>, key: &Address) -> (same: bool)
    ensures
        same == (bytes_of(derived) == Some(key@)),
{
    match derived {
        Some(address) => {
            proof {
                Address::lemma_view_injective(address, *key);
            }
            address == *key
        },
        None => false,
    }
}

/// Whether a found address is the expected one, whatever its bump.
fn is_found_address(found: Option<(Address, u8)>, key: &Address) -> (same: bool)
    ensures
        same == match bytes_and_bump_of(found) {
            Some((bytes, _)) => bytes == key@,
            None => false,
        },
{
    match found {
        Some((address, _)) => {
            proof {
                Address::lemma_view_injective(address, *key);
            }
            address == *key
        },
        None => false,
    }
}

/// The accounts of `initialize`.
#[derive(Clone, Debug, PartialEq, Eq)]
pub struct Initialize {
    /// The operator who is to run the pool.
    pub authority: Address,
    /// The pool's signer address.
    pub pool_signer: Address,
    /// The pool's record, not set up yet.
    pub pool: Account<Option<Pool>>,
    /// Who asks for the pool to be set up.
    pub owner: Address,
}

impl Initialize {
    /// The signer address is the one derived from the pool's address and
    /// `nonce`.
    pub open spec fn constraints_hold(&self, program_id: Address, nonce: u8) -> bool {
        derives(pool_signer_seeds(self.pool.key, nonce), program_id, self.pool_signer)
    }

    /// Whether `initialize` goes ahead on these accounts, and if not, why.
    pub open spec fn verdict(&self, program_id: Address, nonce: u8) -> Result<(), ErrorCode> {
        if self.pool.data is Some {
            Err(ErrorCode::AlreadyInitialized)
        } else if !self.constraints_hold(program_id, nonce) {
            Err(ErrorCode::ConstraintViolation)
        } else {
            Ok(())
        }
    }

    /// Checks the accounts of `initialize`.
    pub fn validate(&self, program_id: &Address, nonce: u8) -> (checked: Result<(), ErrorCode>)
        ensures
            checked == self.verdict(*program_id, nonce),
    {
        if self.pool.data.is_some() {
            return Err(ErrorCode::AlreadyInitialized);
        }
        if !is_address(pool_signer_address(&self.pool.key, nonce, program_id), &self.pool_signer) {
            return Err(ErrorCode::ConstraintViolation);
        }
        Ok(())
    }
}

/// The accounts of `create_game`.
#[derive(Clone, Debug, PartialEq, Eq)]
pub struct CreateGame {
    /// The pool that the round is opened in.
    pub pool: Account<Pool>,
    /// The round's record, not created yet.
    pub game: Account<Option<Game>>,
    /// The address that is to hold the round's funds.
    pub vault: Address,
    /// Who opens the round, and pays for its record.
    pub signer: Address,
}

impl CreateGame {
    /// The round's record and its vault are at the addresses that the
    /// platform finds for this pool and the identifier `id`.
    pub open spec fn constraints_hold(&self, program_id: Address, id: Seq<char>) -> bool {
        &&& finds(game_seeds(self.pool.key, id), program_id, self.game.key)
        &&& finds(vault_seeds(self.pool.key, id), program_id, self.vault)
    }

    /// Whether `create_game` goes ahead on these accounts and these
    /// arguments, and if not, why.
    pub open spec fn verdict(&self, program_id: Address, id: Seq<char>, players: u8) -> Result<
        (),
        ErrorCode,
    > {
        if self.game.data is Some {
            Err(ErrorCode::AddressAlreadyInUse)
        } else if !self.constraints_hold(program_id, id) {
            Err(ErrorCode::ConstraintViolation)
        } else if players == 0 {
            Err(ErrorCode::InvalidCapacity)
        } else {
            Ok(())
        }
    }

    /// Checks the accounts and the arguments of `create_game`.
    pub fn validate(&self, program_id: &Address, id: &str, players: u8) -> (checked: Result<
        (),
        ErrorCode,
    >)
        ensures
            checked == self.verdict(*program_id, id@, players),
    {
        if self.game.data.is_some() {
            return Err(ErrorCode::AddressAlreadyInUse);
        }
        if !is_found_address(game_address(&self.pool.key, id, program_id), &self.game.key) {
            return Err(ErrorCode::ConstraintViolation);
        }
        if !is_found_address(vault_address(&self.pool.key, id, program_id), &self.vault) {
            return Err(ErrorCode::ConstraintViolation);
        }
        if players == 0 {
            return Err(ErrorCode::InvalidCapacity);
        }
        Ok(())
    }
}

/// The accounts of `deposit`.
#[derive(Clone, Debug, PartialEq, Eq)]
pub struct Deposit {
    /// The pool that the round belongs to.
    pub pool: Account<Pool>,
    /// The round that the deposit goes to.
    pub game: Account<Game>,
    /// The address that holds the round's funds.
    pub vault: Address,
    /// Who pays the bid.
    pub depositor: Address,
    /// Who receives the fee cut.
    pub fee_receiver: Address,
    /// The pool's signer address.
    pub pool_signer: Address,
    /// The depositor's receipt for this round, not created yet.
    pub deposit: Account<Option<crate::state::Deposit>>,
    /// Who pays for the receipt's record.
    pub signer: Address,
}

impl Deposit {
    /// Every supplied address is the one that the records or the derivation
    /// call for: the vault and the fee receiver are those that the round
    /// names, the vault and the pool's signer are derived from the pool's
    /// address with the stored bumps, and the receipt is at the address
    /// that the platform finds for this depositor and this round.
    pub open spec fn constraints_hold(&self, program_id: Address) -> bool {
        &&& self.game.data.vault == self.vault
        &&& self.game.data.fee_receiver == self.fee_receiver
        &&& derives(
            vault_seeds(self.pool.key, self.game.data.id@).push(seq![self.game.data.vault_nonce]),
            program_id,
            self.vault,
        )
        &&& derives(
            pool_signer_seeds(self.pool.key, self.pool.data.nonce),
            program_id,
            self.pool_signer,
        )
        &&& finds(receipt_seeds(self.depositor, self.game.data.id@), program_id, self.deposit.key)
    }

    /// Whether `deposit` goes ahead on these accounts, and if not, why. The
    /// checks are made in this order, and the first that fails decides.
    pub open spec fn verdict(&self, program_id: Address) -> Result<(), ErrorCode> {
        if !self.constraints_hold(program_id) {
            Err(ErrorCode::ConstraintViolation)
        } else if self.game.data.finished {
            Err(ErrorCode::FinishedGame)
        } else if spec_vault_amount(self.game.data.bid) is None || !self.game.data@.has_room() {
            Err(ErrorCode::ArithmeticOverflow)
        } else if self.deposit.data is Some {
            Err(ErrorCode::DuplicateDeposit)
        } else {
            Ok(())
        }
    }

    /// Checks the addresses of `deposit` against the records and the
    /// derivation.
    pub fn constraints_met(&self, program_id: &Address) -> (met: bool)
        ensures
            met == self.constraints_hold(*program_id),
    {
        let id = self.game.data.id.as_str();
        self.game.data.vault == self.vault && self.game.data.fee_receiver == self.fee_receiver
            && is_address(
            vault_address_with_bump(&self.pool.key, id, self.game.data.vault_nonce, program_id),
            &self.vault,
        ) && is_address(
            pool_signer_address(&self.pool.key, self.pool.data.nonce, program_id),
            &self.pool_signer,
        ) && is_found_address(receipt_address(&self.depositor, id, program_id), &self.deposit.key)
    }
}

} // verus!
