//! The records that the engine keeps: the pool, its rounds, and the receipt
//! of each deposit.

use crate::address::Address;
use vstd::prelude::*;

verus! {

/// The state of a pool: one per deployment, set up once.
#[derive(Clone, Debug, PartialEq, Eq)]
pub struct Pool {
    /// Counter of rounds. No operation of the engine advances it.
    pub game_count: u64,
    /// Identifier of the round that finished last; `"0"` before any has.
    pub game_finished: String,
    /// Bump that binds the pool to its signer address.
    pub nonce: u8,
    /// The privileged operator of the pool.
    pub authority: Address,
}

/// A pool as the contracts see it.
pub struct PoolView {
    pub game_count: u64,
    pub game_finished: Seq<char>,
    pub nonce: u8,
    pub authority: Address,
}

impl View for Pool {
    type V = PoolView;

    open spec fn view(&self) -> PoolView {
        PoolView {
            game_count: self.game_count,
            game_finished: self.game_finished@,
            nonce: self.nonce,
            authority: self.authority,
        }
    }
}

impl PoolView {
    /// The pool after a deposit that left the round as `game`: it names the
    /// round as the last one finished if the round is finished, and is as
    /// before if not.
    pub open spec fn noting(self, game: GameView) -> PoolView {
        if game.finished {
            PoolView { game_finished: game.id, ..self }
        } else {
            self
        }
    }
}

/// One round: a wager with a fixed bid that finishes when `players`
/// deposits have been taken.
#[derive(Clone, Debug, PartialEq, Eq)]
pub struct Game {
    /// The address that holds the round's funds.
    pub vault: Address,
    /// Whether the round has all its deposits. Never goes back to `false`.
    pub finished: bool,
    /// Payout multiplier. Stored for whoever pays out; not read here.
    pub odd: u8,
    /// Number of deposits that finish the round.
    pub players: u8,
    /// What every participant pays, in the smallest currency unit.
    pub bid: u64,
    /// Who opened the round.
    pub creator: Address,
    /// Who is entitled to the fee cut of every deposit.
    pub fee_receiver: Address,
    /// Number of deposits taken so far.
    pub deposited: u8,
    /// Bump of the round's own address.
    pub nonce: u8,
    /// The identifier that the round's creator chose.
    pub id: String,
    /// Bump of the vault's address.
    pub vault_nonce: u8,
    /// Reserved.
    pub last_hash: [u8; 32],
    /// The authority of the pool that the round belongs to.
    pub authority: Address,
}

/// A round as the contracts see it.
pub struct GameView {
    pub vault: Address,
    pub finished: bool,
    pub odd: u8,
    pub players: u8,
    pub bid: u64,
    pub creator: Address,
    pub fee_receiver: Address,
    pub deposited: u8,
    pub nonce: u8,
    pub id: Seq<char>,
    pub vault_nonce: u8,
    pub last_hash: Seq<u8>,
    pub authority: Address,
}

impl View for Game {
    type V = GameView;

    open spec fn view(&self) -> GameView {
        GameView {
            vault: self.vault,
            finished: self.finished,
            odd: self.odd,
            players: self.players,
            bid: self.bid,
            creator: self.creator,
            fee_receiver: self.fee_receiver,
            deposited: self.deposited,
            nonce: self.nonce,
            id: self.id@,
            vault_nonce: self.vault_nonce,
            last_hash: self.last_hash@,
            authority: self.authority,
        }
    }
}

impl Default for Game {
    /// A record of zeros, as the ledger allots it: no seats, no bid, an
    /// empty identifier.
    fn default() -> (game: Game)
        ensures
            !game.finished,
            game.odd == 0,
            game.players == 0,
            game.bid == 0,
            game.deposited == 0,
            game.nonce == 0,
            game.vault_nonce == 0,
            game.id@ == Seq::<char>::empty(),
            game.last_hash@ == Seq::new(32, |i: int| 0u8),
            game.vault.is_zero(),
            game.creator.is_zero(),
            game.fee_receiver.is_zero(),
            game.authority.is_zero(),
    {
        let game = Game {
            vault: Address::default(),
            finished: false,
            odd: 0,
            players: 0,
            bid: 0,
            creator: Address::default(),
            fee_receiver: Address::default(),
            deposited: 0,
            nonce: 0,
            id: String::new(),
            vault_nonce: 0,
            last_hash: [0u8; 32],
            authority: Address::default(),
        };
        assert(game.last_hash@ =~= Seq::new(32, |i: int| 0u8));
        game
    }
}

impl GameView {
    /// What holds of every round that the engine created and filled: it has
    /// at least one seat, never more deposits than seats, and is finished
    /// exactly when every seat is taken.
    pub open spec fn well_formed(self) -> bool {
        &&& self.players > 0
        &&& self.deposited <= self.players
        &&& self.finished <==> self.deposited == self.players
    }

    /// A round as `create_game` leaves it: open, with no deposit yet.
    pub open spec fn is_new(self) -> bool {
        &&& self.players > 0
        &&& self.deposited == 0
        &&& !self.finished
    }

    /// Whether one more deposit can be counted.
    pub open spec fn has_room(self) -> bool {
        self.deposited < u8::MAX
    }

    /// The round after one more deposit: the count goes up by one, and the
    /// round is finished if that deposit took the last seat.
    pub open spec fn seated(self) -> GameView {
        GameView {
            deposited: (self.deposited + 1) as u8,
            finished: self.finished || self.deposited + 1 == self.players,
            ..self
        }
    }
}

/// The receipt of one deposit: one per depositor and round, written once.
#[derive(Clone, Debug, PartialEq, Eq)]
pub struct Deposit {
    /// Who paid the bid.
    pub depositor: Address,
    /// When the deposit was taken.
    pub deposit_date: u64,
    /// Which deposit of the round this was, counting from one.
    pub deposit_index: u64,
    /// The round that the deposit went to.
    pub game_id: String,
}

impl Default for Deposit {
    /// A record of zeros, as the ledger allots it.
    fn default() -> (receipt: Deposit)
        ensures
            receipt.depositor.is_zero(),
            receipt.deposit_date == 0,
            receipt.deposit_index == 0,
            receipt.game_id@ == Seq::<char>::empty(),
    {
        Deposit {
            depositor: Address::default(),
            deposit_date: 0,
            deposit_index: 0,
            game_id: String::new(),
        }
    }
}

/// A receipt as the contracts see it.
pub struct DepositView {
    pub depositor: Address,
    pub deposit_date: u64,
    pub deposit_index: u64,
    pub game_id: Seq<char>,
}

impl View for Deposit {
    type V = DepositView;

    open spec fn view(&self) -> DepositView {
        DepositView {
            depositor: self.depositor,
            deposit_date: self.deposit_date,
            deposit_index: self.deposit_index,
            game_id: self.game_id@,
        }
    }
}

} // verus!
