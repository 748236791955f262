//! The three operations of the engine: setting up a pool, opening a round,
//! and taking a deposit.
//!
//! Each operation first holds the accounts it was given against its rules,
//! and either refuses, changing nothing, or goes through whole.

use crate::accounts::CreateGame;
use crate::accounts::Deposit;
use crate::accounts::Initialize;
use crate::address::Address;
use crate::error::ErrorCode;
use crate::split::spec_vault_amount;
use crate::state::DepositView;
use crate::state::Game;
use crate::state::GameView;
use crate::state::Pool;
use crate::state::PoolView;
use crate::transfer::Payments;
use vstd::prelude::*;

verus! {

/// The identifier that a pool names as last finished before any round has
/// finished.
pub const NO_GAME: &'static str = "0";

impl Initialize {
    /// Whether `after` is what `initialize` makes of these accounts: the
    /// pool's record is set up for the authority, and nothing else differs.
    pub open spec fn initialized(&self, after: &Initialize, nonce: u8) -> bool {
        &&& after.authority == self.authority
        &&& after.pool_signer == self.pool_signer
        &&& after.owner == self.owner
        &&& after.pool.key == self.pool.key
        &&& after.pool.data matches Some(pool) && pool@ == (PoolView {
            game_count: 0,
            game_finished: NO_GAME@,
            nonce,
            authority: self.authority,
        })
    }
}

/// Sets up the pool: its authority is the given operator, its bump is
/// `nonce`, it has counted no round and names `"0"` as the round that
/// finished last.
///
/// Refused with `AlreadyInitialized` where the pool's record already holds
/// data, and with `ConstraintViolation` where the signer address is not the
/// one derived from the pool's address and `nonce`.
pub fn initialize(ctx: &mut Initialize, program_id: &Address, nonce: u8) -> (result: Result<
    (),
    ErrorCode,
>)
    ensures
        result == old(ctx).verdict(*program_id, nonce),
        result is Ok ==> old(ctx).initialized(final(ctx), nonce),
        result is Err ==> *final(ctx) == *old(ctx),
{
    match ctx.validate(program_id, nonce) {
        Ok(()) => {},
        Err(e) => {
            return Err(e);
        },
    }
    ctx.pool.data = Some(
        Pool {
            game_count: 0,
            game_finished: NO_GAME.to_owned(),
            nonce,
            authority: ctx.authority,
        },
    );
    Ok(())
}

impl CreateGame {
    /// Whether `after` is what `create_game` makes of these accounts: the
    /// round's record is created, open and empty, with the signer as its
    /// creator and fee receiver, and nothing else differs.
    pub open spec fn created(
        &self,
        after: &CreateGame,
        nonce: u8,
        vault_nonce: u8,
        id: Seq<char>,
        odd: u8,
        players: u8,
        bid: u64,
    ) -> bool {
        &&& after.pool == self.pool
        &&& after.vault == self.vault
        &&& after.signer == self.signer
        &&& after.game.key == self.game.key
        &&& after.game.data matches Some(game) && game@ == (GameView {
            vault: self.vault,
            finished: false,
            odd,
            players,
            bid,
            creator: self.signer,
            fee_receiver: self.signer,
            deposited: 0,
            nonce,
            id,
            vault_nonce,
            last_hash: Seq::new(32, |i: int| 0u8),
            authority: self.pool.data.authority,
        })
    }
}

/// Opens a round in the pool: `players` seats at `bid` each, under the
/// identifier `id`. The round starts open and empty. Its creator, who is
/// also its fee receiver, is the signer; its authority is the pool's. No
/// funds move, and the pool's record is not touched.
///
/// Refused with `AddressAlreadyInUse` where a round with this identifier
/// exists, with `ConstraintViolation` where the round's or the vault's
/// address is not the one found for the pool and `id`, and with
/// `InvalidCapacity` where `players` is zero.
pub fn create_game(
    ctx: &mut CreateGame,
    program_id: &Address,
    nonce: u8,
    vault_nonce: u8,
    id: String,
    odd: u8,
    players: u8,
    bid: u64,
) -> (result: Result<(), ErrorCode>)
    ensures
        result == old(ctx).verdict(*program_id, id@, players),
        result is Ok ==> old(ctx).created(final(ctx), nonce, vault_nonce, id@, odd, players, bid),
        result is Ok ==> (final(ctx).game.data matches Some(game) && game@.is_new()
            && game@.well_formed()),
        result is Err ==> *final(ctx) == *old(ctx),
{
    match ctx.validate(program_id, id.as_str(), players) {
        Ok(()) => {},
        Err(e) => {
            return Err(e);
        },
    }
    let game = Game {
        vault: ctx.vault,
        finished: false,
        odd,
        players,
        bid,
        creator: ctx.signer,
        fee_receiver: ctx.signer,
        deposited: 0,
        nonce,
        id,
        vault_nonce,
        last_hash: [0u8; 32],
        authority: ctx.pool.data.authority,
    };
    assert(game.last_hash@ =~= Seq::new(32, |i: int| 0u8));
    ctx.game.data = Some(game);
    Ok(())
}

impl Deposit {
    /// Whether `after` is what an accepted deposit at the time `now` makes
    /// of these accounts: the receipt is written, the round has one deposit
    /// more, the pool names the round if that deposit finished it, and
    /// nothing else differs.
    pub open spec fn accepted(&self, after: &Deposit, now: u64) -> bool {
        &&& after.vault == self.vault
        &&& after.depositor == self.depositor
        &&& after.fee_receiver == self.fee_receiver
        &&& after.pool_signer == self.pool_signer
        &&& after.signer == self.signer
        &&& after.pool.key == self.pool.key
        &&& after.game.key == self.game.key
        &&& after.deposit.key == self.deposit.key
        &&& after.deposit.data matches Some(receipt) && receipt@ == (DepositView {
            depositor: self.depositor,
            deposit_date: now,
            deposit_index: (self.game.data.deposited + 1) as u64,
            game_id: self.game.data.id@,
        })
        &&& after.game.data@ == self.game.data@.seated()
        &&& after.pool.data@ == self.pool.data@.noting(self.game.data@.seated())
    }

    /// Whether `after` is what `deposit` at the time `now` makes of these
    /// accounts: an accepted deposit where it goes ahead, no change at all
    /// where it is refused.
    pub open spec fn leads_to(&self, after: &Deposit, program_id: Address, now: u64) -> bool {
        if self.verdict(program_id) is Ok {
            self.accepted(after, now)
        } else {
            *after == *self
        }
    }
}

/// Takes one deposit into a round, at the time `now`.
///
/// The bid is split into the fee receiver's cut and the vault's cut, the
/// depositor's receipt is written with the position that this deposit has in
/// the round, and the round counts one deposit more. With the deposit that
/// takes the last seat the round is finished, and the pool names it as the
/// round that finished last. The payments are returned for the ledger to
/// carry out: the fee first, then the vault's cut.
///
/// Refused, in this order, with `ConstraintViolation` where an address is
/// not the expected one, with `FinishedGame` where the round is finished,
/// with `ArithmeticOverflow` where the split or the count overflows, and
/// with `DuplicateDeposit` where the depositor already has a receipt for
/// the round.
pub fn deposit(ctx: &mut Deposit, program_id: &Address, now: u64) -> (result: Result<
    Payments,
    ErrorCode,
>)
    ensures
        result matches Err(e) ==> old(ctx).verdict(*program_id) == Err::<(), ErrorCode>(e),
        result is Ok ==> old(ctx).verdict(*program_id) is Ok,
        result matches Ok(payments) ==> payments.pays(
            old(ctx).game.data.bid,
            old(ctx).depositor,
            old(ctx).fee_receiver,
            old(ctx).vault,
        ),
        old(ctx).leads_to(final(ctx), *program_id, now),
        old(ctx).game.data.finished ==> result is Err,
        old(ctx).game.data.finished && old(ctx).constraints_hold(*program_id) ==> (result matches Err(
            e,
        ) && e == ErrorCode::FinishedGame),
        old(ctx).game.data@.well_formed() ==> final(ctx).game.data@.well_formed(),
        final(ctx).game.data.deposited >= old(ctx).game.data.deposited,
{
    if !ctx.constraints_met(program_id) {
        return Err(ErrorCode::ConstraintViolation);
    }
    if ctx.game.data.finished {
        return Err(ErrorCode::FinishedGame);
    }
    let payments = match Payments::of_bid(
        ctx.game.data.bid,
        &ctx.depositor,
        &ctx.fee_receiver,
        &ctx.vault,
    ) {
        Ok(payments) => payments,
        Err(e) => {
            return Err(e);
        },
    };
    let deposited = match ctx.game.data.deposited.checked_add(1) {
        Some(count) => count,
        None => {
            return Err(ErrorCode::ArithmeticOverflow);
        },
    };
    if ctx.deposit.data.is_some() {
        return Err(ErrorCode::DuplicateDeposit);
    }
    ctx.deposit.data = Some(
        crate::state::Deposit {
            depositor: ctx.depositor,
            deposit_date: now,
            deposit_index: deposited as u64,
            game_id: ctx.game.data.id.clone(),
        },
    );
    ctx.game.data.deposited = deposited;
    if ctx.game.data.deposited == ctx.game.data.players {
        ctx.game.data.finished = true;
        ctx.pool.data.game_finished = ctx.game.data.id.clone();
    }
    Ok(payments)
}

/// The pool and a round after `n` more deposits into the round have been
/// accepted.
pub open spec fn after_deposits(pool: PoolView, game: GameView, n: nat) -> (PoolView, GameView)
    decreases n,
{
    if n == 0 {
        (pool, game)
    } else {
        let (p, g) = after_deposits(pool, game, (n - 1) as nat);
        (p.noting(g.seated()), g.seated())
    }
}

/// A round fills seat by seat and finishes with its last seat. Of a round as
/// `create_game` leaves it, after `n` accepted deposits, `n` no more than
/// the number of seats: the round has counted `n` deposits, and never more
/// than it has seats; it is finished if and only if `n` is the number of
/// seats; the pool names the round as last finished from then on, and is
/// untouched before.
pub proof fn lemma_round_finishes_with_last_seat(pool: PoolView, game: GameView, n: nat)
    requires
        game.is_new(),
        n <= game.players,
    ensures
        ({
            let (p, g) = after_deposits(pool, game, n);
            &&& g.deposited == n
            &&& g.deposited <= g.players
            &&& g.well_formed()
            &&& g.finished <==> n == game.players
            &&& n == game.players ==> p.game_finished == game.id
            &&& n < game.players ==> p == pool
            &&& g == GameView { deposited: g.deposited, finished: g.finished, ..game }
            &&& p == PoolView { game_finished: p.game_finished, ..pool }
        }),
    decreases n,
{
    if n > 0 {
        lemma_round_finishes_with_last_seat(pool, game, (n - 1) as nat);
    }
}

/// A finished round stays as it is: `deposit` refuses every call on it and
/// changes nothing, and where the addresses are in order the refusal is
/// `FinishedGame`.
pub proof fn lemma_finished_round_is_closed(
    before: Deposit,
    after: Deposit,
    program_id: Address,
    now: u64,
)
    requires
        before.game.data.finished,
        before.leads_to(&after, program_id, now),
    ensures
        before.verdict(program_id) is Err,
        before.constraints_hold(program_id) ==> before.verdict(program_id) == Err::<(), ErrorCode>(
            ErrorCode::FinishedGame,
        ),
        after == before,
{
}

/// One seat per depositor and round. Let a deposit have been accepted, and
/// let the same depositor try the same round again, at any later time and
/// whatever has happened to the round since, the ledger still holding the
/// receipt where the first deposit wrote it. Then the second attempt is
/// refused and changes nothing, so the round's count stays as it was. Where
/// nothing else is wrong (the addresses are in order, the round is still
/// open and the bid can be split), the refusal is `DuplicateDeposit`.
pub proof fn lemma_second_deposit_is_refused(
    first: Deposit,
    after_first: Deposit,
    second: Deposit,
    after_second: Deposit,
    program_id: Address,
    first_time: u64,
    second_time: u64,
)
    requires
        first.verdict(program_id) is Ok,
        first.leads_to(&after_first, program_id, first_time),
        second.depositor == first.depositor,
        second.game.data.id@ == first.game.data.id@,
        second.deposit.key == after_first.deposit.key ==> second.deposit.data is Some,
        second.leads_to(&after_second, program_id, second_time),
    ensures
        second.verdict(program_id) is Err,
        after_second == second,
        after_second.game.data.deposited == second.game.data.deposited,
        second.constraints_hold(program_id) && !second.game.data.finished && spec_vault_amount(
            second.game.data.bid,
        ) is Some && second.game.data@.has_room() ==> second.verdict(program_id) == Err::<
            (),
            ErrorCode,
        >(ErrorCode::DuplicateDeposit),
{
    if second.constraints_hold(program_id) {
        Address::lemma_view_injective(second.deposit.key, first.deposit.key);
    }
}

} // verus!
