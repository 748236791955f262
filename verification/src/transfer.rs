//! The two payments of a deposit, as instructions to the ledger.
//!
//! The engine moves no funds itself. It says which transfers a deposit
//! consists of; whoever runs the engine hands them to the ledger, which
//! applies each of them wholly or not at all.

use crate::address::Address;
use crate::error::ErrorCode;
use crate::split::fee_amount;
use crate::split::spec_fee_amount;
use crate::split::spec_vault_amount;
use crate::split::vault_amount;
use anchor_lang::solana_program::pubkey::Pubkey;
use anchor_lang::solana_program::system_instruction;
use vstd::prelude::*;

verus! {

/// An account that an instruction touches, and how.
#[derive(Clone, Copy, Debug, PartialEq, Eq)]
pub struct AccountMeta {
    /// The account's address.
    pub pubkey: Address,
    /// Whether the account has to sign the transaction.
    pub is_signer: bool,
    /// Whether the instruction may change the account.
    pub is_writable: bool,
}

/// An instruction to a program of the ledger.
#[derive(Clone, Debug, PartialEq, Eq)]
pub struct Instruction {
    /// The program that carries the instruction out.
    pub program_id: Address,
    /// The accounts that it touches, in the order in which the program
    /// expects them.
    pub accounts: Vec<AccountMeta>,
    /// What the program is asked to do, in its own encoding.
    pub data: Vec<u8>,
}

/// An instruction as the contracts see it.
pub struct InstructionView {
    pub program_id: Address,
    pub accounts: Seq<AccountMeta>,
    pub data: Seq<u8>,
}

impl View for Instruction {
    type V = InstructionView;

    open spec fn view(&self) -> InstructionView {
        InstructionView { program_id: self.program_id, accounts: self.accounts@, data: self.data@ }
    }
}

/// The accounts of a transfer: the sender, who signs, and the receiver. Both
/// are changed by it.
pub open spec fn transfer_accounts(from: Address, to: Address) -> Seq<AccountMeta> {
    seq![
        AccountMeta { pubkey: from, is_signer: true, is_writable: true },
        AccountMeta { pubkey: to, is_signer: false, is_writable: true },
    ]
}

/// The system program's encoding of the request to move `lamports`: the data
/// of the instruction that `system_instruction::transfer` builds.
pub uninterp spec fn transfer_data(lamports: u64) -> Seq<u8>;

/// Whether `instruction` asks the system program, which lives at the zero
/// address, to move `lamports` from `from` to `to`.
pub open spec fn is_transfer(
    instruction: InstructionView,
    from: Address,
    to: Address,
    lamports: u64,
) -> bool {
    &&& instruction.program_id.is_zero()
    &&& instruction.accounts == transfer_accounts(from, to)
    &&& instruction.data == transfer_data(lamports)
}

/// Calls `system_instruction::transfer`. The contract claims that the
/// instruction is addressed to the system program, whose address is
/// thirty-two zero bytes, that it names the sender as a writable signer and
/// then the receiver as writable, and that its data depends on the amount
/// alone.
#[verifier::external_body]
fn system_transfer(from: &Address, to: &Address, lamports: u64) -> (instruction: Instruction)
    ensures
        instruction.program_id.is_zero(),
        instruction.accounts@ == transfer_accounts(*from, *to),
        instruction.data@ == transfer_data(lamports),
{
    let from_key = Pubkey::new_from_array(from.bytes);
    let to_key = Pubkey::new_from_array(to.bytes);
    let built = system_instruction::transfer(&from_key, &to_key, lamports);
    let accounts = built.accounts.iter().map(
        |meta|
            AccountMeta {
                pubkey: Address { bytes: meta.pubkey.to_bytes() },
                is_signer: meta.is_signer,
                is_writable: meta.is_writable,
            },
    ).collect();
    Instruction { program_id: Address { bytes: built.program_id.to_bytes() }, accounts, data: built.data }
}

/// What one deposit pays: the fee receiver's cut and the vault's cut, each
/// with the transfer that moves it out of the depositor's account.
#[derive(Clone, Debug, PartialEq, Eq)]
pub struct Payments {
    /// The fee receiver's cut of the bid.
    pub fee_amount: u64,
    /// The vault's cut of the bid.
    pub vault_amount: u64,
    /// Moves `fee_amount` from the depositor to the fee receiver. To be
    /// carried out first.
    pub fee_transfer: Instruction,
    /// Moves `vault_amount` from the depositor to the vault. To be carried
    /// out second.
    pub vault_transfer: Instruction,
}

impl Payments {
    /// Whether these are the payments of a bid of `bid` by `depositor` into
    /// a round with the given fee receiver and vault.
    pub open spec fn pays(
        self,
        bid: u64,
        depositor: Address,
        fee_receiver: Address,
        vault: Address,
    ) -> bool {
        &&& spec_fee_amount(bid) == Some(self.fee_amount)
        &&& spec_vault_amount(bid) == Some(self.vault_amount)
        &&& is_transfer(self.fee_transfer@, depositor, fee_receiver, self.fee_amount)
        &&& is_transfer(self.vault_transfer@, depositor, vault, self.vault_amount)
    }

    /// Splits `bid` and builds the two transfers. Fails where the split
    /// overflows, and only there.
    pub fn of_bid(bid: u64, depositor: &Address, fee_receiver: &Address, vault: &Address) -> (result:
        Result<Payments, ErrorCode>)
        ensures
            result matches Ok(payments) ==> payments.pays(bid, *depositor, *fee_receiver, *vault),
            result matches Err(e) ==> e == ErrorCode::ArithmeticOverflow,
            result is Ok <==> spec_vault_amount(bid) is Some,
    {
        let fee = match fee_amount(bid) {
            Some(amount) => amount,
            None => { return Err(ErrorCode::ArithmeticOverflow); },
        };
        let rest = match vault_amount(bid) {
            Some(amount) => amount,
            None => { return Err(ErrorCode::ArithmeticOverflow); },
        };
        Ok(
            Payments {
                fee_amount: fee,
                vault_amount: rest,
                fee_transfer: system_transfer(depositor, fee_receiver, fee),
                vault_transfer: system_transfer(depositor, vault, rest),
            },
        )
    }
}

} // verus!
