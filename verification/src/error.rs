//! The ways in which an operation of the engine is refused.

use vstd::prelude::*;

verus! {

/// Why an operation was refused. Every refusal is final for the call that
/// met it and leaves every record as it was.
#[derive(Clone, Copy, Debug, PartialEq, Eq, Structural)]
pub enum ErrorCode {
    /// The pool record to be set up already holds data.
    AlreadyInitialized,
    /// A round with this identifier already has a record.
    AddressAlreadyInUse,
    /// A round needs at least one seat.
    InvalidCapacity,
    /// A supplied address is not the one that the records or the derivation
    /// call for.
    ConstraintViolation,
    /// The round has all its deposits and takes no more.
    FinishedGame,
    /// The split of the bid does not fit the currency's integer range.
    ArithmeticOverflow,
    /// This depositor already holds a receipt for this round.
    DuplicateDeposit,
}

impl ErrorCode {
    /// The text that `message` gives for each refusal.
    pub open spec fn spec_message(self) -> Seq<char> {
        match self {
            ErrorCode::AlreadyInitialized => "The pool is initialized already."@,
            ErrorCode::AddressAlreadyInUse => "This game exists already."@,
            ErrorCode::InvalidCapacity => "A game needs at least one player."@,
            ErrorCode::ConstraintViolation => "An account does not match its constraint."@,
            ErrorCode::FinishedGame => "Finished Game."@,
            ErrorCode::ArithmeticOverflow => "The bid is too large to be split."@,
            ErrorCode::DuplicateDeposit => "This address deposited already."@,
        }
    }

    /// A sentence for the person whose call was refused.
    pub fn message(&self) -> (text: String)
        ensures
            text@ == self.spec_message(),
    {
        match self {
            ErrorCode::AlreadyInitialized => "The pool is initialized already.".to_owned(),
            ErrorCode::AddressAlreadyInUse => "This game exists already.".to_owned(),
            ErrorCode::InvalidCapacity => "A game needs at least one player.".to_owned(),
            ErrorCode::ConstraintViolation => "An account does not match its constraint.".to_owned(),
            ErrorCode::FinishedGame => "Finished Game.".to_owned(),
            ErrorCode::ArithmeticOverflow => "The bid is too large to be split.".to_owned(),
            ErrorCode::DuplicateDeposit => "This address deposited already.".to_owned(),
        }
    }
}

} // verus!
