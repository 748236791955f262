//! The split of a bid into the fee receiver's cut and the vault's cut.

use vstd::prelude::*;

verus! {

/// Share of a bid that goes to the fee receiver, in hundredths.
pub const FEE_PERCENT: u64 = 3;

/// Share of a bid that goes to the round's vault, in hundredths.
pub const VAULT_PERCENT: u64 = 97;

/// `floor(amount * percent / 100)`, or `None` where `amount * percent` does
/// not fit in 64 bits.
pub open spec fn spec_percent_of(amount: u64, percent: u64) -> Option<u64> {
    if amount * percent <= u64::MAX {
        Some(((amount * percent) / 100) as u64)
    } else {
        None
    }
}

/// The fee receiver's cut of `bid`.
pub open spec fn spec_fee_amount(bid: u64) -> Option<u64> {
    spec_percent_of(bid, FEE_PERCENT)
}

/// The vault's cut of `bid`.
pub open spec fn spec_vault_amount(bid: u64) -> Option<u64> {
    spec_percent_of(bid, VAULT_PERCENT)
}

/// Computes `percent` hundredths of `amount`, rounded down. The product is
/// formed first and checked: an overflow gives `None`, never a wrapped value.
pub fn percent_of(amount: u64, percent: u64) -> (cut: Option<u64>)
    ensures
        cut == spec_percent_of(amount, percent),
{
    match amount.checked_mul(percent) {
        Some(product) => product.checked_div(100),
        None => None,
    }
}

/// The fee receiver's cut of a bid: three hundredths, rounded down.
pub fn fee_amount(bid: u64) -> (cut: Option<u64>)
    ensures
        cut == spec_fee_amount(bid),
{
    percent_of(bid, FEE_PERCENT)
}

/// The vault's cut of a bid: ninety-seven hundredths, rounded down.
pub fn vault_amount(bid: u64) -> (cut: Option<u64>)
    ensures
        cut == spec_vault_amount(bid),
{
    percent_of(bid, VAULT_PERCENT)
}

/// Nothing is created by the split, and less than one unit of the bid is
/// lost to rounding: the two cuts together never exceed the bid, and fall
/// short of it by at most one.
pub proof fn lemma_split_accounts_for_bid(bid: u64)
    ensures
        spec_fee_amount(bid) matches Some(fee) ==> spec_vault_amount(bid) matches Some(rest) ==> {
            &&& fee + rest <= bid
            &&& bid - (fee + rest) <= 1
            &&& bid - (fee + rest) < 100
            &&& bid % 100 == 0 ==> fee + rest == bid
        },
{
}

} // verus!
