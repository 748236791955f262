//! Addresses and their derivation from seeds.
//!
//! Every record of the engine lives at an address that the platform derives
//! from a list of byte-string seeds and the identity of the program that
//! owns the record. The derivation itself is the platform's; this module
//! gives its results a name and leaves the computing to the platform.

use anchor_lang::solana_program::pubkey::Pubkey;
use anchor_lang::solana_program::pubkey::PubkeyError;
use vstd::prelude::*;

verus! {

/// A 32-byte address: the identity of an account, a program or a person.
#[derive(Clone, Copy, Debug)]
pub struct Address {
    pub bytes: [u8; 32],
}

impl View for Address {
    type V = Seq<u8>;

    open spec fn view(&self) -> Seq<u8> {
        self.bytes@
    }
}

impl PartialEq for Address {
    /// Two addresses are equal when all their bytes are.
    fn eq(&self, other: &Address) -> (same: bool) {
        let mut i: usize = 0;
        while i < 32
            invariant
                i <= 32,
                forall|j: int| 0 <= j < i ==> self.bytes[j] == other.bytes[j],
            decreases 32 - i,
        {
            if self.bytes[i] != other.bytes[i] {
                return false;
            }
            i += 1;
        }
        assert(self.bytes =~= other.bytes);
        true
    }
}

impl Eq for Address {

}

impl vstd::std_specs::cmp::PartialEqSpecImpl for Address {
    open spec fn obeys_eq_spec() -> bool {
        true
    }

    open spec fn eq_spec(&self, other: &Address) -> bool {
        *self == *other
    }
}

impl Default for Address {
    /// The address of thirty-two zero bytes.
    fn default() -> (address: Address)
        ensures
            address.is_zero(),
    {
        let address = Address { bytes: [0u8; 32] };
        assert(address@ =~= Seq::new(32, |i: int| 0u8));
        address
    }
}

impl Address {
    /// Whether every byte of the address is zero.
    pub open spec fn is_zero(self) -> bool {
        self@ == Seq::new(32, |i: int| 0u8)
    }

    /// The address made of the given bytes.
    pub fn new(bytes: [u8; 32]) -> (address: Address)
        ensures
            address.bytes == bytes,
    {
        Address { bytes }
    }

    /// Addresses with the same bytes are the same address.
    pub proof fn lemma_view_injective(a: Address, b: Address)
        ensures
            (a@ == b@) <==> (a == b),
    {
        if a@ == b@ {
            assert(a.bytes =~= b.bytes);
        }
    }
}

/// The error type of the platform's address derivation.
#[verifier::external_type_specification]
#[verifier::external_body]
pub struct ExPubkeyError(PubkeyError);

/// The bytes of an address, where there is one.
pub open spec fn bytes_of(address: Option<Address>) -> Option<Seq<u8>> {
    match address {
        Some(a) => Some(a@),
        None => None,
    }
}

/// The bytes of an address found together with its bump, where there is one.
pub open spec fn bytes_and_bump_of(found: Option<(Address, u8)>) -> Option<(Seq<u8>, u8)> {
    match found {
        Some((a, bump)) => Some((a@, bump)),
        None => None,
    }
}

/// The address that the platform derives from `seeds` for the program
/// `program_id`, where these seeds have one: what
/// `Pubkey::create_program_address` returns, every error read as `None`.
pub uninterp spec fn program_address(seeds: Seq<Seq<u8>>, program_id: Seq<u8>) -> Option<Seq<u8>>;

/// The address that the platform finds for `seeds` and the program
/// `program_id` by trying bumps from the highest down, with the bump that it
/// stopped at: what `Pubkey::try_find_program_address` returns.
pub uninterp spec fn canonical_program_address(seeds: Seq<Seq<u8>>, program_id: Seq<u8>) -> Option<
    (Seq<u8>, u8),
>;

/// Calls `Pubkey::create_program_address`. The contract claims only that the
/// outcome is a function of the seeds and the program: an address where the
/// call succeeds, an error where it does not.
#[verifier::external_body]
pub(crate) fn pubkey_create_program_address(seeds: &[&[u8]], program_id: &Address) -> (derived:
    Result<Address, PubkeyError>)
    ensures
        derived matches Ok(address) ==> program_address(seeds.deep_view(), program_id@) == Some(
            address@,
        ),
        derived is Err ==> program_address(seeds.deep_view(), program_id@) is None,
{
    match Pubkey::create_program_address(seeds, &Pubkey::new_from_array(program_id.bytes)) {
        Ok(key) => Ok(Address { bytes: key.to_bytes() }),
        Err(e) => Err(e),
    }
}

/// Calls `Pubkey::try_find_program_address`. The contract claims only that
/// the outcome is a function of the seeds and the program.
#[verifier::external_body]
pub(crate) fn pubkey_try_find_program_address(seeds: &[&[u8]], program_id: &Address) -> (found:
    Option<(Address, u8)>)
    ensures
        bytes_and_bump_of(found) == canonical_program_address(seeds.deep_view(), program_id@),
{
    match Pubkey::try_find_program_address(seeds, &Pubkey::new_from_array(program_id.bytes)) {
        Some((key, bump)) => Some((Address { bytes: key.to_bytes() }, bump)),
        None => None,
    }
}

} // verus!
