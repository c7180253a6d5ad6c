//! The three protocols of the escrow.

use crate::account::{AccountInfo, AccountView};
use crate::errors::ProgramError;
use crate::pubkey::{pubkey_eq, Pubkey};
use crate::state::Escrow;
use vstd::prelude::*;

pub mod make;
pub mod refund;
pub mod take;

verus! {

/// Why an escrow account is refused for the maker `maker`, if it is: its data has
/// not the size of a record, or the account does not lie at the address that
/// `maker` derives with the number and the bump of its record.
pub open spec fn record_failure(escrow: AccountView, maker: Seq<u8>) -> Option<ProgramError> {
    if escrow.data.len() != Escrow::LEN {
        Some(ProgramError::InvalidAccountData)
    } else if Escrow::spec_address(
        maker,
        Escrow::spec_seed_in(escrow.data),
        Escrow::spec_bump_in(escrow.data),
    ) != Some(escrow.key) {
        Some(ProgramError::InvalidAccountOwner)
    } else {
        None
    }
}

/// Reads the record of an escrow account and holds the account's address against
/// the one that the record derives for `maker`: whoever names another maker, or
/// presents an account elsewhere, is refused whatever the bytes say.
pub fn load_record(escrow: &AccountInfo, maker: &Pubkey) -> (r: Result<Escrow, ProgramError>)
    ensures
        match record_failure(escrow@, maker@) {
            Some(e) => r == Err::<Escrow, ProgramError>(e),
            None => r is Ok && r->Ok_0.spec_is_loaded_from(escrow@.data),
        },
{
    let record = Escrow::load(escrow.data.as_slice())?;
    match Escrow::derive_address(maker, record.seed, record.bump) {
        Some(address) => {
            if pubkey_eq(&address, &escrow.key) {
                Ok(record)
            } else {
                Err(ProgramError::InvalidAccountOwner)
            }
        },
        None => Err(ProgramError::InvalidAccountOwner),
    }
}

} // verus!
