//! The layout of the accounts that the custody primitive keeps, as far as the
//! escrow reads it.

use crate::account::AccountInfo;
use crate::errors::ProgramError;
use crate::pubkey::Pubkey;
use crate::state::read_u64;
use crate::ID;
use vstd::bytes::*;
use vstd::prelude::*;

verus! {

/// The address of the allocator service.
pub const SYSTEM_PROGRAM_ID: Pubkey = [
    0, 0, 0, 0, 0, 0, 0, 0, 0, 0, 0, 0, 0, 0, 0, 0, 0, 0, 0, 0, 0, 0, 0, 0, 0, 0, 0, 0, 0, 0, 0, 0,
];

/// The address of the custody primitive.
pub const TOKEN_PROGRAM_ID: Pubkey = [
    6, 221, 246, 225, 215, 101, 161, 147, 217, 203, 225, 70, 206, 235, 121, 172, 28, 180, 133, 237,
    95, 91, 55, 145, 58, 140, 245, 133, 126, 255, 0, 169,
];

/// The address of the service that derives and creates custody accounts.
pub const ASSOCIATED_TOKEN_PROGRAM_ID: Pubkey = [
    140, 151, 37, 143, 78, 36, 137, 241, 187, 61, 16, 41, 20, 142, 13, 131, 11, 90, 19, 153, 218,
    255, 16, 132, 4, 142, 123, 216, 219, 233, 248, 89,
];

/// The size of the record that describes an asset type.
pub const MINT_LEN: usize = 82;

/// The size of a custody account's record.
pub const TOKEN_ACCOUNT_LEN: usize = 165;

/// The asset type that a custody record holds.
pub open spec fn token_mint(data: Seq<u8>) -> Seq<u8> {
    data.subrange(0, 32)
}

/// The holder who may move what a custody record holds.
pub open spec fn token_owner(data: Seq<u8>) -> Seq<u8> {
    data.subrange(32, 64)
}

/// The quantity that a custody record holds.
pub open spec fn token_amount(data: Seq<u8>) -> u64 {
    spec_u64_from_le_bytes(data.subrange(64, 72))
}

/// Whether an account with this owner and these bytes is a custody account.
pub open spec fn is_token_account(owner: Seq<u8>, data: Seq<u8>) -> bool {
    owner == TOKEN_PROGRAM_ID@ && data.len() == TOKEN_ACCOUNT_LEN
}

/// A custody account, read through what the host presents of it.
pub struct TokenAccount;

impl TokenAccount {
    /// The size of a custody account's record.
    pub const LEN: usize = TOKEN_ACCOUNT_LEN;

    /// The quantity that the custody account holds. The account must belong to the
    /// custody primitive and have the size of a custody record.
    pub fn amount(account: &AccountInfo) -> (r: Result<u64, ProgramError>)
        ensures
            is_token_account(account@.owner, account@.data) ==> r == Ok::<u64, ProgramError>(
                token_amount(account@.data),
            ),
            !is_token_account(account@.owner, account@.data) ==> r == Err::<u64, ProgramError>(
                ProgramError::InvalidAccountData,
            ),
    {
        if account.data_len() != TokenAccount::LEN {
            return Err(ProgramError::InvalidAccountData);
        }
        if !account.is_owned_by(&TOKEN_PROGRAM_ID) {
            return Err(ProgramError::InvalidAccountData);
        }
        Ok(read_u64(account.data.as_slice(), 64))
    }
}

/// The custody primitive's code for a balance too small for the quantity to move.
pub const INSUFFICIENT_FUNDS: u32 = 1;

/// The custody primitive's code for two custody accounts of different assets.
pub const MINT_MISMATCH: u32 = 3;

/// The custody primitive's code for an authority that is not the holder.
pub const OWNER_MISMATCH: u32 = 4;

/// The custody primitive's code for closing a custody account that is not empty.
pub const NON_NATIVE_HAS_BALANCE: u32 = 11;

/// The custody primitive's code for a balance that would pass the largest number.
pub const OVERFLOW: u32 = 14;

/// Whether an account with this owner and these bytes describes an asset type.
pub open spec fn is_mint_account(owner: Seq<u8>, data: Seq<u8>) -> bool {
    owner == TOKEN_PROGRAM_ID@ && data.len() == MINT_LEN
}

/// `n` zero bytes.
pub open spec fn zeros(n: nat) -> Seq<u8> {
    Seq::new(n, |i: int| 0u8)
}

/// The record of a custody account in use that holds `amount` of the asset `mint`
/// for `owner`, with no delegate and nobody else who may close it.
pub open spec fn token_bytes(mint: Seq<u8>, owner: Seq<u8>, amount: u64) -> Seq<u8> {
    mint + owner + spec_u64_to_le_bytes(amount) + zeros(36) + seq![1u8] + zeros(56)
}

/// A custody record with another quantity.
pub open spec fn with_amount(data: Seq<u8>, amount: u64) -> Seq<u8> {
    data.subrange(0, 64) + spec_u64_to_le_bytes(amount) + data.subrange(72, data.len() as int)
}

/// A new quantity changes nothing else in a custody record, and is what is read
/// from it afterwards.
pub proof fn lemma_with_amount(data: Seq<u8>, amount: u64)
    requires
        data.len() == TOKEN_ACCOUNT_LEN,
    ensures
        with_amount(data, amount).len() == TOKEN_ACCOUNT_LEN,
        token_mint(with_amount(data, amount)) == token_mint(data),
        token_owner(with_amount(data, amount)) == token_owner(data),
        token_amount(with_amount(data, amount)) == amount,
        amount == token_amount(data) ==> with_amount(data, amount) == data,
{
    lemma_auto_spec_u64_to_from_le_bytes();
    let new = with_amount(data, amount);
    assert(token_mint(new) =~= token_mint(data));
    assert(token_owner(new) =~= token_owner(data));
    assert(new.subrange(64, 72) =~= spec_u64_to_le_bytes(amount));
    if amount == token_amount(data) {
        assert(spec_u64_to_le_bytes(spec_u64_from_le_bytes(data.subrange(64, 72)))
            == data.subrange(64, 72));
        assert(new =~= data);
    }
}

/// What is read from a new custody record is what it was made of.
pub proof fn lemma_token_bytes(mint: Seq<u8>, owner: Seq<u8>, amount: u64)
    requires
        mint.len() == 32,
        owner.len() == 32,
    ensures
        token_bytes(mint, owner, amount).len() == TOKEN_ACCOUNT_LEN,
        token_mint(token_bytes(mint, owner, amount)) == mint,
        token_owner(token_bytes(mint, owner, amount)) == owner,
        token_amount(token_bytes(mint, owner, amount)) == amount,
{
    lemma_auto_spec_u64_to_from_le_bytes();
    let bytes = token_bytes(mint, owner, amount);
    assert(token_mint(bytes) =~= mint);
    assert(token_owner(bytes) =~= owner);
    assert(bytes.subrange(64, 72) =~= spec_u64_to_le_bytes(amount));
}

/// The record of a new, empty custody account of `owner` for the asset `mint`.
pub fn new_token_data(mint: &Pubkey, owner: &Pubkey) -> (data: Vec<u8>)
    ensures
        data@ == token_bytes(mint@, owner@, 0),
        data@.len() == TOKEN_ACCOUNT_LEN,
{
    let mut data: Vec<u8> = Vec::new();
    data.extend_from_slice(mint.as_slice());
    data.extend_from_slice(owner.as_slice());
    let mut amount = u64_to_le_bytes(0);
    data.append(&mut amount);
    let ghost head = data@;
    let mut i: usize = 0;
    while i < 36
        invariant
            i <= 36,
            data@ == head + zeros(i as nat),
        decreases 36 - i,
    {
        data.push(0u8);
        assert(data@ =~= head + zeros((i + 1) as nat));
        i += 1;
    }
    data.push(1u8);
    let ghost middle = data@;
    let mut j: usize = 0;
    while j < 56
        invariant
            j <= 56,
            data@ == middle + zeros(j as nat),
        decreases 56 - j,
    {
        data.push(0u8);
        assert(data@ =~= middle + zeros((j + 1) as nat));
        j += 1;
    }
    assert(data@ =~= token_bytes(mint@, owner@, 0));
    data
}

/// Writes another quantity into a custody record.
pub fn set_token_amount(data: &mut Vec<u8>, amount: u64)
    requires
        old(data)@.len() == TOKEN_ACCOUNT_LEN,
    ensures
        final(data)@ == with_amount(old(data)@, amount),
{
    let bytes = u64_to_le_bytes(amount);
    let mut i: usize = 0;
    while i < 8
        invariant
            i <= 8,
            bytes@.len() == 8,
            data@.len() == TOKEN_ACCOUNT_LEN,
            forall|j: int| 0 <= j < 64 ==> data@[j] == old(data)@[j],
            forall|j: int| 0 <= j < i ==> data@[64 + j] == bytes@[j],
            forall|j: int| 64 + i <= j < 165 ==> data@[j] == old(data)@[j],
        decreases 8 - i,
    {
        data[64 + i] = bytes[i];
        i += 1;
    }
    assert(data@ =~= with_amount(old(data)@, amount));
}

/// This program, the custody primitive and the allocator are three programs.
pub proof fn lemma_programs_differ()
    ensures
        ID@ != TOKEN_PROGRAM_ID@,
        ID@ != SYSTEM_PROGRAM_ID@,
        TOKEN_PROGRAM_ID@ != SYSTEM_PROGRAM_ID@,
{
    assert(ID@[0] == 15);
    assert(TOKEN_PROGRAM_ID@[0] == 6);
    assert(SYSTEM_PROGRAM_ID@[0] == 0);
}

} // verus!
