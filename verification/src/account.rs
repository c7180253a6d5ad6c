//! What the host tells the program about the accounts of an instruction.

use crate::pubkey::{pubkey_eq, Pubkey};
use vstd::prelude::*;

verus! {

/// One account of an instruction, as the host presents it: plain values, read
/// before the instruction runs.
#[derive(Clone, Debug, PartialEq, Eq)]
pub struct AccountInfo {
    /// The address of the account.
    pub key: Pubkey,
    /// The program that owns the account.
    pub owner: Pubkey,
    /// The balance that the account holds in reserve.
    pub lamports: u64,
    /// The bytes that the account stores.
    pub data: Vec<u8>,
    /// Whether the holder of this address has signed the instruction.
    pub is_signer: bool,
    /// Whether the instruction may change the account.
    pub is_writable: bool,
}

/// An account of an instruction as a mathematical value.
pub struct AccountView {
    pub key: Seq<u8>,
    pub owner: Seq<u8>,
    pub lamports: u64,
    pub data: Seq<u8>,
    pub is_signer: bool,
    pub is_writable: bool,
}

impl View for AccountInfo {
    type V = AccountView;

    open spec fn view(&self) -> AccountView {
        AccountView {
            key: self.key@,
            owner: self.owner@,
            lamports: self.lamports,
            data: self.data@,
            is_signer: self.is_signer,
            is_writable: self.is_writable,
        }
    }
}

/// The accounts of an instruction's list as mathematical values.
pub open spec fn views(accounts: Seq<AccountInfo>) -> Seq<AccountView> {
    Seq::new(accounts.len(), |i: int| accounts[i]@)
}

impl AccountInfo {
    /// Whether `program` owns the account.
    pub fn is_owned_by(&self, program: &Pubkey) -> (r: bool)
        ensures
            r == (self@.owner == program@),
    {
        pubkey_eq(&self.owner, program)
    }

    /// How many bytes the account stores.
    pub fn data_len(&self) -> (len: usize)
        ensures
            len == self@.data.len(),
    {
        self.data.len()
    }
}

} // verus!
