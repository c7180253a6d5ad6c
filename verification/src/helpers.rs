//! The checks that an account of an instruction has to pass for its role.

use crate::account::{AccountInfo, AccountView};
use crate::action::{Action, ActionView};
use crate::errors::{PinocchioError, ProgramError};
use crate::pubkey::{found_program_address, pubkey_bytes, pubkey_eq, seeds_view, Pubkey};
use crate::pubkey::try_find_program_address;
use crate::token::{ASSOCIATED_TOKEN_PROGRAM_ID, MINT_LEN};
use crate::ID;
use vstd::prelude::*;

verus! {

/// The failure under which the host reports a check that did not pass.
pub open spec fn check_failure(e: PinocchioError) -> ProgramError {
    ProgramError::Custom(e.spec_code())
}

/// The canonical address of the custody account of `wallet` for the asset `mint`
/// under the custody program `token_program`, if the search finds one.
pub open spec fn spec_associated_address(
    wallet: Seq<u8>,
    token_program: Seq<u8>,
    mint: Seq<u8>,
) -> Option<Seq<u8>> {
    match found_program_address(seq![wallet, token_program, mint], ASSOCIATED_TOKEN_PROGRAM_ID@) {
        Some((address, _)) => Some(address),
        None => None,
    }
}

/// Whether `account` is the custody account of `authority` for the asset `mint`
/// under `token_program`: it lies at the canonical address and belongs to the
/// custody program.
pub open spec fn is_associated_account(
    account: AccountView,
    authority: AccountView,
    mint: AccountView,
    token_program: AccountView,
) -> bool {
    &&& account.owner == token_program.key
    &&& spec_associated_address(authority.key, token_program.key, mint.key) == Some(account.key)
}

/// An account that has to authorize the instruction.
pub struct SignerAccount;

/// An account that holds data of this program.
pub struct ProgramAccount;

/// An account that describes an asset type.
pub struct MintInterface;

/// A custody account bound to one holder and one asset type.
pub struct AssociatedTokenAccount;

impl SignerAccount {
    /// Passes if and only if the account has signed the instruction.
    pub fn check(account: &AccountInfo) -> (r: Result<(), ProgramError>)
        ensures
            account@.is_signer ==> r is Ok,
            !account@.is_signer ==> r == Err::<(), ProgramError>(
                check_failure(PinocchioError::NotSigner),
            ),
    {
        if !account.is_signer {
            return Err(ProgramError::from(PinocchioError::NotSigner));
        }
        Ok(())
    }
}

impl ProgramAccount {
    /// Passes if and only if this program owns the account.
    pub fn check(account: &AccountInfo) -> (r: Result<(), ProgramError>)
        ensures
            account@.owner == ID@ ==> r is Ok,
            account@.owner != ID@ ==> r == Err::<(), ProgramError>(
                check_failure(PinocchioError::InvalidOwner),
            ),
    {
        if !account.is_owned_by(&ID) {
            return Err(ProgramError::from(PinocchioError::InvalidOwner));
        }
        Ok(())
    }

    /// The step that opens `account` as an account of this program with `space`
    /// bytes, paid by `payer`.
    pub fn init(payer: &AccountInfo, account: &AccountInfo, space: usize) -> (action: Action)
        ensures
            action == (Action::CreateAccount {
                from: payer.key,
                to: account.key,
                space: space as u64,
                owner: ID,
            }),
    {
        Action::CreateAccount { from: payer.key, to: account.key, space: space as u64, owner: ID }
    }

    /// The step that gives up `account` and hands its reserve to `destination`.
    pub fn close(account: &AccountInfo, destination: &AccountInfo) -> (action: Action)
        ensures
            action == (Action::CloseRecord { account: account.key, destination: destination.key }),
    {
        Action::CloseRecord { account: account.key, destination: destination.key }
    }
}

impl MintInterface {
    /// Passes if and only if the account stores a record of the size of an asset
    /// type's.
    pub fn check(account: &AccountInfo) -> (r: Result<(), ProgramError>)
        ensures
            account@.data.len() == MINT_LEN ==> r is Ok,
            account@.data.len() != MINT_LEN ==> r == Err::<(), ProgramError>(
                check_failure(PinocchioError::InvalidAccountData),
            ),
    {
        if account.data_len() != MINT_LEN {
            return Err(ProgramError::from(PinocchioError::InvalidAccountData));
        }
        Ok(())
    }
}

impl AssociatedTokenAccount {
    /// The canonical address of the custody account of `wallet` for the asset
    /// `mint` under the custody program `token_program`.
    pub fn address(wallet: &Pubkey, token_program: &Pubkey, mint: &Pubkey) -> (r: Option<Pubkey>)
        ensures
            match r {
                Some(a) => spec_associated_address(wallet@, token_program@, mint@) == Some(a@),
                None => spec_associated_address(wallet@, token_program@, mint@) is None,
            },
    {
        let mut seeds: Vec<Vec<u8>> = Vec::new();
        seeds.push(pubkey_bytes(wallet));
        seeds.push(pubkey_bytes(token_program));
        seeds.push(pubkey_bytes(mint));
        assert(seeds_view(&seeds) =~= seq![wallet@, token_program@, mint@]);
        match try_find_program_address(&seeds, &ASSOCIATED_TOKEN_PROGRAM_ID) {
            Some((address, _)) => Some(address),
            None => None,
        }
    }

    /// Passes if and only if `account` is the custody account of `authority` for
    /// the asset `mint` under `token_program`.
    pub fn check(
        account: &AccountInfo,
        authority: &AccountInfo,
        mint: &AccountInfo,
        token_program: &AccountInfo,
    ) -> (r: Result<(), ProgramError>)
        ensures
            is_associated_account(account@, authority@, mint@, token_program@) ==> r is Ok,
            !is_associated_account(account@, authority@, mint@, token_program@) ==> r == Err::<
                (),
                ProgramError,
            >(check_failure(PinocchioError::InvalidAddress)),
    {
        if !account.is_owned_by(&token_program.key) {
            return Err(ProgramError::from(PinocchioError::InvalidAddress));
        }
        match AssociatedTokenAccount::address(&authority.key, &token_program.key, &mint.key) {
            Some(address) => {
                if pubkey_eq(&address, &account.key) {
                    Ok(())
                } else {
                    Err(ProgramError::from(PinocchioError::InvalidAddress))
                }
            },
            None => Err(ProgramError::from(PinocchioError::InvalidAddress)),
        }
    }

    /// The step that opens `account` as the custody account of `owner` for the
    /// asset `mint`, paid by `payer`.
    pub fn init(
        account: &AccountInfo,
        mint: &AccountInfo,
        payer: &AccountInfo,
        owner: &AccountInfo,
    ) -> (action: Action)
        ensures
            action == (Action::CreateAssociatedAccount {
                funder: payer.key,
                account: account.key,
                wallet: owner.key,
                mint: mint.key,
            }),
    {
        Action::CreateAssociatedAccount {
            funder: payer.key,
            account: account.key,
            wallet: owner.key,
            mint: mint.key,
        }
    }

    /// The step that opens `account` as the custody account of `owner` for the
    /// asset `mint`, where it is not that account already.
    pub fn init_if_needed(
        account: &AccountInfo,
        mint: &AccountInfo,
        payer: &AccountInfo,
        owner: &AccountInfo,
        token_program: &AccountInfo,
    ) -> (r: Option<Action>)
        ensures
            match r {
                Some(action) => spec_init_if_needed(
                    account@,
                    mint@,
                    payer@,
                    owner@,
                    token_program@,
                ) == Some(action@),
                None => spec_init_if_needed(account@, mint@, payer@, owner@, token_program@)
                    is None,
            },
    {
        match AssociatedTokenAccount::check(account, owner, mint, token_program) {
            Ok(_) => None,
            Err(_) => Some(AssociatedTokenAccount::init(account, mint, payer, owner)),
        }
    }
}

/// Nothing where `account` is the custody account of `owner` for `mint` already,
/// else the step that opens it.
pub open spec fn spec_init_if_needed(
    account: AccountView,
    mint: AccountView,
    payer: AccountView,
    owner: AccountView,
    token_program: AccountView,
) -> Option<ActionView> {
    if is_associated_account(account, owner, mint, token_program) {
        None
    } else {
        Some(
            ActionView::CreateAssociatedAccount {
                funder: payer.key,
                account: account.key,
                wallet: owner.key,
                mint: mint.key,
            },
        )
    }
}

} // verus!
