//! Take: a taker pays what the maker asked and receives the deposit.

use crate::account::{views, AccountInfo, AccountView};
use crate::action::{optional_step, Action, ActionView, Plan, PlanView};
use crate::errors::{PinocchioError, ProgramError};
use crate::helpers::{
    check_failure, is_associated_account, spec_init_if_needed, AssociatedTokenAccount,
    MintInterface, ProgramAccount, SignerAccount,
};
use crate::instructions::{load_record, record_failure};
use crate::state::Escrow;
use crate::token::{is_token_account, token_amount, TokenAccount, MINT_LEN};
use crate::ID;
use vstd::prelude::*;
use vstd::std_specs::convert::TryFromSpecImpl;

verus! {

/// The accounts of a Take instruction, in the order of the instruction's list.
pub struct TakeAccounts<'a> {
    pub taker: &'a AccountInfo,
    pub maker: &'a AccountInfo,
    pub escrow: &'a AccountInfo,
    pub mint_a: &'a AccountInfo,
    pub mint_b: &'a AccountInfo,
    pub vault: &'a AccountInfo,
    pub taker_ata_a: &'a AccountInfo,
    pub taker_ata_b: &'a AccountInfo,
    pub maker_ata_b: &'a AccountInfo,
    pub system_program: &'a AccountInfo,
    pub token_program: &'a AccountInfo,
}

/// The first check that a Take instruction's list of accounts does not pass, if
/// there is one: the list is too short, the taker has not signed, the escrow
/// account is not this program's, one of the two asset types is no asset type, or
/// the account from which the taker pays is not the taker's custody account for
/// the second asset.
pub open spec fn take_accounts_failure(accounts: Seq<AccountView>) -> Option<ProgramError> {
    if accounts.len() < 12 {
        Some(ProgramError::NotEnoughAccountKeys)
    } else if !accounts[0].is_signer {
        Some(check_failure(PinocchioError::NotSigner))
    } else if accounts[2].owner != ID@ {
        Some(check_failure(PinocchioError::InvalidOwner))
    } else if accounts[3].data.len() != MINT_LEN || accounts[4].data.len() != MINT_LEN {
        Some(check_failure(PinocchioError::InvalidAccountData))
    } else if !is_associated_account(accounts[7], accounts[0], accounts[4], accounts[10]) {
        Some(check_failure(PinocchioError::InvalidAddress))
    } else {
        None
    }
}

/// Why a Take instruction whose accounts have passed their checks is refused, if
/// it is: the escrow account holds no record, or does not lie at the address that
/// its record and the maker derive; the custody account is not the escrow
/// account's custody account for the first asset, or holds no custody record.
pub open spec fn take_failure(accounts: Seq<AccountView>) -> Option<ProgramError> {
    if record_failure(accounts[2], accounts[1].key) is Some {
        record_failure(accounts[2], accounts[1].key)
    } else if !is_associated_account(accounts[5], accounts[2], accounts[3], accounts[10]) {
        Some(check_failure(PinocchioError::InvalidAddress))
    } else if !is_token_account(accounts[5].owner, accounts[5].data) {
        Some(ProgramError::InvalidAccountData)
    } else {
        None
    }
}

/// The plan of a Take instruction with accounts `accounts`. The escrow record's
/// own authority signs: its seeds under the maker that the instruction names. The
/// steps: open the taker's custody account for the first asset and the maker's for
/// the second, each unless it is there, at the taker's cost; move the requested
/// quantity of the second asset from the taker to the maker; move all that is in
/// custody to the taker; close the custody account and then the escrow account,
/// each in favour of the maker.
pub open spec fn take_plan(accounts: Seq<AccountView>) -> PlanView {
    PlanView {
        seeds: Escrow::spec_seeds(
            accounts[1].key,
            Escrow::spec_seed_in(accounts[2].data),
            Escrow::spec_bump_in(accounts[2].data),
        ),
        actions: optional_step(
            spec_init_if_needed(accounts[6], accounts[3], accounts[0], accounts[0], accounts[10]),
        ) + optional_step(
            spec_init_if_needed(accounts[8], accounts[4], accounts[0], accounts[1], accounts[10]),
        ) + seq![
            ActionView::Transfer {
                from: accounts[7].key,
                to: accounts[8].key,
                authority: accounts[0].key,
                amount: Escrow::spec_receive_in(accounts[2].data),
            },
            ActionView::Transfer {
                from: accounts[5].key,
                to: accounts[6].key,
                authority: accounts[2].key,
                amount: token_amount(accounts[5].data),
            },
            ActionView::CloseAccount {
                account: accounts[5].key,
                destination: accounts[1].key,
                authority: accounts[2].key,
            },
            ActionView::CloseRecord { account: accounts[2].key, destination: accounts[1].key },
        ],
    }
}

/// The accounts of a Take instruction by their places in the instruction's list.
pub open spec fn take_accounts_of<'a>(accounts: &'a [AccountInfo]) -> TakeAccounts<'a> {
    TakeAccounts {
        taker: &accounts@[0],
        maker: &accounts@[1],
        escrow: &accounts@[2],
        mint_a: &accounts@[3],
        mint_b: &accounts@[4],
        vault: &accounts@[5],
        taker_ata_a: &accounts@[6],
        taker_ata_b: &accounts@[7],
        maker_ata_b: &accounts@[8],
        system_program: &accounts@[9],
        token_program: &accounts@[10],
    }
}

impl<'a> TakeAccounts<'a> {
    /// The accounts as the start of the instruction's list.
    pub open spec fn spec_list(self) -> Seq<AccountView> {
        seq![
            self.taker@,
            self.maker@,
            self.escrow@,
            self.mint_a@,
            self.mint_b@,
            self.vault@,
            self.taker_ata_a@,
            self.taker_ata_b@,
            self.maker_ata_b@,
            self.system_program@,
            self.token_program@,
        ]
    }
}

impl<'a> TryFrom<&'a [AccountInfo]> for TakeAccounts<'a> {
    type Error = ProgramError;

    /// Takes the accounts of a Take instruction from the instruction's list and
    /// checks each for its role.
    fn try_from(accounts: &'a [AccountInfo]) -> (r: Result<TakeAccounts<'a>, ProgramError>) {
        if accounts.len() < 12 {
            return Err(ProgramError::NotEnoughAccountKeys);
        }
        let taker = &accounts[0];
        let maker = &accounts[1];
        let escrow = &accounts[2];
        let mint_a = &accounts[3];
        let mint_b = &accounts[4];
        let vault = &accounts[5];
        let taker_ata_a = &accounts[6];
        let taker_ata_b = &accounts[7];
        let maker_ata_b = &accounts[8];
        let system_program = &accounts[9];
        let token_program = &accounts[10];

        SignerAccount::check(taker)?;
        ProgramAccount::check(escrow)?;
        MintInterface::check(mint_a)?;
        MintInterface::check(mint_b)?;
        AssociatedTokenAccount::check(taker_ata_b, taker, mint_b, token_program)?;

        Ok(
            TakeAccounts {
                taker,
                maker,
                escrow,
                mint_a,
                mint_b,
                vault,
                taker_ata_a,
                taker_ata_b,
                maker_ata_b,
                system_program,
                token_program,
            },
        )
    }
}

impl<'a> TryFromSpecImpl<&'a [AccountInfo]> for TakeAccounts<'a> {
    open spec fn obeys_try_from_spec() -> bool {
        true
    }

    open spec fn try_from_spec(accounts: &'a [AccountInfo]) -> Result<
        TakeAccounts<'a>,
        ProgramError,
    > {
        match take_accounts_failure(views(accounts@)) {
            Some(e) => Err(e),
            None => Ok(take_accounts_of(accounts)),
        }
    }
}

/// A Take instruction whose accounts have passed their checks.
pub struct Take<'a> {
    pub accounts: TakeAccounts<'a>,
}

impl<'a> TryFrom<&'a [AccountInfo]> for Take<'a> {
    type Error = ProgramError;

    /// Checks the accounts of a Take instruction.
    fn try_from(accounts: &'a [AccountInfo]) -> (r: Result<Take<'a>, ProgramError>) {
        let accounts = TakeAccounts::try_from(accounts)?;
        Ok(Take { accounts })
    }
}

impl<'a> TryFromSpecImpl<&'a [AccountInfo]> for Take<'a> {
    open spec fn obeys_try_from_spec() -> bool {
        true
    }

    open spec fn try_from_spec(accounts: &'a [AccountInfo]) -> Result<Take<'a>, ProgramError> {
        match take_accounts_failure(views(accounts@)) {
            Some(e) => Err(e),
            None => Ok(Take { accounts: take_accounts_of(accounts) }),
        }
    }
}

impl<'a> Take<'a> {
    /// The discriminator of a Take instruction.
    pub const DISCRIMINATOR: u8 = 1;

    /// Checks the escrow record against the accounts and plans the instruction. An
    /// escrow account that does not lie at the address that its record derives
    /// for the maker is refused as soon as its record is read.
    pub fn process(&self) -> (r: Result<Plan, ProgramError>)
        ensures
            match take_failure(self.accounts.spec_list()) {
                Some(e) => r == Err::<Plan, ProgramError>(e),
                None => r is Ok && r->Ok_0@ == take_plan(self.accounts.spec_list()),
            },
    {
        let escrow = load_record(self.accounts.escrow, &self.accounts.maker.key)?;
        AssociatedTokenAccount::check(
            self.accounts.vault,
            self.accounts.escrow,
            self.accounts.mint_a,
            self.accounts.token_program,
        )?;
        let amount = TokenAccount::amount(self.accounts.vault)?;

        let mut actions: Vec<Action> = Vec::new();
        let taker_ata_a = AssociatedTokenAccount::init_if_needed(
            self.accounts.taker_ata_a,
            self.accounts.mint_a,
            self.accounts.taker,
            self.accounts.taker,
            self.accounts.token_program,
        );
        if let Some(action) = taker_ata_a {
            actions.push(action);
        }
        let maker_ata_b = AssociatedTokenAccount::init_if_needed(
            self.accounts.maker_ata_b,
            self.accounts.mint_b,
            self.accounts.taker,
            self.accounts.maker,
            self.accounts.token_program,
        );
        if let Some(action) = maker_ata_b {
            actions.push(action);
        }
        actions.push(
            Action::Transfer {
                from: self.accounts.taker_ata_b.key,
                to: self.accounts.maker_ata_b.key,
                authority: self.accounts.taker.key,
                amount: escrow.receive,
            },
        );
        actions.push(
            Action::Transfer {
                from: self.accounts.vault.key,
                to: self.accounts.taker_ata_a.key,
                authority: self.accounts.escrow.key,
                amount,
            },
        );
        actions.push(
            Action::CloseAccount {
                account: self.accounts.vault.key,
                destination: self.accounts.maker.key,
                authority: self.accounts.escrow.key,
            },
        );
        actions.push(ProgramAccount::close(self.accounts.escrow, self.accounts.maker));
        let plan = Plan { authority: escrow.authority(&self.accounts.maker.key), actions };
        assert(plan@.actions =~= take_plan(self.accounts.spec_list()).actions);
        Ok(plan)
    }
}

} // verus!
