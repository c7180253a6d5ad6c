//! Refund: the maker takes the deposit back and the escrow ends.

use crate::account::{views, AccountInfo, AccountView};
use crate::action::{optional_step, Action, ActionView, Plan, PlanView};
use crate::errors::{PinocchioError, ProgramError};
use crate::helpers::{
    check_failure, is_associated_account, spec_init_if_needed, AssociatedTokenAccount,
    MintInterface, ProgramAccount, SignerAccount,
};
use crate::instructions::{load_record, record_failure};
use crate::state::Escrow;
use crate::token::{is_token_account, token_amount, TokenAccount, MINT_LEN};
use crate::ID;
use vstd::prelude::*;
use vstd::std_specs::convert::TryFromSpecImpl;

verus! {

/// The accounts of a Refund instruction, in the order of the instruction's list.
pub struct RefundAccounts<'a> {
    pub maker: &'a AccountInfo,
    pub escrow: &'a AccountInfo,
    pub mint_a: &'a AccountInfo,
    pub vault: &'a AccountInfo,
    pub maker_ata_a: &'a AccountInfo,
    pub system_program: &'a AccountInfo,
    pub token_program: &'a AccountInfo,
}

/// The first check that a Refund instruction's list of accounts does not pass, if
/// there is one: the list is too short, the maker has not signed, the escrow
/// account is not this program's, the asset type is no asset type, or the custody
/// account is not the escrow account's custody account for the asset.
pub open spec fn refund_accounts_failure(accounts: Seq<AccountView>) -> Option<ProgramError> {
    if accounts.len() < 7 {
        Some(ProgramError::NotEnoughAccountKeys)
    } else if !accounts[0].is_signer {
        Some(check_failure(PinocchioError::NotSigner))
    } else if accounts[1].owner != ID@ {
        Some(check_failure(PinocchioError::InvalidOwner))
    } else if accounts[2].data.len() != MINT_LEN {
        Some(check_failure(PinocchioError::InvalidAccountData))
    } else if !is_associated_account(accounts[3], accounts[1], accounts[2], accounts[6]) {
        Some(check_failure(PinocchioError::InvalidAddress))
    } else {
        None
    }
}

/// Why a Refund instruction whose accounts have passed their checks is refused, if
/// it is: the escrow account holds no record, or does not lie at the address that
/// its record and the maker derive; or the custody account holds no custody
/// record.
pub open spec fn refund_failure(accounts: Seq<AccountView>) -> Option<ProgramError> {
    if record_failure(accounts[1], accounts[0].key) is Some {
        record_failure(accounts[1], accounts[0].key)
    } else if !is_token_account(accounts[3].owner, accounts[3].data) {
        Some(ProgramError::InvalidAccountData)
    } else {
        None
    }
}

/// The plan of a Refund instruction with accounts `accounts`. The escrow record's
/// own authority signs: its seeds under the maker who signed. The steps: open the
/// maker's custody account for the asset, unless it is there; move all that is in
/// custody to the maker; close the custody account and then the escrow account,
/// each in favour of the maker.
pub open spec fn refund_plan(accounts: Seq<AccountView>) -> PlanView {
    PlanView {
        seeds: Escrow::spec_seeds(
            accounts[0].key,
            Escrow::spec_seed_in(accounts[1].data),
            Escrow::spec_bump_in(accounts[1].data),
        ),
        actions: optional_step(
            spec_init_if_needed(accounts[4], accounts[2], accounts[0], accounts[0], accounts[6]),
        ) + seq![
            ActionView::Transfer {
                from: accounts[3].key,
                to: accounts[4].key,
                authority: accounts[1].key,
                amount: token_amount(accounts[3].data),
            },
            ActionView::CloseAccount {
                account: accounts[3].key,
                destination: accounts[0].key,
                authority: accounts[1].key,
            },
            ActionView::CloseRecord { account: accounts[1].key, destination: accounts[0].key },
        ],
    }
}

/// The accounts of a Refund instruction by their places in the instruction's list.
pub open spec fn refund_accounts_of<'a>(accounts: &'a [AccountInfo]) -> RefundAccounts<'a> {
    RefundAccounts {
        maker: &accounts@[0],
        escrow: &accounts@[1],
        mint_a: &accounts@[2],
        vault: &accounts@[3],
        maker_ata_a: &accounts@[4],
        system_program: &accounts@[5],
        token_program: &accounts@[6],
    }
}

impl<'a> RefundAccounts<'a> {
    /// The accounts as the start of the instruction's list.
    pub open spec fn spec_list(self) -> Seq<AccountView> {
        seq![
            self.maker@,
            self.escrow@,
            self.mint_a@,
            self.vault@,
            self.maker_ata_a@,
            self.system_program@,
            self.token_program@,
        ]
    }
}

impl<'a> TryFrom<&'a [AccountInfo]> for RefundAccounts<'a> {
    type Error = ProgramError;

    /// Takes the accounts of a Refund instruction from the instruction's list and
    /// checks each for its role.
    fn try_from(accounts: &'a [AccountInfo]) -> (r: Result<RefundAccounts<'a>, ProgramError>) {
        if accounts.len() < 7 {
            return Err(ProgramError::NotEnoughAccountKeys);
        }
        let maker = &accounts[0];
        let escrow = &accounts[1];
        let mint_a = &accounts[2];
        let vault = &accounts[3];
        let maker_ata_a = &accounts[4];
        let system_program = &accounts[5];
        let token_program = &accounts[6];

        SignerAccount::check(maker)?;
        ProgramAccount::check(escrow)?;
        MintInterface::check(mint_a)?;
        AssociatedTokenAccount::check(vault, escrow, mint_a, token_program)?;

        Ok(
            RefundAccounts {
                maker,
                escrow,
                mint_a,
                vault,
                maker_ata_a,
                system_program,
                token_program,
            },
        )
    }
}

impl<'a> TryFromSpecImpl<&'a [AccountInfo]> for RefundAccounts<'a> {
    open spec fn obeys_try_from_spec() -> bool {
        true
    }

    open spec fn try_from_spec(accounts: &'a [AccountInfo]) -> Result<
        RefundAccounts<'a>,
        ProgramError,
    > {
        match refund_accounts_failure(views(accounts@)) {
            Some(e) => Err(e),
            None => Ok(refund_accounts_of(accounts)),
        }
    }
}

/// A Refund instruction whose accounts have passed their checks.
pub struct Refund<'a> {
    pub accounts: RefundAccounts<'a>,
}

impl<'a> TryFrom<&'a [AccountInfo]> for Refund<'a> {
    type Error = ProgramError;

    /// Checks the accounts of a Refund instruction.
    fn try_from(accounts: &'a [AccountInfo]) -> (r: Result<Refund<'a>, ProgramError>) {
        let accounts = RefundAccounts::try_from(accounts)?;
        Ok(Refund { accounts })
    }
}

impl<'a> TryFromSpecImpl<&'a [AccountInfo]> for Refund<'a> {
    open spec fn obeys_try_from_spec() -> bool {
        true
    }

    open spec fn try_from_spec(accounts: &'a [AccountInfo]) -> Result<Refund<'a>, ProgramError> {
        match refund_accounts_failure(views(accounts@)) {
            Some(e) => Err(e),
            None => Ok(Refund { accounts: refund_accounts_of(accounts) }),
        }
    }
}

impl<'a> Refund<'a> {
    /// The discriminator of a Refund instruction.
    pub const DISCRIMINATOR: u8 = 2;

    /// Checks the escrow record against the maker and plans the instruction. An
    /// escrow account that does not lie at the address that its record derives
    /// for the maker who signed is refused as soon as its record is read.
    pub fn process(&self) -> (r: Result<Plan, ProgramError>)
        ensures
            match refund_failure(self.accounts.spec_list()) {
                Some(e) => r == Err::<Plan, ProgramError>(e),
                None => r is Ok && r->Ok_0@ == refund_plan(self.accounts.spec_list()),
            },
    {
        let escrow = load_record(self.accounts.escrow, &self.accounts.maker.key)?;
        let amount = TokenAccount::amount(self.accounts.vault)?;

        let mut actions: Vec<Action> = Vec::new();
        let maker_ata_a = AssociatedTokenAccount::init_if_needed(
            self.accounts.maker_ata_a,
            self.accounts.mint_a,
            self.accounts.maker,
            self.accounts.maker,
            self.accounts.token_program,
        );
        if let Some(action) = maker_ata_a {
            actions.push(action);
        }
        actions.push(
            Action::Transfer {
                from: self.accounts.vault.key,
                to: self.accounts.maker_ata_a.key,
                authority: self.accounts.escrow.key,
                amount,
            },
        );
        actions.push(
            Action::CloseAccount {
                account: self.accounts.vault.key,
                destination: self.accounts.maker.key,
                authority: self.accounts.escrow.key,
            },
        );
        actions.push(ProgramAccount::close(self.accounts.escrow, self.accounts.maker));
        let plan = Plan { authority: escrow.authority(&self.accounts.maker.key), actions };
        assert(plan@.actions =~= refund_plan(self.accounts.spec_list()).actions);
        Ok(plan)
    }
}

} // verus!
