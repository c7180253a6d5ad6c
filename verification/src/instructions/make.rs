//! Make: the maker opens an escrow and puts the deposit into custody.

use crate::account::{views, AccountInfo, AccountView};
use crate::action::{optional_step, Action, ActionView, Plan, PlanView};
use crate::errors::{PinocchioError, ProgramError};
use crate::helpers::{
    check_failure, is_associated_account, spec_init_if_needed, AssociatedTokenAccount,
    MintInterface, ProgramAccount, SignerAccount,
};
use crate::state::{read_u64, record_bytes, DerivedAuthority, Escrow};
use crate::token::MINT_LEN;
use crate::ID;
use vstd::bytes::*;
use vstd::prelude::*;
use vstd::std_specs::convert::TryFromSpecImpl;

verus! {

/// The accounts of a Make instruction, in the order of the instruction's list.
pub struct MakeAccounts<'a> {
    pub maker: &'a AccountInfo,
    pub escrow: &'a AccountInfo,
    pub mint_a: &'a AccountInfo,
    pub mint_b: &'a AccountInfo,
    pub maker_ata_a: &'a AccountInfo,
    pub vault: &'a AccountInfo,
    pub system_program: &'a AccountInfo,
    pub token_program: &'a AccountInfo,
}

/// The first check that a Make instruction's list of accounts does not pass, if
/// there is one: the list is too short, the maker has not signed, one of the two
/// asset types is no asset type, or the maker's holding account is not the
/// maker's custody account for the first asset.
pub open spec fn make_accounts_failure(accounts: Seq<AccountView>) -> Option<ProgramError> {
    if accounts.len() < 8 {
        Some(ProgramError::NotEnoughAccountKeys)
    } else if !accounts[0].is_signer {
        Some(check_failure(PinocchioError::NotSigner))
    } else if accounts[2].data.len() != MINT_LEN || accounts[3].data.len() != MINT_LEN {
        Some(check_failure(PinocchioError::InvalidAccountData))
    } else if !is_associated_account(accounts[4], accounts[0], accounts[2], accounts[7]) {
        Some(check_failure(PinocchioError::InvalidAddress))
    } else {
        None
    }
}

/// The accounts of a Make instruction by their places in the instruction's list.
pub open spec fn make_accounts_of<'a>(accounts: &'a [AccountInfo]) -> MakeAccounts<'a> {
    MakeAccounts {
        maker: &accounts@[0],
        escrow: &accounts@[1],
        mint_a: &accounts@[2],
        mint_b: &accounts@[3],
        maker_ata_a: &accounts@[4],
        vault: &accounts@[5],
        system_program: &accounts@[6],
        token_program: &accounts@[7],
    }
}

impl<'a> MakeAccounts<'a> {
    /// The accounts as the start of the instruction's list.
    pub open spec fn spec_list(self) -> Seq<AccountView> {
        seq![
            self.maker@,
            self.escrow@,
            self.mint_a@,
            self.mint_b@,
            self.maker_ata_a@,
            self.vault@,
            self.system_program@,
            self.token_program@,
        ]
    }
}

impl<'a> TryFrom<&'a [AccountInfo]> for MakeAccounts<'a> {
    type Error = ProgramError;

    /// Takes the accounts of a Make instruction from the instruction's list and
    /// checks each for its role.
    fn try_from(accounts: &'a [AccountInfo]) -> (r: Result<MakeAccounts<'a>, ProgramError>) {
        if accounts.len() < 8 {
            return Err(ProgramError::NotEnoughAccountKeys);
        }
        let maker = &accounts[0];
        let escrow = &accounts[1];
        let mint_a = &accounts[2];
        let mint_b = &accounts[3];
        let maker_ata_a = &accounts[4];
        let vault = &accounts[5];
        let system_program = &accounts[6];
        let token_program = &accounts[7];

        SignerAccount::check(maker)?;
        MintInterface::check(mint_a)?;
        MintInterface::check(mint_b)?;
        AssociatedTokenAccount::check(maker_ata_a, maker, mint_a, token_program)?;

        Ok(
            MakeAccounts {
                maker,
                escrow,
                mint_a,
                mint_b,
                maker_ata_a,
                vault,
                system_program,
                token_program,
            },
        )
    }
}

impl<'a> TryFromSpecImpl<&'a [AccountInfo]> for MakeAccounts<'a> {
    open spec fn obeys_try_from_spec() -> bool {
        true
    }

    open spec fn try_from_spec(accounts: &'a [AccountInfo]) -> Result<
        MakeAccounts<'a>,
        ProgramError,
    > {
        match make_accounts_failure(views(accounts@)) {
            Some(e) => Err(e),
            None => Ok(make_accounts_of(accounts)),
        }
    }
}

/// The payload of a Make instruction.
#[derive(Clone, Copy, Debug, PartialEq, Eq)]
pub struct MakeInstructionData {
    /// The maker's number for the offer.
    pub seed: u64,
    /// How much of the second asset the maker wants.
    pub receive: u64,
    /// How much of the first asset the maker deposits.
    pub amount: u64,
}

/// What a Make payload says: three little-endian numbers of eight bytes, the
/// maker's number, the requested quantity and the deposit. A payload of another
/// size, or a deposit of zero, is refused.
pub open spec fn spec_make_data(data: Seq<u8>) -> Result<MakeInstructionData, ProgramError> {
    if data.len() != 24 {
        Err(ProgramError::InvalidInstructionData)
    } else if spec_u64_from_le_bytes(data.subrange(16, 24)) == 0 {
        Err(ProgramError::InvalidInstructionData)
    } else {
        Ok(
            MakeInstructionData {
                seed: spec_u64_from_le_bytes(data.subrange(0, 8)),
                receive: spec_u64_from_le_bytes(data.subrange(8, 16)),
                amount: spec_u64_from_le_bytes(data.subrange(16, 24)),
            },
        )
    }
}

impl<'a> TryFrom<&'a [u8]> for MakeInstructionData {
    type Error = ProgramError;

    /// Reads the payload of a Make instruction.
    fn try_from(data: &'a [u8]) -> (r: Result<MakeInstructionData, ProgramError>) {
        if data.len() != 24 {
            return Err(ProgramError::InvalidInstructionData);
        }
        let seed = read_u64(data, 0);
        let receive = read_u64(data, 8);
        let amount = read_u64(data, 16);
        if amount == 0 {
            return Err(ProgramError::InvalidInstructionData);
        }
        Ok(MakeInstructionData { seed, receive, amount })
    }
}

impl<'a> TryFromSpecImpl<&'a [u8]> for MakeInstructionData {
    open spec fn obeys_try_from_spec() -> bool {
        true
    }

    open spec fn try_from_spec(data: &'a [u8]) -> Result<MakeInstructionData, ProgramError> {
        spec_make_data(data@)
    }
}

/// A Make instruction that has passed its checks.
pub struct Make<'a> {
    pub accounts: MakeAccounts<'a>,
    pub instruction_data: MakeInstructionData,
    /// The bump seed of the escrow record's address.
    pub bump: u8,
}

/// The payload and the bump of a Make instruction, or the first failure: of the
/// accounts, then of the payload, then of the escrow account, which has to lie at
/// the address that is found for the maker and the maker's number.
pub open spec fn spec_make(data: Seq<u8>, accounts: Seq<AccountView>) -> Result<
    (MakeInstructionData, u8),
    ProgramError,
> {
    match make_accounts_failure(accounts) {
        Some(e) => Err(e),
        None => match spec_make_data(data) {
            Err(e) => Err(e),
            Ok(instruction_data) => match Escrow::spec_bump_at(
                accounts[0].key,
                instruction_data.seed,
                accounts[1].key,
            ) {
                Some(bump) => Ok((instruction_data, bump)),
                None => Err(ProgramError::InvalidAccountOwner),
            },
        },
    }
}

/// The plan of a Make instruction with accounts `accounts`, payload `payload` and
/// bump `bump`. The record's own authority signs. The steps: open the escrow
/// account at the maker's cost and write the record into it; open the custody
/// account of the record for the first asset, unless it is there; move the deposit
/// from the maker's holding into custody.
pub open spec fn make_plan(accounts: Seq<AccountView>, payload: MakeInstructionData, bump: u8)
    -> PlanView {
    PlanView {
        seeds: Escrow::spec_seeds(accounts[0].key, payload.seed, bump),
        actions: seq![
            ActionView::CreateAccount {
                from: accounts[0].key,
                to: accounts[1].key,
                space: Escrow::LEN as u64,
                owner: ID@,
            },
            ActionView::WriteRecord {
                account: accounts[1].key,
                data: record_bytes(
                    payload.seed,
                    accounts[0].key,
                    accounts[2].key,
                    accounts[3].key,
                    payload.receive,
                    bump,
                ),
            },
        ] + optional_step(
            spec_init_if_needed(accounts[5], accounts[2], accounts[0], accounts[1], accounts[7]),
        ) + seq![
            ActionView::Transfer {
                from: accounts[4].key,
                to: accounts[5].key,
                authority: accounts[0].key,
                amount: payload.amount,
            },
        ],
    }
}

impl<'a> TryFrom<(&'a [u8], &'a [AccountInfo])> for Make<'a> {
    type Error = ProgramError;

    /// Checks the accounts and the payload of a Make instruction, searches the
    /// address of the escrow record and its bump, and holds the escrow account
    /// against that address.
    fn try_from(input: (&'a [u8], &'a [AccountInfo])) -> (r: Result<Make<'a>, ProgramError>) {
        let (data, list) = input;
        let accounts = MakeAccounts::try_from(list)?;
        let instruction_data = MakeInstructionData::try_from(data)?;
        match Escrow::bump_at(&accounts.maker.key, instruction_data.seed, &accounts.escrow.key) {
            Some(bump) => Ok(Make { accounts, instruction_data, bump }),
            None => Err(ProgramError::InvalidAccountOwner),
        }
    }
}

impl<'a> TryFromSpecImpl<(&'a [u8], &'a [AccountInfo])> for Make<'a> {
    open spec fn obeys_try_from_spec() -> bool {
        true
    }

    open spec fn try_from_spec(input: (&'a [u8], &'a [AccountInfo])) -> Result<
        Make<'a>,
        ProgramError,
    > {
        match spec_make(input.0@, views(input.1@)) {
            Err(e) => Err(e),
            Ok((instruction_data, bump)) => Ok(
                Make { accounts: make_accounts_of(input.1), instruction_data, bump },
            ),
        }
    }
}

impl<'a> Make<'a> {
    /// The discriminator of a Make instruction.
    pub const DISCRIMINATOR: u8 = 0;

    /// Plans the instruction.
    pub fn process(&self) -> (plan: Plan)
        ensures
            plan@ == make_plan(self.accounts.spec_list(), self.instruction_data, self.bump),
    {
        let record = Escrow {
            seed: self.instruction_data.seed,
            maker: self.accounts.maker.key,
            mint_a: self.accounts.mint_a.key,
            mint_b: self.accounts.mint_b.key,
            receive: self.instruction_data.receive,
            bump: self.bump,
        };
        let mut actions: Vec<Action> = Vec::new();
        actions.push(ProgramAccount::init(self.accounts.maker, self.accounts.escrow, Escrow::LEN));
        actions.push(Action::WriteRecord { account: self.accounts.escrow.key, record });
        let vault = AssociatedTokenAccount::init_if_needed(
            self.accounts.vault,
            self.accounts.mint_a,
            self.accounts.maker,
            self.accounts.escrow,
            self.accounts.token_program,
        );
        if let Some(action) = vault {
            actions.push(action);
        }
        actions.push(
            Action::Transfer {
                from: self.accounts.maker_ata_a.key,
                to: self.accounts.vault.key,
                authority: self.accounts.maker.key,
                amount: self.instruction_data.amount,
            },
        );
        let plan = Plan {
            authority: DerivedAuthority {
                maker: self.accounts.maker.key,
                seed: self.instruction_data.seed,
                bump: self.bump,
            },
            actions,
        };
        assert(plan@.actions =~= make_plan(
            self.accounts.spec_list(),
            self.instruction_data,
            self.bump,
        ).actions);
        plan
    }
}

} // verus!
