//! The entry of the program: from an instruction to the plan of its steps.

use crate::account::{views, AccountInfo, AccountView};
use crate::action::{Plan, PlanView};
use crate::errors::ProgramError;
use crate::instructions::make::{make_plan, spec_make, Make};
use crate::instructions::refund::{refund_accounts_failure, refund_failure, refund_plan, Refund};
use crate::instructions::take::{take_accounts_failure, take_failure, take_plan, Take};
use vstd::prelude::*;
use vstd::slice::slice_subrange;

verus! {

/// What the program answers to an instruction with data `data` on the accounts
/// `accounts`: the first byte of the data selects the protocol, 0 for Make, 1 for
/// Take, 2 for Refund, and the rest is the protocol's payload. The answer is the
/// protocol's plan, or the first failure of its checks; data without a first byte
/// or with another one is refused.
pub open spec fn spec_process_instruction(accounts: Seq<AccountView>, data: Seq<u8>) -> Result<
    PlanView,
    ProgramError,
> {
    if data.len() == 0 {
        Err(ProgramError::InvalidInstructionData)
    } else if data[0] == 0 {
        match spec_make(data.subrange(1, data.len() as int), accounts) {
            Err(e) => Err(e),
            Ok((payload, bump)) => Ok(make_plan(accounts, payload, bump)),
        }
    } else if data[0] == 1 {
        if take_accounts_failure(accounts) is Some {
            Err(take_accounts_failure(accounts)->Some_0)
        } else if take_failure(accounts) is Some {
            Err(take_failure(accounts)->Some_0)
        } else {
            Ok(take_plan(accounts))
        }
    } else if data[0] == 2 {
        if refund_accounts_failure(accounts) is Some {
            Err(refund_accounts_failure(accounts)->Some_0)
        } else if refund_failure(accounts) is Some {
            Err(refund_failure(accounts)->Some_0)
        } else {
            Ok(refund_plan(accounts))
        }
    } else {
        Err(ProgramError::InvalidInstructionData)
    }
}

/// Answers one instruction: checks it and plans its steps. Nothing is changed
/// here; the host performs the steps of the plan, all or none.
pub fn process_instruction(accounts: &[AccountInfo], instruction_data: &[u8]) -> (r: Result<
    Plan,
    ProgramError,
>)
    ensures
        match spec_process_instruction(views(accounts@), instruction_data@) {
            Err(e) => r == Err::<Plan, ProgramError>(e),
            Ok(plan) => r is Ok && r->Ok_0@ == plan,
        },
{
    if instruction_data.len() == 0 {
        return Err(ProgramError::InvalidInstructionData);
    }
    let discriminator = instruction_data[0];
    if discriminator == Make::DISCRIMINATOR {
        let payload = slice_subrange(instruction_data, 1, instruction_data.len());
        let make = Make::try_from((payload, accounts))?;
        let plan = make.process();
        assert(plan@.actions =~= make_plan(
            views(accounts@),
            make.instruction_data,
            make.bump,
        ).actions);
        Ok(plan)
    } else if discriminator == Take::DISCRIMINATOR {
        let take = Take::try_from(accounts)?;
        let plan = take.process()?;
        assert(plan@.actions =~= take_plan(views(accounts@)).actions);
        Ok(plan)
    } else if discriminator == Refund::DISCRIMINATOR {
        let refund = Refund::try_from(accounts)?;
        let plan = refund.process()?;
        assert(plan@.actions =~= refund_plan(views(accounts@)).actions);
        Ok(plan)
    } else {
        Err(ProgramError::InvalidInstructionData)
    }
}

} // verus!
