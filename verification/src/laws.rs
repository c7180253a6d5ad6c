//! What holds of the escrow whatever the accounts and the instructions are. The
//! laws speak of `spec_transact`, which is what `Ledger::process_instruction` does
//! to the accounts of the host: on success the accounts that it names, on failure
//! no change.

use crate::action::{optional_step, ActionView, PlanView};
use crate::effects::{
    balance, four_custody_accounts, is_holding, is_make, is_refund, is_take, lamports,
    lemma_make_effect, lemma_refund_effect, lemma_refund_follows_make, lemma_take_closes,
    lemma_take_effect, lemma_take_follows_make, made_with, make_names, make_payload,
    refund_names, take_names,
};
use crate::errors::ProgramError;
use crate::helpers::spec_init_if_needed;
use crate::instructions::make::{make_accounts_failure, make_plan, spec_make};
use crate::instructions::refund::refund_accounts_failure;
use crate::instructions::take::take_accounts_failure;
use crate::ledger::{account_at, exists_at, State};
use crate::processor::spec_process_instruction;
use crate::pubkey::program_address;
use crate::runtime::{
    lemma_run_concat, lemma_run_one, lemma_run_optional, spec_account_infos, spec_apply,
    spec_run, spec_transact, AccountMeta, Signers,
};
use crate::state::{lemma_record_bytes, record_bytes, Escrow};
use crate::token::{
    is_token_account, lemma_programs_differ, lemma_token_bytes, INSUFFICIENT_FUNDS,
};
use crate::ID;
use vstd::bytes::*;
use vstd::prelude::*;

verus! {

/// A Make that succeeds, followed by a Refund that succeeds for the same maker,
/// escrow account, asset, custody account and holding account, leaves the maker's
/// holding of the asset as it was before the Make, provided that custody held
/// nothing before. The two accounts of the escrow exist no longer, and where the
/// custody account did not exist before, the maker's reserve is as it was too.
pub proof fn lemma_make_refund_round_trip(
    start: State,
    make_metas: Seq<AccountMeta>,
    make_data: Seq<u8>,
    made: State,
    refund_metas: Seq<AccountMeta>,
    refund_data: Seq<u8>,
    end: State,
)
    requires
        is_make(make_data),
        is_refund(refund_data),
        spec_transact(start, make_metas, make_data) == Ok::<State, ProgramError>(made),
        spec_transact(made, refund_metas, refund_data) == Ok::<State, ProgramError>(end),
        refund_names(refund_metas).maker == make_names(make_metas).maker,
        refund_names(refund_metas).escrow == make_names(make_metas).escrow,
        refund_names(refund_metas).mint_a == make_names(make_metas).mint_a,
        refund_names(refund_metas).vault == make_names(make_metas).vault,
        refund_names(refund_metas).maker_ata_a == make_names(make_metas).maker_ata_a,
        balance(start, make_names(make_metas).vault) == 0,
    ensures
        ({
            let names = make_names(make_metas);
            &&& balance(end, names.maker_ata_a) == balance(start, names.maker_ata_a)
            &&& !exists_at(end, names.escrow)
            &&& !exists_at(end, names.vault)
            &&& !exists_at(start, names.vault) ==> lamports(end, names.maker) == lamports(
                start,
                names.maker,
            )
        }),
{
    lemma_make_effect(start, make_metas, make_data, made);
    lemma_refund_effect(made, refund_metas, refund_data, end);
}

/// A Make that succeeds where no custody account existed before can be undone
/// whole. The Refund that the maker signs for the same escrow account, asset,
/// custody account and holding account, under the same custody program, succeeds;
/// after it the maker holds of the asset, and has in reserve, what the maker had
/// before the Make, and the two accounts of the escrow exist no longer.
pub proof fn lemma_make_can_be_undone(
    start: State,
    make_metas: Seq<AccountMeta>,
    make_data: Seq<u8>,
    made: State,
    refund_metas: Seq<AccountMeta>,
    refund_data: Seq<u8>,
)
    requires
        is_make(make_data),
        is_refund(refund_data),
        spec_transact(start, make_metas, make_data) == Ok::<State, ProgramError>(made),
        !exists_at(start, make_names(make_metas).vault),
        refund_metas.len() >= 7,
        refund_metas[0].is_signer,
        refund_names(refund_metas).maker == make_names(make_metas).maker,
        refund_names(refund_metas).escrow == make_names(make_metas).escrow,
        refund_names(refund_metas).mint_a == make_names(make_metas).mint_a,
        refund_names(refund_metas).vault == make_names(make_metas).vault,
        refund_names(refund_metas).maker_ata_a == make_names(make_metas).maker_ata_a,
        refund_metas[6].pubkey@ == make_metas[7].pubkey@,
    ensures
        spec_transact(made, refund_metas, refund_data) is Ok,
        ({
            let names = make_names(make_metas);
            let end = spec_transact(made, refund_metas, refund_data)->Ok_0;
            &&& balance(end, names.maker_ata_a) == balance(start, names.maker_ata_a)
            &&& lamports(end, names.maker) == lamports(start, names.maker)
            &&& !exists_at(end, names.escrow)
            &&& !exists_at(end, names.vault)
        }),
{
    lemma_refund_follows_make(start, make_metas, make_data, made, refund_metas, refund_data);
    lemma_make_refund_round_trip(
        start,
        make_metas,
        make_data,
        made,
        refund_metas,
        refund_data,
        spec_transact(made, refund_metas, refund_data)->Ok_0,
    );
}

/// A Make that succeeds with a deposit and a requested quantity, followed by a
/// Take that succeeds for the same maker, escrow account, assets and custody
/// account, has given the taker exactly the deposit and the maker exactly the
/// requested quantity, out of the taker's holding, and the two accounts of the
/// escrow exist no longer; provided that custody held nothing before the Make, and
/// that the custody account, the taker's two custody accounts and the maker's
/// receiving account are four accounts.
pub proof fn lemma_make_take_swap(
    start: State,
    make_metas: Seq<AccountMeta>,
    make_data: Seq<u8>,
    made: State,
    take_metas: Seq<AccountMeta>,
    take_data: Seq<u8>,
    end: State,
)
    requires
        is_make(make_data),
        is_take(take_data),
        spec_transact(start, make_metas, make_data) == Ok::<State, ProgramError>(made),
        spec_transact(made, take_metas, take_data) == Ok::<State, ProgramError>(end),
        take_names(take_metas).maker == make_names(make_metas).maker,
        take_names(take_metas).escrow == make_names(make_metas).escrow,
        take_names(take_metas).mint_a == make_names(make_metas).mint_a,
        take_names(take_metas).mint_b == make_names(make_metas).mint_b,
        take_names(take_metas).vault == make_names(make_metas).vault,
        balance(start, make_names(make_metas).vault) == 0,
        four_custody_accounts(take_names(take_metas)),
    ensures
        ({
            let names = take_names(take_metas);
            let payload = made_with(start, make_metas, make_data).0;
            &&& balance(end, names.taker_ata_a) == balance(made, names.taker_ata_a)
                + payload.amount
            &&& balance(end, names.maker_ata_b) == balance(made, names.maker_ata_b)
                + payload.receive
            &&& balance(end, names.taker_ata_b) == balance(made, names.taker_ata_b)
                - payload.receive
            &&& !exists_at(end, names.escrow)
            &&& !exists_at(end, names.vault)
        }),
{
    lemma_make_effect(start, make_metas, make_data, made);
    lemma_take_effect(made, take_metas, take_data, end);
    lemma_take_closes(made, take_metas, take_data, end);
    let names = make_names(make_metas);
    let payload = made_with(start, make_metas, make_data).0;
    lemma_record_bytes(
        payload.seed,
        names.maker,
        names.mint_a,
        names.mint_b,
        payload.receive,
        made_with(start, make_metas, make_data).1,
    );
}

/// A Make that succeeds where no custody account existed before can be taken, and
/// the swap is exact. The Take succeeds that a taker signs for the same maker,
/// escrow account, assets and custody account, under the same custody program,
/// where the taker holds the requested quantity of the second asset, the taker's
/// and the maker's receiving accounts exist and have room for what they receive,
/// and the four custody accounts are four accounts. After it the taker holds the
/// deposit more of the first asset and the requested quantity less of the second,
/// the maker holds the requested quantity more of the second, and the two accounts
/// of the escrow exist no longer.
pub proof fn lemma_make_can_be_taken(
    start: State,
    make_metas: Seq<AccountMeta>,
    make_data: Seq<u8>,
    made: State,
    take_metas: Seq<AccountMeta>,
    take_data: Seq<u8>,
)
    requires
        is_make(make_data),
        is_take(take_data),
        spec_transact(start, make_metas, make_data) == Ok::<State, ProgramError>(made),
        !exists_at(start, make_names(make_metas).vault),
        take_metas.len() >= 12,
        take_metas[0].is_signer,
        take_names(take_metas).maker == make_names(make_metas).maker,
        take_names(take_metas).escrow == make_names(make_metas).escrow,
        take_names(take_metas).mint_a == make_names(make_metas).mint_a,
        take_names(take_metas).mint_b == make_names(make_metas).mint_b,
        take_names(take_metas).vault == make_names(make_metas).vault,
        take_metas[10].pubkey@ == make_metas[7].pubkey@,
        four_custody_accounts(take_names(take_metas)),
        ({
            let names = take_names(take_metas);
            let payload = made_with(start, make_metas, make_data).0;
            &&& is_holding(made, names.taker_ata_b, names.taker, names.mint_b)
            &&& is_holding(made, names.maker_ata_b, names.maker, names.mint_b)
            &&& is_holding(made, names.taker_ata_a, names.taker, names.mint_a)
            &&& balance(made, names.taker_ata_b) >= payload.receive
            &&& balance(made, names.maker_ata_b) + payload.receive <= u64::MAX
            &&& balance(made, names.taker_ata_a) + payload.amount <= u64::MAX
        }),
    ensures
        spec_transact(made, take_metas, take_data) is Ok,
        ({
            let names = take_names(take_metas);
            let payload = made_with(start, make_metas, make_data).0;
            let end = spec_transact(made, take_metas, take_data)->Ok_0;
            &&& balance(end, names.taker_ata_a) == balance(made, names.taker_ata_a)
                + payload.amount
            &&& balance(end, names.maker_ata_b) == balance(made, names.maker_ata_b)
                + payload.receive
            &&& balance(end, names.taker_ata_b) == balance(made, names.taker_ata_b)
                - payload.receive
            &&& !exists_at(end, names.escrow)
            &&& !exists_at(end, names.vault)
        }),
{
    lemma_take_follows_make(start, make_metas, make_data, made, take_metas, take_data);
    lemma_make_take_swap(
        start,
        make_metas,
        make_data,
        made,
        take_metas,
        take_data,
        spec_transact(made, take_metas, take_data)->Ok_0,
    );
}

/// A Make instruction whose deposit is zero fails and changes nothing: with
/// invalid instruction data, unless its list of accounts fails a check already.
pub proof fn lemma_zero_deposit_is_refused(state: State, metas: Seq<AccountMeta>, data: Seq<u8>)
    requires
        is_make(data),
        make_payload(data).len() == 24,
        spec_u64_from_le_bytes(make_payload(data).subrange(16, 24)) == 0,
    ensures
        spec_transact(state, metas, data) == Err::<State, ProgramError>(
            match make_accounts_failure(spec_account_infos(state, metas)) {
                Some(e) => e,
                None => ProgramError::InvalidInstructionData,
            },
        ),
{
}

/// A Make instruction that passes the program's checks fails, and so changes
/// nothing, where the maker's holding account holds less than the deposit; and
/// where the steps before the deposit succeed and leave the holding account and
/// the custody account as two custody accounts, it is the custody primitive that
/// refuses, for insufficient funds.
pub proof fn lemma_insufficient_funds_are_refused(
    state: State,
    metas: Seq<AccountMeta>,
    data: Seq<u8>,
)
    requires
        is_make(data),
        spec_make(make_payload(data), spec_account_infos(state, metas)) is Ok,
        balance(state, make_names(metas).maker_ata_a) < made_with(state, metas, data).0.amount,
    ensures
        spec_transact(state, metas, data) is Err,
        ({
            let names = make_names(metas);
            let infos = spec_account_infos(state, metas);
            let plan = make_plan(
                infos,
                made_with(state, metas, data).0,
                made_with(state, metas, data).1,
            );
            let signers = Signers { metas, derived: program_address(plan.seeds, ID@) };
            let before_deposit = spec_run(state, signers, plan.actions.drop_last());
            before_deposit is Ok && is_token_account(
                account_at(before_deposit->Ok_0, names.maker_ata_a).owner,
                account_at(before_deposit->Ok_0, names.maker_ata_a).data,
            ) && is_token_account(
                account_at(before_deposit->Ok_0, names.vault).owner,
                account_at(before_deposit->Ok_0, names.vault).data,
            ) ==> spec_transact(state, metas, data) == Err::<State, ProgramError>(
                ProgramError::Custom(INSUFFICIENT_FUNDS),
            )
        }),
{
    lemma_programs_differ();
    let infos = spec_account_infos(state, metas);
    let payload = made_with(state, metas, data).0;
    let bump = made_with(state, metas, data).1;
    let plan = make_plan(infos, payload, bump);
    let signers = Signers { metas, derived: program_address(plan.seeds, ID@) };
    assert(spec_process_instruction(infos, data) == Ok::<PlanView, ProgramError>(plan));
    let names = make_names(metas);
    assert(infos[0].key == names.maker);
    assert(infos[1].key == names.escrow);
    assert(infos[2].key == names.mint_a);
    assert(infos[3].key == names.mint_b);
    assert(infos[4].key == names.maker_ata_a);
    assert(infos[5].key == names.vault);
    let record = record_bytes(
        payload.seed,
        names.maker,
        names.mint_a,
        names.mint_b,
        payload.receive,
        bump,
    );
    lemma_record_bytes(
        payload.seed,
        names.maker,
        names.mint_a,
        names.mint_b,
        payload.receive,
        bump,
    );
    let create = ActionView::CreateAccount {
        from: names.maker,
        to: names.escrow,
        space: Escrow::LEN as u64,
        owner: ID@,
    };
    let write = ActionView::WriteRecord { account: names.escrow, data: record };
    let open = spec_init_if_needed(infos[5], infos[2], infos[0], infos[1], infos[7]);
    let deposit = ActionView::Transfer {
        from: names.maker_ata_a,
        to: names.vault,
        authority: names.maker,
        amount: payload.amount,
    };
    let head = seq![create] + (seq![write] + optional_step(open));
    assert(plan.actions =~= head + seq![deposit]);
    assert(plan.actions.drop_last() =~= head);
    lemma_run_concat(state, signers, head, seq![deposit]);
    lemma_run_concat(state, signers, seq![create], seq![write] + optional_step(open));
    lemma_run_one(state, signers, create);
    if spec_apply(state, signers, create) is Ok {
        let created = spec_apply(state, signers, create)->Ok_0;
        lemma_run_concat(created, signers, seq![write], optional_step(open));
        lemma_run_one(created, signers, write);
        if spec_apply(created, signers, write) is Ok {
            let written = spec_apply(created, signers, write)->Ok_0;
            lemma_run_optional(written, signers, open);
            if spec_run(written, signers, optional_step(open)) is Ok {
                let opened = spec_run(written, signers, optional_step(open))->Ok_0;
                lemma_run_one(opened, signers, deposit);
                if open is Some {
                    lemma_token_bytes(names.mint_a, names.escrow, 0);
                }
            }
        }
    }
}

/// A Take instruction whose accounts pass their checks, and whose escrow account
/// holds bytes of a record's size, fails with an invalid account owner wherever
/// the escrow account does not lie at the address that the named maker derives
/// with the number and the bump in those bytes, whatever else the bytes say.
pub proof fn lemma_take_enforces_identity(state: State, metas: Seq<AccountMeta>, data: Seq<u8>)
    requires
        is_take(data),
        take_accounts_failure(spec_account_infos(state, metas)) is None,
        account_at(state, take_names(metas).escrow).data.len() == Escrow::LEN,
        Escrow::spec_address(
            take_names(metas).maker,
            Escrow::spec_seed_in(account_at(state, take_names(metas).escrow).data),
            Escrow::spec_bump_in(account_at(state, take_names(metas).escrow).data),
        ) != Some(take_names(metas).escrow),
    ensures
        spec_transact(state, metas, data) == Err::<State, ProgramError>(
            ProgramError::InvalidAccountOwner,
        ),
{
    let infos = spec_account_infos(state, metas);
    assert(infos[1].key == metas[1].pubkey@);
    assert(infos[2].key == metas[2].pubkey@);
    assert(infos[2].data == account_at(state, metas[2].pubkey@).data);
}

/// A Refund instruction whose accounts pass their checks, and whose escrow account
/// holds bytes of a record's size, fails with an invalid account owner wherever
/// the escrow account does not lie at the address that the maker who signed
/// derives with the number and the bump in those bytes, whatever else the bytes
/// say.
pub proof fn lemma_refund_enforces_identity(state: State, metas: Seq<AccountMeta>, data: Seq<u8>)
    requires
        is_refund(data),
        refund_accounts_failure(spec_account_infos(state, metas)) is None,
        account_at(state, refund_names(metas).escrow).data.len() == Escrow::LEN,
        Escrow::spec_address(
            refund_names(metas).maker,
            Escrow::spec_seed_in(account_at(state, refund_names(metas).escrow).data),
            Escrow::spec_bump_in(account_at(state, refund_names(metas).escrow).data),
        ) != Some(refund_names(metas).escrow),
    ensures
        spec_transact(state, metas, data) == Err::<State, ProgramError>(
            ProgramError::InvalidAccountOwner,
        ),
{
    let infos = spec_account_infos(state, metas);
    assert(infos[0].key == metas[0].pubkey@);
    assert(infos[1].key == metas[1].pubkey@);
    assert(infos[1].data == account_at(state, metas[1].pubkey@).data);
}

/// The address of the escrow account that the data and the list of a Take or of a
/// Refund name.
pub open spec fn escrow_named(metas: Seq<AccountMeta>, data: Seq<u8>) -> Seq<u8> {
    if is_take(data) {
        take_names(metas).escrow
    } else {
        refund_names(metas).escrow
    }
}

/// After a Take or a Refund that succeeds, every further Take or Refund that names
/// the same escrow account fails, and so changes nothing: the escrow account
/// exists no longer.
pub proof fn lemma_consumed_once(
    before: State,
    metas: Seq<AccountMeta>,
    data: Seq<u8>,
    after: State,
    again_metas: Seq<AccountMeta>,
    again_data: Seq<u8>,
)
    requires
        is_take(data) || is_refund(data),
        is_take(again_data) || is_refund(again_data),
        spec_transact(before, metas, data) == Ok::<State, ProgramError>(after),
        escrow_named(again_metas, again_data) == escrow_named(metas, data),
    ensures
        !exists_at(after, escrow_named(metas, data)),
        spec_transact(after, again_metas, again_data) is Err,
{
    lemma_programs_differ();
    if is_take(data) {
        lemma_take_closes(before, metas, data, after);
    } else {
        lemma_refund_effect(before, metas, data, after);
    }
    let infos = spec_account_infos(after, again_metas);
    if is_take(again_data) {
        if again_metas.len() >= 12 {
            assert(infos[2].owner == account_at(after, again_metas[2].pubkey@).owner);
        }
    } else {
        if again_metas.len() >= 7 {
            assert(infos[1].owner == account_at(after, again_metas[1].pubkey@).owner);
        }
    }
}

} // verus!
