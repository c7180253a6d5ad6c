//! What each instruction has done to the accounts once it has succeeded.

use crate::account::AccountView;
use crate::action::{optional_step, ActionView, PlanView};
use crate::errors::ProgramError;
use crate::helpers::{spec_associated_address, spec_init_if_needed};
use crate::instructions::make::{make_plan, spec_make, MakeInstructionData};
use crate::instructions::refund::{refund_accounts_failure, refund_failure, refund_plan};
use crate::instructions::take::{take_accounts_failure, take_failure, take_plan};
use crate::ledger::{account_at, exists_at, vacant, AccountState, State};
use crate::processor::spec_process_instruction;
use crate::pubkey::program_address;
use crate::runtime::{
    lemma_run_concat, lemma_run_one, lemma_run_optional, spec_account_infos, spec_apply,
    spec_reserve, spec_run, spec_transact, AccountMeta, Signers,
};
use crate::state::{lemma_record_bytes, record_bytes, Escrow};
use crate::token::{
    is_token_account, lemma_programs_differ, lemma_token_bytes, lemma_with_amount, token_amount,
    token_bytes, token_mint, token_owner, with_amount, MINT_LEN, TOKEN_ACCOUNT_LEN,
    TOKEN_PROGRAM_ID,
};
use crate::ID;
use vstd::prelude::*;

verus! {

/// What a custody account holds; an account that is no custody account holds
/// nothing.
pub open spec fn balance(state: State, key: Seq<u8>) -> int {
    if is_token_account(account_at(state, key).owner, account_at(state, key).data) {
        token_amount(account_at(state, key).data) as int
    } else {
        0
    }
}

/// What an account holds in reserve.
pub open spec fn lamports(state: State, key: Seq<u8>) -> int {
    account_at(state, key).lamports as int
}

/// The addresses that a Make instruction names.
pub struct MakeNames {
    pub maker: Seq<u8>,
    pub escrow: Seq<u8>,
    pub mint_a: Seq<u8>,
    pub mint_b: Seq<u8>,
    pub maker_ata_a: Seq<u8>,
    pub vault: Seq<u8>,
}

/// The addresses that a Take instruction names.
pub struct TakeNames {
    pub taker: Seq<u8>,
    pub maker: Seq<u8>,
    pub escrow: Seq<u8>,
    pub mint_a: Seq<u8>,
    pub mint_b: Seq<u8>,
    pub vault: Seq<u8>,
    pub taker_ata_a: Seq<u8>,
    pub taker_ata_b: Seq<u8>,
    pub maker_ata_b: Seq<u8>,
}

/// The addresses that a Refund instruction names.
pub struct RefundNames {
    pub maker: Seq<u8>,
    pub escrow: Seq<u8>,
    pub mint_a: Seq<u8>,
    pub vault: Seq<u8>,
    pub maker_ata_a: Seq<u8>,
}

/// The addresses of a Make instruction by their places in its list of accounts.
pub open spec fn make_names(metas: Seq<AccountMeta>) -> MakeNames {
    MakeNames {
        maker: metas[0].pubkey@,
        escrow: metas[1].pubkey@,
        mint_a: metas[2].pubkey@,
        mint_b: metas[3].pubkey@,
        maker_ata_a: metas[4].pubkey@,
        vault: metas[5].pubkey@,
    }
}

/// The addresses of a Take instruction by their places in its list of accounts.
pub open spec fn take_names(metas: Seq<AccountMeta>) -> TakeNames {
    TakeNames {
        taker: metas[0].pubkey@,
        maker: metas[1].pubkey@,
        escrow: metas[2].pubkey@,
        mint_a: metas[3].pubkey@,
        mint_b: metas[4].pubkey@,
        vault: metas[5].pubkey@,
        taker_ata_a: metas[6].pubkey@,
        taker_ata_b: metas[7].pubkey@,
        maker_ata_b: metas[8].pubkey@,
    }
}

/// The addresses of a Refund instruction by their places in its list of accounts.
pub open spec fn refund_names(metas: Seq<AccountMeta>) -> RefundNames {
    RefundNames {
        maker: metas[0].pubkey@,
        escrow: metas[1].pubkey@,
        mint_a: metas[2].pubkey@,
        vault: metas[3].pubkey@,
        maker_ata_a: metas[4].pubkey@,
    }
}

/// Whether `data` is the data of a Make instruction: the discriminator of Make
/// before a payload.
pub open spec fn is_make(data: Seq<u8>) -> bool {
    data.len() > 0 && data[0] == 0
}

/// Whether `data` is the data of a Take instruction.
pub open spec fn is_take(data: Seq<u8>) -> bool {
    data.len() > 0 && data[0] == 1
}

/// Whether `data` is the data of a Refund instruction.
pub open spec fn is_refund(data: Seq<u8>) -> bool {
    data.len() > 0 && data[0] == 2
}

/// The payload of a Make instruction's data.
pub open spec fn make_payload(data: Seq<u8>) -> Seq<u8> {
    data.subrange(1, data.len() as int)
}

/// What a Make instruction that the program accepts says, and the bump that the
/// program finds for its record.
pub open spec fn made_with(state: State, metas: Seq<AccountMeta>, data: Seq<u8>) -> (
    MakeInstructionData,
    u8,
) {
    spec_make(make_payload(data), spec_account_infos(state, metas))->Ok_0
}

/// Whether the custody account, the taker's two custody accounts and the maker's
/// receiving account of a Take are four accounts.
pub open spec fn four_custody_accounts(names: TakeNames) -> bool {
    &&& names.vault != names.taker_ata_a
    &&& names.vault != names.taker_ata_b
    &&& names.vault != names.maker_ata_b
    &&& names.taker_ata_a != names.taker_ata_b
    &&& names.taker_ata_a != names.maker_ata_b
    &&& names.taker_ata_b != names.maker_ata_b
}

/// What a Make instruction that succeeds has done. The escrow account did not
/// exist; now it is this program's and holds the record of the offer. The deposit
/// has left the maker's holding account, of which the maker is the holder, and
/// has come into custody. The maker has paid the reserve of the escrow account,
/// and that of the custody account where there was none.
pub proof fn lemma_make_effect(before: State, metas: Seq<AccountMeta>, data: Seq<u8>, after: State)
    requires
        is_make(data),
        spec_transact(before, metas, data) == Ok::<State, ProgramError>(after),
    ensures
        metas.len() >= 8,
        spec_make(make_payload(data), spec_account_infos(before, metas)) is Ok,
        ({
            let names = make_names(metas);
            let payload = made_with(before, metas, data).0;
            let bump = made_with(before, metas, data).1;
            &&& payload.amount > 0
            &&& names.maker != names.escrow
            &&& Escrow::spec_address(names.maker, payload.seed, bump) == Some(names.escrow)
            &&& account_at(before, names.escrow) == vacant()
            &&& account_at(after, names.escrow) == (AccountState {
                lamports: spec_reserve(Escrow::LEN as u64) as u64,
                owner: ID@,
                data: record_bytes(
                    payload.seed,
                    names.maker,
                    names.mint_a,
                    names.mint_b,
                    payload.receive,
                    bump,
                ),
            })
            &&& is_token_account(
                account_at(after, names.maker_ata_a).owner,
                account_at(after, names.maker_ata_a).data,
            )
            &&& token_owner(account_at(after, names.maker_ata_a).data) == names.maker
            &&& names.maker_ata_a != names.vault ==> {
                &&& balance(after, names.maker_ata_a) == balance(before, names.maker_ata_a)
                    - payload.amount
                &&& balance(after, names.vault) == balance(before, names.vault) + payload.amount
            }
            &&& lamports(after, names.maker) == lamports(before, names.maker) - spec_reserve(
                Escrow::LEN as u64,
            ) - (if exists_at(before, names.vault) {
                0
            } else {
                spec_reserve(TOKEN_ACCOUNT_LEN as u64)
            })
            &&& names.vault != names.maker ==> lamports(after, names.vault) == (if exists_at(
                before,
                names.vault,
            ) {
                lamports(before, names.vault)
            } else {
                spec_reserve(TOKEN_ACCOUNT_LEN as u64)
            })
        }),
{
    lemma_programs_differ();
    let infos = spec_account_infos(before, metas);
    let payload = made_with(before, metas, data).0;
    let bump = made_with(before, metas, data).1;
    let plan = make_plan(infos, payload, bump);
    let signers = Signers { metas, derived: program_address(plan.seeds, ID@) };
    assert(spec_process_instruction(infos, data) == Ok::<PlanView, ProgramError>(plan));
    let names = make_names(metas);
    assert(infos[0].key == names.maker);
    assert(infos[1].key == names.escrow);
    assert(infos[2].key == names.mint_a);
    assert(infos[3].key == names.mint_b);
    assert(infos[4].key == names.maker_ata_a);
    assert(infos[5].key == names.vault);
    let record = record_bytes(
        payload.seed,
        names.maker,
        names.mint_a,
        names.mint_b,
        payload.receive,
        bump,
    );
    lemma_record_bytes(
        payload.seed,
        names.maker,
        names.mint_a,
        names.mint_b,
        payload.receive,
        bump,
    );
    let create = ActionView::CreateAccount {
        from: names.maker,
        to: names.escrow,
        space: Escrow::LEN as u64,
        owner: ID@,
    };
    let write = ActionView::WriteRecord { account: names.escrow, data: record };
    let open = spec_init_if_needed(infos[5], infos[2], infos[0], infos[1], infos[7]);
    let deposit = ActionView::Transfer {
        from: names.maker_ata_a,
        to: names.vault,
        authority: names.maker,
        amount: payload.amount,
    };
    let rest = seq![write] + (optional_step(open) + seq![deposit]);
    assert(plan.actions =~= seq![create] + rest);
    lemma_run_concat(before, signers, seq![create], rest);
    lemma_run_one(before, signers, create);
    let created = spec_apply(before, signers, create)->Ok_0;
    lemma_run_concat(created, signers, seq![write], optional_step(open) + seq![deposit]);
    lemma_run_one(created, signers, write);
    let written = spec_apply(created, signers, write)->Ok_0;
    lemma_run_concat(written, signers, optional_step(open), seq![deposit]);
    lemma_run_optional(written, signers, open);
    let opened = spec_run(written, signers, optional_step(open))->Ok_0;
    lemma_run_one(opened, signers, deposit);
    assert(spec_apply(opened, signers, deposit) == Ok::<State, ProgramError>(after));
    if open is Some {
        lemma_token_bytes(names.mint_a, names.escrow, 0);
    }
    let source = account_at(opened, names.maker_ata_a);
    let target = account_at(opened, names.vault);
    lemma_with_amount(source.data, (token_amount(source.data) - payload.amount) as u64);
    lemma_with_amount(target.data, (token_amount(target.data) + payload.amount) as u64);
}

/// What a Refund instruction that succeeds has done. The escrow account and the
/// custody account exist no longer. The custody account was the escrow account's
/// to move, and all that it held has come to the maker's custody account. Unless
/// the maker's custody account had to be opened, the maker's reserve has grown by
/// the reserves of the two accounts that were closed.
pub proof fn lemma_refund_effect(
    before: State,
    metas: Seq<AccountMeta>,
    data: Seq<u8>,
    after: State,
)
    requires
        is_refund(data),
        spec_transact(before, metas, data) == Ok::<State, ProgramError>(after),
    ensures
        metas.len() >= 7,
        ({
            let names = refund_names(metas);
            &&& account_at(after, names.escrow) == vacant()
            &&& account_at(after, names.vault) == vacant()
            &&& account_at(before, names.escrow).owner == ID@
            &&& is_token_account(
                account_at(before, names.vault).owner,
                account_at(before, names.vault).data,
            )
            &&& token_owner(account_at(before, names.vault).data) == names.escrow
            &&& names.vault != names.maker_ata_a ==> balance(after, names.maker_ata_a)
                == balance(before, names.maker_ata_a) + balance(before, names.vault)
            &&& exists_at(before, names.maker_ata_a) ==> lamports(after, names.maker)
                == lamports(before, names.maker) + lamports(before, names.vault) + lamports(
                before,
                names.escrow,
            )
        }),
{
    lemma_programs_differ();
    let infos = spec_account_infos(before, metas);
    let plan = refund_plan(infos);
    let signers = Signers { metas, derived: program_address(plan.seeds, ID@) };
    assert(spec_process_instruction(infos, data) == Ok::<PlanView, ProgramError>(plan));
    let names = refund_names(metas);
    assert(infos[0].key == names.maker);
    assert(infos[1].key == names.escrow);
    assert(infos[3].key == names.vault);
    assert(infos[4].key == names.maker_ata_a);
    let held = token_amount(infos[3].data);
    let open = spec_init_if_needed(infos[4], infos[2], infos[0], infos[0], infos[6]);
    let release = ActionView::Transfer {
        from: names.vault,
        to: names.maker_ata_a,
        authority: names.escrow,
        amount: held,
    };
    let close = ActionView::CloseAccount {
        account: names.vault,
        destination: names.maker,
        authority: names.escrow,
    };
    let retire = ActionView::CloseRecord { account: names.escrow, destination: names.maker };
    let tail = seq![release] + (seq![close] + seq![retire]);
    assert(plan.actions =~= optional_step(open) + tail);
    lemma_run_concat(before, signers, optional_step(open), tail);
    lemma_run_optional(before, signers, open);
    let opened = spec_run(before, signers, optional_step(open))->Ok_0;
    lemma_run_concat(opened, signers, seq![release], seq![close] + seq![retire]);
    lemma_run_one(opened, signers, release);
    let released = spec_apply(opened, signers, release)->Ok_0;
    lemma_run_concat(released, signers, seq![close], seq![retire]);
    lemma_run_one(released, signers, close);
    let closed = spec_apply(released, signers, close)->Ok_0;
    lemma_run_one(closed, signers, retire);
    assert(spec_apply(closed, signers, retire) == Ok::<State, ProgramError>(after));
    let source = account_at(opened, names.vault);
    let target = account_at(opened, names.maker_ata_a);
    lemma_with_amount(source.data, (token_amount(source.data) - held) as u64);
    lemma_with_amount(target.data, (token_amount(target.data) + held) as u64);
    if open is Some {
        lemma_token_bytes(metas[2].pubkey@, names.maker, 0);
    }
}

/// What a Take instruction that succeeds has done to the escrow: the escrow
/// account and the custody account exist no longer, whatever accounts the
/// instruction names.
pub proof fn lemma_take_closes(before: State, metas: Seq<AccountMeta>, data: Seq<u8>, after: State)
    requires
        is_take(data),
        spec_transact(before, metas, data) == Ok::<State, ProgramError>(after),
    ensures
        metas.len() >= 12,
        account_at(after, take_names(metas).escrow) == vacant(),
        account_at(after, take_names(metas).vault) == vacant(),
{
    lemma_programs_differ();
    let infos = spec_account_infos(before, metas);
    let plan = take_plan(infos);
    let signers = Signers { metas, derived: program_address(plan.seeds, ID@) };
    assert(spec_process_instruction(infos, data) == Ok::<PlanView, ProgramError>(plan));
    let names = take_names(metas);
    assert(infos[1].key == names.maker);
    assert(infos[2].key == names.escrow);
    assert(infos[5].key == names.vault);
    let close = ActionView::CloseAccount {
        account: names.vault,
        destination: names.maker,
        authority: names.escrow,
    };
    let retire = ActionView::CloseRecord { account: names.escrow, destination: names.maker };
    let head = plan.actions.subrange(0, plan.actions.len() - 2);
    assert(plan.actions =~= head + (seq![close] + seq![retire]));
    lemma_run_concat(before, signers, head, seq![close] + seq![retire]);
    let released = spec_run(before, signers, head)->Ok_0;
    lemma_run_concat(released, signers, seq![close], seq![retire]);
    lemma_run_one(released, signers, close);
    let closed = spec_apply(released, signers, close)->Ok_0;
    lemma_run_one(closed, signers, retire);
}

/// What a Take instruction that succeeds has done to the holdings, where the
/// custody account, the taker's two custody accounts and the maker's receiving
/// account are four accounts. The custody account was the escrow account's to
/// move, and all that it held has come to the taker; the maker has received the
/// quantity that the record asks, from the taker.
pub proof fn lemma_take_effect(before: State, metas: Seq<AccountMeta>, data: Seq<u8>, after: State)
    requires
        is_take(data),
        spec_transact(before, metas, data) == Ok::<State, ProgramError>(after),
        four_custody_accounts(take_names(metas)),
    ensures
        metas.len() >= 12,
        ({
            let names = take_names(metas);
            let receive = Escrow::spec_receive_in(account_at(before, names.escrow).data);
            &&& account_at(before, names.escrow).owner == ID@
            &&& account_at(before, names.escrow).data.len() == Escrow::LEN
            &&& is_token_account(
                account_at(before, names.vault).owner,
                account_at(before, names.vault).data,
            )
            &&& token_owner(account_at(before, names.vault).data) == names.escrow
            &&& balance(after, names.taker_ata_a) == balance(before, names.taker_ata_a) + balance(
                before,
                names.vault,
            )
            &&& balance(after, names.maker_ata_b) == balance(before, names.maker_ata_b) + receive
            &&& balance(after, names.taker_ata_b) == balance(before, names.taker_ata_b) - receive
        }),
{
    lemma_programs_differ();
    let infos = spec_account_infos(before, metas);
    let plan = take_plan(infos);
    let signers = Signers { metas, derived: program_address(plan.seeds, ID@) };
    assert(spec_process_instruction(infos, data) == Ok::<PlanView, ProgramError>(plan));
    let names = take_names(metas);
    assert(infos[0].key == names.taker);
    assert(infos[1].key == names.maker);
    assert(infos[2].key == names.escrow);
    assert(infos[5].key == names.vault);
    assert(infos[6].key == names.taker_ata_a);
    assert(infos[7].key == names.taker_ata_b);
    assert(infos[8].key == names.maker_ata_b);
    let receive = Escrow::spec_receive_in(infos[2].data);
    let held = token_amount(infos[5].data);
    let open_a = spec_init_if_needed(infos[6], infos[3], infos[0], infos[0], infos[10]);
    let open_b = spec_init_if_needed(infos[8], infos[4], infos[0], infos[1], infos[10]);
    let pay = ActionView::Transfer {
        from: names.taker_ata_b,
        to: names.maker_ata_b,
        authority: names.taker,
        amount: receive,
    };
    let release = ActionView::Transfer {
        from: names.vault,
        to: names.taker_ata_a,
        authority: names.escrow,
        amount: held,
    };
    let close = ActionView::CloseAccount {
        account: names.vault,
        destination: names.maker,
        authority: names.escrow,
    };
    let retire = ActionView::CloseRecord { account: names.escrow, destination: names.maker };
    let tail = seq![pay] + (seq![release] + (seq![close] + seq![retire]));
    assert(plan.actions =~= optional_step(open_a) + (optional_step(open_b) + tail));
    lemma_run_concat(before, signers, optional_step(open_a), optional_step(open_b) + tail);
    lemma_run_optional(before, signers, open_a);
    let opened_a = spec_run(before, signers, optional_step(open_a))->Ok_0;
    lemma_run_concat(opened_a, signers, optional_step(open_b), tail);
    lemma_run_optional(opened_a, signers, open_b);
    let opened_b = spec_run(opened_a, signers, optional_step(open_b))->Ok_0;
    lemma_run_concat(opened_b, signers, seq![pay], seq![release] + (seq![close] + seq![retire]));
    lemma_run_one(opened_b, signers, pay);
    let paid = spec_apply(opened_b, signers, pay)->Ok_0;
    lemma_run_concat(paid, signers, seq![release], seq![close] + seq![retire]);
    lemma_run_one(paid, signers, release);
    let released = spec_apply(paid, signers, release)->Ok_0;
    lemma_run_concat(released, signers, seq![close], seq![retire]);
    lemma_run_one(released, signers, close);
    let closed = spec_apply(released, signers, close)->Ok_0;
    lemma_run_one(closed, signers, retire);
    assert(spec_apply(closed, signers, retire) == Ok::<State, ProgramError>(after));
    if open_a is Some {
        lemma_token_bytes(metas[3].pubkey@, names.taker, 0);
    }
    if open_b is Some {
        lemma_token_bytes(metas[4].pubkey@, names.maker, 0);
    }
    let payer = account_at(opened_b, names.taker_ata_b);
    let payee = account_at(opened_b, names.maker_ata_b);
    lemma_with_amount(payer.data, (token_amount(payer.data) - receive) as u64);
    lemma_with_amount(payee.data, (token_amount(payee.data) + receive) as u64);
    let source = account_at(paid, names.vault);
    let target = account_at(paid, names.taker_ata_a);
    lemma_with_amount(source.data, (token_amount(source.data) - held) as u64);
    lemma_with_amount(target.data, (token_amount(target.data) + held) as u64);
}

/// What a Make instruction that succeeds leaves where no custody account existed
/// before: a custody account at the canonical address of the escrow account and
/// the asset, which holds the deposit for the escrow account, and beside it the
/// maker's holding account of the same asset at its own canonical address, both
/// under the custody program that the instruction named.
pub proof fn lemma_make_opens_custody(
    before: State,
    metas: Seq<AccountMeta>,
    data: Seq<u8>,
    after: State,
)
    requires
        is_make(data),
        spec_transact(before, metas, data) == Ok::<State, ProgramError>(after),
        !exists_at(before, make_names(metas).vault),
    ensures
        metas.len() >= 8,
        metas[7].pubkey@ == TOKEN_PROGRAM_ID@,
        ({
            let names = make_names(metas);
            let payload = made_with(before, metas, data).0;
            &&& names.maker_ata_a != names.vault
            &&& names.vault != names.maker
            &&& names.vault != names.escrow
            &&& account_at(after, names.mint_a).data.len() == MINT_LEN
            &&& account_at(after, names.mint_b).data.len() == MINT_LEN
            &&& spec_associated_address(names.escrow, TOKEN_PROGRAM_ID@, names.mint_a) == Some(
                names.vault,
            )
            &&& spec_associated_address(names.maker, TOKEN_PROGRAM_ID@, names.mint_a) == Some(
                names.maker_ata_a,
            )
            &&& account_at(after, names.vault) == (AccountState {
                lamports: spec_reserve(TOKEN_ACCOUNT_LEN as u64) as u64,
                owner: TOKEN_PROGRAM_ID@,
                data: with_amount(token_bytes(names.mint_a, names.escrow, 0), payload.amount),
            })
            &&& token_mint(account_at(after, names.maker_ata_a).data) == names.mint_a
            &&& balance(after, names.maker_ata_a) + payload.amount <= u64::MAX
        }),
{
    lemma_programs_differ();
    let infos = spec_account_infos(before, metas);
    let payload = made_with(before, metas, data).0;
    let bump = made_with(before, metas, data).1;
    let plan = make_plan(infos, payload, bump);
    let signers = Signers { metas, derived: program_address(plan.seeds, ID@) };
    assert(spec_process_instruction(infos, data) == Ok::<PlanView, ProgramError>(plan));
    let names = make_names(metas);
    assert(infos[0].key == names.maker);
    assert(infos[1].key == names.escrow);
    assert(infos[2].key == names.mint_a);
    assert(infos[3].key == names.mint_b);
    assert(infos[4].key == names.maker_ata_a);
    assert(infos[5].key == names.vault);
    assert(infos[7].key == metas[7].pubkey@);
    let record = record_bytes(
        payload.seed,
        names.maker,
        names.mint_a,
        names.mint_b,
        payload.receive,
        bump,
    );
    lemma_record_bytes(
        payload.seed,
        names.maker,
        names.mint_a,
        names.mint_b,
        payload.receive,
        bump,
    );
    let create = ActionView::CreateAccount {
        from: names.maker,
        to: names.escrow,
        space: Escrow::LEN as u64,
        owner: ID@,
    };
    let write = ActionView::WriteRecord { account: names.escrow, data: record };
    let open = spec_init_if_needed(infos[5], infos[2], infos[0], infos[1], infos[7]);
    let deposit = ActionView::Transfer {
        from: names.maker_ata_a,
        to: names.vault,
        authority: names.maker,
        amount: payload.amount,
    };
    let rest = seq![write] + (optional_step(open) + seq![deposit]);
    assert(plan.actions =~= seq![create] + rest);
    lemma_run_concat(before, signers, seq![create], rest);
    lemma_run_one(before, signers, create);
    let created = spec_apply(before, signers, create)->Ok_0;
    lemma_run_concat(created, signers, seq![write], optional_step(open) + seq![deposit]);
    lemma_run_one(created, signers, write);
    let written = spec_apply(created, signers, write)->Ok_0;
    lemma_run_concat(written, signers, optional_step(open), seq![deposit]);
    lemma_run_optional(written, signers, open);
    let opened = spec_run(written, signers, optional_step(open))->Ok_0;
    lemma_run_one(opened, signers, deposit);
    assert(spec_apply(opened, signers, deposit) == Ok::<State, ProgramError>(after));
    lemma_token_bytes(names.mint_a, names.escrow, 0);
    let source = account_at(opened, names.maker_ata_a);
    let target = account_at(opened, names.vault);
    lemma_with_amount(source.data, (token_amount(source.data) - payload.amount) as u64);
    lemma_with_amount(target.data, (token_amount(target.data) + payload.amount) as u64);
    assert(open is Some);
}

/// A Make that succeeds where no custody account existed before can be undone:
/// the Refund that the maker signs for the same escrow account, asset, custody
/// account and holding account, under the same custody program, succeeds.
pub proof fn lemma_refund_follows_make(
    start: State,
    make_metas: Seq<AccountMeta>,
    make_data: Seq<u8>,
    made: State,
    refund_metas: Seq<AccountMeta>,
    refund_data: Seq<u8>,
)
    requires
        is_make(make_data),
        is_refund(refund_data),
        spec_transact(start, make_metas, make_data) == Ok::<State, ProgramError>(made),
        !exists_at(start, make_names(make_metas).vault),
        refund_metas.len() >= 7,
        refund_metas[0].is_signer,
        refund_names(refund_metas).maker == make_names(make_metas).maker,
        refund_names(refund_metas).escrow == make_names(make_metas).escrow,
        refund_names(refund_metas).mint_a == make_names(make_metas).mint_a,
        refund_names(refund_metas).vault == make_names(make_metas).vault,
        refund_names(refund_metas).maker_ata_a == make_names(make_metas).maker_ata_a,
        refund_metas[6].pubkey@ == make_metas[7].pubkey@,
    ensures
        spec_transact(made, refund_metas, refund_data) is Ok,
{
    lemma_programs_differ();
    lemma_make_effect(start, make_metas, make_data, made);
    lemma_make_opens_custody(start, make_metas, make_data, made);
    let names = refund_names(refund_metas);
    let payload = made_with(start, make_metas, make_data).0;
    let bump = made_with(start, make_metas, make_data).1;
    lemma_record_bytes(
        payload.seed,
        names.maker,
        names.mint_a,
        make_names(make_metas).mint_b,
        payload.receive,
        bump,
    );
    lemma_token_bytes(names.mint_a, names.escrow, 0);
    lemma_with_amount(token_bytes(names.mint_a, names.escrow, 0), payload.amount);
    let infos = spec_account_infos(made, refund_metas);
    assert(infos[0].key == names.maker);
    assert(infos[1].key == names.escrow);
    assert(infos[2].key == names.mint_a);
    assert(infos[3].key == names.vault);
    assert(infos[4].key == names.maker_ata_a);
    assert(infos[6].key == TOKEN_PROGRAM_ID@);
    assert(infos[0].is_signer);
    assert(infos[1].data == account_at(made, names.escrow).data);
    assert(infos[1].owner == ID@);
    assert(infos[3] == (AccountView {
        key: names.vault,
        owner: account_at(made, names.vault).owner,
        lamports: account_at(made, names.vault).lamports,
        data: account_at(made, names.vault).data,
        is_signer: refund_metas[3].is_signer,
        is_writable: refund_metas[3].is_writable,
    }));
    assert(infos[4].owner == TOKEN_PROGRAM_ID@);
    assert(refund_accounts_failure(infos) is None);
    assert(refund_failure(infos) is None);
    let plan = refund_plan(infos);
    assert(spec_process_instruction(infos, refund_data) == Ok::<PlanView, ProgramError>(plan));
    let signers = Signers { metas: refund_metas, derived: program_address(plan.seeds, ID@) };
    assert(signers.derived == Some(names.escrow));
    let held = token_amount(infos[3].data);
    assert(held == payload.amount);
    let open = spec_init_if_needed(infos[4], infos[2], infos[0], infos[0], infos[6]);
    assert(open is None);
    let release = ActionView::Transfer {
        from: names.vault,
        to: names.maker_ata_a,
        authority: names.escrow,
        amount: held,
    };
    let close = ActionView::CloseAccount {
        account: names.vault,
        destination: names.maker,
        authority: names.escrow,
    };
    let retire = ActionView::CloseRecord { account: names.escrow, destination: names.maker };
    let tail = seq![release] + (seq![close] + seq![retire]);
    assert(plan.actions =~= optional_step(open) + tail);
    lemma_run_concat(made, signers, optional_step(open), tail);
    lemma_run_optional(made, signers, open);
    lemma_run_concat(made, signers, seq![release], seq![close] + seq![retire]);
    lemma_run_one(made, signers, release);
    let source = account_at(made, names.vault);
    let target = account_at(made, names.maker_ata_a);
    lemma_with_amount(source.data, 0);
    lemma_with_amount(target.data, (token_amount(target.data) + held) as u64);
    assert(spec_apply(made, signers, release) is Ok);
    let released = spec_apply(made, signers, release)->Ok_0;
    lemma_run_concat(released, signers, seq![close], seq![retire]);
    lemma_run_one(released, signers, close);
    assert(spec_apply(released, signers, close) is Ok);
    let closed = spec_apply(released, signers, close)->Ok_0;
    lemma_run_one(closed, signers, retire);
    assert(spec_apply(closed, signers, retire) is Ok);
}

/// Whether `account` is, in `state`, the custody account of `holder` for the
/// asset `mint`: a custody account at the canonical address, whose record names
/// the holder and the asset.
pub open spec fn is_holding(state: State, account: Seq<u8>, holder: Seq<u8>, mint: Seq<u8>) -> bool {
    &&& spec_associated_address(holder, TOKEN_PROGRAM_ID@, mint) == Some(account)
    &&& is_token_account(account_at(state, account).owner, account_at(state, account).data)
    &&& token_owner(account_at(state, account).data) == holder
    &&& token_mint(account_at(state, account).data) == mint
}

/// A Make that succeeds where no custody account existed before can be taken: the
/// Take succeeds that a taker signs for the same maker, escrow account, assets and
/// custody account, under the same custody program, where the taker holds the
/// requested quantity of the second asset, the taker's and the maker's receiving
/// accounts exist and have room for what they receive, and the four custody
/// accounts are four accounts.
pub proof fn lemma_take_follows_make(
    start: State,
    make_metas: Seq<AccountMeta>,
    make_data: Seq<u8>,
    made: State,
    take_metas: Seq<AccountMeta>,
    take_data: Seq<u8>,
)
    requires
        is_make(make_data),
        is_take(take_data),
        spec_transact(start, make_metas, make_data) == Ok::<State, ProgramError>(made),
        !exists_at(start, make_names(make_metas).vault),
        take_metas.len() >= 12,
        take_metas[0].is_signer,
        take_names(take_metas).maker == make_names(make_metas).maker,
        take_names(take_metas).escrow == make_names(make_metas).escrow,
        take_names(take_metas).mint_a == make_names(make_metas).mint_a,
        take_names(take_metas).mint_b == make_names(make_metas).mint_b,
        take_names(take_metas).vault == make_names(make_metas).vault,
        take_metas[10].pubkey@ == make_metas[7].pubkey@,
        four_custody_accounts(take_names(take_metas)),
        ({
            let names = take_names(take_metas);
            let payload = made_with(start, make_metas, make_data).0;
            &&& is_holding(made, names.taker_ata_b, names.taker, names.mint_b)
            &&& is_holding(made, names.maker_ata_b, names.maker, names.mint_b)
            &&& is_holding(made, names.taker_ata_a, names.taker, names.mint_a)
            &&& balance(made, names.taker_ata_b) >= payload.receive
            &&& balance(made, names.maker_ata_b) + payload.receive <= u64::MAX
            &&& balance(made, names.taker_ata_a) + payload.amount <= u64::MAX
        }),
    ensures
        spec_transact(made, take_metas, take_data) is Ok,
{
    lemma_programs_differ();
    lemma_make_effect(start, make_metas, make_data, made);
    lemma_make_opens_custody(start, make_metas, make_data, made);
    let names = take_names(take_metas);
    let payload = made_with(start, make_metas, make_data).0;
    let bump = made_with(start, make_metas, make_data).1;
    lemma_record_bytes(
        payload.seed,
        names.maker,
        names.mint_a,
        names.mint_b,
        payload.receive,
        bump,
    );
    lemma_token_bytes(names.mint_a, names.escrow, 0);
    lemma_with_amount(token_bytes(names.mint_a, names.escrow, 0), payload.amount);
    let infos = spec_account_infos(made, take_metas);
    assert(infos[0].key == names.taker);
    assert(infos[1].key == names.maker);
    assert(infos[2].key == names.escrow);
    assert(infos[3].key == names.mint_a);
    assert(infos[4].key == names.mint_b);
    assert(infos[5].key == names.vault);
    assert(infos[6].key == names.taker_ata_a);
    assert(infos[7].key == names.taker_ata_b);
    assert(infos[8].key == names.maker_ata_b);
    assert(infos[10].key == TOKEN_PROGRAM_ID@);
    assert(infos[0].is_signer);
    assert(infos[2].data == account_at(made, names.escrow).data);
    assert(infos[2].owner == ID@);
    assert(infos[5].owner == TOKEN_PROGRAM_ID@);
    assert(infos[5].data == account_at(made, names.vault).data);
    assert(infos[6].owner == TOKEN_PROGRAM_ID@);
    assert(infos[7].owner == TOKEN_PROGRAM_ID@);
    assert(infos[8].owner == TOKEN_PROGRAM_ID@);
    assert(take_accounts_failure(infos) is None);
    assert(take_failure(infos) is None);
    let plan = take_plan(infos);
    assert(spec_process_instruction(infos, take_data) == Ok::<PlanView, ProgramError>(plan));
    let signers = Signers { metas: take_metas, derived: program_address(plan.seeds, ID@) };
    assert(signers.derived == Some(names.escrow));
    assert(take_metas[0].is_signer && take_metas[0].pubkey@ == names.taker);
    assert(signers.has(names.taker));
    let receive = Escrow::spec_receive_in(infos[2].data);
    assert(receive == payload.receive);
    let held = token_amount(infos[5].data);
    assert(held == payload.amount);
    let open_a = spec_init_if_needed(infos[6], infos[3], infos[0], infos[0], infos[10]);
    let open_b = spec_init_if_needed(infos[8], infos[4], infos[0], infos[1], infos[10]);
    assert(open_a is None);
    assert(open_b is None);
    let pay = ActionView::Transfer {
        from: names.taker_ata_b,
        to: names.maker_ata_b,
        authority: names.taker,
        amount: receive,
    };
    let release = ActionView::Transfer {
        from: names.vault,
        to: names.taker_ata_a,
        authority: names.escrow,
        amount: held,
    };
    let close = ActionView::CloseAccount {
        account: names.vault,
        destination: names.maker,
        authority: names.escrow,
    };
    let retire = ActionView::CloseRecord { account: names.escrow, destination: names.maker };
    let tail = seq![pay] + (seq![release] + (seq![close] + seq![retire]));
    assert(plan.actions =~= optional_step(open_a) + (optional_step(open_b) + tail));
    lemma_run_concat(made, signers, optional_step(open_a), optional_step(open_b) + tail);
    lemma_run_optional(made, signers, open_a);
    lemma_run_concat(made, signers, optional_step(open_b), tail);
    lemma_run_optional(made, signers, open_b);
    lemma_run_concat(made, signers, seq![pay], seq![release] + (seq![close] + seq![retire]));
    lemma_run_one(made, signers, pay);
    let payer = account_at(made, names.taker_ata_b);
    let payee = account_at(made, names.maker_ata_b);
    lemma_with_amount(payer.data, (token_amount(payer.data) - receive) as u64);
    lemma_with_amount(payee.data, (token_amount(payee.data) + receive) as u64);
    assert(spec_apply(made, signers, pay) is Ok);
    let paid = spec_apply(made, signers, pay)->Ok_0;
    lemma_run_concat(paid, signers, seq![release], seq![close] + seq![retire]);
    lemma_run_one(paid, signers, release);
    let source = account_at(paid, names.vault);
    let target = account_at(paid, names.taker_ata_a);
    lemma_with_amount(source.data, 0);
    lemma_with_amount(target.data, (token_amount(target.data) + held) as u64);
    assert(spec_apply(paid, signers, release) is Ok);
    let released = spec_apply(paid, signers, release)->Ok_0;
    lemma_run_concat(released, signers, seq![close], seq![retire]);
    lemma_run_one(released, signers, close);
    assert(spec_apply(released, signers, close) is Ok);
    let closed = spec_apply(released, signers, close)->Ok_0;
    lemma_run_one(closed, signers, retire);
    assert(spec_apply(closed, signers, retire) is Ok);
}

} // verus!
