//! What the reference host does with an instruction: it presents the accounts to
//! the program, and performs the steps of the plan that the program answers, all
//! or none.

use crate::account::{views, AccountInfo, AccountView};
use crate::action::{optional_step, Action, ActionView, Plan, PlanView};
use crate::errors::ProgramError;
use crate::helpers::{spec_associated_address, AssociatedTokenAccount};
use crate::ledger::{account_at, vacant, Account, AccountState, Ledger, State};
use crate::processor::{process_instruction, spec_process_instruction};
use crate::pubkey::{program_address, pubkey_eq, Pubkey};
use crate::token::{
    is_mint_account, is_token_account, new_token_data, set_token_amount, token_amount,
    token_bytes, token_mint, token_owner, with_amount, zeros, INSUFFICIENT_FUNDS, MINT_LEN,
    MINT_MISMATCH, NON_NATIVE_HAS_BALANCE, OVERFLOW, OWNER_MISMATCH, SYSTEM_PROGRAM_ID,
    TOKEN_ACCOUNT_LEN, TOKEN_PROGRAM_ID,
};
use crate::state::{read_pubkey, read_u64, Escrow};
use crate::ID;
use vstd::prelude::*;

verus! {

/// One entry of an instruction's list of accounts.
#[derive(Clone, Copy, Debug, PartialEq, Eq)]
pub struct AccountMeta {
    /// The address of the account.
    pub pubkey: Pubkey,
    /// Whether the holder of the address has signed.
    pub is_signer: bool,
    /// Whether the instruction may change the account.
    pub is_writable: bool,
}

/// The allocator's code for an address that is in use already.
pub const ACCOUNT_ALREADY_IN_USE: u32 = 0;

/// The allocator's code for a payer whose reserve does not cover the cost.
pub const RESULT_WITH_NEGATIVE_LAMPORTS: u32 = 1;

/// The allocator's code for more bytes than an account may store.
pub const INVALID_ACCOUNT_DATA_LENGTH: u32 = 3;

/// The most bytes that an account may store.
pub const MAX_PERMITTED_DATA_LENGTH: u64 = 10485760;

/// What the host's bookkeeping of an account costs besides its bytes.
pub const ACCOUNT_STORAGE_OVERHEAD: u64 = 128;

/// What the host asks in reserve for each byte of an account.
pub const LAMPORTS_PER_BYTE: u64 = 6960;

/// The reserve that the host asks for an account of `space` bytes.
pub open spec fn spec_reserve(space: u64) -> int {
    (ACCOUNT_STORAGE_OVERHEAD + space) * LAMPORTS_PER_BYTE
}

/// The reserve that the host asks for an account of `space` bytes.
pub fn reserve(space: u64) -> (lamports: u64)
    requires
        space <= MAX_PERMITTED_DATA_LENGTH,
    ensures
        lamports == spec_reserve(space),
        lamports > 0,
{
    (ACCOUNT_STORAGE_OVERHEAD + space) * LAMPORTS_PER_BYTE
}

/// Who stands behind the steps of an instruction: the signers of its list of
/// accounts, and the address for which the program's derived authority signs.
pub struct Signers {
    pub metas: Seq<AccountMeta>,
    pub derived: Option<Seq<u8>>,
}

impl Signers {
    /// Whether `key` has signed.
    pub open spec fn has(self, key: Seq<u8>) -> bool {
        self.derived == Some(key) || exists|i: int|
            0 <= i < self.metas.len() && #[trigger] self.metas[i].is_signer
                && self.metas[i].pubkey@ == key
    }
}

/// An address that may be missing, as bytes.
pub open spec fn address_view(address: Option<Pubkey>) -> Option<Seq<u8>> {
    match address {
        Some(a) => Some(a@),
        None => None,
    }
}

/// Whether `key` has signed.
fn has_signed(metas: &[AccountMeta], derived: &Option<Pubkey>, key: &Pubkey) -> (r: bool)
    ensures
        r == (Signers { metas: metas@, derived: address_view(*derived) }).has(key@),
{
    if let Some(address) = derived {
        if pubkey_eq(address, key) {
            return true;
        }
    }
    let mut i: usize = 0;
    while i < metas.len()
        invariant
            i <= metas@.len(),
            forall|j: int|
                0 <= j < i ==> !(#[trigger] metas@[j].is_signer && metas@[j].pubkey@ == key@),
        decreases metas@.len() - i,
    {
        if metas[i].is_signer && pubkey_eq(&metas[i].pubkey, key) {
            let ghost signers = Signers { metas: metas@, derived: address_view(*derived) };
            assert(signers.metas[i as int].is_signer && signers.metas[i as int].pubkey@ == key@);
            assert(signers.has(key@));
            return true;
        }
        i += 1;
    }
    false
}

/// The account `account` with `lamports` in reserve.
pub open spec fn with_lamports(account: AccountState, lamports: int) -> AccountState {
    AccountState { lamports: lamports as u64, owner: account.owner, data: account.data }
}

/// The account `account` storing `data`.
pub open spec fn with_data(account: AccountState, data: Seq<u8>) -> AccountState {
    AccountState { lamports: account.lamports, owner: account.owner, data }
}

/// The allocator opens the account `to` with `space` zero bytes for `owner`, at
/// the cost of `from`. Both have to sign, the address has to be vacant and the
/// payer's reserve has to cover the new account's.
pub open spec fn spec_create_account(
    state: State,
    signers: Signers,
    from: Seq<u8>,
    to: Seq<u8>,
    space: u64,
    owner: Seq<u8>,
) -> Result<State, ProgramError> {
    if !signers.has(from) || !signers.has(to) {
        Err(ProgramError::MissingRequiredSignature)
    } else if account_at(state, to) != vacant() {
        Err(ProgramError::Custom(ACCOUNT_ALREADY_IN_USE))
    } else if space > MAX_PERMITTED_DATA_LENGTH {
        Err(ProgramError::Custom(INVALID_ACCOUNT_DATA_LENGTH))
    } else if account_at(state, from).lamports < spec_reserve(space) {
        Err(ProgramError::Custom(RESULT_WITH_NEGATIVE_LAMPORTS))
    } else {
        Ok(
            state.insert(
                from,
                with_lamports(
                    account_at(state, from),
                    account_at(state, from).lamports - spec_reserve(space),
                ),
            ).insert(
                to,
                AccountState {
                    lamports: spec_reserve(space) as u64,
                    owner,
                    data: zeros(space as nat),
                },
            ),
        )
    }
}

/// The custody primitive opens the custody account of `wallet` for the asset
/// `mint` at `account`, at the cost of `funder`. The funder has to sign, the
/// address has to be the canonical one and vacant, the asset has to be an asset
/// type, and the funder's reserve has to cover the new account's.
pub open spec fn spec_create_associated_account(
    state: State,
    signers: Signers,
    funder: Seq<u8>,
    account: Seq<u8>,
    wallet: Seq<u8>,
    mint: Seq<u8>,
) -> Result<State, ProgramError> {
    if !signers.has(funder) {
        Err(ProgramError::MissingRequiredSignature)
    } else if spec_associated_address(wallet, TOKEN_PROGRAM_ID@, mint) != Some(account) {
        Err(ProgramError::InvalidSeeds)
    } else if account_at(state, account) != vacant() {
        Err(ProgramError::IllegalOwner)
    } else if !is_mint_account(account_at(state, mint).owner, account_at(state, mint).data) {
        Err(ProgramError::InvalidAccountData)
    } else if account_at(state, funder).lamports < spec_reserve(TOKEN_ACCOUNT_LEN as u64) {
        Err(ProgramError::Custom(RESULT_WITH_NEGATIVE_LAMPORTS))
    } else {
        Ok(
            state.insert(
                funder,
                with_lamports(
                    account_at(state, funder),
                    account_at(state, funder).lamports - spec_reserve(TOKEN_ACCOUNT_LEN as u64),
                ),
            ).insert(
                account,
                AccountState {
                    lamports: spec_reserve(TOKEN_ACCOUNT_LEN as u64) as u64,
                    owner: TOKEN_PROGRAM_ID@,
                    data: token_bytes(mint, wallet, 0),
                },
            ),
        )
    }
}

/// The custody primitive moves `amount` from the custody account `from` to the
/// custody account `to`. Both have to be custody accounts of one asset, `from` has
/// to hold the quantity, and `authority` has to be the holder of `from` and to
/// sign. A transfer of an account to itself changes nothing.
pub open spec fn spec_transfer(
    state: State,
    signers: Signers,
    from: Seq<u8>,
    to: Seq<u8>,
    authority: Seq<u8>,
    amount: u64,
) -> Result<State, ProgramError> {
    let source = account_at(state, from);
    let target = account_at(state, to);
    if !is_token_account(source.owner, source.data) || !is_token_account(
        target.owner,
        target.data,
    ) {
        Err(ProgramError::InvalidAccountData)
    } else if token_amount(source.data) < amount {
        Err(ProgramError::Custom(INSUFFICIENT_FUNDS))
    } else if token_mint(source.data) != token_mint(target.data) {
        Err(ProgramError::Custom(MINT_MISMATCH))
    } else if token_owner(source.data) != authority {
        Err(ProgramError::Custom(OWNER_MISMATCH))
    } else if !signers.has(authority) {
        Err(ProgramError::MissingRequiredSignature)
    } else if from == to {
        Ok(state)
    } else if token_amount(target.data) + amount > u64::MAX {
        Err(ProgramError::Custom(OVERFLOW))
    } else {
        Ok(
            state.insert(
                from,
                with_data(
                    source,
                    with_amount(source.data, (token_amount(source.data) - amount) as u64),
                ),
            ).insert(
                to,
                with_data(
                    target,
                    with_amount(target.data, (token_amount(target.data) + amount) as u64),
                ),
            ),
        )
    }
}

/// The custody primitive closes the custody account `account` and hands its
/// reserve to `destination`. The account has to be empty and another one than the
/// destination, and `authority` has to be its holder and to sign.
pub open spec fn spec_close_account(
    state: State,
    signers: Signers,
    account: Seq<u8>,
    destination: Seq<u8>,
    authority: Seq<u8>,
) -> Result<State, ProgramError> {
    let closed = account_at(state, account);
    let target = account_at(state, destination);
    if !is_token_account(closed.owner, closed.data) {
        Err(ProgramError::InvalidAccountData)
    } else if account == destination {
        Err(ProgramError::InvalidAccountData)
    } else if token_amount(closed.data) != 0 {
        Err(ProgramError::Custom(NON_NATIVE_HAS_BALANCE))
    } else if token_owner(closed.data) != authority {
        Err(ProgramError::Custom(OWNER_MISMATCH))
    } else if !signers.has(authority) {
        Err(ProgramError::MissingRequiredSignature)
    } else if target.lamports + closed.lamports > u64::MAX {
        Err(ProgramError::Custom(OVERFLOW))
    } else {
        Ok(
            state.insert(
                destination,
                with_lamports(target, target.lamports + closed.lamports),
            ).insert(account, vacant()),
        )
    }
}

/// The program writes a record into an account of its own that has the record's
/// size.
pub open spec fn spec_write_record(state: State, account: Seq<u8>, data: Seq<u8>) -> Result<
    State,
    ProgramError,
> {
    let written = account_at(state, account);
    if written.owner != ID@ || written.data.len() != data.len() {
        Err(ProgramError::InvalidAccountData)
    } else {
        Ok(state.insert(account, with_data(written, data)))
    }
}

/// The program gives up an account of its own and hands its reserve to
/// `destination`, which has to be another account.
pub open spec fn spec_close_record(state: State, account: Seq<u8>, destination: Seq<u8>)
    -> Result<State, ProgramError> {
    let closed = account_at(state, account);
    let target = account_at(state, destination);
    if closed.owner != ID@ {
        Err(ProgramError::IllegalOwner)
    } else if account == destination {
        Err(ProgramError::AccountBorrowFailed)
    } else if target.lamports + closed.lamports > u64::MAX {
        Err(ProgramError::ArithmeticOverflow)
    } else {
        Ok(
            state.insert(
                destination,
                with_lamports(target, target.lamports + closed.lamports),
            ).insert(account, vacant()),
        )
    }
}

/// What one step does to the accounts, or why the collaborator refuses it.
pub open spec fn spec_apply(state: State, signers: Signers, action: ActionView) -> Result<
    State,
    ProgramError,
> {
    match action {
        ActionView::CreateAccount { from, to, space, owner } => spec_create_account(
            state,
            signers,
            from,
            to,
            space,
            owner,
        ),
        ActionView::CreateAssociatedAccount {
            funder,
            account,
            wallet,
            mint,
        } => spec_create_associated_account(state, signers, funder, account, wallet, mint),
        ActionView::Transfer { from, to, authority, amount } => spec_transfer(
            state,
            signers,
            from,
            to,
            authority,
            amount,
        ),
        ActionView::CloseAccount { account, destination, authority } => spec_close_account(
            state,
            signers,
            account,
            destination,
            authority,
        ),
        ActionView::WriteRecord { account, data } => spec_write_record(state, account, data),
        ActionView::CloseRecord { account, destination } => spec_close_record(
            state,
            account,
            destination,
        ),
    }
}

/// What the steps do to the accounts one after another, or the first refusal.
pub open spec fn spec_run(state: State, signers: Signers, actions: Seq<ActionView>) -> Result<
    State,
    ProgramError,
>
    decreases actions.len(),
{
    if actions.len() == 0 {
        Ok(state)
    } else {
        match spec_apply(state, signers, actions[0]) {
            Err(e) => Err(e),
            Ok(next) => spec_run(next, signers, actions.drop_first()),
        }
    }
}

/// What the host presents of the accounts that an instruction lists.
pub open spec fn spec_account_infos(state: State, metas: Seq<AccountMeta>) -> Seq<AccountView> {
    Seq::new(
        metas.len(),
        |i: int|
            AccountView {
                key: metas[i].pubkey@,
                owner: account_at(state, metas[i].pubkey@).owner,
                lamports: account_at(state, metas[i].pubkey@).lamports,
                data: account_at(state, metas[i].pubkey@).data,
                is_signer: metas[i].is_signer,
                is_writable: metas[i].is_writable,
            },
    )
}

/// The accounts after the host has performed the plan, or the first refusal. The
/// signers of the instruction's list and the authority that the plan's seeds
/// derive for this program stand behind every step.
pub open spec fn spec_execute(state: State, metas: Seq<AccountMeta>, plan: PlanView) -> Result<
    State,
    ProgramError,
> {
    spec_run(
        state,
        Signers { metas, derived: program_address(plan.seeds, ID@) },
        plan.actions,
    )
}

/// The accounts after an instruction with the list of accounts `metas` and the
/// data `data`, or the reason for which the instruction fails: the program's
/// refusal, or a collaborator's.
pub open spec fn spec_transact(state: State, metas: Seq<AccountMeta>, data: Seq<u8>) -> Result<
    State,
    ProgramError,
> {
    match spec_process_instruction(spec_account_infos(state, metas), data) {
        Err(e) => Err(e),
        Ok(plan) => spec_execute(state, metas, plan),
    }
}

/// Whether a call that answered `answer` and left the accounts `after` has done
/// what `expected` says: on success the accounts are the expected ones, on failure
/// the failure is the expected one and the accounts are as `before`.
pub open spec fn meets(
    before: State,
    after: State,
    answer: Result<(), ProgramError>,
    expected: Result<State, ProgramError>,
) -> bool {
    match expected {
        Ok(state) => answer is Ok && after == state,
        Err(e) => answer == Err::<(), ProgramError>(e) && after == before,
    }
}

/// Whether nothing stands at the address of this account.
fn is_vacant(account: &Account) -> (r: bool)
    ensures
        r == (account@ == vacant()),
{
    if account.lamports == 0 && account.data.len() == 0 && pubkey_eq(
        &account.owner,
        &SYSTEM_PROGRAM_ID,
    ) {
        assert(account@.data =~= Seq::<u8>::empty());
        true
    } else {
        false
    }
}

/// Whether the account is a custody account.
fn holds_tokens(account: &Account) -> (r: bool)
    ensures
        r == is_token_account(account@.owner, account@.data),
{
    account.data.len() == TOKEN_ACCOUNT_LEN && pubkey_eq(&account.owner, &TOKEN_PROGRAM_ID)
}

impl Ledger {
    /// The allocator opens an account.
    pub fn create_account(
        &mut self,
        metas: &[AccountMeta],
        derived: &Option<Pubkey>,
        from: &Pubkey,
        to: &Pubkey,
        space: u64,
        owner: &Pubkey,
    ) -> (r: Result<(), ProgramError>)
        ensures
            meets(
                old(self)@,
                final(self)@,
                r,
                spec_create_account(
                    old(self)@,
                    Signers { metas: metas@, derived: address_view(*derived) },
                    from@,
                    to@,
                    space,
                    owner@,
                ),
            ),
    {
        if !has_signed(metas, derived, from) || !has_signed(metas, derived, to) {
            return Err(ProgramError::MissingRequiredSignature);
        }
        let target = self.account(to);
        if !is_vacant(&target) {
            return Err(ProgramError::Custom(ACCOUNT_ALREADY_IN_USE));
        }
        if space > MAX_PERMITTED_DATA_LENGTH {
            return Err(ProgramError::Custom(INVALID_ACCOUNT_DATA_LENGTH));
        }
        let payer = self.account(from);
        let cost = reserve(space);
        if payer.lamports < cost {
            return Err(ProgramError::Custom(RESULT_WITH_NEGATIVE_LAMPORTS));
        }
        let data: Vec<u8> = vec![0u8; space as usize];
        assert(data@ =~= zeros(space as nat));
        self.set_account(
            from,
            Account { lamports: payer.lamports - cost, owner: payer.owner, data: payer.data },
        );
        self.set_account(to, Account { lamports: cost, owner: *owner, data });
        Ok(())
    }

    /// The custody primitive opens a custody account.
    pub fn create_associated_account(
        &mut self,
        metas: &[AccountMeta],
        derived: &Option<Pubkey>,
        funder: &Pubkey,
        account: &Pubkey,
        wallet: &Pubkey,
        mint: &Pubkey,
    ) -> (r: Result<(), ProgramError>)
        ensures
            meets(
                old(self)@,
                final(self)@,
                r,
                spec_create_associated_account(
                    old(self)@,
                    Signers { metas: metas@, derived: address_view(*derived) },
                    funder@,
                    account@,
                    wallet@,
                    mint@,
                ),
            ),
    {
        if !has_signed(metas, derived, funder) {
            return Err(ProgramError::MissingRequiredSignature);
        }
        match AssociatedTokenAccount::address(wallet, &TOKEN_PROGRAM_ID, mint) {
            Some(address) => {
                if !pubkey_eq(&address, account) {
                    return Err(ProgramError::InvalidSeeds);
                }
            },
            None => {
                return Err(ProgramError::InvalidSeeds);
            },
        }
        let target = self.account(account);
        if !is_vacant(&target) {
            return Err(ProgramError::IllegalOwner);
        }
        let asset = self.account(mint);
        if !(asset.data.len() == MINT_LEN && pubkey_eq(&asset.owner, &TOKEN_PROGRAM_ID)) {
            return Err(ProgramError::InvalidAccountData);
        }
        let payer = self.account(funder);
        let cost = reserve(TOKEN_ACCOUNT_LEN as u64);
        if payer.lamports < cost {
            return Err(ProgramError::Custom(RESULT_WITH_NEGATIVE_LAMPORTS));
        }
        self.set_account(
            funder,
            Account { lamports: payer.lamports - cost, owner: payer.owner, data: payer.data },
        );
        self.set_account(
            account,
            Account { lamports: cost, owner: TOKEN_PROGRAM_ID, data: new_token_data(mint, wallet) },
        );
        Ok(())
    }

    /// The custody primitive moves a quantity between two custody accounts.
    pub fn transfer(
        &mut self,
        metas: &[AccountMeta],
        derived: &Option<Pubkey>,
        from: &Pubkey,
        to: &Pubkey,
        authority: &Pubkey,
        amount: u64,
    ) -> (r: Result<(), ProgramError>)
        ensures
            meets(
                old(self)@,
                final(self)@,
                r,
                spec_transfer(
                    old(self)@,
                    Signers { metas: metas@, derived: address_view(*derived) },
                    from@,
                    to@,
                    authority@,
                    amount,
                ),
            ),
    {
        let mut source = self.account(from);
        let mut target = self.account(to);
        if !holds_tokens(&source) || !holds_tokens(&target) {
            return Err(ProgramError::InvalidAccountData);
        }
        let held = read_u64(source.data.as_slice(), 64);
        if held < amount {
            return Err(ProgramError::Custom(INSUFFICIENT_FUNDS));
        }
        let source_mint = read_pubkey(source.data.as_slice(), 0);
        let target_mint = read_pubkey(target.data.as_slice(), 0);
        if !pubkey_eq(&source_mint, &target_mint) {
            return Err(ProgramError::Custom(MINT_MISMATCH));
        }
        let holder = read_pubkey(source.data.as_slice(), 32);
        if !pubkey_eq(&holder, authority) {
            return Err(ProgramError::Custom(OWNER_MISMATCH));
        }
        if !has_signed(metas, derived, authority) {
            return Err(ProgramError::MissingRequiredSignature);
        }
        if pubkey_eq(from, to) {
            return Ok(());
        }
        let received = read_u64(target.data.as_slice(), 64);
        if received > u64::MAX - amount {
            return Err(ProgramError::Custom(OVERFLOW));
        }
        set_token_amount(&mut source.data, held - amount);
        set_token_amount(&mut target.data, received + amount);
        self.set_account(from, source);
        self.set_account(to, target);
        Ok(())
    }

    /// The custody primitive closes an empty custody account.
    pub fn close_account(
        &mut self,
        metas: &[AccountMeta],
        derived: &Option<Pubkey>,
        account: &Pubkey,
        destination: &Pubkey,
        authority: &Pubkey,
    ) -> (r: Result<(), ProgramError>)
        ensures
            meets(
                old(self)@,
                final(self)@,
                r,
                spec_close_account(
                    old(self)@,
                    Signers { metas: metas@, derived: address_view(*derived) },
                    account@,
                    destination@,
                    authority@,
                ),
            ),
    {
        let closed = self.account(account);
        let target = self.account(destination);
        if !holds_tokens(&closed) {
            return Err(ProgramError::InvalidAccountData);
        }
        if pubkey_eq(account, destination) {
            return Err(ProgramError::InvalidAccountData);
        }
        if read_u64(closed.data.as_slice(), 64) != 0 {
            return Err(ProgramError::Custom(NON_NATIVE_HAS_BALANCE));
        }
        let holder = read_pubkey(closed.data.as_slice(), 32);
        if !pubkey_eq(&holder, authority) {
            return Err(ProgramError::Custom(OWNER_MISMATCH));
        }
        if !has_signed(metas, derived, authority) {
            return Err(ProgramError::MissingRequiredSignature);
        }
        if target.lamports > u64::MAX - closed.lamports {
            return Err(ProgramError::Custom(OVERFLOW));
        }
        self.set_account(
            destination,
            Account {
                lamports: target.lamports + closed.lamports,
                owner: target.owner,
                data: target.data,
            },
        );
        self.set_account(account, Account::vacant());
        Ok(())
    }

    /// The program writes a record into an account of its own.
    pub fn write_record(&mut self, account: &Pubkey, record: &Escrow) -> (r: Result<
        (),
        ProgramError,
    >)
        ensures
            meets(
                old(self)@,
                final(self)@,
                r,
                spec_write_record(old(self)@, account@, record.spec_bytes()),
            ),
    {
        let written = self.account(account);
        let data = record.to_bytes();
        if !pubkey_eq(&written.owner, &ID) || written.data.len() != data.len() {
            return Err(ProgramError::InvalidAccountData);
        }
        self.set_account(
            account,
            Account { lamports: written.lamports, owner: written.owner, data },
        );
        Ok(())
    }

    /// The program gives up an account of its own.
    pub fn close_record(&mut self, account: &Pubkey, destination: &Pubkey) -> (r: Result<
        (),
        ProgramError,
    >)
        ensures
            meets(
                old(self)@,
                final(self)@,
                r,
                spec_close_record(old(self)@, account@, destination@),
            ),
    {
        let closed = self.account(account);
        let target = self.account(destination);
        if !pubkey_eq(&closed.owner, &ID) {
            return Err(ProgramError::IllegalOwner);
        }
        if pubkey_eq(account, destination) {
            return Err(ProgramError::AccountBorrowFailed);
        }
        if target.lamports > u64::MAX - closed.lamports {
            return Err(ProgramError::ArithmeticOverflow);
        }
        self.set_account(
            destination,
            Account {
                lamports: target.lamports + closed.lamports,
                owner: target.owner,
                data: target.data,
            },
        );
        self.set_account(account, Account::vacant());
        Ok(())
    }

    /// Performs one step.
    pub fn apply(&mut self, metas: &[AccountMeta], derived: &Option<Pubkey>, action: &Action) -> (r:
        Result<(), ProgramError>)
        ensures
            meets(
                old(self)@,
                final(self)@,
                r,
                spec_apply(
                    old(self)@,
                    Signers { metas: metas@, derived: address_view(*derived) },
                    action@,
                ),
            ),
    {
        match action {
            Action::CreateAccount { from, to, space, owner } => self.create_account(
                metas,
                derived,
                from,
                to,
                *space,
                owner,
            ),
            Action::CreateAssociatedAccount {
                funder,
                account,
                wallet,
                mint,
            } => self.create_associated_account(metas, derived, funder, account, wallet, mint),
            Action::Transfer { from, to, authority, amount } => self.transfer(
                metas,
                derived,
                from,
                to,
                authority,
                *amount,
            ),
            Action::CloseAccount { account, destination, authority } => self.close_account(
                metas,
                derived,
                account,
                destination,
                authority,
            ),
            Action::WriteRecord { account, record } => self.write_record(account, record),
            Action::CloseRecord { account, destination } => self.close_record(
                account,
                destination,
            ),
        }
    }
}

/// The steps that are left after the first `done` of them do to the accounts what
/// the whole list does, once the first `done` have brought the accounts from
/// `start` to `state`.
proof fn lemma_run_skips(state: State, signers: Signers, actions: Seq<ActionView>, done: int)
    requires
        0 <= done < actions.len(),
    ensures
        spec_run(state, signers, actions.skip(done)) == match spec_apply(
            state,
            signers,
            actions[done],
        ) {
            Err(e) => Err(e),
            Ok(next) => spec_run(next, signers, actions.skip(done + 1)),
        },
{
    assert(actions.skip(done).drop_first() =~= actions.skip(done + 1));
}

impl Ledger {
    /// What the host presents of the accounts that an instruction lists.
    pub fn account_infos(&self, metas: &[AccountMeta]) -> (infos: Vec<AccountInfo>)
        ensures
            views(infos@) == spec_account_infos(self@, metas@),
    {
        let mut infos: Vec<AccountInfo> = Vec::new();
        let mut i: usize = 0;
        while i < metas.len()
            invariant
                i <= metas@.len(),
                infos@.len() == i,
                forall|j: int| 0 <= j < i ==> infos@[j]@ == spec_account_infos(self@, metas@)[j],
            decreases metas@.len() - i,
        {
            let meta = &metas[i];
            let account = self.account(&meta.pubkey);
            infos.push(
                AccountInfo {
                    key: meta.pubkey,
                    owner: account.owner,
                    lamports: account.lamports,
                    data: account.data,
                    is_signer: meta.is_signer,
                    is_writable: meta.is_writable,
                },
            );
            i += 1;
        }
        assert(views(infos@) =~= spec_account_infos(self@, metas@));
        infos
    }

    /// Performs the steps of a plan, all or none: where a collaborator refuses a
    /// step, the accounts stay as they were.
    pub fn execute(&mut self, metas: &[AccountMeta], plan: &Plan) -> (r: Result<(), ProgramError>)
        ensures
            meets(old(self)@, final(self)@, r, spec_execute(old(self)@, metas@, plan@)),
    {
        let derived = plan.authority.address();
        let ghost signers = Signers { metas: metas@, derived: address_view(derived) };
        assert(signers.derived == program_address(plan@.seeds, ID@));
        let ghost actions = plan@.actions;
        let mut work = self.duplicate();
        let mut i: usize = 0;
        assert(actions.skip(0) =~= actions);
        while i < plan.actions.len()
            invariant
                i <= plan.actions@.len(),
                self@ == old(self)@,
                actions == plan@.actions,
                signers == (Signers { metas: metas@, derived: address_view(derived) }),
                signers.derived == program_address(plan@.seeds, ID@),
                spec_run(self@, signers, actions) == spec_run(work@, signers, actions.skip(i as int)),
            decreases plan.actions@.len() - i,
        {
            proof {
                lemma_run_skips(work@, signers, actions, i as int);
            }
            match work.apply(metas, &derived, &plan.actions[i]) {
                Ok(_) => {},
                Err(e) => {
                    return Err(e);
                },
            }
            i += 1;
        }
        assert(actions.skip(i as int) =~= Seq::<ActionView>::empty());
        *self = work;
        Ok(())
    }

    /// Runs one instruction of the program on the accounts of the host, all or
    /// nothing: the host presents the listed accounts, the program answers with a
    /// plan or refuses, and the host performs the plan.
    pub fn process_instruction(&mut self, metas: &[AccountMeta], data: &[u8]) -> (r: Result<
        (),
        ProgramError,
    >)
        ensures
            meets(old(self)@, final(self)@, r, spec_transact(old(self)@, metas@, data@)),
    {
        let infos = self.account_infos(metas);
        match process_instruction(infos.as_slice(), data) {
            Ok(plan) => self.execute(metas, &plan),
            Err(e) => Err(e),
        }
    }
}

/// What further steps do after an outcome: nothing after a refusal.
pub open spec fn run_after(
    outcome: Result<State, ProgramError>,
    signers: Signers,
    actions: Seq<ActionView>,
) -> Result<State, ProgramError> {
    match outcome {
        Err(e) => Err(e),
        Ok(state) => spec_run(state, signers, actions),
    }
}

/// To run two lists of steps one after the other is to run the one list that
/// holds both.
pub proof fn lemma_run_concat(
    state: State,
    signers: Signers,
    first: Seq<ActionView>,
    second: Seq<ActionView>,
)
    ensures
        spec_run(state, signers, first + second) == run_after(
            spec_run(state, signers, first),
            signers,
            second,
        ),
    decreases first.len(),
{
    if first.len() == 0 {
        assert(first + second =~= second);
    } else {
        assert((first + second).drop_first() =~= first.drop_first() + second);
        assert((first + second)[0] == first[0]);
        match spec_apply(state, signers, first[0]) {
            Err(e) => {},
            Ok(next) => {
                lemma_run_concat(next, signers, first.drop_first(), second);
            },
        }
    }
}

/// To run one step is to apply it.
pub proof fn lemma_run_one(state: State, signers: Signers, action: ActionView)
    ensures
        spec_run(state, signers, seq![action]) == spec_apply(state, signers, action),
{
    assert(seq![action].drop_first() =~= Seq::<ActionView>::empty());
    match spec_apply(state, signers, action) {
        Err(e) => {},
        Ok(next) => {
            assert(spec_run(next, signers, Seq::<ActionView>::empty()) == Ok::<
                State,
                ProgramError,
            >(next));
        },
    }
}

/// To run a step that may be missing is to apply it where it is there.
pub proof fn lemma_run_optional(state: State, signers: Signers, step: Option<ActionView>)
    ensures
        spec_run(state, signers, optional_step(step)) == match step {
            Some(action) => spec_apply(state, signers, action),
            None => Ok(state),
        },
{
    match step {
        Some(action) => {
            lemma_run_one(state, signers, action);
        },
        None => {},
    }
}

} // verus!
