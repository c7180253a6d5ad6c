//! A reference host: the accounts that exist, and what the collaborators of the
//! escrow do to them. The protocols are held against it, and it lets the program
//! run where no chain is at hand.

use crate::pubkey::{pubkey_eq, Pubkey};
use crate::token::SYSTEM_PROGRAM_ID;
use vstd::prelude::*;
use vstd::slice::slice_to_vec;

verus! {

/// What the host keeps of one account.
#[derive(Debug, PartialEq, Eq)]
pub struct Account {
    /// The balance that the account holds in reserve.
    pub lamports: u64,
    /// The program that owns the account.
    pub owner: Pubkey,
    /// The bytes that the account stores.
    pub data: Vec<u8>,
}

/// An account as a mathematical value.
pub struct AccountState {
    pub lamports: u64,
    pub owner: Seq<u8>,
    pub data: Seq<u8>,
}

impl View for Account {
    type V = AccountState;

    open spec fn view(&self) -> AccountState {
        AccountState { lamports: self.lamports, owner: self.owner@, data: self.data@ }
    }
}

/// The accounts of the host by their addresses.
pub type State = Map<Seq<u8>, AccountState>;

/// An address at which no account exists: nothing in reserve, no data, and the
/// allocator as owner.
pub open spec fn vacant() -> AccountState {
    AccountState { lamports: 0, owner: SYSTEM_PROGRAM_ID@, data: Seq::empty() }
}

/// The account at `key`; where the host keeps none, the address is vacant.
pub open spec fn account_at(state: State, key: Seq<u8>) -> AccountState {
    if state.dom().contains(key) {
        state[key]
    } else {
        vacant()
    }
}

/// Whether an account exists at `key`.
pub open spec fn exists_at(state: State, key: Seq<u8>) -> bool {
    account_at(state, key) != vacant()
}

impl Account {
    /// A copy of the account.
    pub fn duplicate(&self) -> (copy: Account)
        ensures
            copy@ == self@,
    {
        Account { lamports: self.lamports, owner: self.owner, data: slice_to_vec(self.data.as_slice()) }
    }

    /// What stands for an address at which no account exists.
    pub fn vacant() -> (account: Account)
        ensures
            account@ == vacant(),
    {
        let account = Account { lamports: 0, owner: SYSTEM_PROGRAM_ID, data: Vec::new() };
        assert(account@.data =~= Seq::<u8>::empty());
        account
    }
}

/// One account under its address.
#[derive(Debug)]
pub struct Entry {
    pub key: Pubkey,
    pub account: Account,
}

/// The accounts that the first `n` entries describe: a later entry replaces an
/// earlier one at the same address.
pub open spec fn entries_state(entries: Seq<Entry>, n: nat) -> State
    decreases n,
{
    if n == 0 {
        Map::empty()
    } else {
        entries_state(entries, (n - 1) as nat).insert(
            entries[n - 1].key@,
            entries[n - 1].account@,
        )
    }
}

/// The accounts of the host.
#[derive(Debug)]
pub struct Ledger {
    pub entries: Vec<Entry>,
}

impl View for Ledger {
    type V = State;

    open spec fn view(&self) -> State {
        entries_state(self.entries@, self.entries@.len())
    }
}

/// Entries that no later entry replaces decide what stands at their address.
proof fn lemma_last_entry_decides(entries: Seq<Entry>, n: nat, i: int, key: Seq<u8>)
    requires
        0 <= i < n <= entries.len(),
        entries[i].key@ == key,
        forall|j: int| i < j < n ==> entries[j].key@ != key,
    ensures
        entries_state(entries, n).dom().contains(key),
        entries_state(entries, n)[key] == entries[i].account@,
    decreases n,
{
    if n - 1 > i {
        lemma_last_entry_decides(entries, (n - 1) as nat, i, key);
    }
}

/// An address that no entry names has no account.
proof fn lemma_no_entry_no_account(entries: Seq<Entry>, n: nat, key: Seq<u8>)
    requires
        n <= entries.len(),
        forall|j: int| 0 <= j < n ==> entries[j].key@ != key,
    ensures
        !entries_state(entries, n).dom().contains(key),
    decreases n,
{
    if n > 0 {
        lemma_no_entry_no_account(entries, (n - 1) as nat, key);
    }
}

/// Entries that agree up to `n`, in their addresses and in what their accounts
/// hold, describe the same accounts up to `n`.
proof fn lemma_same_entries_same_state(a: Seq<Entry>, b: Seq<Entry>, n: nat)
    requires
        n <= a.len(),
        n <= b.len(),
        forall|j: int| 0 <= j < n ==> a[j].key@ == b[j].key@ && a[j].account@ == b[j].account@,
    ensures
        entries_state(a, n) == entries_state(b, n),
    decreases n,
{
    if n > 0 {
        lemma_same_entries_same_state(a, b, (n - 1) as nat);
    }
}

/// To replace the account of the deciding entry is to insert the new account.
proof fn lemma_replace_deciding_entry(old: Seq<Entry>, new: Seq<Entry>, n: nat, i: int)
    requires
        0 <= i < n <= old.len(),
        old.len() == new.len(),
        new[i].key@ == old[i].key@,
        forall|j: int| 0 <= j < old.len() && j != i ==> new[j] == old[j],
        forall|j: int| i < j < n ==> old[j].key@ != old[i].key@,
    ensures
        entries_state(new, n) =~= entries_state(old, n).insert(old[i].key@, new[i].account@),
    decreases n,
{
    if n - 1 > i {
        lemma_replace_deciding_entry(old, new, (n - 1) as nat, i);
    } else {
        lemma_same_entries_same_state(old, new, i as nat);
    }
}

impl Ledger {
    /// A host without accounts.
    pub fn new() -> (ledger: Ledger)
        ensures
            ledger@ == Map::<Seq<u8>, AccountState>::empty(),
    {
        Ledger { entries: Vec::new() }
    }

    /// A copy of the host's accounts.
    pub fn duplicate(&self) -> (copy: Ledger)
        ensures
            copy@ == self@,
    {
        let mut entries: Vec<Entry> = Vec::new();
        let mut i: usize = 0;
        while i < self.entries.len()
            invariant
                i <= self.entries@.len(),
                entries@.len() == i,
                forall|j: int|
                    0 <= j < i ==> entries@[j].key@ == self.entries@[j].key@
                        && entries@[j].account@ == self.entries@[j].account@,
            decreases self.entries@.len() - i,
        {
            let entry = &self.entries[i];
            entries.push(Entry { key: entry.key, account: entry.account.duplicate() });
            i += 1;
        }
        proof {
            lemma_same_entries_same_state(entries@, self.entries@, entries@.len());
        }
        Ledger { entries }
    }

    /// The place of the entry that decides what stands at `key`.
    fn find(&self, key: &Pubkey) -> (r: Option<usize>)
        ensures
            match r {
                Some(i) => {
                    &&& i < self.entries@.len()
                    &&& self.entries@[i as int].key@ == key@
                    &&& forall|j: int|
                        i < j < self.entries@.len() ==> self.entries@[j].key@ != key@
                    &&& self@.dom().contains(key@)
                    &&& self@[key@] == self.entries@[i as int].account@
                },
                None => !self@.dom().contains(key@),
            },
    {
        let mut i: usize = self.entries.len();
        while i > 0
            invariant
                i <= self.entries@.len(),
                forall|j: int| i <= j < self.entries@.len() ==> self.entries@[j].key@ != key@,
            decreases i,
        {
            i -= 1;
            if pubkey_eq(&self.entries[i].key, key) {
                proof {
                    lemma_last_entry_decides(
                        self.entries@,
                        self.entries@.len(),
                        i as int,
                        key@,
                    );
                }
                return Some(i);
            }
        }
        proof {
            lemma_no_entry_no_account(self.entries@, self.entries@.len(), key@);
        }
        None
    }

    /// The account at `key`, vacant where the host keeps none.
    pub fn account(&self, key: &Pubkey) -> (account: Account)
        ensures
            account@ == account_at(self@, key@),
    {
        match self.find(key) {
            Some(i) => self.entries[i].account.duplicate(),
            None => Account::vacant(),
        }
    }

    /// Puts `account` at `key`, in place of what stood there.
    pub fn set_account(&mut self, key: &Pubkey, account: Account)
        ensures
            final(self)@ == old(self)@.insert(key@, account@),
    {
        match self.find(key) {
            Some(i) => {
                let ghost before = self.entries@;
                self.entries[i] = Entry { key: *key, account };
                proof {
                    lemma_replace_deciding_entry(before, self.entries@, before.len(), i as int);
                }
            },
            None => {
                self.entries.push(Entry { key: *key, account });
                proof {
                    lemma_same_entries_same_state(
                        old(self).entries@,
                        self.entries@,
                        old(self).entries@.len(),
                    );
                }
            },
        }
    }
}

} // verus!
