//! What a protocol asks of its collaborators: the calls that move value and open
//! or close accounts, in the order in which the host has to perform them.

use crate::pubkey::Pubkey;
use crate::state::{DerivedAuthority, Escrow};
use vstd::prelude::*;

verus! {

/// One step of a protocol.
#[derive(Clone, Copy, Debug, PartialEq, Eq)]
pub enum Action {
    /// The allocator opens the account `to`: `space` zero bytes, owned by `owner`,
    /// with a reserve paid by `from`.
    CreateAccount { from: Pubkey, to: Pubkey, space: u64, owner: Pubkey },
    /// The custody primitive opens the custody account of `wallet` for the asset
    /// `mint` at `account`, with a reserve paid by `funder`.
    CreateAssociatedAccount { funder: Pubkey, account: Pubkey, wallet: Pubkey, mint: Pubkey },
    /// The custody primitive moves `amount` from one custody account to another, on
    /// the word of `authority`.
    Transfer { from: Pubkey, to: Pubkey, authority: Pubkey, amount: u64 },
    /// The custody primitive closes an empty custody account and hands its reserve
    /// to `destination`, on the word of `authority`.
    CloseAccount { account: Pubkey, destination: Pubkey, authority: Pubkey },
    /// The program writes `record` into the escrow account.
    WriteRecord { account: Pubkey, record: Escrow },
    /// The program gives up the escrow account and hands its reserve to
    /// `destination`.
    CloseRecord { account: Pubkey, destination: Pubkey },
}

/// A step as a mathematical value: addresses and records as sequences of bytes.
pub enum ActionView {
    CreateAccount { from: Seq<u8>, to: Seq<u8>, space: u64, owner: Seq<u8> },
    CreateAssociatedAccount { funder: Seq<u8>, account: Seq<u8>, wallet: Seq<u8>, mint: Seq<u8> },
    Transfer { from: Seq<u8>, to: Seq<u8>, authority: Seq<u8>, amount: u64 },
    CloseAccount { account: Seq<u8>, destination: Seq<u8>, authority: Seq<u8> },
    WriteRecord { account: Seq<u8>, data: Seq<u8> },
    CloseRecord { account: Seq<u8>, destination: Seq<u8> },
}

impl View for Action {
    type V = ActionView;

    open spec fn view(&self) -> ActionView {
        match *self {
            Action::CreateAccount { from, to, space, owner } => ActionView::CreateAccount {
                from: from@,
                to: to@,
                space,
                owner: owner@,
            },
            Action::CreateAssociatedAccount {
                funder,
                account,
                wallet,
                mint,
            } => ActionView::CreateAssociatedAccount {
                funder: funder@,
                account: account@,
                wallet: wallet@,
                mint: mint@,
            },
            Action::Transfer { from, to, authority, amount } => ActionView::Transfer {
                from: from@,
                to: to@,
                authority: authority@,
                amount,
            },
            Action::CloseAccount { account, destination, authority } => ActionView::CloseAccount {
                account: account@,
                destination: destination@,
                authority: authority@,
            },
            Action::WriteRecord { account, record } => ActionView::WriteRecord {
                account: account@,
                data: record.spec_bytes(),
            },
            Action::CloseRecord { account, destination } => ActionView::CloseRecord {
                account: account@,
                destination: destination@,
            },
        }
    }
}

/// The steps of one instruction, with the authority of the escrow record that
/// signs them. The host performs all of them or none.
#[derive(Debug, PartialEq, Eq)]
pub struct Plan {
    /// The authority that signs beside the signers of the instruction.
    pub authority: DerivedAuthority,
    /// The steps, first to last.
    pub actions: Vec<Action>,
}

/// A plan as a mathematical value: the seeds of the authority that signs, and the
/// steps.
pub struct PlanView {
    pub seeds: Seq<Seq<u8>>,
    pub actions: Seq<ActionView>,
}

/// The steps of a list as mathematical values.
pub open spec fn action_views(actions: Seq<Action>) -> Seq<ActionView> {
    Seq::new(actions.len(), |i: int| actions[i]@)
}

impl View for Plan {
    type V = PlanView;

    open spec fn view(&self) -> PlanView {
        PlanView { seeds: self.authority.spec_seeds(), actions: action_views(self.actions@) }
    }
}

/// The steps of a step that may be missing.
pub open spec fn optional_step(step: Option<ActionView>) -> Seq<ActionView> {
    match step {
        Some(action) => seq![action],
        None => seq![],
    }
}

} // verus!
