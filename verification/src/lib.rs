//! The instruction-processing core of a two-party token escrow.

use vstd::prelude::*;

pub mod account;
pub mod action;
pub mod effects;
pub mod errors;
pub mod helpers;
pub mod instructions;
pub mod laws;
pub mod ledger;
pub mod processor;
pub mod pubkey;
pub mod runtime;
pub mod state;
pub mod token;

verus! {

/// The address of this program.
pub const ID: pubkey::Pubkey = [
    15, 30, 107, 20, 33, 192, 74, 7, 4, 49, 38, 92, 25, 197, 187, 238, 25, 146, 186, 232, 175, 209,
    205, 7, 142, 248, 175, 112, 71, 220, 17, 247,
];

} // verus!
