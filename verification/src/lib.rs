use vstd::prelude::*;

pub mod accounts;
pub mod address;
pub mod handlers;
pub mod instructions;
pub mod properties;
pub mod pubkey;
pub mod state;
pub mod token_staking;
pub mod utils;

verus! {

/// The accounts of the program's first instruction: none.
#[derive(Clone, Copy, Debug)]
pub struct Initialize {}

} // verus!
