use vstd::prelude::*;

use crate::accounts::{
    and_then, check_created_associated_token, check_seeds, created_associated_token_check,
    seeds_check, three_seeds, Account, TokenAccount,
};
use crate::pubkey::Pubkey;
use crate::state::pool_config::{pool_config_seed_prefix, PoolConfig};
use crate::utils::errors::StakingError;

verus! {

/// The accounts of the instruction that creates a pool.
#[derive(Clone, Copy, Debug)]
pub struct PoolCreate {
    /// The pool's owner, who signs and pays.
    pub owner: Pubkey,
    /// The pool's configuration, created by the instruction.
    pub pool_config: Account<PoolConfig>,
    /// The mint of the token that the pool stakes.
    pub stake_token_mint: Pubkey,
    /// The pool's vault: the associated token account of the pool for the stake token,
    /// created if it is missing.
    pub stake_token_vault: Account<TokenAccount>,
}

/// The seeds of a pool's address: `"pool_config"`, its owner, its stake token mint.
pub open spec fn pool_config_seeds(owner: Seq<u8>, stake_token_mint: Seq<u8>) -> Seq<Seq<u8>> {
    seq![pool_config_seed_prefix(), owner, stake_token_mint]
}

impl PoolCreate {
    /// The outcome of the checks on the accounts, in the order they are made: the pool's
    /// address, then the vault (its mint, its owner, its address).
    pub open spec fn account_checks(self, program_id: Seq<u8>) -> Result<(), StakingError> {
        and_then(
            seeds_check(
                self.pool_config.key@,
                pool_config_seeds(self.owner@, self.stake_token_mint@),
                program_id,
            ),
            created_associated_token_check(
                self.stake_token_vault,
                self.pool_config.key@,
                self.stake_token_mint@,
            ),
        )
    }

    /// Checks the accounts of a pool creation for the program `program_id`.
    pub fn validate(&self, program_id: &Pubkey) -> (r: Result<(), StakingError>)
        ensures
            r == self.account_checks(program_id@),
    {
        let seeds = three_seeds(PoolConfig::seed_prefix(), &self.owner, &self.stake_token_mint);
        check_seeds(&self.pool_config.key, &seeds, program_id)?;
        check_created_associated_token(
            &self.stake_token_vault,
            &self.pool_config.key,
            &self.stake_token_mint,
        )
    }
}

} // verus!
