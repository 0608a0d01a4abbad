use vstd::prelude::*;

use crate::accounts::{and_then, check_seeds, seeds_check, three_seeds, Account};
use crate::instructions::pool_create::pool_config_seeds;
use crate::pubkey::Pubkey;
use crate::state::pool_config::PoolConfig;
use crate::state::reward_distributor_config::{
    reward_config_seed_prefix, RewardDistributorConfig,
};
use crate::utils::errors::{StakeProgramErrors, StakingError};

verus! {

/// The accounts of the instruction that gives a pool its reward distributor.
#[derive(Clone, Copy, Debug)]
pub struct RewardDistributorCreate {
    /// The pool's owner, who signs and pays.
    pub pool_owner: Pubkey,
    /// The mint of the reward token.
    pub reward_token_mint: Pubkey,
    /// The pool, which the instruction updates.
    pub pool_config: Account<PoolConfig>,
    /// The reward distributor's configuration, created by the instruction.
    pub reward_distributor_config: Account<RewardDistributorConfig>,
}

/// The seeds of a reward distributor's address: `"reward_config"`, the pool's address,
/// the reward token mint.
pub open spec fn reward_config_seeds(pool_config: Seq<u8>, reward_token_mint: Seq<u8>) -> Seq<
    Seq<u8>,
> {
    seq![reward_config_seed_prefix(), pool_config, reward_token_mint]
}

impl RewardDistributorCreate {
    /// The outcome of the checks on the accounts, in the order they are made: the reward
    /// distributor's address, that the signer owns the pool, then the pool's address.
    pub open spec fn account_checks(self, program_id: Seq<u8>) -> Result<(), StakingError> {
        and_then(
            seeds_check(
                self.reward_distributor_config.key@,
                reward_config_seeds(self.pool_config.key@, self.reward_token_mint@),
                program_id,
            ),
            and_then(
                if self.pool_owner@ == self.pool_config.data.owner@ {
                    Ok(())
                } else {
                    Err(StakingError::Program(StakeProgramErrors::InvalidPoolOwner))
                },
                seeds_check(
                    self.pool_config.key@,
                    pool_config_seeds(
                        self.pool_config.data.owner@,
                        self.pool_config.data.stake_token_mint@,
                    ),
                    program_id,
                ),
            ),
        )
    }

    /// Checks the accounts of a reward distributor creation for the program `program_id`.
    pub fn validate(&self, program_id: &Pubkey) -> (r: Result<(), StakingError>)
        ensures
            r == self.account_checks(program_id@),
    {
        let seeds = three_seeds(
            RewardDistributorConfig::seed_prefix(),
            &self.pool_config.key,
            &self.reward_token_mint,
        );
        check_seeds(&self.reward_distributor_config.key, &seeds, program_id)?;
        if self.pool_owner != self.pool_config.data.owner {
            return Err(StakingError::Program(StakeProgramErrors::InvalidPoolOwner));
        }
        let seeds = three_seeds(
            PoolConfig::seed_prefix(),
            &self.pool_config.data.owner,
            &self.pool_config.data.stake_token_mint,
        );
        check_seeds(&self.pool_config.key, &seeds, program_id)
    }
}

} // verus!
