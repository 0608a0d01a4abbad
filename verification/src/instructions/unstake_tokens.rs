use vstd::prelude::*;

use crate::accounts::{and_then, check_seeds, seeds_check, three_seeds, Account, TokenAccount};
use crate::instructions::pool_create::pool_config_seeds;
use crate::pubkey::Pubkey;
use crate::state::pool_config::PoolConfig;
use crate::utils::errors::{StakeProgramErrors, StakingError};

verus! {

/// The accounts of the instruction by which a user takes staked tokens back.
#[derive(Clone, Copy, Debug)]
pub struct UnstakeUserTokens {
    /// The user, who signs.
    pub user: Pubkey,
    /// The mint of the staked token.
    pub stake_token_mint: Pubkey,
    /// The pool.
    pub pool_config: Account<PoolConfig>,
    /// The pool's vault.
    pub stake_token_vault: Account<TokenAccount>,
    /// The user's token account for the stake token.
    pub stake_token_user_ata: Account<TokenAccount>,
}

impl UnstakeUserTokens {
    /// The outcome of the checks on the accounts, in the order they are made: that the
    /// pool stakes this mint, then the pool's address.
    pub open spec fn account_checks(self, program_id: Seq<u8>) -> Result<(), StakingError> {
        and_then(
            if self.stake_token_mint@ == self.pool_config.data.stake_token_mint@ {
                Ok(())
            } else {
                Err(StakingError::Program(StakeProgramErrors::InvalidStakeToken))
            },
            seeds_check(
                self.pool_config.key@,
                pool_config_seeds(
                    self.pool_config.data.owner@,
                    self.pool_config.data.stake_token_mint@,
                ),
                program_id,
            ),
        )
    }

    /// Checks the accounts of an unstake for the program `program_id`.
    pub fn validate(&self, program_id: &Pubkey) -> (r: Result<(), StakingError>)
        ensures
            r == self.account_checks(program_id@),
    {
        if self.stake_token_mint != self.pool_config.data.stake_token_mint {
            return Err(StakingError::Program(StakeProgramErrors::InvalidStakeToken));
        }
        let seeds = three_seeds(
            PoolConfig::seed_prefix(),
            &self.pool_config.data.owner,
            &self.pool_config.data.stake_token_mint,
        );
        check_seeds(&self.pool_config.key, &seeds, program_id)
    }
}

} // verus!
