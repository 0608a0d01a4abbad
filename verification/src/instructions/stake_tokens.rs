use vstd::prelude::*;

use crate::accounts::{
    and_then, associated_token_check, check_associated_token, check_seeds, seeds_check,
    three_seeds, Account, TokenAccount,
};
use crate::instructions::pool_create::pool_config_seeds;
use crate::pubkey::Pubkey;
use crate::state::pool_config::PoolConfig;
use crate::state::user_stake::{user_stake_seed_prefix, UserStake};
use crate::utils::errors::{StakeProgramErrors, StakingError};

verus! {

/// The accounts of the instruction by which a user stakes tokens in a pool.
#[derive(Clone, Copy, Debug)]
pub struct StakeTokens {
    /// The user, who signs and pays.
    pub user: Pubkey,
    /// The mint of the staked token.
    pub stake_token_mint: Pubkey,
    /// The pool.
    pub pool_config: Account<PoolConfig>,
    /// The user's stake, created by the instruction.
    pub user_stake: Account<UserStake>,
    /// The pool's vault.
    pub stake_token_vault: Account<TokenAccount>,
    /// The user's associated token account for the stake token.
    pub user_token_account: Account<TokenAccount>,
}

/// The seeds of a stake's address: `"user_stake"`, the user, the stake token mint.
pub open spec fn user_stake_seeds(user: Seq<u8>, stake_token_mint: Seq<u8>) -> Seq<Seq<u8>> {
    seq![user_stake_seed_prefix(), user, stake_token_mint]
}

impl StakeTokens {
    /// The outcome of the checks on the accounts, in the order they are made: the stake's
    /// address, the pool's address, that the pool stakes this mint, the vault, then the
    /// user's token account.
    pub open spec fn account_checks(self, program_id: Seq<u8>) -> Result<(), StakingError> {
        and_then(
            seeds_check(
                self.user_stake.key@,
                user_stake_seeds(self.user@, self.stake_token_mint@),
                program_id,
            ),
            and_then(
                seeds_check(
                    self.pool_config.key@,
                    pool_config_seeds(
                        self.pool_config.data.owner@,
                        self.pool_config.data.stake_token_mint@,
                    ),
                    program_id,
                ),
                and_then(
                    if self.pool_config.data.stake_token_mint@ == self.stake_token_mint@ {
                        Ok(())
                    } else {
                        Err(StakingError::Program(StakeProgramErrors::InvalidStakeToken))
                    },
                    and_then(
                        associated_token_check(
                            self.stake_token_vault,
                            self.pool_config.key@,
                            self.stake_token_mint@,
                        ),
                        associated_token_check(
                            self.user_token_account,
                            self.user@,
                            self.stake_token_mint@,
                        ),
                    ),
                ),
            ),
        )
    }

    /// Checks the accounts of a stake for the program `program_id`.
    pub fn validate(&self, program_id: &Pubkey) -> (r: Result<(), StakingError>)
        ensures
            r == self.account_checks(program_id@),
    {
        let seeds = three_seeds(UserStake::seed_prefix(), &self.user, &self.stake_token_mint);
        check_seeds(&self.user_stake.key, &seeds, program_id)?;
        let seeds = three_seeds(
            PoolConfig::seed_prefix(),
            &self.pool_config.data.owner,
            &self.pool_config.data.stake_token_mint,
        );
        check_seeds(&self.pool_config.key, &seeds, program_id)?;
        if self.pool_config.data.stake_token_mint != self.stake_token_mint {
            return Err(StakingError::Program(StakeProgramErrors::InvalidStakeToken));
        }
        check_associated_token(&self.stake_token_vault, &self.pool_config.key, &self.stake_token_mint)?;
        check_associated_token(&self.user_token_account, &self.user, &self.stake_token_mint)
    }
}

} // verus!
