use vstd::prelude::*;

use crate::accounts::{Account, Context};
use crate::instructions::reward_distributor_create::RewardDistributorCreate;
use crate::pubkey::Pubkey;
use crate::state::pool_config::PoolConfig;
use crate::state::reward_distributor_config::RewardDistributorConfig;
use crate::utils::errors::{StakeProgramErrors, StakingError};

verus! {

/// The rules of the program on a reward distributor's creation: a positive emission
/// rate, and a pool that has none yet.
pub open spec fn reward_distributor_rules(pool: PoolConfig, emission_rate: u64) -> Result<
    (),
    StakingError,
> {
    if emission_rate == 0 {
        Err(StakingError::Program(StakeProgramErrors::EmissionRateZero))
    } else if !pool.reward_distributor.is_default() {
        Err(StakingError::Program(StakeProgramErrors::RedeclarationOfRewardDistributor))
    } else {
        Ok(())
    }
}

/// The accounts after a reward distributor's creation: its configuration names the pool,
/// the reward mint and the emission rate, and the pool names the distributor.
pub open spec fn with_reward_distributor(
    accounts: RewardDistributorCreate,
    emission_rate: u64,
) -> RewardDistributorCreate {
    RewardDistributorCreate {
        pool_config: Account {
            key: accounts.pool_config.key,
            data: PoolConfig {
                reward_distributor: accounts.reward_distributor_config.key,
                ..accounts.pool_config.data
            },
        },
        reward_distributor_config: Account {
            key: accounts.reward_distributor_config.key,
            data: RewardDistributorConfig {
                pool_config: accounts.pool_config.key,
                reward_token_mint: accounts.reward_token_mint,
                emission_rate,
            },
        },
        ..accounts
    }
}

/// The result and the accounts after the reward distributor handler: on success the
/// distributor is recorded; on a refusal every account is as it was.
pub open spec fn reward_distributor_handler_outcome(
    accounts: RewardDistributorCreate,
    emission_rate: u64,
) -> (Result<(), StakingError>, RewardDistributorCreate) {
    match reward_distributor_rules(accounts.pool_config.data, emission_rate) {
        Ok(()) => (Ok(()), with_reward_distributor(accounts, emission_rate)),
        Err(e) => (Err(e), accounts),
    }
}

/// Creates the reward distributor of a pool, where the program's rules allow it.
pub fn handler(ctx: &mut Context<RewardDistributorCreate>, emission_rate: u64) -> (r: Result<
    (),
    StakingError,
>)
    ensures
        (r, final(ctx).accounts) == reward_distributor_handler_outcome(
            old(ctx).accounts,
            emission_rate,
        ),
        final(ctx).program_id == old(ctx).program_id,
{
    if !(emission_rate > 0) {
        return Err(StakingError::Program(StakeProgramErrors::EmissionRateZero));
    }
    if !(ctx.accounts.pool_config.data.reward_distributor == Pubkey::default()) {
        return Err(StakingError::Program(StakeProgramErrors::RedeclarationOfRewardDistributor));
    }
    ctx.accounts.reward_distributor_config.data = RewardDistributorConfig {
        pool_config: ctx.accounts.pool_config.key,
        reward_token_mint: ctx.accounts.reward_token_mint,
        emission_rate,
    };
    ctx.accounts.pool_config.data.reward_distributor = ctx.accounts.reward_distributor_config.key;
    Ok(())
}

} // verus!
