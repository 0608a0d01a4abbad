use vstd::prelude::*;

use crate::accounts::{Account, Context};
use crate::instructions::pool_create::PoolCreate;
use crate::pubkey::{default_key, Pubkey};
use crate::state::pool_config::PoolConfig;
use crate::utils::errors::StakingError;

verus! {

/// The configuration of a pool just created with these accounts and parameters: owned by
/// the signer, staking the given mint into the given vault, with the given lockup range
/// and multiplier, nothing staked yet and no reward distributor (the default address).
pub open spec fn new_pool(
    accounts: PoolCreate,
    min_duration: u64,
    max_duration: u64,
    max_wight_multiplier: u64,
) -> PoolConfig {
    PoolConfig {
        owner: accounts.owner,
        stake_token_mint: accounts.stake_token_mint,
        stake_token_vault: accounts.stake_token_vault.key,
        min_duration,
        max_duration,
        max_wight_multiplier,
        total_weighted_amount: 0,
        reward_distributor: default_key(),
    }
}

/// The result and the accounts after the pool creation handler: always a success, with
/// the new pool's configuration written and every other account as it was.
pub open spec fn pool_create_handler_outcome(
    accounts: PoolCreate,
    min_duration: u64,
    max_duration: u64,
    max_wight_multiplier: u64,
) -> (Result<(), StakingError>, PoolCreate) {
    (
        Ok(()),
        PoolCreate {
            pool_config: Account {
                key: accounts.pool_config.key,
                data: new_pool(accounts, min_duration, max_duration, max_wight_multiplier),
            },
            ..accounts
        },
    )
}

/// Writes the new pool's configuration; every other account is left as it was.
pub fn handle(
    ctx: &mut Context<PoolCreate>,
    min_duration: u64,
    max_duration: u64,
    max_wight_multiplier: u64,
) -> (r: Result<(), StakingError>)
    ensures
        (r, final(ctx).accounts) == pool_create_handler_outcome(
            old(ctx).accounts,
            min_duration,
            max_duration,
            max_wight_multiplier,
        ),
        final(ctx).program_id == old(ctx).program_id,
{
    let pool_config = PoolConfig {
        owner: ctx.accounts.owner,
        stake_token_mint: ctx.accounts.stake_token_mint,
        stake_token_vault: ctx.accounts.stake_token_vault.key,
        min_duration,
        max_duration,
        max_wight_multiplier,
        total_weighted_amount: 0,
        reward_distributor: Pubkey::default(),
    };
    ctx.accounts.pool_config.data = pool_config;
    Ok(())
}

} // verus!
