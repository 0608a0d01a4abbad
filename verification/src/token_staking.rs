use vstd::prelude::*;

use crate::accounts::{Context, TokenTransfer};
use crate::handlers;
use crate::handlers::pool_create::pool_create_handler_outcome;
use crate::handlers::reward_distributor_create::reward_distributor_handler_outcome;
use crate::handlers::stake_tokens::{stake_fits, stake_fits_in_u64, stake_handler_outcome};
use crate::instructions::pool_create::PoolCreate;
use crate::instructions::reward_distributor_create::RewardDistributorCreate;
use crate::instructions::stake_tokens::StakeTokens;
use crate::utils::errors::StakingError;
use crate::Initialize;

verus! {

/// The program's first instruction, which changes nothing.
pub fn initialize(ctx: &Context<Initialize>) -> (r: Result<(), StakingError>)
    ensures
        r == Ok::<(), StakingError>(()),
{
    Ok(())
}

/// The result and the accounts after a pool creation: the checks on the accounts, then
/// the handler.
pub open spec fn pool_create_outcome(
    accounts: PoolCreate,
    program_id: Seq<u8>,
    min_duration: u64,
    max_duration: u64,
    max_wight_multiplier: u64,
) -> (Result<(), StakingError>, PoolCreate) {
    match accounts.account_checks(program_id) {
        Ok(()) => pool_create_handler_outcome(
            accounts,
            min_duration,
            max_duration,
            max_wight_multiplier,
        ),
        Err(e) => (Err(e), accounts),
    }
}

/// Creates a pool: checks the accounts, then writes the pool's configuration.
pub fn pool_create(
    ctx: &mut Context<PoolCreate>,
    min_duration: u64,
    max_duration: u64,
    max_wight_multiplier: u64,
) -> (r: Result<(), StakingError>)
    ensures
        (r, final(ctx).accounts) == pool_create_outcome(
            old(ctx).accounts,
            old(ctx).program_id@,
            min_duration,
            max_duration,
            max_wight_multiplier,
        ),
        final(ctx).program_id == old(ctx).program_id,
{
    ctx.accounts.validate(&ctx.program_id)?;
    handlers::pool_create::handle(ctx, min_duration, max_duration, max_wight_multiplier)
}

/// The result and the accounts after a reward distributor's creation: the checks on the
/// accounts, then the handler.
pub open spec fn create_reward_distributor_outcome(
    accounts: RewardDistributorCreate,
    program_id: Seq<u8>,
    emission_rate: u64,
) -> (Result<(), StakingError>, RewardDistributorCreate) {
    match accounts.account_checks(program_id) {
        Ok(()) => reward_distributor_handler_outcome(accounts, emission_rate),
        Err(e) => (Err(e), accounts),
    }
}

/// Gives a pool its reward distributor: checks the accounts, then the program's rules,
/// then records the distributor.
pub fn create_reward_distributor(ctx: &mut Context<RewardDistributorCreate>, emission_rate: u64) -> (r:
    Result<(), StakingError>)
    ensures
        (r, final(ctx).accounts) == create_reward_distributor_outcome(
            old(ctx).accounts,
            old(ctx).program_id@,
            emission_rate,
        ),
        final(ctx).program_id == old(ctx).program_id,
{
    ctx.accounts.validate(&ctx.program_id)?;
    handlers::reward_distributor_create::handler(ctx, emission_rate)
}

/// The result and the accounts after a stake: the checks on the accounts, then the
/// handler.
pub open spec fn stake_tokens_outcome(
    accounts: StakeTokens,
    program_id: Seq<u8>,
    amount: u64,
    lockup_period: u64,
    clock: Option<i64>,
) -> (Result<TokenTransfer, StakingError>, StakeTokens) {
    match accounts.account_checks(program_id) {
        Ok(()) => stake_handler_outcome(accounts, amount, lockup_period, clock),
        Err(e) => (Err(e), accounts),
    }
}

/// Stakes tokens: checks the accounts, then the program's rules, then records the stake,
/// locked from the cluster clock's time (`None` where the clock cannot be read), and
/// returns the transfer of the staked tokens into the pool's vault.
pub fn stake_tokens(
    ctx: &mut Context<StakeTokens>,
    amount: u64,
    lockup_period: u64,
    clock: Option<i64>,
) -> (r: Result<TokenTransfer, StakingError>)
    requires
        old(ctx).accounts.account_checks(old(ctx).program_id@) is Ok ==> stake_fits(
            old(ctx).accounts.pool_config.data,
            amount,
            lockup_period,
            clock,
        ),
    ensures
        (r, final(ctx).accounts) == stake_tokens_outcome(
            old(ctx).accounts,
            old(ctx).program_id@,
            amount,
            lockup_period,
            clock,
        ),
        final(ctx).program_id == old(ctx).program_id,
{
    ctx.accounts.validate(&ctx.program_id)?;
    handlers::stake_tokens::handler(ctx, amount, lockup_period, clock)
}

/// Stakes tokens as [`stake_tokens`] does, where the stake is recorded without overflow;
/// `None`, with the accounts unchanged, where the accounts pass their checks and the
/// program's arithmetic would overflow (the program then aborts).
pub fn try_stake_tokens(
    ctx: &mut Context<StakeTokens>,
    amount: u64,
    lockup_period: u64,
    clock: Option<i64>,
) -> (r: Option<Result<TokenTransfer, StakingError>>)
    ensures
        r is None <==> (old(ctx).accounts.account_checks(old(ctx).program_id@) is Ok && !stake_fits(
            old(ctx).accounts.pool_config.data,
            amount,
            lockup_period,
            clock,
        )),
        final(ctx).program_id == old(ctx).program_id,
        r is None ==> final(ctx).accounts == old(ctx).accounts,
        r matches Some(res) ==> (res, final(ctx).accounts) == stake_tokens_outcome(
            old(ctx).accounts,
            old(ctx).program_id@,
            amount,
            lockup_period,
            clock,
        ),
{
    let checked = ctx.accounts.validate(&ctx.program_id);
    if checked.is_ok() && !stake_fits_in_u64(&ctx.accounts.pool_config.data, amount, lockup_period, clock) {
        return None;
    }
    Some(stake_tokens(ctx, amount, lockup_period, clock))
}

} // verus!
