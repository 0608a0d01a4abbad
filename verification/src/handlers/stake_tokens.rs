use vstd::prelude::*;

use crate::accounts::{Account, Context, TokenTransfer};
use crate::instructions::stake_tokens::StakeTokens;
use crate::state::pool_config::PoolConfig;
use crate::state::user_stake::UserStake;
use crate::utils::errors::{StakeProgramErrors, StakingError};

verus! {

/// Basis points: one is 0.01%, so ten thousand of them make a whole.
pub const BIPS: u64 = 10_000;

/// The weight multiplier, in basis points, of a stake locked for `lockup` in a pool whose
/// lockups range from `min` to `max` and whose longest lockup has the multiplier `mw`:
/// 1x (`BIPS`) for the shortest lockup, `mw`x for the longest, and in between the linear
/// interpolation `1 + (mw - 1) * (lockup - min) / (max - min)`, rounded down.
pub open spec fn weight_multiplier(min: int, max: int, mw: int, lockup: int) -> int {
    if lockup == min {
        BIPS as int
    } else if lockup == max {
        mw * BIPS
    } else {
        BIPS + (mw - 1) * (lockup - min) * BIPS / (max - min)
    }
}

/// Whether the multiplier of a lockup in `[min, max]` is computed without overflow: at
/// the longest lockup `mw * BIPS` fits in `u64`; strictly inside the range the multiplier
/// is at least 1 and `(mw - 1) * (lockup - min) * BIPS` fits.
pub open spec fn weight_multiplier_fits(min: int, max: int, mw: int, lockup: int) -> bool {
    if lockup == min {
        true
    } else if lockup == max {
        mw * BIPS <= u64::MAX
    } else {
        1 <= mw && (mw - 1) * (lockup - min) * BIPS <= u64::MAX
    }
}

/// The weight multiplier, in basis points, of a stake locked for `user_lockup_period`
/// in the pool.
pub fn calculate_user_weight_multiplier(pool_config: &PoolConfig, user_lockup_period: u64) -> (r: u64)
    requires
        pool_config.min_duration <= user_lockup_period <= pool_config.max_duration,
        weight_multiplier_fits(
            pool_config.min_duration as int,
            pool_config.max_duration as int,
            pool_config.max_wight_multiplier as int,
            user_lockup_period as int,
        ),
    ensures
        r == weight_multiplier(
            pool_config.min_duration as int,
            pool_config.max_duration as int,
            pool_config.max_wight_multiplier as int,
            user_lockup_period as int,
        ),
{
    if user_lockup_period == pool_config.min_duration {
        return 1 * BIPS;
    }
    if user_lockup_period == pool_config.max_duration {
        return pool_config.max_wight_multiplier * BIPS;
    }
    let adjusted_lockup_period = user_lockup_period - pool_config.min_duration;
    let pool_max_lockup_period = pool_config.max_duration - pool_config.min_duration;
    let steps = pool_config.max_wight_multiplier - 1;
    proof {
        lemma_interior_product_fits(steps as int, adjusted_lockup_period as int, pool_max_lockup_period as int);
    }
    let weight_multiplier = 1 * BIPS + steps * adjusted_lockup_period * BIPS / pool_max_lockup_period;
    weight_multiplier
}

/// The weighted amount of `amount` tokens staked with the multiplier `multiplier` (in
/// basis points): `amount * multiplier / BIPS`, rounded down.
pub open spec fn weighted_amount(amount: int, multiplier: int) -> int {
    amount * multiplier / (BIPS as int)
}

/// The weighted amount of `amount` tokens staked with the multiplier `multiplier`.
pub fn calculate_weighted_amount(amount: u64, multiplier: u64) -> (r: u64)
    requires
        weighted_amount(amount as int, multiplier as int) <= u64::MAX,
    ensures
        r == weighted_amount(amount as int, multiplier as int),
{
    proof {
        lemma_product_fits_u128(amount as int, multiplier as int);
    }
    let product: u128 = (amount as u128) * (multiplier as u128);
    (product / (BIPS as u128)) as u64
}

/// The product of two `u64` values fits in `u128`.
proof fn lemma_product_fits_u128(a: int, b: int)
    requires
        0 <= a <= u64::MAX,
        0 <= b <= u64::MAX,
    ensures
        0 <= a * b <= u128::MAX,
{
    assert(0 <= a * b <= u64::MAX * u64::MAX) by (nonlinear_arith)
        requires
            0 <= a <= u64::MAX,
            0 <= b <= u64::MAX,
    ;
}

/// The rules of the stake: a positive amount, a lockup period within the pool's range,
/// then a readable clock.
pub open spec fn stake_rules(pool: PoolConfig, amount: u64, lockup_period: u64, clock: Option<i64>) -> Result<
    (),
    StakingError,
> {
    if amount == 0 {
        Err(StakingError::Program(StakeProgramErrors::AmountZero))
    } else if lockup_period < pool.min_duration {
        Err(StakingError::Program(StakeProgramErrors::LockupPeriodLessThanMin))
    } else if lockup_period > pool.max_duration {
        Err(StakingError::Program(StakeProgramErrors::LockupPeriodBiggerThaMax))
    } else if clock is None {
        Err(StakingError::ClockUnavailable)
    } else {
        Ok(())
    }
}

/// The multiplier of a lockup period in a pool.
pub open spec fn pool_weight_multiplier(pool: PoolConfig, lockup_period: u64) -> int {
    weight_multiplier(
        pool.min_duration as int,
        pool.max_duration as int,
        pool.max_wight_multiplier as int,
        lockup_period as int,
    )
}

/// Whether a stake that the rules accept is recorded without overflow: its multiplier,
/// its end time (start plus lockup period) and the pool's new weighted total fit in `u64`.
pub open spec fn stake_fits(pool: PoolConfig, amount: u64, lockup_period: u64, clock: Option<i64>) -> bool {
    stake_rules(pool, amount, lockup_period, clock) is Ok ==> {
        &&& weight_multiplier_fits(
            pool.min_duration as int,
            pool.max_duration as int,
            pool.max_wight_multiplier as int,
            lockup_period as int,
        )
        &&& (clock->0 as u64) + lockup_period <= u64::MAX
        &&& pool.total_weighted_amount + weighted_amount(
            amount as int,
            pool_weight_multiplier(pool, lockup_period),
        ) <= u64::MAX
    }
}

/// Whether a stake of `amount` locked for `lockup_period` in the pool, with the clock
/// reading `clock`, is recorded without overflow (see [`stake_fits`]).
pub fn stake_fits_in_u64(pool: &PoolConfig, amount: u64, lockup_period: u64, clock: Option<i64>) -> (r:
    bool)
    ensures
        r == stake_fits(*pool, amount, lockup_period, clock),
{
    if amount == 0 || lockup_period < pool.min_duration || lockup_period > pool.max_duration {
        return true;
    }
    let unix_timestamp = match clock {
        None => return true,
        Some(t) => t,
    };
    if (unix_timestamp as u64).checked_add(lockup_period).is_none() {
        return false;
    }
    let multiplier = if lockup_period == pool.min_duration {
        BIPS
    } else if lockup_period == pool.max_duration {
        match pool.max_wight_multiplier.checked_mul(BIPS) {
            Some(m) => m,
            None => return false,
        }
    } else {
        if pool.max_wight_multiplier < 1 {
            return false;
        }
        let steps = pool.max_wight_multiplier - 1;
        let adjusted = lockup_period - pool.min_duration;
        let product = match steps.checked_mul(adjusted) {
            Some(p) => p.checked_mul(BIPS),
            None => {
                proof {
                    lemma_product_grows(steps as int, adjusted as int);
                }
                None
            },
        };
        if product.is_none() {
            return false;
        }
        calculate_user_weight_multiplier(pool, lockup_period)
    };
    proof {
        lemma_product_fits_u128(amount as int, multiplier as int);
    }
    let weighted: u128 = (amount as u128) * (multiplier as u128) / (BIPS as u128);
    weighted <= (u64::MAX as u128) - (pool.total_weighted_amount as u128)
}

/// A product of naturals does not shrink when multiplied by a positive factor.
proof fn lemma_product_grows(steps: int, adjusted: int)
    requires
        0 <= steps,
        0 < adjusted,
    ensures
        steps * adjusted <= steps * adjusted * BIPS,
{
    assert(steps * adjusted <= steps * adjusted * BIPS) by (nonlinear_arith)
        requires
            0 <= steps,
            0 < adjusted,
    ;
}

/// The stake recorded for these accounts: the user's, in this pool and vault, locked from
/// the clock's time (read as unsigned) for the lockup period, with the lockup's multiplier.
pub open spec fn new_user_stake(accounts: StakeTokens, lockup_period: u64, unix_timestamp: i64) -> UserStake {
    UserStake {
        owner: accounts.user,
        pool_config: accounts.pool_config.key,
        stake_token_vault: accounts.stake_token_vault.key,
        start_time: unix_timestamp as u64,
        end_time: ((unix_timestamp as u64) + lockup_period) as u64,
        weight_multiplier: pool_weight_multiplier(accounts.pool_config.data, lockup_period) as u64,
    }
}

/// The accounts after a stake: the stake is recorded, and its weighted amount is added to
/// the pool's weighted total.
pub open spec fn with_user_stake(
    accounts: StakeTokens,
    amount: u64,
    lockup_period: u64,
    unix_timestamp: i64,
) -> StakeTokens {
    StakeTokens {
        pool_config: Account {
            key: accounts.pool_config.key,
            data: PoolConfig {
                total_weighted_amount: (accounts.pool_config.data.total_weighted_amount
                    + weighted_amount(
                    amount as int,
                    pool_weight_multiplier(accounts.pool_config.data, lockup_period),
                )) as u64,
                ..accounts.pool_config.data
            },
        },
        user_stake: Account {
            key: accounts.user_stake.key,
            data: new_user_stake(accounts, lockup_period, unix_timestamp),
        },
        ..accounts
    }
}

/// The transfer of a stake: `amount` tokens from the user's token account into the
/// pool's vault, signed by the user.
pub open spec fn stake_transfer(accounts: StakeTokens, amount: u64) -> TokenTransfer {
    TokenTransfer {
        from: accounts.user_token_account.key,
        to: accounts.stake_token_vault.key,
        authority: accounts.user,
        amount,
    }
}

/// The result and the accounts after the stake handler: on success the transfer of the
/// staked tokens into the vault, with the stake recorded and the pool's weighted total
/// grown; on a refusal every account is as it was.
pub open spec fn stake_handler_outcome(
    accounts: StakeTokens,
    amount: u64,
    lockup_period: u64,
    clock: Option<i64>,
) -> (Result<TokenTransfer, StakingError>, StakeTokens) {
    match stake_rules(accounts.pool_config.data, amount, lockup_period, clock) {
        Ok(()) => (
            Ok(stake_transfer(accounts, amount)),
            with_user_stake(accounts, amount, lockup_period, clock->0),
        ),
        Err(e) => (Err(e), accounts),
    }
}

/// Records a user's stake of `amount` tokens locked for `lockup_period` seconds from the
/// cluster clock's time (`None` where the clock cannot be read), where the rules allow
/// it, and returns the transfer of the staked tokens into the pool's vault.
pub fn handler(ctx: &mut Context<StakeTokens>, amount: u64, lockup_period: u64, clock: Option<i64>) -> (r:
    Result<TokenTransfer, StakingError>)
    requires
        stake_fits(old(ctx).accounts.pool_config.data, amount, lockup_period, clock),
    ensures
        (r, final(ctx).accounts) == stake_handler_outcome(
            old(ctx).accounts,
            amount,
            lockup_period,
            clock,
        ),
        final(ctx).program_id == old(ctx).program_id,
{
    let pool_config = &ctx.accounts.pool_config.data;
    if !(amount > 0) {
        return Err(StakingError::Program(StakeProgramErrors::AmountZero));
    }
    if !(lockup_period >= pool_config.min_duration) {
        return Err(StakingError::Program(StakeProgramErrors::LockupPeriodLessThanMin));
    }
    if !(lockup_period <= pool_config.max_duration) {
        return Err(StakingError::Program(StakeProgramErrors::LockupPeriodBiggerThaMax));
    }
    let unix_timestamp = match clock {
        None => return Err(StakingError::ClockUnavailable),
        Some(t) => t,
    };
    let lock_period_start = unix_timestamp as u64;
    let user_weight_multiplier = calculate_user_weight_multiplier(pool_config, lockup_period);
    let weighted = calculate_weighted_amount(amount, user_weight_multiplier);
    let user_stake = UserStake {
        owner: ctx.accounts.user,
        pool_config: ctx.accounts.pool_config.key,
        stake_token_vault: ctx.accounts.stake_token_vault.key,
        start_time: lock_period_start,
        end_time: lock_period_start + lockup_period,
        weight_multiplier: user_weight_multiplier,
    };
    ctx.accounts.user_stake.data = user_stake;
    ctx.accounts.pool_config.data.total_weighted_amount = ctx.accounts.pool_config.data.total_weighted_amount
        + weighted;
    Ok(
        TokenTransfer {
            from: ctx.accounts.user_token_account.key,
            to: ctx.accounts.stake_token_vault.key,
            authority: ctx.accounts.user,
            amount,
        },
    )
}

/// The multiplier of a lockup in the pool's range whose computation fits is a `u64` value.
pub proof fn lemma_weight_multiplier_in_u64(pool: PoolConfig, lockup_period: u64)
    requires
        pool.min_duration <= lockup_period <= pool.max_duration,
        weight_multiplier_fits(
            pool.min_duration as int,
            pool.max_duration as int,
            pool.max_wight_multiplier as int,
            lockup_period as int,
        ),
    ensures
        0 <= pool_weight_multiplier(pool, lockup_period) <= u64::MAX,
{
    if lockup_period != pool.min_duration && lockup_period != pool.max_duration {
        let steps = pool.max_wight_multiplier - 1;
        let adjusted = lockup_period - pool.min_duration;
        let span = pool.max_duration - pool.min_duration;
        lemma_interior_product_fits(steps as int, adjusted as int, span as int);
        assert(0 <= steps * adjusted * BIPS) by (nonlinear_arith)
            requires
                0 <= steps,
                0 <= adjusted,
        ;
        vstd::arithmetic::div_mod::lemma_div_pos_is_pos(steps * adjusted * BIPS, span as int);
    }
}

/// With `steps * adjusted * BIPS` within `u64` and a span of at least 2, each partial
/// product fits and so does `BIPS` plus the quotient.
proof fn lemma_interior_product_fits(steps: int, adjusted: int, span: int)
    requires
        0 <= steps,
        0 < adjusted < span,
        steps * adjusted * BIPS <= u64::MAX,
    ensures
        steps * adjusted <= u64::MAX,
        BIPS + steps * adjusted * BIPS / span <= u64::MAX,
{
    assert(steps * adjusted <= steps * adjusted * BIPS) by (nonlinear_arith)
        requires
            0 <= steps,
            0 < adjusted,
    ;
    let p = steps * adjusted * BIPS;
    assert(p / span <= p / 2) by {
        vstd::arithmetic::div_mod::lemma_div_is_ordered_by_denominator(p, 2, span);
    }
}

} // verus!
