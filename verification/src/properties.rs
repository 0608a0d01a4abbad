use vstd::prelude::*;

use crate::handlers::pool_create::{new_pool, pool_create_handler_outcome};
use crate::handlers::reward_distributor_create::{
    reward_distributor_handler_outcome, reward_distributor_rules, with_reward_distributor,
};
use crate::handlers::stake_tokens::{
    lemma_weight_multiplier_in_u64, stake_fits,
    stake_handler_outcome, stake_rules, stake_transfer, weight_multiplier, weighted_amount,
    BIPS,
};
use crate::instructions::pool_create::PoolCreate;
use crate::instructions::reward_distributor_create::RewardDistributorCreate;
use crate::instructions::stake_tokens::StakeTokens;
use crate::instructions::unstake_tokens::UnstakeUserTokens;
use crate::state::pool_config::PoolConfig;
use crate::token_staking::{
    create_reward_distributor_outcome, pool_create_outcome, stake_tokens_outcome,
};
use crate::utils::errors::{StakeProgramErrors, StakingError};
use crate::address::{
    associated_token_address, associated_token_program_key, derived_address, token_program_key,
};
use crate::handlers::stake_tokens::{stake_fits_in_u64, weight_multiplier_fits};
use crate::state::pool_config::pool_config_seed_prefix;
use crate::state::reward_distributor_config::reward_config_seed_prefix;
use crate::state::user_stake::user_stake_seed_prefix;

verus! {

/// A lockup of the pool's minimum duration has the multiplier 1x (`BIPS`); one of the
/// maximum duration (in a pool whose range is not a single point) has the pool's maximum
/// multiplier, `mw * BIPS`.
pub proof fn lemma_weight_multiplier_at_range_ends(min: u64, max: u64, mw: u64)
    ensures
        weight_multiplier(min as int, max as int, mw as int, min as int) == BIPS,
        min != max ==> weight_multiplier(min as int, max as int, mw as int, max as int) == mw
            * BIPS,
{
}

/// Over the whole lockup range of a pool whose range is not a single point, the
/// multiplier is the linear interpolation `BIPS + (mw - 1) * (lockup - min) * BIPS /
/// (max - min)`, ends included.
pub proof fn lemma_weight_multiplier_is_linear(min: u64, max: u64, mw: u64, lockup: u64)
    requires
        min < max,
        min <= lockup <= max,
    ensures
        weight_multiplier(min as int, max as int, mw as int, lockup as int) == BIPS + (mw - 1) * (
        lockup - min) * BIPS / (max - min),
{
    let span = max - min;
    if lockup == min {
        assert((mw - 1) * (lockup - min) * BIPS == 0) by (nonlinear_arith)
            requires
                lockup == min,
        ;
    } else if lockup == max {
        assert((mw - 1) * (lockup - min) * BIPS == span * ((mw - 1) * BIPS)) by (nonlinear_arith)
            requires
                lockup - min == span,
        ;
        vstd::arithmetic::div_mod::lemma_div_multiples_vanish((mw - 1) * BIPS, span as int);
    }
}

/// Over the whole lockup range, the multiplier lies between 1x (`BIPS`) and the pool's
/// maximum multiplier `mw * BIPS`.
pub proof fn lemma_weight_multiplier_bounds(min: u64, max: u64, mw: u64, lockup: u64)
    requires
        min <= lockup <= max,
        1 <= mw,
    ensures
        BIPS <= weight_multiplier(min as int, max as int, mw as int, lockup as int) <= mw * BIPS,
{
    assert(BIPS <= mw * BIPS) by (nonlinear_arith)
        requires
            1 <= mw,
    ;
    if min < lockup < max {
        let steps = mw - 1;
        let adjusted = lockup - min;
        let span = max - min;
        let p = steps * adjusted * BIPS;
        assert(0 <= p <= steps * BIPS * span) by (nonlinear_arith)
            requires
                0 <= steps,
                0 < adjusted < span,
                p == steps * adjusted * BIPS,
        ;
        vstd::arithmetic::div_mod::lemma_div_pos_is_pos(p, span as int);
        vstd::arithmetic::div_mod::lemma_div_is_ordered(p, steps * BIPS * span, span as int);
        vstd::arithmetic::div_mod::lemma_div_by_multiple(steps * BIPS, span as int);
    }
}

/// Over the whole lockup range, a longer lockup never has a smaller multiplier.
pub proof fn lemma_weight_multiplier_monotonic(
    min: u64,
    max: u64,
    mw: u64,
    lockup1: u64,
    lockup2: u64,
)
    requires
        min <= lockup1 <= lockup2 <= max,
        1 <= mw,
    ensures
        weight_multiplier(min as int, max as int, mw as int, lockup1 as int) <= weight_multiplier(
            min as int,
            max as int,
            mw as int,
            lockup2 as int,
        ),
{
    if min < max {
        lemma_weight_multiplier_is_linear(min, max, mw, lockup1);
        lemma_weight_multiplier_is_linear(min, max, mw, lockup2);
        let steps = mw - 1;
        let p1 = steps * (lockup1 - min) * BIPS;
        let p2 = steps * (lockup2 - min) * BIPS;
        assert(p1 <= p2) by (nonlinear_arith)
            requires
                0 <= steps,
                0 <= lockup1 - min <= lockup2 - min,
                p1 == steps * (lockup1 - min) * BIPS,
                p2 == steps * (lockup2 - min) * BIPS,
        ;
        vstd::arithmetic::div_mod::lemma_div_is_ordered(p1, p2, (max - min) as int);
    }
}

/// On accounts that pass their checks, creating a pool is the pool creation handler; on
/// others it is refused with the first failed check and changes nothing.
pub proof fn lemma_pool_create_runs_handler_on_checked_accounts(
    accounts: PoolCreate,
    program_id: Seq<u8>,
    min_duration: u64,
    max_duration: u64,
    max_wight_multiplier: u64,
)
    ensures
        accounts.account_checks(program_id) is Ok ==> pool_create_outcome(
            accounts,
            program_id,
            min_duration,
            max_duration,
            max_wight_multiplier,
        ) == pool_create_handler_outcome(
            accounts,
            min_duration,
            max_duration,
            max_wight_multiplier,
        ),
        accounts.account_checks(program_id) is Err ==> pool_create_outcome(
            accounts,
            program_id,
            min_duration,
            max_duration,
            max_wight_multiplier,
        ) == (accounts.account_checks(program_id), accounts),
{
}

/// On accounts that pass their checks, creating a reward distributor is its handler; on
/// others it is refused with the first failed check and changes nothing.
pub proof fn lemma_create_reward_distributor_runs_handler_on_checked_accounts(
    accounts: RewardDistributorCreate,
    program_id: Seq<u8>,
    emission_rate: u64,
)
    ensures
        accounts.account_checks(program_id) is Ok ==> create_reward_distributor_outcome(
            accounts,
            program_id,
            emission_rate,
        ) == reward_distributor_handler_outcome(accounts, emission_rate),
        accounts.account_checks(program_id) is Err ==> create_reward_distributor_outcome(
            accounts,
            program_id,
            emission_rate,
        ) == (accounts.account_checks(program_id), accounts),
{
}

/// On accounts that pass their checks, staking is the stake handler; on others it is
/// refused with the first failed check and changes nothing.
pub proof fn lemma_stake_tokens_runs_handler_on_checked_accounts(
    accounts: StakeTokens,
    program_id: Seq<u8>,
    amount: u64,
    lockup_period: u64,
    clock: Option<i64>,
)
    ensures
        accounts.account_checks(program_id) is Ok ==> stake_tokens_outcome(
            accounts,
            program_id,
            amount,
            lockup_period,
            clock,
        ) == stake_handler_outcome(accounts, amount, lockup_period, clock),
        accounts.account_checks(program_id) is Err ==> stake_tokens_outcome(
            accounts,
            program_id,
            amount,
            lockup_period,
            clock,
        ).1 == accounts && stake_tokens_outcome(
            accounts,
            program_id,
            amount,
            lockup_period,
            clock,
        ).0 is Err,
{
}

/// A freshly created pool has nothing staked and no reward distributor, and accepts a
/// reward distributor exactly when the emission rate is positive.
pub proof fn lemma_new_pool_accepts_reward_distributor(
    accounts: PoolCreate,
    min_duration: u64,
    max_duration: u64,
    max_wight_multiplier: u64,
    emission_rate: u64,
)
    ensures
        new_pool(accounts, min_duration, max_duration, max_wight_multiplier).total_weighted_amount
            == 0,
        new_pool(
            accounts,
            min_duration,
            max_duration,
            max_wight_multiplier,
        ).reward_distributor.is_default(),
        reward_distributor_rules(
            new_pool(accounts, min_duration, max_duration, max_wight_multiplier),
            emission_rate,
        ) == (if emission_rate == 0 {
            Err(StakingError::Program(StakeProgramErrors::EmissionRateZero))
        } else {
            Ok(())
        }),
{
    assert(new_pool(accounts, min_duration, max_duration, max_wight_multiplier).reward_distributor@
        =~= crate::pubkey::zero_key());
}

/// A pool has at most one reward distributor: once one (at an address other than the
/// default one) is recorded, every later attempt on that pool is refused, as a
/// redeclaration unless its emission rate is already zero.
pub proof fn lemma_reward_distributor_declared_once(
    accounts: RewardDistributorCreate,
    emission_rate: u64,
    later_emission_rate: u64,
)
    requires
        reward_distributor_rules(accounts.pool_config.data, emission_rate) is Ok,
        !accounts.reward_distributor_config.key.is_default(),
    ensures
        reward_distributor_rules(
            with_reward_distributor(accounts, emission_rate).pool_config.data,
            later_emission_rate,
        ) == (if later_emission_rate == 0 {
            Err(StakingError::Program(StakeProgramErrors::EmissionRateZero))
        } else {
            Err::<(), StakingError>(
                StakingError::Program(StakeProgramErrors::RedeclarationOfRewardDistributor),
            )
        }),
{
}

/// A stake is accepted by the rules exactly when its amount is positive, its lockup
/// period lies within the pool's range and the clock can be read.
pub proof fn lemma_stake_accepted_iff(
    pool: PoolConfig,
    amount: u64,
    lockup_period: u64,
    clock: Option<i64>,
)
    ensures
        stake_rules(pool, amount, lockup_period, clock) is Ok <==> (amount > 0 && pool.min_duration
            <= lockup_period <= pool.max_duration && clock is Some),
{
}

/// A recorded stake starts at the clock's time, lasts exactly its lockup period, belongs
/// to the user and the pool, and carries the multiplier of its lockup: between 1x and the
/// pool's maximum (in basis points), 1x at the pool's minimum lockup and the maximum at
/// its maximum lockup. The staked tokens go from the user's token account into the
/// pool's vault.
pub proof fn lemma_recorded_stake(
    accounts: StakeTokens,
    amount: u64,
    lockup_period: u64,
    clock: Option<i64>,
)
    requires
        stake_rules(accounts.pool_config.data, amount, lockup_period, clock) is Ok,
        stake_fits(accounts.pool_config.data, amount, lockup_period, clock),
    ensures
        ({
            let pool = accounts.pool_config.data;
            let stake = stake_handler_outcome(accounts, amount, lockup_period, clock).1.user_stake.data;
            &&& stake.start_time == clock->0 as u64
            &&& stake.end_time == stake.start_time + lockup_period
            &&& stake.owner == accounts.user
            &&& stake.pool_config == accounts.pool_config.key
            &&& 1 <= pool.max_wight_multiplier ==> BIPS <= stake.weight_multiplier
                <= pool.max_wight_multiplier * BIPS
            &&& lockup_period == pool.min_duration ==> stake.weight_multiplier == BIPS
            &&& lockup_period == pool.max_duration && pool.min_duration != pool.max_duration
                ==> stake.weight_multiplier == pool.max_wight_multiplier * BIPS
        }),
        stake_handler_outcome(accounts, amount, lockup_period, clock).0 == Ok::<
            crate::accounts::TokenTransfer,
            StakingError,
        >(stake_transfer(accounts, amount)),
        stake_transfer(accounts, amount).from == accounts.user_token_account.key,
        stake_transfer(accounts, amount).to == accounts.stake_token_vault.key,
        stake_transfer(accounts, amount).amount == amount,
{
    let pool = accounts.pool_config.data;
    lemma_weight_multiplier_in_u64(pool, lockup_period);
    if 1 <= pool.max_wight_multiplier {
        lemma_weight_multiplier_bounds(
            pool.min_duration,
            pool.max_duration,
            pool.max_wight_multiplier,
            lockup_period,
        );
    }
}

/// The sum of the weighted amounts of a sequence of stakes, each given as its amount and
/// its multiplier.
pub open spec fn staked_total(stakes: Seq<(u64, u64)>) -> int
    decreases stakes.len(),
{
    if stakes.len() == 0 {
        0
    } else {
        staked_total(stakes.drop_last()) + weighted_amount(
            stakes.last().0 as int,
            stakes.last().1 as int,
        )
    }
}

/// The pool's weighted total stays the sum of the weighted amounts of its stakes: a
/// stake adds its own weighted amount, `amount * multiplier / BIPS`, to the total and
/// changes nothing else in the pool.
pub proof fn lemma_weighted_total_is_sum_of_stakes(
    accounts: StakeTokens,
    amount: u64,
    lockup_period: u64,
    clock: Option<i64>,
    stakes: Seq<(u64, u64)>,
)
    requires
        stake_rules(accounts.pool_config.data, amount, lockup_period, clock) is Ok,
        stake_fits(accounts.pool_config.data, amount, lockup_period, clock),
        accounts.pool_config.data.total_weighted_amount == staked_total(stakes),
    ensures
        ({
            let after = stake_handler_outcome(accounts, amount, lockup_period, clock).1;
            &&& after.pool_config.data.total_weighted_amount == accounts.pool_config.data.total_weighted_amount
                + weighted_amount(amount as int, after.user_stake.data.weight_multiplier as int)
            &&& after.pool_config.data.total_weighted_amount == staked_total(
                stakes.push((amount, after.user_stake.data.weight_multiplier)),
            )
            &&& after.pool_config.data == (PoolConfig {
                total_weighted_amount: after.pool_config.data.total_weighted_amount,
                ..accounts.pool_config.data
            })
        }),
{
    let after = stake_handler_outcome(accounts, amount, lockup_period, clock).1;
    lemma_weight_multiplier_in_u64(accounts.pool_config.data, lockup_period);
    let pushed = stakes.push((amount, after.user_stake.data.weight_multiplier));
    assert(pushed.drop_last() =~= stakes);
}

/// There is one pool per owner and stake mint: two pool creations for the same program,
/// owner and mint whose accounts pass the checks create the pool at the same address.
pub proof fn lemma_one_pool_per_owner_and_mint(a: PoolCreate, b: PoolCreate, program_id: Seq<u8>)
    requires
        a.account_checks(program_id) is Ok,
        b.account_checks(program_id) is Ok,
        a.owner == b.owner,
        a.stake_token_mint == b.stake_token_mint,
    ensures
        a.pool_config.key == b.pool_config.key,
{
    crate::pubkey::Pubkey::lemma_view_injective(a.pool_config.key, b.pool_config.key);
}

/// A stake's address is fixed by the user and the stake mint: two stakes for the same
/// program, user and mint whose accounts pass the checks name the same stake account,
/// whatever pool they go to.
pub proof fn lemma_one_stake_address_per_user_and_mint(
    a: StakeTokens,
    b: StakeTokens,
    program_id: Seq<u8>,
)
    requires
        a.account_checks(program_id) is Ok,
        b.account_checks(program_id) is Ok,
        a.user == b.user,
        a.stake_token_mint == b.stake_token_mint,
    ensures
        a.user_stake.key == b.user_stake.key,
{
    crate::pubkey::Pubkey::lemma_view_injective(a.user_stake.key, b.user_stake.key);
}

/// There is one reward distributor address per pool and reward mint.
pub proof fn lemma_one_reward_distributor_per_pool_and_mint(
    a: RewardDistributorCreate,
    b: RewardDistributorCreate,
    program_id: Seq<u8>,
)
    requires
        a.account_checks(program_id) is Ok,
        b.account_checks(program_id) is Ok,
        a.pool_config.key == b.pool_config.key,
        a.reward_token_mint == b.reward_token_mint,
    ensures
        a.reward_distributor_config.key == b.reward_distributor_config.key,
{
    crate::pubkey::Pubkey::lemma_view_injective(
        a.reward_distributor_config.key,
        b.reward_distributor_config.key,
    );
}

/// Accounts that pass a stake's checks name a pool of the staked mint, a vault owned by
/// the pool, and a token account owned by the user; accounts that pass a reward
/// distributor's checks are signed by the pool's owner; accounts that pass an unstake's
/// checks name a pool of the given mint.
pub proof fn lemma_checked_accounts_agree(
    stake: StakeTokens,
    reward: RewardDistributorCreate,
    unstake: UnstakeUserTokens,
    program_id: Seq<u8>,
)
    ensures
        stake.account_checks(program_id) is Ok ==> {
            &&& stake.pool_config.data.stake_token_mint@ == stake.stake_token_mint@
            &&& stake.stake_token_vault.data.owner@ == stake.pool_config.key@
            &&& stake.user_token_account.data.owner@ == stake.user@
        },
        reward.account_checks(program_id) is Ok ==> reward.pool_owner@
            == reward.pool_config.data.owner@,
        unstake.account_checks(program_id) is Ok ==> unstake.stake_token_mint@
            == unstake.pool_config.data.stake_token_mint@,
{
}

/// Whether an address is the default one: 32 zero bytes.
pub open spec fn is_zero_address(key: Seq<u8>) -> bool {
    key.len() == 32 && forall|i: int| 0 <= i < 32 ==> key[i] == 0u8
}

/// The weighted amount of a stake is its amount times its multiplier (in basis points),
/// divided by 10 000 and rounded down: a whole multiplier `k`x (`k * 10 000`) weighs the
/// amount exactly `k` times, and a larger multiplier never weighs less.
pub proof fn lemma_weighted_amount_formula(amount: u64, multiplier: u64, k: u64, larger: u64)
    ensures
        weighted_amount(amount as int, multiplier as int) == amount * multiplier / 10_000,
        k * 10_000 <= u64::MAX ==> weighted_amount(amount as int, k * 10_000) == amount * k,
        multiplier <= larger ==> weighted_amount(amount as int, multiplier as int)
            <= weighted_amount(amount as int, larger as int),
        0 <= weighted_amount(amount as int, multiplier as int),
{
    assert(amount * (k * 10_000) == (amount * k) * 10_000) by (nonlinear_arith);
    vstd::arithmetic::div_mod::lemma_div_by_multiple(amount * k, 10_000);
    assert(0 <= amount * multiplier <= amount * larger || multiplier > larger) by (nonlinear_arith);
    if multiplier <= larger {
        vstd::arithmetic::div_mod::lemma_div_is_ordered(amount * multiplier, amount * larger, 10_000);
    }
    assert(0 <= amount * multiplier) by (nonlinear_arith);
    vstd::arithmetic::div_mod::lemma_div_pos_is_pos(amount * multiplier, 10_000);
}

/// The first seeds of the program's addresses are the bytes of `"pool_config"`,
/// `"reward_config"` and `"user_stake"`, and the token programs' ids are those of
/// `TokenkegQfeZyiNwAJbNbGKPFXCWuBvf9Ss623VQ5DA` and
/// `ATokenGPvbdGVxr1b2hvZbsiqW5xWH25efTNsLJA8knL`; the associated token account of a
/// wallet for a mint is the address that the associated token program derives from the
/// wallet, the token program's id and the mint; a derived address is the address part
/// of what the address derivation finds.
pub proof fn lemma_seeds_and_program_ids(
    wallet: Seq<u8>,
    mint: Seq<u8>,
    seeds: Seq<Seq<u8>>,
    program_id: Seq<u8>,
)
    ensures
        pool_config_seed_prefix() == seq![112u8, 111, 111, 108, 95, 99, 111, 110, 102, 105, 103],
        reward_config_seed_prefix() == seq![114u8, 101, 119, 97, 114, 100, 95, 99, 111, 110, 102, 105, 103],
        user_stake_seed_prefix() == seq![117u8, 115, 101, 114, 95, 115, 116, 97, 107, 101],
        token_program_key() == seq![
            6u8, 221, 246, 225, 215, 101, 161, 147, 217, 203, 225, 70, 206, 235, 121, 172, 28,
            180, 133, 237, 95, 91, 55, 145, 58, 140, 245, 133, 126, 255, 0, 169,
        ],
        associated_token_program_key() == seq![
            140u8, 151, 37, 143, 78, 36, 137, 241, 187, 61, 16, 41, 20, 142, 13, 131, 11, 90, 19,
            153, 218, 255, 16, 132, 4, 142, 123, 216, 219, 233, 248, 89,
        ],
        associated_token_address(wallet, mint) == derived_address(
            seq![wallet, token_program_key(), mint],
            associated_token_program_key(),
        ),
        derived_address(seeds, program_id) == (match crate::address::program_address(
            seeds,
            program_id,
        ) {
            Some((key, _bump)) => Some(key),
            None => None,
        }),
{
}

/// The accounts of a pool creation pass their checks exactly when the pool sits at the
/// address derived from `"pool_config"`, the owner and the mint, and the vault holds that
/// mint, belongs to the pool and is the pool's associated token account for the mint.
pub proof fn lemma_pool_create_accounts_pass_iff(a: PoolCreate, program_id: Seq<u8>)
    ensures
        a.account_checks(program_id) is Ok <==> {
            &&& derived_address(
                seq![pool_config_seed_prefix(), a.owner@, a.stake_token_mint@],
                program_id,
            ) == Some(a.pool_config.key@)
            &&& a.stake_token_vault.data.mint@ == a.stake_token_mint@
            &&& a.stake_token_vault.data.owner@ == a.pool_config.key@
            &&& associated_token_address(a.pool_config.key@, a.stake_token_mint@) == Some(
                a.stake_token_vault.key@,
            )
        },
{
}

/// The accounts of a reward distributor's creation pass their checks exactly when the
/// distributor sits at the address derived from `"reward_config"`, the pool's address
/// and the reward mint, the signer owns the pool, and the pool sits at the address
/// derived from `"pool_config"`, its owner and its stake mint. Nothing else, and in
/// particular not the reward mint being the stake mint, refuses them.
pub proof fn lemma_reward_distributor_accounts_pass_iff(
    a: RewardDistributorCreate,
    program_id: Seq<u8>,
)
    ensures
        a.account_checks(program_id) is Ok <==> {
            &&& derived_address(
                seq![reward_config_seed_prefix(), a.pool_config.key@, a.reward_token_mint@],
                program_id,
            ) == Some(a.reward_distributor_config.key@)
            &&& a.pool_owner@ == a.pool_config.data.owner@
            &&& derived_address(
                seq![
                    pool_config_seed_prefix(),
                    a.pool_config.data.owner@,
                    a.pool_config.data.stake_token_mint@,
                ],
                program_id,
            ) == Some(a.pool_config.key@)
        },
{
}

/// The accounts of a stake pass their checks exactly when the stake sits at the address
/// derived from `"user_stake"`, the user and the mint, the pool sits at the address
/// derived from `"pool_config"`, its owner and its stake mint, the pool stakes this mint,
/// the vault belongs to the pool and is its associated token account for the mint, and
/// the user's token account belongs to the user and is the user's associated token
/// account for the mint. Nothing else about the user (such as owning the pool) refuses
/// them.
pub proof fn lemma_stake_accounts_pass_iff(a: StakeTokens, program_id: Seq<u8>)
    ensures
        a.account_checks(program_id) is Ok <==> {
            &&& derived_address(
                seq![user_stake_seed_prefix(), a.user@, a.stake_token_mint@],
                program_id,
            ) == Some(a.user_stake.key@)
            &&& derived_address(
                seq![
                    pool_config_seed_prefix(),
                    a.pool_config.data.owner@,
                    a.pool_config.data.stake_token_mint@,
                ],
                program_id,
            ) == Some(a.pool_config.key@)
            &&& a.pool_config.data.stake_token_mint@ == a.stake_token_mint@
            &&& a.stake_token_vault.data.owner@ == a.pool_config.key@
            &&& associated_token_address(a.pool_config.key@, a.stake_token_mint@) == Some(
                a.stake_token_vault.key@,
            )
            &&& a.user_token_account.data.owner@ == a.user@
            &&& associated_token_address(a.user@, a.stake_token_mint@) == Some(
                a.user_token_account.key@,
            )
        },
{
}

/// The accounts of an unstake pass their checks exactly when the pool stakes the given
/// mint and sits at the address derived from `"pool_config"`, its owner and its mint.
pub proof fn lemma_unstake_accounts_pass_iff(a: UnstakeUserTokens, program_id: Seq<u8>)
    ensures
        a.account_checks(program_id) is Ok <==> {
            &&& a.stake_token_mint@ == a.pool_config.data.stake_token_mint@
            &&& derived_address(
                seq![
                    pool_config_seed_prefix(),
                    a.pool_config.data.owner@,
                    a.pool_config.data.stake_token_mint@,
                ],
                program_id,
            ) == Some(a.pool_config.key@)
        },
{
}

/// Pool creation never refuses its parameters: on any accounts that pass their checks,
/// and whatever the lockup range and multiplier, it succeeds and writes a pool owned by
/// the signer, staking the given mint into the given vault, with exactly the given range
/// and multiplier, nothing staked and the default (all-zero) reward distributor; every
/// other account stays as it was.
pub proof fn lemma_pool_create_always_writes_the_pool(
    accounts: PoolCreate,
    program_id: Seq<u8>,
    min_duration: u64,
    max_duration: u64,
    max_wight_multiplier: u64,
)
    requires
        accounts.account_checks(program_id) is Ok,
    ensures
        ({
            let (r, after) = pool_create_outcome(
                accounts,
                program_id,
                min_duration,
                max_duration,
                max_wight_multiplier,
            );
            let pool = after.pool_config.data;
            &&& r == Ok::<(), StakingError>(())
            &&& pool.owner == accounts.owner
            &&& pool.stake_token_mint == accounts.stake_token_mint
            &&& pool.stake_token_vault == accounts.stake_token_vault.key
            &&& pool.min_duration == min_duration
            &&& pool.max_duration == max_duration
            &&& pool.max_wight_multiplier == max_wight_multiplier
            &&& pool.total_weighted_amount == 0
            &&& is_zero_address(pool.reward_distributor@)
            &&& after.pool_config.key == accounts.pool_config.key
            &&& after.owner == accounts.owner
            &&& after.stake_token_mint == accounts.stake_token_mint
            &&& after.stake_token_vault == accounts.stake_token_vault
        }),
{
}

/// A reward distributor is refused only for a zero emission rate or a pool that already
/// names one, whatever the reward mint; a refusal changes nothing. Otherwise the
/// distributor's configuration names the pool, the reward mint and the emission rate,
/// the pool names the distributor and keeps everything else, and the other accounts stay
/// as they were.
pub proof fn lemma_reward_distributor_handler_meaning(
    accounts: RewardDistributorCreate,
    emission_rate: u64,
)
    ensures
        ({
            let (r, after) = reward_distributor_handler_outcome(accounts, emission_rate);
            let pool = accounts.pool_config.data;
            &&& r is Ok <==> (emission_rate > 0 && is_zero_address(pool.reward_distributor@))
            &&& emission_rate == 0 ==> r == Err::<(), StakingError>(
                StakingError::Program(StakeProgramErrors::EmissionRateZero),
            )
            &&& emission_rate > 0 && !is_zero_address(pool.reward_distributor@) ==> r == Err::<
                (),
                StakingError,
            >(StakingError::Program(StakeProgramErrors::RedeclarationOfRewardDistributor))
            &&& r is Err ==> after == accounts
            &&& r is Ok ==> {
                &&& after.reward_distributor_config.key == accounts.reward_distributor_config.key
                &&& after.reward_distributor_config.data.pool_config == accounts.pool_config.key
                &&& after.reward_distributor_config.data.reward_token_mint
                    == accounts.reward_token_mint
                &&& after.reward_distributor_config.data.emission_rate == emission_rate
                &&& after.pool_config.key == accounts.pool_config.key
                &&& after.pool_config.data == (PoolConfig {
                    reward_distributor: accounts.reward_distributor_config.key,
                    ..pool
                })
                &&& after.pool_owner == accounts.pool_owner
                &&& after.reward_token_mint == accounts.reward_token_mint
            }
        }),
{
    assert(is_zero_address(accounts.pool_config.data.reward_distributor@)
        <==> accounts.pool_config.data.reward_distributor@ =~= crate::pubkey::zero_key());
}

/// A stake is refused, in this order, for a zero amount, a lockup below the pool's
/// minimum, a lockup above its maximum, then an unreadable clock, and a refusal changes nothing. An accepted
/// stake of `amount` tokens locked for `lockup_period` from the clock's time `t` records
/// the user's stake in this pool and vault from `t` (read as unsigned) to `t +
/// lockup_period` with the lockup's multiplier `w`, adds `amount * w / 10 000` to the
/// pool's weighted total and changes nothing else in the pool or the other accounts, and
/// asks for `amount` tokens to move from the user's token account into the vault, signed
/// by the user.
pub proof fn lemma_stake_handler_meaning(
    accounts: StakeTokens,
    amount: u64,
    lockup_period: u64,
    clock: Option<i64>,
)
    requires
        stake_fits(accounts.pool_config.data, amount, lockup_period, clock),
    ensures
        ({
            let (r, after) = stake_handler_outcome(accounts, amount, lockup_period, clock);
            let pool = accounts.pool_config.data;
            let w = weight_multiplier(
                pool.min_duration as int,
                pool.max_duration as int,
                pool.max_wight_multiplier as int,
                lockup_period as int,
            );
            &&& r is Ok <==> (amount > 0 && pool.min_duration <= lockup_period
                <= pool.max_duration && clock is Some)
            &&& amount == 0 ==> r == Err::<crate::accounts::TokenTransfer, StakingError>(
                StakingError::Program(StakeProgramErrors::AmountZero),
            )
            &&& amount > 0 && lockup_period < pool.min_duration ==> r == Err::<
                crate::accounts::TokenTransfer,
                StakingError,
            >(StakingError::Program(StakeProgramErrors::LockupPeriodLessThanMin))
            &&& amount > 0 && pool.min_duration <= lockup_period && lockup_period
                > pool.max_duration ==> r == Err::<
                crate::accounts::TokenTransfer,
                StakingError,
            >(StakingError::Program(StakeProgramErrors::LockupPeriodBiggerThaMax))
            &&& amount > 0 && pool.min_duration <= lockup_period <= pool.max_duration
                && clock is None ==> r == Err::<crate::accounts::TokenTransfer, StakingError>(
                StakingError::ClockUnavailable,
            )
            &&& r is Err ==> after == accounts
            &&& r is Ok ==> {
                &&& after.user_stake.key == accounts.user_stake.key
                &&& after.user_stake.data.owner == accounts.user
                &&& after.user_stake.data.pool_config == accounts.pool_config.key
                &&& after.user_stake.data.stake_token_vault == accounts.stake_token_vault.key
                &&& after.user_stake.data.start_time == clock->0 as u64
                &&& after.user_stake.data.end_time == (clock->0 as u64) + lockup_period
                &&& after.user_stake.data.weight_multiplier == w
                &&& after.pool_config.key == accounts.pool_config.key
                &&& after.pool_config.data.total_weighted_amount == pool.total_weighted_amount
                    + amount * w / 10_000
                &&& after.pool_config.data == (PoolConfig {
                    total_weighted_amount: after.pool_config.data.total_weighted_amount,
                    ..pool
                })
                &&& after.user == accounts.user
                &&& after.stake_token_mint == accounts.stake_token_mint
                &&& after.stake_token_vault == accounts.stake_token_vault
                &&& after.user_token_account == accounts.user_token_account
                &&& r == Ok::<crate::accounts::TokenTransfer, StakingError>(
                    (crate::accounts::TokenTransfer {
                        from: accounts.user_token_account.key,
                        to: accounts.stake_token_vault.key,
                        authority: accounts.user,
                        amount,
                    }),
                )
            }
        }),
{
    let pool = accounts.pool_config.data;
    if stake_rules(pool, amount, lockup_period, clock) is Ok {
        lemma_weight_multiplier_in_u64(pool, lockup_period);
    }
}

/// What overflows in a stake that the rules accept: exactly its multiplier (its
/// computation), its end time `t + lockup_period`, or the pool's new weighted total
/// `total + amount * w / 10 000`; the amount itself is unbounded. A stake that the rules
/// refuse never overflows.
pub proof fn lemma_stake_fits_meaning(pool: PoolConfig, amount: u64, lockup_period: u64, clock: Option<i64>)
    ensures
        stake_rules(pool, amount, lockup_period, clock) is Err ==> stake_fits(
            pool,
            amount,
            lockup_period,
            clock,
        ),
        stake_rules(pool, amount, lockup_period, clock) is Ok ==> (stake_fits(
            pool,
            amount,
            lockup_period,
            clock,
        ) <==> {
            let w = weight_multiplier(
                pool.min_duration as int,
                pool.max_duration as int,
                pool.max_wight_multiplier as int,
                lockup_period as int,
            );
            &&& (if lockup_period == pool.min_duration {
                true
            } else if lockup_period == pool.max_duration {
                pool.max_wight_multiplier * 10_000 <= u64::MAX
            } else {
                1 <= pool.max_wight_multiplier && (pool.max_wight_multiplier - 1) * (lockup_period
                    - pool.min_duration) * 10_000 <= u64::MAX
            })
            &&& (clock->0 as u64) + lockup_period <= u64::MAX
            &&& pool.total_weighted_amount + amount * w / 10_000 <= u64::MAX
        }),
{
}

/// The refusal of an account that must sit at the address derived from `seeds` for the
/// program: none where it does, `ConstraintSeeds` where it sits elsewhere, and
/// `ProgramAddressNotFound` where the seeds derive no address.
pub open spec fn address_refusal(key: Seq<u8>, seeds: Seq<Seq<u8>>, program_id: Seq<u8>) -> Option<
    StakingError,
> {
    match derived_address(seeds, program_id) {
        None => Some(StakingError::ProgramAddressNotFound),
        Some(address) => if address == key {
            None
        } else {
            Some(StakingError::ConstraintSeeds)
        },
    }
}

/// The refusal of a token account that must be the associated token account of `wallet`
/// for `mint`, where the address is wrong: `wrong_address`, or `ProgramAddressNotFound`
/// where no address is derived.
pub open spec fn associated_address_refusal(
    key: Seq<u8>,
    wallet: Seq<u8>,
    mint: Seq<u8>,
    wrong_address: StakingError,
) -> Option<StakingError> {
    match associated_token_address(wallet, mint) {
        None => Some(StakingError::ProgramAddressNotFound),
        Some(address) => if address == key {
            None
        } else {
            Some(wrong_address)
        },
    }
}

/// `error` where the condition fails.
pub open spec fn refusal_unless(condition: bool, error: StakingError) -> Option<StakingError> {
    if condition {
        None
    } else {
        Some(error)
    }
}

/// The first of a refusal and the checks that follow it.
pub open spec fn first_refusal(refusal: Option<StakingError>, rest: Result<(), StakingError>) -> Result<
    (),
    StakingError,
> {
    match refusal {
        Some(e) => Err(e),
        None => rest,
    }
}

/// A pool creation is refused with the first of these: the pool not at its derived
/// address, the vault holding another mint (`ConstraintTokenMint`), the vault belonging
/// to another authority than the pool (`ConstraintTokenOwner`), the vault not at the
/// pool's associated token address (`AccountNotAssociatedTokenAccount`).
pub proof fn lemma_pool_create_refusals(a: PoolCreate, program_id: Seq<u8>)
    ensures
        a.account_checks(program_id) == first_refusal(
            address_refusal(
                a.pool_config.key@,
                seq![pool_config_seed_prefix(), a.owner@, a.stake_token_mint@],
                program_id,
            ),
            first_refusal(
                refusal_unless(
                    a.stake_token_vault.data.mint@ == a.stake_token_mint@,
                    StakingError::ConstraintTokenMint,
                ),
                first_refusal(
                    refusal_unless(
                        a.stake_token_vault.data.owner@ == a.pool_config.key@,
                        StakingError::ConstraintTokenOwner,
                    ),
                    first_refusal(
                        associated_address_refusal(
                            a.stake_token_vault.key@,
                            a.pool_config.key@,
                            a.stake_token_mint@,
                            StakingError::AccountNotAssociatedTokenAccount,
                        ),
                        Ok(()),
                    ),
                ),
            ),
        ),
{
}

/// A reward distributor's creation is refused with the first of these: the distributor
/// not at its derived address, a signer that does not own the pool (`InvalidPoolOwner`),
/// the pool not at its derived address.
pub proof fn lemma_reward_distributor_refusals(a: RewardDistributorCreate, program_id: Seq<u8>)
    ensures
        a.account_checks(program_id) == first_refusal(
            address_refusal(
                a.reward_distributor_config.key@,
                seq![reward_config_seed_prefix(), a.pool_config.key@, a.reward_token_mint@],
                program_id,
            ),
            first_refusal(
                refusal_unless(
                    a.pool_owner@ == a.pool_config.data.owner@,
                    StakingError::Program(StakeProgramErrors::InvalidPoolOwner),
                ),
                first_refusal(
                    address_refusal(
                        a.pool_config.key@,
                        seq![
                            pool_config_seed_prefix(),
                            a.pool_config.data.owner@,
                            a.pool_config.data.stake_token_mint@,
                        ],
                        program_id,
                    ),
                    Ok(()),
                ),
            ),
        ),
{
}

/// A stake is refused with the first of these: the stake not at its derived address, the
/// pool not at its derived address, a pool of another mint (`InvalidStakeToken`), a vault
/// that does not belong to the pool (`ConstraintTokenOwner`) or is not its associated
/// token account (`ConstraintAssociated`), a user token account that does not belong to
/// the user (`ConstraintTokenOwner`) or is not the user's associated token account
/// (`ConstraintAssociated`).
pub proof fn lemma_stake_refusals(a: StakeTokens, program_id: Seq<u8>)
    ensures
        a.account_checks(program_id) == first_refusal(
            address_refusal(
                a.user_stake.key@,
                seq![user_stake_seed_prefix(), a.user@, a.stake_token_mint@],
                program_id,
            ),
            first_refusal(
                address_refusal(
                    a.pool_config.key@,
                    seq![
                        pool_config_seed_prefix(),
                        a.pool_config.data.owner@,
                        a.pool_config.data.stake_token_mint@,
                    ],
                    program_id,
                ),
                first_refusal(
                    refusal_unless(
                        a.pool_config.data.stake_token_mint@ == a.stake_token_mint@,
                        StakingError::Program(StakeProgramErrors::InvalidStakeToken),
                    ),
                    first_refusal(
                        refusal_unless(
                            a.stake_token_vault.data.owner@ == a.pool_config.key@,
                            StakingError::ConstraintTokenOwner,
                        ),
                        first_refusal(
                            associated_address_refusal(
                                a.stake_token_vault.key@,
                                a.pool_config.key@,
                                a.stake_token_mint@,
                                StakingError::ConstraintAssociated,
                            ),
                            first_refusal(
                                refusal_unless(
                                    a.user_token_account.data.owner@ == a.user@,
                                    StakingError::ConstraintTokenOwner,
                                ),
                                first_refusal(
                                    associated_address_refusal(
                                        a.user_token_account.key@,
                                        a.user@,
                                        a.stake_token_mint@,
                                        StakingError::ConstraintAssociated,
                                    ),
                                    Ok(()),
                                ),
                            ),
                        ),
                    ),
                ),
            ),
        ),
{
}

/// An unstake is refused with the first of these: a pool of another mint
/// (`InvalidStakeToken`), the pool not at its derived address.
pub proof fn lemma_unstake_refusals(a: UnstakeUserTokens, program_id: Seq<u8>)
    ensures
        a.account_checks(program_id) == first_refusal(
            refusal_unless(
                a.stake_token_mint@ == a.pool_config.data.stake_token_mint@,
                StakingError::Program(StakeProgramErrors::InvalidStakeToken),
            ),
            first_refusal(
                address_refusal(
                    a.pool_config.key@,
                    seq![
                        pool_config_seed_prefix(),
                        a.pool_config.data.owner@,
                        a.pool_config.data.stake_token_mint@,
                    ],
                    program_id,
                ),
                Ok(()),
            ),
        ),
{
}

/// Weights are counted in basis points: 1x is 10 000.
pub proof fn lemma_basis_points()
    ensures
        BIPS == 10_000,
{
}

} // verus!
