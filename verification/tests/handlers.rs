use token_staking::accounts::{Account, Context, TokenAccount, TokenTransfer};
use token_staking::handlers;
use token_staking::instructions::pool_create::PoolCreate;
use token_staking::instructions::reward_distributor_create::RewardDistributorCreate;
use token_staking::instructions::stake_tokens::StakeTokens;
use token_staking::pubkey::Pubkey;
use token_staking::state::pool_config::PoolConfig;
use token_staking::state::reward_distributor_config::RewardDistributorConfig;
use token_staking::state::user_stake::UserStake;
use token_staking::utils::errors::{StakeProgramErrors, StakingError};

fn key(b: u8) -> Pubkey {
    Pubkey([b; 32])
}

fn pool(min_duration: u64, max_duration: u64, max_wight_multiplier: u64) -> PoolConfig {
    PoolConfig {
        owner: key(1),
        stake_token_mint: key(2),
        stake_token_vault: key(3),
        min_duration,
        max_duration,
        max_wight_multiplier,
        total_weighted_amount: 0,
        reward_distributor: Pubkey::default(),
    }
}

fn empty_stake() -> UserStake {
    UserStake {
        owner: Pubkey::default(),
        pool_config: Pubkey::default(),
        stake_token_vault: Pubkey::default(),
        start_time: 0,
        end_time: 0,
        weight_multiplier: 0,
    }
}

fn token_account(k: u8, mint: Pubkey, owner: Pubkey) -> Account<TokenAccount> {
    Account { key: key(k), data: TokenAccount { mint, owner } }
}

fn stake_ctx(p: PoolConfig) -> Context<StakeTokens> {
    Context {
        program_id: key(9),
        accounts: StakeTokens {
            user: key(5),
            stake_token_mint: key(2),
            pool_config: Account { key: key(4), data: p },
            user_stake: Account { key: key(6), data: empty_stake() },
            stake_token_vault: token_account(3, key(2), key(4)),
            user_token_account: token_account(7, key(2), key(5)),
        },
    }
}

fn reward_ctx(p: PoolConfig, distributor: u8) -> Context<RewardDistributorCreate> {
    Context {
        program_id: key(9),
        accounts: RewardDistributorCreate {
            pool_owner: key(1),
            reward_token_mint: key(8),
            pool_config: Account { key: key(4), data: p },
            reward_distributor_config: Account {
                key: key(distributor),
                data: RewardDistributorConfig {
                    pool_config: Pubkey::default(),
                    reward_token_mint: Pubkey::default(),
                    emission_rate: 0,
                },
            },
        },
    }
}

#[test]
fn pool_create_writes_a_fresh_pool() {
    let mut ctx = Context {
        program_id: key(9),
        accounts: PoolCreate {
            owner: key(1),
            pool_config: Account { key: key(4), data: pool(0, 0, 0) },
            stake_token_mint: key(2),
            stake_token_vault: token_account(3, key(2), key(4)),
        },
    };
    ctx.accounts.pool_config.data.total_weighted_amount = 77;
    ctx.accounts.pool_config.data.reward_distributor = key(42);
    assert_eq!(handlers::pool_create::handle(&mut ctx, 60, 3600, 3), Ok(()));
    let p = ctx.accounts.pool_config.data;
    assert!(p.owner == key(1));
    assert!(p.stake_token_mint == key(2));
    assert!(p.stake_token_vault == key(3));
    assert_eq!((p.min_duration, p.max_duration, p.max_wight_multiplier), (60, 3600, 3));
    assert_eq!(p.total_weighted_amount, 0);
    assert!(p.reward_distributor == Pubkey::default());
    assert!(ctx.accounts.pool_config.key == key(4));
}

#[test]
fn reward_distributor_needs_a_positive_emission_rate() {
    let mut ctx = reward_ctx(pool(0, 10, 2), 11);
    assert_eq!(
        handlers::reward_distributor_create::handler(&mut ctx, 0),
        Err(StakingError::Program(StakeProgramErrors::EmissionRateZero))
    );
    assert!(ctx.accounts.pool_config.data.reward_distributor == Pubkey::default());
    assert_eq!(ctx.accounts.reward_distributor_config.data.emission_rate, 0);
}

#[test]
fn reward_distributor_is_declared_once() {
    let mut ctx = reward_ctx(pool(0, 10, 2), 11);
    assert_eq!(handlers::reward_distributor_create::handler(&mut ctx, 25), Ok(()));
    let config = ctx.accounts.reward_distributor_config.data;
    assert!(config.pool_config == key(4));
    assert!(config.reward_token_mint == key(8));
    assert_eq!(config.emission_rate, 25);
    assert!(ctx.accounts.pool_config.data.reward_distributor == key(11));
    assert_eq!(
        handlers::reward_distributor_create::handler(&mut ctx, 30),
        Err(StakingError::Program(StakeProgramErrors::RedeclarationOfRewardDistributor))
    );
    assert_eq!(ctx.accounts.reward_distributor_config.data.emission_rate, 25);
    assert_eq!(
        handlers::reward_distributor_create::handler(&mut ctx, 0),
        Err(StakingError::Program(StakeProgramErrors::EmissionRateZero))
    );
}

#[test]
fn a_distributor_at_the_default_address_can_be_declared_again() {
    let mut ctx = reward_ctx(pool(0, 10, 2), 0);
    assert_eq!(handlers::reward_distributor_create::handler(&mut ctx, 25), Ok(()));
    assert_eq!(handlers::reward_distributor_create::handler(&mut ctx, 26), Ok(()));
    assert_eq!(ctx.accounts.reward_distributor_config.data.emission_rate, 26);
}

fn transfer(amount: u64) -> TokenTransfer {
    TokenTransfer { from: key(7), to: key(3), authority: key(5), amount }
}

#[test]
fn stake_errors() {
    let mut ctx = stake_ctx(pool(60, 3600, 3));
    assert_eq!(
        handlers::stake_tokens::handler(&mut ctx, 0, 600, Some(1_700_000_000)),
        Err(StakingError::Program(StakeProgramErrors::AmountZero))
    );
    assert_eq!(
        handlers::stake_tokens::handler(&mut ctx, 10, 59, Some(1_700_000_000)),
        Err(StakingError::Program(StakeProgramErrors::LockupPeriodLessThanMin))
    );
    assert_eq!(
        handlers::stake_tokens::handler(&mut ctx, 10, 3601, Some(1_700_000_000)),
        Err(StakingError::Program(StakeProgramErrors::LockupPeriodBiggerThaMax))
    );
    // the amount is checked first
    assert_eq!(
        handlers::stake_tokens::handler(&mut ctx, 0, 3601, Some(1_700_000_000)),
        Err(StakingError::Program(StakeProgramErrors::AmountZero))
    );
    // the clock is read after the rules
    assert_eq!(
        handlers::stake_tokens::handler(&mut ctx, 10, 3601, None),
        Err(StakingError::Program(StakeProgramErrors::LockupPeriodBiggerThaMax))
    );
    assert_eq!(handlers::stake_tokens::handler(&mut ctx, 10, 600, None), Err(StakingError::ClockUnavailable));
    assert_eq!(ctx.accounts.user_stake.data.end_time, 0);
    assert_eq!(ctx.accounts.pool_config.data.total_weighted_amount, 0);
}

#[test]
fn stake_records_the_lockup() {
    let mut ctx = stake_ctx(pool(60, 3660, 3));
    assert_eq!(
        handlers::stake_tokens::handler(&mut ctx, 500, 1860, Some(1_700_000_000)),
        Ok(transfer(500))
    );
    let s = ctx.accounts.user_stake.data;
    assert!(s.owner == key(5));
    assert!(s.pool_config == key(4));
    assert!(s.stake_token_vault == key(3));
    assert_eq!(s.start_time, 1_700_000_000);
    assert_eq!(s.end_time, 1_700_001_860);
    // 1 + (3 - 1) * 1800 / 3600 = 2
    assert_eq!(s.weight_multiplier, 20_000);
    // 500 tokens weighted 2x
    assert_eq!(ctx.accounts.pool_config.data.total_weighted_amount, 1_000);
    assert_eq!(ctx.accounts.pool_config.data.max_wight_multiplier, 3);
}

#[test]
fn stakes_add_up_in_the_weighted_total() {
    let mut ctx = stake_ctx(pool(0, 10, 2));
    assert_eq!(handlers::stake_tokens::handler(&mut ctx, 100, 5, Some(0)), Ok(transfer(100)));
    assert_eq!(ctx.accounts.pool_config.data.total_weighted_amount, 150);
    assert_eq!(handlers::stake_tokens::handler(&mut ctx, 7, 3, Some(0)), Ok(transfer(7)));
    // 7 * 13_000 / 10_000 = 9.1, rounded down
    assert_eq!(ctx.accounts.pool_config.data.total_weighted_amount, 159);
    assert_eq!(handlers::stake_tokens::handler(&mut ctx, 10, 10, Some(0)), Ok(transfer(10)));
    assert_eq!(ctx.accounts.pool_config.data.total_weighted_amount, 179);
}

#[test]
fn stake_at_the_range_ends() {
    let mut ctx = stake_ctx(pool(60, 3660, 3));
    assert_eq!(handlers::stake_tokens::handler(&mut ctx, 1, 60, Some(10)), Ok(transfer(1)));
    assert_eq!(ctx.accounts.user_stake.data.weight_multiplier, 10_000);
    assert_eq!(ctx.accounts.user_stake.data.end_time, 70);
    let mut ctx = stake_ctx(pool(60, 3660, 3));
    assert_eq!(handlers::stake_tokens::handler(&mut ctx, 1, 3660, Some(10)), Ok(transfer(1)));
    assert_eq!(ctx.accounts.user_stake.data.weight_multiplier, 30_000);
    assert_eq!(ctx.accounts.pool_config.data.total_weighted_amount, 3);
}

#[test]
fn stake_reads_a_negative_clock_as_unsigned() {
    let mut ctx = stake_ctx(pool(60, 3660, 3));
    assert_eq!(handlers::stake_tokens::handler(&mut ctx, 1, 60, Some(-100)), Ok(transfer(1)));
    assert_eq!(ctx.accounts.user_stake.data.start_time, u64::MAX - 99);
    assert_eq!(ctx.accounts.user_stake.data.end_time, u64::MAX - 39);
}
