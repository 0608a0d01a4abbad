use anchor_lang::prelude::Pubkey as SolanaPubkey;
use token_staking::accounts::{Account, Context, TokenAccount, TokenTransfer};
use token_staking::address::{find_program_address, get_associated_token_address};
use token_staking::instructions::pool_create::PoolCreate;
use token_staking::instructions::reward_distributor_create::RewardDistributorCreate;
use token_staking::instructions::stake_tokens::StakeTokens;
use token_staking::instructions::unstake_tokens::UnstakeUserTokens;
use token_staking::pubkey::Pubkey;
use token_staking::state::pool_config::PoolConfig;
use token_staking::state::reward_distributor_config::RewardDistributorConfig;
use token_staking::state::user_stake::UserStake;
use token_staking::token_staking::{
    create_reward_distributor, initialize, pool_create, stake_tokens, try_stake_tokens,
};
use token_staking::utils::errors::{StakeProgramErrors, StakingError};
use token_staking::Initialize;

const PROGRAM_ID: &str = "14cNesu4Fnme8M6wqK5GMJWygsXYbQuae4KbyBp9aBNW";

fn key(b: u8) -> Pubkey {
    Pubkey([b; 32])
}

fn sol(k: &Pubkey) -> SolanaPubkey {
    SolanaPubkey::new_from_array(k.0)
}

fn program_id() -> Pubkey {
    Pubkey(PROGRAM_ID.parse::<SolanaPubkey>().unwrap().to_bytes())
}

fn pda(seeds: &[&[u8]]) -> Pubkey {
    Pubkey(SolanaPubkey::find_program_address(seeds, &sol(&program_id())).0.to_bytes())
}

fn ata(wallet: &Pubkey, mint: &Pubkey) -> Pubkey {
    Pubkey(
        anchor_spl::associated_token::get_associated_token_address(&sol(wallet), &sol(mint))
            .to_bytes(),
    )
}

fn owner() -> Pubkey {
    key(1)
}

fn mint() -> Pubkey {
    key(2)
}

fn user() -> Pubkey {
    key(5)
}

fn reward_mint() -> Pubkey {
    key(8)
}

fn pool_key() -> Pubkey {
    pda(&[b"pool_config", &owner().0, &mint().0])
}

fn empty_pool() -> PoolConfig {
    PoolConfig {
        owner: Pubkey::default(),
        stake_token_mint: Pubkey::default(),
        stake_token_vault: Pubkey::default(),
        min_duration: 0,
        max_duration: 0,
        max_wight_multiplier: 0,
        total_weighted_amount: 0,
        reward_distributor: Pubkey::default(),
    }
}

fn pool_create_ctx() -> Context<PoolCreate> {
    let pool = pool_key();
    Context {
        program_id: program_id(),
        accounts: PoolCreate {
            owner: owner(),
            pool_config: Account { key: pool, data: empty_pool() },
            stake_token_mint: mint(),
            stake_token_vault: Account {
                key: ata(&pool, &mint()),
                data: TokenAccount { mint: mint(), owner: pool },
            },
        },
    }
}

fn created_pool() -> PoolConfig {
    let mut ctx = pool_create_ctx();
    assert_eq!(pool_create(&mut ctx, 60, 3660, 3), Ok(()));
    ctx.accounts.pool_config.data
}

fn reward_ctx(pool: PoolConfig) -> Context<RewardDistributorCreate> {
    Context {
        program_id: program_id(),
        accounts: RewardDistributorCreate {
            pool_owner: owner(),
            reward_token_mint: reward_mint(),
            pool_config: Account { key: pool_key(), data: pool },
            reward_distributor_config: Account {
                key: pda(&[b"reward_config", &pool_key().0, &reward_mint().0]),
                data: RewardDistributorConfig {
                    pool_config: Pubkey::default(),
                    reward_token_mint: Pubkey::default(),
                    emission_rate: 0,
                },
            },
        },
    }
}

fn stake_ctx(pool: PoolConfig) -> Context<StakeTokens> {
    Context {
        program_id: program_id(),
        accounts: StakeTokens {
            user: user(),
            stake_token_mint: mint(),
            pool_config: Account { key: pool_key(), data: pool },
            user_stake: Account {
                key: pda(&[b"user_stake", &user().0, &mint().0]),
                data: UserStake {
                    owner: Pubkey::default(),
                    pool_config: Pubkey::default(),
                    stake_token_vault: Pubkey::default(),
                    start_time: 0,
                    end_time: 0,
                    weight_multiplier: 0,
                },
            },
            stake_token_vault: Account {
                key: ata(&pool_key(), &mint()),
                data: TokenAccount { mint: mint(), owner: pool_key() },
            },
            user_token_account: Account {
                key: ata(&user(), &mint()),
                data: TokenAccount { mint: mint(), owner: user() },
            },
        },
    }
}

#[test]
fn program_addresses_match_the_solana_derivation() {
    let seeds = vec![b"pool_config".to_vec(), owner().0.to_vec(), mint().0.to_vec()];
    let derived = find_program_address(&seeds, &program_id()).unwrap();
    assert!(derived == pool_key());
    assert!(derived != program_id());
    let derived = get_associated_token_address(&user(), &mint()).unwrap();
    assert!(derived == ata(&user(), &mint()));
    assert!(derived != user());
    assert!(derived != ata(&owner(), &mint()));
}

#[test]
fn default_key_is_all_zero() {
    assert!(Pubkey::default() == Pubkey([0; 32]));
    assert!(Pubkey::default().0 == SolanaPubkey::default().to_bytes());
    assert!(key(3) != key(4));
    let mut k = key(3);
    k.0[31] = 4;
    assert!(k != key(3));
}

#[test]
fn account_spaces() {
    assert_eq!(PoolConfig::LEN, 8 + 4 * 32 + 4 * 8);
    assert_eq!(RewardDistributorConfig::LEN, 8 + 2 * 32 + 8);
    assert_eq!(UserStake::LEN, 8 + 3 * 32 + 3 * 8);
    assert_eq!(PoolConfig::seed_prefix(), b"pool_config".to_vec());
    assert_eq!(RewardDistributorConfig::seed_prefix(), b"reward_config".to_vec());
    assert_eq!(UserStake::seed_prefix(), b"user_stake".to_vec());
}

#[test]
fn initialize_succeeds() {
    let ctx = Context { program_id: program_id(), accounts: Initialize {} };
    assert_eq!(initialize(&ctx), Ok(()));
}

#[test]
fn pool_create_checks_the_pool_address() {
    let mut ctx = pool_create_ctx();
    ctx.accounts.pool_config.key = pda(&[b"pool_config", &mint().0, &owner().0]);
    assert_eq!(pool_create(&mut ctx, 60, 3660, 3), Err(StakingError::ConstraintSeeds));
    assert_eq!(ctx.accounts.pool_config.data.max_duration, 0);
    let mut ctx = pool_create_ctx();
    ctx.program_id = key(9);
    assert_eq!(pool_create(&mut ctx, 60, 3660, 3), Err(StakingError::ConstraintSeeds));
}

#[test]
fn pool_create_checks_the_vault() {
    let mut ctx = pool_create_ctx();
    ctx.accounts.stake_token_vault.data.mint = key(3);
    assert_eq!(pool_create(&mut ctx, 60, 3660, 3), Err(StakingError::ConstraintTokenMint));
    let mut ctx = pool_create_ctx();
    ctx.accounts.stake_token_vault.data.owner = owner();
    assert_eq!(pool_create(&mut ctx, 60, 3660, 3), Err(StakingError::ConstraintTokenOwner));
    let mut ctx = pool_create_ctx();
    ctx.accounts.stake_token_vault.key = ata(&owner(), &mint());
    assert_eq!(
        pool_create(&mut ctx, 60, 3660, 3),
        Err(StakingError::AccountNotAssociatedTokenAccount)
    );
}

#[test]
fn pool_create_succeeds() {
    let p = created_pool();
    assert!(p.owner == owner());
    assert!(p.stake_token_mint == mint());
    assert!(p.stake_token_vault == ata(&pool_key(), &mint()));
    assert_eq!((p.min_duration, p.max_duration, p.max_wight_multiplier), (60, 3660, 3));
    assert_eq!(p.total_weighted_amount, 0);
    assert!(p.reward_distributor == Pubkey::default());
}

#[test]
fn reward_distributor_flow() {
    let mut ctx = reward_ctx(created_pool());
    assert_eq!(
        create_reward_distributor(&mut ctx, 0),
        Err(StakingError::Program(StakeProgramErrors::EmissionRateZero))
    );
    assert_eq!(create_reward_distributor(&mut ctx, 40), Ok(()));
    let distributor = ctx.accounts.reward_distributor_config;
    assert!(ctx.accounts.pool_config.data.reward_distributor == distributor.key);
    assert!(distributor.data.pool_config == pool_key());
    assert!(distributor.data.reward_token_mint == reward_mint());
    assert_eq!(distributor.data.emission_rate, 40);
    assert_eq!(
        create_reward_distributor(&mut ctx, 40),
        Err(StakingError::Program(StakeProgramErrors::RedeclarationOfRewardDistributor))
    );
}

#[test]
fn reward_distributor_checks_the_accounts() {
    let mut ctx = reward_ctx(created_pool());
    ctx.accounts.pool_owner = user();
    assert_eq!(
        create_reward_distributor(&mut ctx, 40),
        Err(StakingError::Program(StakeProgramErrors::InvalidPoolOwner))
    );
    let mut ctx = reward_ctx(created_pool());
    ctx.accounts.reward_distributor_config.key = key(12);
    assert_eq!(create_reward_distributor(&mut ctx, 40), Err(StakingError::ConstraintSeeds));
    // The distributor's address is checked before the owner.
    ctx.accounts.pool_owner = user();
    assert_eq!(create_reward_distributor(&mut ctx, 40), Err(StakingError::ConstraintSeeds));
    let mut ctx = reward_ctx(created_pool());
    ctx.accounts.pool_config.data.stake_token_mint = reward_mint();
    assert_eq!(create_reward_distributor(&mut ctx, 40), Err(StakingError::ConstraintSeeds));
    // The account checks come before the program's rules.
    let mut ctx = reward_ctx(created_pool());
    ctx.accounts.pool_owner = user();
    assert_eq!(
        create_reward_distributor(&mut ctx, 0),
        Err(StakingError::Program(StakeProgramErrors::InvalidPoolOwner))
    );
}

#[test]
fn stake_flow() {
    let mut ctx = stake_ctx(created_pool());
    assert_eq!(
        stake_tokens(&mut ctx, 100, 1860, Some(1_700_000_000)),
        Ok(TokenTransfer {
            from: ata(&user(), &mint()),
            to: ata(&pool_key(), &mint()),
            authority: user(),
            amount: 100,
        })
    );
    let s = ctx.accounts.user_stake.data;
    assert!(s.owner == user());
    assert!(s.pool_config == pool_key());
    assert!(s.stake_token_vault == ata(&pool_key(), &mint()));
    assert_eq!((s.start_time, s.end_time, s.weight_multiplier), (1_700_000_000, 1_700_001_860, 20_000));
    assert_eq!(ctx.accounts.pool_config.data.total_weighted_amount, 200);
    let mut ctx = stake_ctx(created_pool());
    assert_eq!(
        stake_tokens(&mut ctx, 100, 30, Some(1_700_000_000)),
        Err(StakingError::Program(StakeProgramErrors::LockupPeriodLessThanMin))
    );
    assert_eq!(ctx.accounts.user_stake.data.start_time, 0);
}

#[test]
fn stake_checks_the_accounts() {
    let mut ctx = stake_ctx(created_pool());
    ctx.accounts.user_stake.key = pda(&[b"user_stake", &owner().0, &mint().0]);
    assert_eq!(stake_tokens(&mut ctx, 100, 1860, Some(1)), Err(StakingError::ConstraintSeeds));
    let mut ctx = stake_ctx(created_pool());
    ctx.accounts.stake_token_mint = reward_mint();
    // the stake's address is derived from the wrong mint first
    assert_eq!(stake_tokens(&mut ctx, 100, 1860, Some(1)), Err(StakingError::ConstraintSeeds));
    ctx.accounts.user_stake.key = pda(&[b"user_stake", &user().0, &reward_mint().0]);
    assert_eq!(
        stake_tokens(&mut ctx, 100, 1860, Some(1)),
        Err(StakingError::Program(StakeProgramErrors::InvalidStakeToken))
    );
    let mut ctx = stake_ctx(created_pool());
    ctx.accounts.stake_token_vault.data.owner = user();
    assert_eq!(stake_tokens(&mut ctx, 100, 1860, Some(1)), Err(StakingError::ConstraintTokenOwner));
    let mut ctx = stake_ctx(created_pool());
    ctx.accounts.stake_token_vault.key = ata(&user(), &mint());
    assert_eq!(stake_tokens(&mut ctx, 100, 1860, Some(1)), Err(StakingError::ConstraintAssociated));
    let mut ctx = stake_ctx(created_pool());
    ctx.accounts.user_token_account.key = ata(&user(), &reward_mint());
    assert_eq!(stake_tokens(&mut ctx, 100, 1860, Some(1)), Err(StakingError::ConstraintAssociated));
    // the associated token check does not look at the mint held
    let mut ctx = stake_ctx(created_pool());
    ctx.accounts.user_token_account.data.mint = reward_mint();
    assert!(stake_tokens(&mut ctx, 100, 1860, Some(1)).is_ok());
}

#[test]
fn try_stake_reports_overflow() {
    let mut pool = created_pool();
    pool.max_wight_multiplier = u64::MAX;
    let mut ctx = stake_ctx(pool);
    assert_eq!(try_stake_tokens(&mut ctx, 100, 1860, Some(1)), None);
    assert_eq!(ctx.accounts.user_stake.data.end_time, 0);
    let mut ctx = stake_ctx(pool);
    ctx.accounts.user_stake.key = key(1);
    assert_eq!(try_stake_tokens(&mut ctx, 100, 1860, Some(1)), Some(Err(StakingError::ConstraintSeeds)));
    let mut ctx = stake_ctx(created_pool());
    assert!(matches!(try_stake_tokens(&mut ctx, 100, 3660, Some(1)), Some(Ok(_))));
    assert_eq!(ctx.accounts.user_stake.data.weight_multiplier, 30_000);
    assert_eq!(ctx.accounts.pool_config.data.total_weighted_amount, 300);
}

#[test]
fn unstake_checks_the_accounts() {
    let accounts = UnstakeUserTokens {
        user: user(),
        stake_token_mint: mint(),
        pool_config: Account { key: pool_key(), data: created_pool() },
        stake_token_vault: Account {
            key: ata(&pool_key(), &mint()),
            data: TokenAccount { mint: mint(), owner: pool_key() },
        },
        stake_token_user_ata: Account {
            key: ata(&user(), &mint()),
            data: TokenAccount { mint: mint(), owner: user() },
        },
    };
    assert_eq!(accounts.validate(&program_id()), Ok(()));
    let mut wrong_mint = accounts;
    wrong_mint.stake_token_mint = reward_mint();
    assert_eq!(
        wrong_mint.validate(&program_id()),
        Err(StakingError::Program(StakeProgramErrors::InvalidStakeToken))
    );
    let mut wrong_pool = accounts;
    wrong_pool.pool_config.key = key(4);
    assert_eq!(wrong_pool.validate(&program_id()), Err(StakingError::ConstraintSeeds));
}
