use token_staking::handlers::stake_tokens::{
    calculate_user_weight_multiplier, calculate_weighted_amount, stake_fits_in_u64, BIPS,
};
use token_staking::pubkey::Pubkey;
use token_staking::state::pool_config::PoolConfig;

fn pool(min_duration: u64, max_duration: u64, max_wight_multiplier: u64) -> PoolConfig {
    PoolConfig {
        owner: Pubkey([1; 32]),
        stake_token_mint: Pubkey([2; 32]),
        stake_token_vault: Pubkey([3; 32]),
        min_duration,
        max_duration,
        max_wight_multiplier,
        total_weighted_amount: 0,
        reward_distributor: Pubkey::default(),
    }
}

#[test]
fn minimum_lockup_has_multiplier_one() {
    assert_eq!(calculate_user_weight_multiplier(&pool(100, 1000, 4), 100), BIPS);
    assert_eq!(calculate_user_weight_multiplier(&pool(10, 40, 2), 10), 10_000);
    assert_eq!(calculate_user_weight_multiplier(&pool(5, 5, 7), 5), BIPS);
}

#[test]
fn maximum_lockup_has_the_pool_multiplier() {
    assert_eq!(calculate_user_weight_multiplier(&pool(100, 1000, 4), 1000), 4 * BIPS);
    assert_eq!(calculate_user_weight_multiplier(&pool(10, 40, 2), 40), 20_000);
    assert_eq!(calculate_user_weight_multiplier(&pool(0, 10, 0), 10), 0);
}

#[test]
fn interior_lockup_is_interpolated_in_basis_points() {
    assert_eq!(BIPS, 10_000);
    // 1 + (2 - 1) * 5 / 10 = 1.5
    assert_eq!(calculate_user_weight_multiplier(&pool(0, 10, 2), 5), 15_000);
    // 1 + (2 - 1) * 3 / 10 = 1.3
    assert_eq!(calculate_user_weight_multiplier(&pool(0, 10, 2), 3), 13_000);
    // 1 + (4 - 1) * 300 / 900 = 2
    assert_eq!(calculate_user_weight_multiplier(&pool(100, 1000, 4), 400), 20_000);
    // rounded down: 1 + (3 - 1) * 1 / 3 = 1.6666...
    assert_eq!(calculate_user_weight_multiplier(&pool(0, 3, 3), 1), 16_666);
}

#[test]
fn multiplier_is_within_bounds_and_monotonic() {
    let p = pool(10, 110, 5);
    let mut previous = 0;
    for lockup in 10..=110 {
        let w = calculate_user_weight_multiplier(&p, lockup);
        assert!(BIPS <= w && w <= 5 * BIPS);
        assert!(previous <= w);
        previous = w;
    }
}

#[test]
fn multiplier_grows_up_to_the_maximum_lockup() {
    let p = pool(10, 40, 2);
    assert_eq!(calculate_user_weight_multiplier(&p, 20), 13_333);
    assert_eq!(calculate_user_weight_multiplier(&p, 39), 19_666);
    assert_eq!(calculate_user_weight_multiplier(&p, 40), 20_000);
}

#[test]
fn weighted_amounts() {
    assert_eq!(calculate_weighted_amount(100, 15_000), 150);
    assert_eq!(calculate_weighted_amount(3, 13_333), 3);
    assert_eq!(calculate_weighted_amount(u64::MAX, BIPS), u64::MAX);
    assert_eq!(calculate_weighted_amount(0, 20_000), 0);
}

#[test]
fn overflowing_stakes_are_detected() {
    // (u64::MAX - 1) * 1 * BIPS overflows.
    assert!(!stake_fits_in_u64(&pool(0, 10, u64::MAX), 1, 1, Some(0)));
    // u64::MAX * BIPS overflows at the longest lockup.
    assert!(!stake_fits_in_u64(&pool(0, 10, u64::MAX), 1, 10, Some(0)));
    // a zero multiplier in the interior underflows.
    assert!(!stake_fits_in_u64(&pool(0, 10, 0), 1, 5, Some(0)));
    // the end time overflows.
    assert!(!stake_fits_in_u64(&pool(0, 10, 2), 1, 10, Some(-1)));
    // the weighted total overflows.
    let mut full = pool(0, 10, 2);
    full.total_weighted_amount = u64::MAX - 1;
    assert!(stake_fits_in_u64(&full, 1, 0, Some(0)));
    assert!(!stake_fits_in_u64(&full, 2, 0, Some(0)));
    // refused stakes never reach the arithmetic.
    assert!(stake_fits_in_u64(&pool(0, 10, 0), 0, 5, Some(-1)));
    assert!(stake_fits_in_u64(&pool(0, 10, 0), 1, 5, None));
    assert!(stake_fits_in_u64(&pool(0, 10, 2), 1, 5, Some(1_700_000_000)));
    assert!(stake_fits_in_u64(&pool(0, 10, 0), 1, 0, Some(1_700_000_000)));
}
