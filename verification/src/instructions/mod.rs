pub mod pool_create;
pub mod reward_distributor_create;
pub mod stake_tokens;
pub mod unstake_tokens;
