pub mod pool_config;
pub mod reward_distributor_config;
pub mod user_stake;
