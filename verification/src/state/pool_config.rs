use vstd::prelude::*;

use crate::pubkey::Pubkey;

verus! {

/// The configuration of a staking pool, stored at the address derived from
/// `"pool_config"`, the owner and the stake token mint.
#[derive(Clone, Copy, Debug)]
pub struct PoolConfig {
    pub owner: Pubkey,
    pub stake_token_mint: Pubkey,
    pub stake_token_vault: Pubkey,
    /// The shortest lockup period a stake may have.
    pub min_duration: u64,
    /// The longest lockup period a stake may have.
    pub max_duration: u64,
    /// The weight multiplier of a stake locked for `max_duration`.
    pub max_wight_multiplier: u64,
    /// The weighted amount of tokens in the pool: the sum of all users' weighted amounts.
    pub total_weighted_amount: u64,
    /// The reward distributor of the pool; the default address while there is none.
    pub reward_distributor: Pubkey,
}

/// The bytes of `"pool_config"`, the first seed of a pool's address.
pub open spec fn pool_config_seed_prefix() -> Seq<u8> {
    seq![112u8, 111, 111, 108, 95, 99, 111, 110, 102, 105, 103]
}

impl PoolConfig {
    /// The space the account takes: an 8-byte discriminator, four addresses of
    /// 32 bytes and four 8-byte integers.
    pub const LEN: usize = 168;

    /// The first seed of a pool's address, `"pool_config"`.
    pub fn seed_prefix() -> (r: Vec<u8>)
        ensures
            r@ == pool_config_seed_prefix(),
    {
        let r: Vec<u8> = vec![112u8, 111, 111, 108, 95, 99, 111, 110, 102, 105, 103];
        assert(r@ =~= pool_config_seed_prefix());
        r
    }
}

} // verus!
