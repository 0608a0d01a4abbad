use vstd::prelude::*;

use crate::pubkey::Pubkey;

verus! {

/// The configuration of a pool's reward distributor, stored at the address derived from
/// `"reward_config"`, the pool's address and the reward token mint.
#[derive(Clone, Copy, Debug)]
pub struct RewardDistributorConfig {
    pub pool_config: Pubkey,
    pub reward_token_mint: Pubkey,
    /// Reward tokens emitted per second.
    pub emission_rate: u64,
}

/// The bytes of `"reward_config"`, the first seed of a reward distributor's address.
pub open spec fn reward_config_seed_prefix() -> Seq<u8> {
    seq![114u8, 101, 119, 97, 114, 100, 95, 99, 111, 110, 102, 105, 103]
}

impl RewardDistributorConfig {
    /// The space the account takes: an 8-byte discriminator, two addresses of 32 bytes
    /// and one 8-byte integer.
    pub const LEN: usize = 80;

    /// The first seed of a reward distributor's address, `"reward_config"`.
    pub fn seed_prefix() -> (r: Vec<u8>)
        ensures
            r@ == reward_config_seed_prefix(),
    {
        let r: Vec<u8> = vec![114u8, 101, 119, 97, 114, 100, 95, 99, 111, 110, 102, 105, 103];
        assert(r@ =~= reward_config_seed_prefix());
        r
    }
}

} // verus!
