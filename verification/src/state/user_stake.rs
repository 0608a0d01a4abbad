use vstd::prelude::*;

use crate::pubkey::Pubkey;

verus! {

/// One user's stake in one pool, stored at the address derived from `"user_stake"`,
/// the user and the stake token mint.
#[derive(Clone, Copy, Debug)]
pub struct UserStake {
    pub owner: Pubkey,
    pub pool_config: Pubkey,
    pub stake_token_vault: Pubkey,
    /// When the lockup began (Unix time, seconds).
    pub start_time: u64,
    /// When the lockup ends (Unix time, seconds).
    pub end_time: u64,
    /// The weight multiplier of the stake, in basis points (1x is `BIPS`).
    pub weight_multiplier: u64,
}

/// The bytes of `"user_stake"`, the first seed of a stake's address.
pub open spec fn user_stake_seed_prefix() -> Seq<u8> {
    seq![117u8, 115, 101, 114, 95, 115, 116, 97, 107, 101]
}

impl UserStake {
    /// The space the account takes: an 8-byte discriminator, three addresses of 32 bytes
    /// and three 8-byte integers.
    pub const LEN: usize = 128;

    /// The first seed of a stake's address, `"user_stake"`.
    pub fn seed_prefix() -> (r: Vec<u8>)
        ensures
            r@ == user_stake_seed_prefix(),
    {
        let r: Vec<u8> = vec![117u8, 115, 101, 114, 95, 115, 116, 97, 107, 101];
        assert(r@ =~= user_stake_seed_prefix());
        r
    }
}

} // verus!
