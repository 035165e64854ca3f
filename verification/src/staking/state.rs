use crate::keys::Pubkey;
use vstd::prelude::*;

verus! {

/// The program-wide staking configuration.
#[derive(Clone, Copy, Debug, PartialEq, Eq, Structural)]
pub struct StakeConfig {
    pub points_per_stake: u8,
    pub max_stake: u8,
    pub freeze_period: u32,
    pub rewards_bump: u8,
    pub bump: u8,
}

impl StakeConfig {
    /// Bytes that the account takes, past the 8-byte discriminator.
    pub const INIT_SPACE: usize = 8;
}

/// A user's points and the number of NFTs the user stakes.
#[derive(Clone, Copy, Debug, PartialEq, Eq, Structural)]
pub struct UserAccount {
    pub points: u32,
    pub amount_staked: u8,
    pub bump: u8,
}

impl UserAccount {
    /// Bytes that the account takes, past the 8-byte discriminator.
    pub const INIT_SPACE: usize = 6;
}

/// One staked NFT: its mint, its owner, and when it was staked.
#[derive(Clone, Copy, Debug, PartialEq, Eq)]
pub struct StakeAccount {
    pub mint: Pubkey,
    pub owner: Pubkey,
    pub last_updated: i64,
    pub bump: u8,
}

impl StakeAccount {
    /// Bytes that the account takes, past the 8-byte discriminator.
    pub const INIT_SPACE: usize = 73;
}

} // verus!
