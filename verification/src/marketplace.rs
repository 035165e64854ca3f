//! The accounts of an NFT marketplace.

use crate::keys::Pubkey;
use vstd::prelude::*;

verus! {

/// An NFT offered for sale: who offers it, its mint, and its price.
#[derive(Clone, Copy, Debug, PartialEq, Eq)]
pub struct Listing {
    pub maker: Pubkey,
    pub mint: Pubkey,
    pub price: u64,
    pub bump: u8,
}

impl Listing {
    /// Bytes that the account takes, past the 8-byte discriminator.
    pub const INIT_SPACE: usize = 73;
}

/// A marketplace: its admin, its fee, the bumps of its reward mint, its
/// treasury and itself, and its name of at most 50 bytes.
#[derive(Clone, Debug, PartialEq, Eq)]
pub struct Marketplace {
    pub admin: Pubkey,
    pub fee: u16,
    pub rewards_bump: u8,
    pub treasury_bump: u8,
    pub name: String,
    pub bump: u8,
}

impl Marketplace {
    /// Bytes that the account takes, past the 8-byte discriminator, with
    /// room for a name of `NAME_MAX_LEN` bytes.
    pub const INIT_SPACE: usize = 91;

    /// The longest name that the account has room for, in bytes.
    pub const NAME_MAX_LEN: usize = 50;
}

} // verus!
