//! Verified instruction logic of three Solana programs: an NFT staking
//! program, a dice game settled by an ed25519-signed house roll, and the
//! account layout of a marketplace.

pub mod keys;
pub mod marketplace;
pub mod randomness;
pub mod staking;
