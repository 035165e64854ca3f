//! NFT staking: users stake NFTs of a verified collection, earn points for
//! each full day an NFT stays staked, and claim the points as reward tokens.

pub mod claim;
pub mod collection;
pub mod cpi;
pub mod init_config;
pub mod init_user_account;
pub mod laws;
pub mod stake;
pub mod state;
pub mod unstake;

use vstd::prelude::*;

verus! {

/// Errors raised by the staking program's own checks.
#[derive(Clone, Copy, Debug, PartialEq, Eq, Structural)]
pub enum ErrorCode {
    /// The user already stakes as many NFTs as the configuration allows.
    MaxStake,
}

} // verus!
