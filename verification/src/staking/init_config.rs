use super::state::StakeConfig;
use super::ErrorCode;
use vstd::prelude::*;

verus! {

/// The bump seeds found for the configuration and the reward mint.
#[derive(Clone, Copy, Debug, PartialEq, Eq, Structural)]
pub struct InitializeConfigBumps {
    pub config: u8,
    pub rewards_mint: u8,
}

/// The accounts with which an admin sets up the staking configuration.
#[derive(Clone, Copy, Debug, PartialEq, Eq, Structural)]
pub struct InitializeConfig {
    pub config: StakeConfig,
}

impl InitializeConfig {
    /// Writes the configuration: points per staked NFT per day, the most NFTs
    /// a user may stake, the freeze period, and the two bumps.
    pub fn init_config(
        &mut self,
        points_per_stake: u8,
        max_stake: u8,
        freeze_period: u32,
        bumps: &InitializeConfigBumps,
    ) -> (r: Result<(), ErrorCode>)
        ensures
            r is Ok,
            final(self).config == (StakeConfig {
                points_per_stake,
                max_stake,
                freeze_period,
                rewards_bump: bumps.rewards_mint,
                bump: bumps.config,
            }),
    {
        self.config = StakeConfig {
            freeze_period,
            max_stake,
            points_per_stake,
            bump: bumps.config,
            rewards_bump: bumps.rewards_mint,
        };
        Ok(())
    }
}

} // verus!
