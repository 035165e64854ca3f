use super::cpi::{Approve, DelegatedFreeze};
use super::state::{StakeAccount, StakeConfig, UserAccount};
use super::ErrorCode;
use crate::keys::Pubkey;
use vstd::prelude::*;

verus! {

/// The bump seed found for the stake account's address.
#[derive(Clone, Copy, Debug, PartialEq, Eq, Structural)]
pub struct StakeBumps {
    pub stake_account: u8,
}

/// The accounts with which a user stakes one NFT of the collection.
#[derive(Clone, Copy, Debug, PartialEq, Eq)]
pub struct Stake {
    pub user: Pubkey,
    pub mint: Pubkey,
    pub mint_ata: Pubkey,
    pub edition: Pubkey,
    pub token_program: Pubkey,
    pub config: StakeConfig,
    pub user_account: UserAccount,
    pub stake_account_key: Pubkey,
    pub stake_account: StakeAccount,
}

/// The calls that staking makes: the stake account becomes the delegate of
/// the user's token account for the one NFT, then freezes it.
#[derive(Clone, Copy, Debug, PartialEq, Eq)]
pub struct StakeCpis {
    pub approve: Approve,
    pub freeze: DelegatedFreeze,
}

/// A user account after staking one more NFT, or `MaxStake` where the user
/// already stakes `max_stake` NFTs or more.
pub open spec fn stake_outcome(user: UserAccount, config: StakeConfig) -> Result<
    UserAccount,
    ErrorCode,
> {
    if user.amount_staked < config.max_stake {
        Ok(UserAccount { amount_staked: (user.amount_staked + 1) as u8, ..user })
    } else {
        Err(ErrorCode::MaxStake)
    }
}

impl Stake {
    /// The calls that stake the NFT.
    pub open spec fn cpis(self) -> StakeCpis {
        StakeCpis {
            approve: Approve {
                to: self.mint_ata,
                delegate: self.stake_account_key,
                authority: self.user,
                amount: 1,
            },
            freeze: DelegatedFreeze {
                delegate: self.stake_account_key,
                token_account: self.mint_ata,
                edition: self.edition,
                mint: self.mint,
                token_program: self.token_program,
            },
        }
    }

    /// Stakes the NFT at time `now`: records the stake account (its bump,
    /// `now`, the mint, the user), then counts one more staked NFT, unless
    /// the user already stakes `max_stake` of them. Returns the calls that
    /// delegate and freeze the NFT.
    pub fn stake(&mut self, bumps: &StakeBumps, now: i64) -> (r: Result<StakeCpis, ErrorCode>)
        ensures
            final(self).stake_account == (StakeAccount {
                mint: old(self).mint,
                owner: old(self).user,
                last_updated: now,
                bump: bumps.stake_account,
            }),
            *final(self) == (Stake {
                user_account: final(self).user_account,
                stake_account: final(self).stake_account,
                ..*old(self)
            }),
            match stake_outcome(old(self).user_account, old(self).config) {
                Ok(user) => final(self).user_account == user && r == Ok::<StakeCpis, ErrorCode>(
                    old(self).cpis(),
                ),
                Err(e) => final(self).user_account == old(self).user_account && r == Err::<
                    StakeCpis,
                    ErrorCode,
                >(e),
            },
            r matches Ok(c) ==> c.approve.amount == 1 && c.approve.to == old(self).mint_ata
                && c.approve.delegate == old(self).stake_account_key && c.approve.authority == old(
                self,
            ).user && c.freeze.delegate == old(self).stake_account_key && c.freeze.token_account
                == old(self).mint_ata && c.freeze.edition == old(self).edition && c.freeze.mint
                == old(self).mint && c.freeze.token_program == old(self).token_program,
            r is Ok <==> old(self).user_account.amount_staked < old(self).config.max_stake,
            r is Ok ==> final(self).user_account.amount_staked == old(
                self,
            ).user_account.amount_staked + 1,
            r is Err ==> r == Err::<StakeCpis, ErrorCode>(ErrorCode::MaxStake),
            final(self).user_account.points == old(self).user_account.points,
            final(self).user_account.bump == old(self).user_account.bump,
    {
        let cpis = StakeCpis {
            approve: Approve {
                to: self.mint_ata,
                delegate: self.stake_account_key,
                authority: self.user,
                amount: 1,
            },
            freeze: DelegatedFreeze {
                delegate: self.stake_account_key,
                token_account: self.mint_ata,
                edition: self.edition,
                mint: self.mint,
                token_program: self.token_program,
            },
        };
        self.stake_account = StakeAccount {
            bump: bumps.stake_account,
            last_updated: now,
            mint: self.mint,
            owner: self.user,
        };
        if !(self.user_account.amount_staked < self.config.max_stake) {
            return Err(ErrorCode::MaxStake);
        }
        self.user_account.amount_staked += 1;
        Ok(cpis)
    }
}

} // verus!
