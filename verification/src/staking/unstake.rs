use super::cpi::{stake_signer, stake_signer_seeds, DelegatedFreeze, Revoke, RevokeView};
use super::state::{StakeAccount, StakeConfig, UserAccount};
use crate::keys::Pubkey;
use vstd::prelude::*;

verus! {

/// Seconds in a day.
pub const SECONDS_PER_DAY: i64 = 86400;

/// Integer division rounded toward zero, as Rust's `/` on signed integers.
pub open spec fn trunc_div(x: int, d: int) -> int
    recommends
        d > 0,
{
    if x >= 0 {
        x / d
    } else {
        -((-x) / d)
    }
}

/// The days between `last_updated` and `now`, rounded toward zero and cut to
/// 32 bits as `as u32` does.
pub open spec fn elapsed_days(now: i64, last_updated: i64) -> u32 {
    trunc_div(now - last_updated, SECONDS_PER_DAY as int) as u32
}

/// Points earned by one NFT staked from `last_updated` to `now`.
pub open spec fn accrued_points(now: i64, last_updated: i64, points_per_stake: u8) -> int {
    elapsed_days(now, last_updated) * points_per_stake
}

/// When unstaking completes: the user stakes at least one NFT, the time
/// difference fits in `i64`, and the earned points fit in `u32`, alone and
/// added to the user's points. On other inputs the instruction panics.
pub open spec fn unstake_allowed(
    user: UserAccount,
    config: StakeConfig,
    last_updated: i64,
    now: i64,
) -> bool {
    &&& user.amount_staked >= 1
    &&& i64::MIN <= now - last_updated <= i64::MAX
    &&& accrued_points(now, last_updated, config.points_per_stake) <= u32::MAX
    &&& user.points + accrued_points(now, last_updated, config.points_per_stake) <= u32::MAX
}

/// A user account after unstaking one NFT staked since `last_updated`.
pub open spec fn unstaked_user(
    user: UserAccount,
    config: StakeConfig,
    last_updated: i64,
    now: i64,
) -> UserAccount {
    UserAccount {
        points: (user.points + accrued_points(now, last_updated, config.points_per_stake)) as u32,
        amount_staked: (user.amount_staked - 1) as u8,
        bump: user.bump,
    }
}

/// The accounts with which a user unstakes one NFT.
#[derive(Clone, Copy, Debug, PartialEq, Eq)]
pub struct Unstake {
    pub user: Pubkey,
    pub mint: Pubkey,
    pub mint_ata: Pubkey,
    pub edition: Pubkey,
    pub token_program: Pubkey,
    pub config_key: Pubkey,
    pub config: StakeConfig,
    pub user_account: UserAccount,
    pub stake_account_key: Pubkey,
    pub stake_account: StakeAccount,
}

/// The calls that unstaking makes: the stake account thaws the user's token
/// account, then, signing with its seeds, gives up its delegation.
#[derive(Clone, Debug, PartialEq, Eq)]
pub struct UnstakeCpis {
    pub thaw: DelegatedFreeze,
    pub revoke: Revoke,
}

impl Unstake {
    /// Unstakes the NFT at time `now`: one NFT less is staked, and the user
    /// earns `points_per_stake` points for each full day since the NFT was
    /// staked. Returns the calls that thaw the NFT and revoke the delegation.
    pub fn unstake(&mut self, now: i64) -> (cpis: UnstakeCpis)
        requires
            unstake_allowed(
                old(self).user_account,
                old(self).config,
                old(self).stake_account.last_updated,
                now,
            ),
        ensures
            *final(self) == (Unstake {
                user_account: unstaked_user(
                    old(self).user_account,
                    old(self).config,
                    old(self).stake_account.last_updated,
                    now,
                ),
                ..*old(self)
            }),
            cpis.thaw == (DelegatedFreeze {
                delegate: old(self).stake_account_key,
                token_account: old(self).mint_ata,
                edition: old(self).edition,
                mint: old(self).mint,
                token_program: old(self).token_program,
            }),
            cpis.revoke@ == (RevokeView {
                source: old(self).mint_ata,
                authority: old(self).stake_account_key,
                signer_seeds: stake_signer_seeds(
                    old(self).mint,
                    old(self).config_key,
                    old(self).stake_account.bump,
                ),
            }),
            cpis.revoke.source == old(self).mint_ata,
            cpis.revoke.authority == old(self).stake_account_key,
            cpis.revoke.signer_seeds.deep_view() == seq![
                seq![115u8, 116u8, 97u8, 107u8, 101u8],
                old(self).mint.0@,
                old(self).config_key.0@,
                seq![old(self).stake_account.bump],
            ],
            final(self).user_account.amount_staked == old(self).user_account.amount_staked - 1,
            final(self).user_account.bump == old(self).user_account.bump,
            final(self).user_account.points == old(self).user_account.points + accrued_points(
                now,
                old(self).stake_account.last_updated,
                old(self).config.points_per_stake,
            ),
            final(self).stake_account == old(self).stake_account,
            final(self).config == old(self).config,
    {
        let thaw = DelegatedFreeze {
            delegate: self.stake_account_key,
            token_account: self.mint_ata,
            edition: self.edition,
            mint: self.mint,
            token_program: self.token_program,
        };
        let seeds = stake_signer(&self.mint, &self.config_key, self.stake_account.bump);
        let revoke = Revoke {
            source: self.mint_ata,
            authority: self.stake_account_key,
            signer_seeds: seeds,
        };
        self.user_account.amount_staked -= 1;
        let time_elapsed: u32 = ((now - self.stake_account.last_updated) / SECONDS_PER_DAY) as u32;
        assert(time_elapsed == elapsed_days(now, self.stake_account.last_updated));
        self.user_account.points += time_elapsed * self.config.points_per_stake as u32;
        UnstakeCpis { thaw, revoke }
    }
}

} // verus!
