//! Properties that hold across the staking instructions.

use super::claim::{claim_allowed, lemma_pow10_is_pow, pow10, reward_amount};
use super::cpi::{config_signer_seeds, stake_signer_seeds};
use super::stake::{stake_outcome, Stake};
use super::state::{StakeConfig, UserAccount};
use super::unstake::{
    accrued_points, elapsed_days, trunc_div, unstake_allowed, unstaked_user, SECONDS_PER_DAY,
};
use super::ErrorCode;
use crate::keys::Pubkey;
use vstd::arithmetic::power::pow;
use vstd::prelude::*;

verus! {

/// Staking succeeds exactly when the user stakes fewer than `max_stake`
/// NFTs, and then counts exactly one more staked NFT.
pub proof fn lemma_stake_succeeds_below_max(user: UserAccount, config: StakeConfig)
    ensures
        stake_outcome(user, config) is Ok <==> user.amount_staked < config.max_stake,
        stake_outcome(user, config) == Err::<UserAccount, ErrorCode>(ErrorCode::MaxStake)
            <==> user.amount_staked >= config.max_stake,
        stake_outcome(user, config) matches Ok(after) ==> after.amount_staked
            == user.amount_staked + 1 && after.points == user.points && after.bump == user.bump,
{
}

/// No user ever stakes more than `max_stake` NFTs: staking and unstaking
/// both keep `amount_staked <= max_stake`.
pub proof fn lemma_max_stake_kept(
    user: UserAccount,
    config: StakeConfig,
    last_updated: i64,
    now: i64,
)
    requires
        user.amount_staked <= config.max_stake,
    ensures
        stake_outcome(user, config) matches Ok(after) ==> after.amount_staked <= config.max_stake,
        unstake_allowed(user, config, last_updated, now) ==> unstaked_user(
            user,
            config,
            last_updated,
            now,
        ).amount_staked <= config.max_stake,
{
}

/// Unstaking undoes staking's count: after staking one NFT and unstaking it,
/// the user stakes as many NFTs as before and has gained the points earned
/// in between.
pub proof fn lemma_stake_then_unstake(
    user: UserAccount,
    config: StakeConfig,
    last_updated: i64,
    now: i64,
)
    requires
        stake_outcome(user, config) is Ok,
        unstake_allowed(stake_outcome(user, config)->Ok_0, config, last_updated, now),
    ensures
        unstaked_user(stake_outcome(user, config)->Ok_0, config, last_updated, now).amount_staked
            == user.amount_staked,
        unstaked_user(stake_outcome(user, config)->Ok_0, config, last_updated, now).points
            == user.points + accrued_points(now, last_updated, config.points_per_stake),
{
}

/// Points accrue per full day: an NFT staked for `days` full days and less
/// than one more day earns `days * points_per_stake` points; so less than a
/// day earns nothing.
pub proof fn lemma_points_per_full_day(now: i64, last_updated: i64, points_per_stake: u8, days: u32)
    requires
        days * SECONDS_PER_DAY <= now - last_updated < (days + 1) * SECONDS_PER_DAY,
    ensures
        accrued_points(now, last_updated, points_per_stake) == days * points_per_stake,
{
    let diff: int = now - last_updated;
    assert(diff / 86400 == days as int) by (nonlinear_arith)
        requires
            days * 86400 <= diff < (days + 1) * 86400,
    ;
}

/// A claim leaves no points behind: a second claim right after the first is
/// allowed wherever tokens of that mint can be counted, and mints nothing.
pub proof fn lemma_claim_twice_mints_nothing(user: UserAccount, decimals: u8)
    requires
        pow10(decimals as nat) <= u64::MAX,
    ensures
        claim_allowed(UserAccount { points: 0, ..user }.points, decimals),
        reward_amount(UserAccount { points: 0, ..user }.points, decimals) == 0,
{
}

/// One whole reward token per point: the reward for `points` points of a
/// mint with `decimals` decimals is `points * 10^decimals` base units, for
/// every number of points.
pub proof fn lemma_reward_one_token_per_point(points: u32, decimals: u8)
    ensures
        reward_amount(points, decimals) == points * pow(10, decimals as nat),
        pow(10, decimals as nat) > 0,
        reward_amount(points, decimals) / pow(10, decimals as nat) == points,
{
    lemma_pow10_is_pow(decimals as nat);
    vstd::arithmetic::power::lemma_pow_positive(10, decimals as nat);
    let u = pow(10, decimals as nat);
    assert((points * u) / u == points) by (nonlinear_arith)
        requires
            u > 0,
    ;
}

/// Rewards add up: the reward for `p + q` points is the reward for `p`
/// points plus the reward for `q` points, so no point is lost or counted
/// twice however the points are split between claims.
pub proof fn lemma_rewards_add(p: u32, q: u32, decimals: u8)
    requires
        p + q <= u32::MAX,
    ensures
        reward_amount((p + q) as u32, decimals) == reward_amount(p, decimals) + reward_amount(
            q,
            decimals,
        ),
{
    lemma_reward_one_token_per_point(p, decimals);
    lemma_reward_one_token_per_point(q, decimals);
    lemma_reward_one_token_per_point((p + q) as u32, decimals);
    let u = pow(10, decimals as nat);
    assert((p + q) * u == p * u + q * u) by (nonlinear_arith);
}

/// Staking delegates exactly the one NFT: the approval is for one token of
/// the user's token account, to the stake account, by the user, and the
/// freeze acts on that token account through the stake account.
pub proof fn lemma_stake_approves_one_token(s: Stake)
    ensures
        s.cpis().approve.amount == 1,
        s.cpis().approve.to == s.mint_ata,
        s.cpis().approve.delegate == s.stake_account_key,
        s.cpis().approve.authority == s.user,
        s.cpis().freeze.delegate == s.stake_account_key,
        s.cpis().freeze.token_account == s.mint_ata,
        s.cpis().freeze.mint == s.mint,
        s.cpis().freeze.edition == s.edition,
        s.cpis().freeze.token_program == s.token_program,
{
}

/// A stake account signs with `"stake"`, then the 32 bytes of the mint and
/// of the configuration in order, then its bump; different mints,
/// configurations or bumps give different seeds.
pub proof fn lemma_stake_seeds_name_keys(
    mint: Pubkey,
    config: Pubkey,
    bump: u8,
    mint2: Pubkey,
    config2: Pubkey,
    bump2: u8,
)
    ensures
        stake_signer_seeds(mint, config, bump).len() == 4,
        stake_signer_seeds(mint, config, bump)[0] == seq![115u8, 116u8, 97u8, 107u8, 101u8],
        forall|i: int|
            0 <= i < 32 ==> stake_signer_seeds(mint, config, bump)[1][i] == mint.0[i]
                && stake_signer_seeds(mint, config, bump)[2][i] == config.0[i],
        stake_signer_seeds(mint, config, bump)[1].len() == 32,
        stake_signer_seeds(mint, config, bump)[2].len() == 32,
        stake_signer_seeds(mint, config, bump)[3] == seq![bump],
        stake_signer_seeds(mint, config, bump) == stake_signer_seeds(mint2, config2, bump2) ==> (
        mint == mint2 && config == config2 && bump == bump2),
{
    if stake_signer_seeds(mint, config, bump) == stake_signer_seeds(mint2, config2, bump2) {
        let a = stake_signer_seeds(mint, config, bump);
        let b = stake_signer_seeds(mint2, config2, bump2);
        assert(a[1] == b[1]);
        assert(a[2] == b[2]);
        assert(a[3] == b[3]);
        assert(mint.0@ =~= mint2.0@);
        assert(mint.0 == mint2.0);
        assert(config.0@ =~= config2.0@);
        assert(config.0 == config2.0);
        assert(a[3][0] == bump);
        assert(b[3][0] == bump2);
    }
}

/// The configuration account signs with `"config"` and its bump.
pub proof fn lemma_config_seeds(bump: u8)
    ensures
        config_signer_seeds(bump) == seq![
            seq![99u8, 111u8, 110u8, 102u8, 105u8, 103u8],
            seq![bump],
        ],
{
}

/// Unstaking one NFT: one NFT fewer is staked and the points earned are
/// added, the bump is kept.
pub proof fn lemma_unstake_effect(
    user: UserAccount,
    config: StakeConfig,
    last_updated: i64,
    now: i64,
)
    requires
        unstake_allowed(user, config, last_updated, now),
    ensures
        unstaked_user(user, config, last_updated, now).amount_staked == user.amount_staked - 1,
        unstaked_user(user, config, last_updated, now).points == user.points + accrued_points(
            now,
            last_updated,
            config.points_per_stake,
        ),
        unstaked_user(user, config, last_updated, now).bump == user.bump,
{
}

/// Time before the recorded staking time rounds toward zero: `days` full
/// days earlier, and less than one more, counts as `-days` days, which the
/// 32-bit cut turns into `2^32 - days` (zero when `days` is zero).
pub proof fn lemma_days_before_staking(now: i64, last_updated: i64, days: u32)
    requires
        -((days + 1) * SECONDS_PER_DAY) < now - last_updated <= -(days * SECONDS_PER_DAY),
    ensures
        elapsed_days(now, last_updated) == (if days == 0 {
            0
        } else {
            0x1_0000_0000 - days
        }),
{
    let diff: int = now - last_updated;
    assert((-diff) / 86400 == days as int) by (nonlinear_arith)
        requires
            days * 86400 <= -diff < (days + 1) * 86400,
    ;
    assert(trunc_div(diff, 86400) == -(days as int));
    let qi: i64 = (-(days as int)) as i64;
    assert(qi as u32 == (if days == 0 {
        0u32
    } else {
        (0x1_0000_0000u64 - days as u64) as u32
    })) by (bit_vector)
        requires
            qi == (0i64 - days as i64) as i64,
    ;
    assert(trunc_div(diff, 86400) == qi as int);
}

} // verus!
