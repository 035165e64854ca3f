use super::cpi::{config_signer, config_signer_seeds, MintTo, MintToView};
use super::state::{StakeConfig, UserAccount};
use crate::keys::Pubkey;
use vstd::arithmetic::power::pow;
use vstd::prelude::*;

verus! {

/// Ten to the power `e`.
pub open spec fn pow10(e: nat) -> nat
    decreases e,
{
    if e == 0 {
        1
    } else {
        10 * pow10((e - 1) as nat)
    }
}

/// A power of ten grows with its exponent.
pub proof fn lemma_pow10_monotonic(a: nat, b: nat)
    requires
        a <= b,
    ensures
        pow10(a) <= pow10(b),
    decreases b,
{
    if a < b {
        lemma_pow10_monotonic(a, (b - 1) as nat);
    }
}

/// `pow10` is vstd's power of ten.
pub proof fn lemma_pow10_is_pow(e: nat)
    ensures
        pow10(e) == pow(10, e),
    decreases e,
{
    reveal(pow);
    if e > 0 {
        lemma_pow10_is_pow((e - 1) as nat);
    }
}

/// Computes ten to the power `exp`, as `10u64.pow(exp)` does.
pub fn pow10_u64(exp: u32) -> (r: u64)
    requires
        pow10(exp as nat) <= u64::MAX,
    ensures
        r == pow10(exp as nat),
        r == pow(10, exp as nat),
{
    proof {
        lemma_pow10_is_pow(exp as nat);
    }
    let mut r: u64 = 1;
    let mut i: u32 = 0;
    while i < exp
        invariant
            i <= exp,
            r == pow10(i as nat),
            pow10(exp as nat) <= u64::MAX,
        decreases exp - i,
    {
        proof {
            lemma_pow10_monotonic((i + 1) as nat, exp as nat);
        }
        r = r * 10;
        i = i + 1;
    }
    r
}

/// The reward tokens, in base units, for `points` points of a mint with
/// `decimals` decimals: one whole token per point.
pub open spec fn reward_amount(points: u32, decimals: u8) -> int {
    points * pow10(decimals as nat)
}

/// When a claim completes: `10^decimals` and the reward fit in `u64`. On
/// other inputs the instruction panics.
pub open spec fn claim_allowed(points: u32, decimals: u8) -> bool {
    &&& pow10(decimals as nat) <= u64::MAX
    &&& reward_amount(points, decimals) <= u64::MAX
}

/// The accounts with which a user claims reward tokens for the points earned.
#[derive(Clone, Copy, Debug, PartialEq, Eq)]
pub struct Claim {
    pub user: Pubkey,
    pub config_key: Pubkey,
    pub config: StakeConfig,
    pub user_account: UserAccount,
    pub rewards_mint: Pubkey,
    pub rewards_decimals: u8,
    pub rewards_ata: Pubkey,
}

impl Claim {
    /// Turns the user's points into reward tokens: one whole token per point
    /// is minted into the user's reward token account by the configuration
    /// account, signing with its seeds, and the points drop to zero.
    pub fn claim(&mut self) -> (m: MintTo)
        requires
            claim_allowed(old(self).user_account.points, old(self).rewards_decimals),
        ensures
            *final(self) == (Claim {
                user_account: UserAccount { points: 0, ..old(self).user_account },
                ..*old(self)
            }),
            m@ == (MintToView {
                mint: old(self).rewards_mint,
                to: old(self).rewards_ata,
                authority: old(self).config_key,
                amount: reward_amount(
                    old(self).user_account.points,
                    old(self).rewards_decimals,
                ) as u64,
                signer_seeds: config_signer_seeds(old(self).config.bump),
            }),
            m.amount == old(self).user_account.points * pow(10, old(self).rewards_decimals as nat),
            m.mint == old(self).rewards_mint,
            m.to == old(self).rewards_ata,
            m.authority == old(self).config_key,
            m.signer_seeds.deep_view() == seq![
                seq![99u8, 111u8, 110u8, 102u8, 105u8, 103u8],
                seq![old(self).config.bump],
            ],
            final(self).user_account.points == 0,
            final(self).user_account.amount_staked == old(self).user_account.amount_staked,
            final(self).user_account.bump == old(self).user_account.bump,
    {
        let seeds = config_signer(self.config.bump);
        let unit: u64 = pow10_u64(self.rewards_decimals as u32);
        let amount: u64 = self.user_account.points as u64 * unit;
        let m = MintTo {
            mint: self.rewards_mint,
            to: self.rewards_ata,
            authority: self.config_key,
            amount,
            signer_seeds: seeds,
        };
        self.user_account.points = 0;
        m
    }
}

} // verus!
