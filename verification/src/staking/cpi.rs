//! The calls into other programs that staking instructions make, as values.

use crate::keys::{append_bytes, Pubkey};
use vstd::prelude::*;

verus! {

/// A token-program approval: `delegate` may move `amount` tokens of `to`.
#[derive(Clone, Copy, Debug, PartialEq, Eq)]
pub struct Approve {
    pub to: Pubkey,
    pub delegate: Pubkey,
    pub authority: Pubkey,
    pub amount: u64,
}

/// The accounts of a metadata-program call that freezes or thaws a token
/// account through its delegate.
#[derive(Clone, Copy, Debug, PartialEq, Eq)]
pub struct DelegatedFreeze {
    pub delegate: Pubkey,
    pub token_account: Pubkey,
    pub edition: Pubkey,
    pub mint: Pubkey,
    pub token_program: Pubkey,
}

/// A token-program revocation of the delegate of `source`, signed by the
/// program-derived `authority` with `signer_seeds`.
#[derive(Clone, Debug, PartialEq, Eq)]
pub struct Revoke {
    pub source: Pubkey,
    pub authority: Pubkey,
    pub signer_seeds: Vec<Vec<u8>>,
}

/// What a [`Revoke`] says, as plain values.
pub struct RevokeView {
    pub source: Pubkey,
    pub authority: Pubkey,
    pub signer_seeds: Seq<Seq<u8>>,
}

impl View for Revoke {
    type V = RevokeView;

    open spec fn view(&self) -> RevokeView {
        RevokeView {
            source: self.source,
            authority: self.authority,
            signer_seeds: self.signer_seeds.deep_view(),
        }
    }
}

/// A token-program mint of `amount` tokens of `mint` into `to`, signed by
/// the program-derived `authority` with `signer_seeds`.
#[derive(Clone, Debug, PartialEq, Eq)]
pub struct MintTo {
    pub mint: Pubkey,
    pub to: Pubkey,
    pub authority: Pubkey,
    pub amount: u64,
    pub signer_seeds: Vec<Vec<u8>>,
}

/// What a [`MintTo`] says, as plain values.
pub struct MintToView {
    pub mint: Pubkey,
    pub to: Pubkey,
    pub authority: Pubkey,
    pub amount: u64,
    pub signer_seeds: Seq<Seq<u8>>,
}

impl View for MintTo {
    type V = MintToView;

    open spec fn view(&self) -> MintToView {
        MintToView {
            mint: self.mint,
            to: self.to,
            authority: self.authority,
            amount: self.amount,
            signer_seeds: self.signer_seeds.deep_view(),
        }
    }
}

/// The bytes of `"config"`.
pub open spec fn config_seed() -> Seq<u8> {
    seq![99u8, 111u8, 110u8, 102u8, 105u8, 103u8]
}

/// The bytes of `"stake"`.
pub open spec fn stake_seed() -> Seq<u8> {
    seq![115u8, 116u8, 97u8, 107u8, 101u8]
}

/// The seeds with which the configuration account signs.
pub open spec fn config_signer_seeds(bump: u8) -> Seq<Seq<u8>> {
    seq![config_seed(), seq![bump]]
}

/// The seeds with which a stake account signs: `"stake"`, the NFT's mint,
/// the configuration's address, the bump.
pub open spec fn stake_signer_seeds(mint: Pubkey, config: Pubkey, bump: u8) -> Seq<Seq<u8>> {
    seq![stake_seed(), mint.0@, config.0@, seq![bump]]
}

/// Builds the configuration account's signer seeds.
pub fn config_signer(bump: u8) -> (seeds: Vec<Vec<u8>>)
    ensures
        seeds.deep_view() == config_signer_seeds(bump),
        seeds.deep_view() == seq![seq![99u8, 111u8, 110u8, 102u8, 105u8, 103u8], seq![bump]],
{
    let prefix: Vec<u8> = vec![99u8, 111u8, 110u8, 102u8, 105u8, 103u8];
    let bump_seed: Vec<u8> = vec![bump];
    assert(prefix.deep_view() =~= config_seed());
    assert(bump_seed.deep_view() =~= seq![bump]);
    let seeds = vec![prefix, bump_seed];
    assert(seeds.deep_view() =~= config_signer_seeds(bump));
    seeds
}

/// Builds a stake account's signer seeds.
pub fn stake_signer(mint: &Pubkey, config: &Pubkey, bump: u8) -> (seeds: Vec<Vec<u8>>)
    ensures
        seeds.deep_view() == stake_signer_seeds(*mint, *config, bump),
        seeds.deep_view() == seq![
            seq![115u8, 116u8, 97u8, 107u8, 101u8],
            mint.0@,
            config.0@,
            seq![bump],
        ],
{
    let prefix: Vec<u8> = vec![115u8, 116u8, 97u8, 107u8, 101u8];
    let mut mint_seed: Vec<u8> = Vec::new();
    append_bytes(&mut mint_seed, &mint.0);
    let mut config_seed_bytes: Vec<u8> = Vec::new();
    append_bytes(&mut config_seed_bytes, &config.0);
    let bump_seed: Vec<u8> = vec![bump];
    assert(prefix.deep_view() =~= stake_seed());
    assert(mint_seed.deep_view() =~= mint.0@);
    assert(config_seed_bytes.deep_view() =~= config.0@);
    assert(bump_seed.deep_view() =~= seq![bump]);
    let seeds = vec![prefix, mint_seed, config_seed_bytes, bump_seed];
    assert(seeds.deep_view() =~= stake_signer_seeds(*mint, *config, bump));
    seeds
}

} // verus!
