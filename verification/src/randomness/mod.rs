//! A dice game: a player places a bet on a roll, the house signs the bet
//! with ed25519, and the signature's SHA-256 digest decides the roll.

pub mod bet;
pub mod contexts;
pub mod dice;
pub mod signature;

use crate::keys::Pubkey;
use vstd::prelude::*;

verus! {

/// The house's share of each payout, in basis points.
pub const HOUSE_EDGE: u16 = 150;

/// Errors raised by the game's own checks.
#[derive(Clone, Copy, Debug, PartialEq, Eq, Structural)]
pub enum ErrorCode {
    SomeError,
}

/// Errors of settling a bet: a failed check, or instruction data that the
/// ed25519 instruction layout could not be read from.
#[derive(Clone, Copy, Debug, PartialEq, Eq, Structural)]
pub enum ResolveError {
    Code(ErrorCode),
    InvalidInstructionData,
}

/// The seed prefix of the house vault's address: the bytes of `"vault"`.
pub open spec fn vault_seed() -> Seq<u8> {
    seq![118u8, 97u8, 117u8, 108u8, 116u8]
}

/// The seeds with which the vault signs: `"vault"`, the house, the bump.
pub open spec fn vault_signer_seeds(house: Pubkey, bump: u8) -> Seq<Seq<u8>> {
    seq![vault_seed(), house.0@, seq![bump]]
}

/// A transfer of lamports through the system program.
#[derive(Clone, Debug, PartialEq, Eq)]
pub struct Transfer {
    pub from: Pubkey,
    pub to: Pubkey,
    pub lamports: u64,
    /// Seeds of the program-derived address that signs; empty when the
    /// sender signs the transaction itself.
    pub signer_seeds: Vec<Vec<u8>>,
}

/// What a [`Transfer`] says, as plain values.
pub struct TransferView {
    pub from: Pubkey,
    pub to: Pubkey,
    pub lamports: u64,
    pub signer_seeds: Seq<Seq<u8>>,
}

impl View for Transfer {
    type V = TransferView;

    open spec fn view(&self) -> TransferView {
        TransferView {
            from: self.from,
            to: self.to,
            lamports: self.lamports,
            signer_seeds: self.signer_seeds.deep_view(),
        }
    }
}

/// The vault's signer seeds, built for a transfer.
pub fn vault_signer(house: &Pubkey, bump: u8) -> (seeds: Vec<Vec<u8>>)
    ensures
        seeds.deep_view() == vault_signer_seeds(*house, bump),
        seeds.deep_view() == seq![seq![118u8, 97u8, 117u8, 108u8, 116u8], house.0@, seq![bump]],
{
    let prefix: Vec<u8> = vec![118u8, 97u8, 117u8, 108u8, 116u8];
    let mut key: Vec<u8> = Vec::new();
    crate::keys::append_bytes(&mut key, &house.0);
    let bump_seed: Vec<u8> = vec![bump];
    assert(prefix.deep_view() =~= vault_seed());
    assert(key.deep_view() =~= house.0@);
    assert(bump_seed.deep_view() =~= seq![bump]);
    let seeds = vec![prefix, key, bump_seed];
    assert(seeds.deep_view() =~= vault_signer_seeds(*house, bump));
    seeds
}

/// The vault signs with `"vault"`, then the house's 32 bytes in order, then
/// its bump; different houses or bumps give different seeds.
pub proof fn lemma_vault_seeds_name_house(house: Pubkey, bump: u8, house2: Pubkey, bump2: u8)
    ensures
        vault_signer_seeds(house, bump).len() == 3,
        vault_signer_seeds(house, bump)[0] == seq![118u8, 97u8, 117u8, 108u8, 116u8],
        vault_signer_seeds(house, bump)[1].len() == 32,
        forall|i: int| 0 <= i < 32 ==> vault_signer_seeds(house, bump)[1][i] == house.0[i],
        vault_signer_seeds(house, bump)[2] == seq![bump],
        vault_signer_seeds(house, bump) == vault_signer_seeds(house2, bump2) ==> house == house2
            && bump == bump2,
{
    if vault_signer_seeds(house, bump) == vault_signer_seeds(house2, bump2) {
        let a = vault_signer_seeds(house, bump);
        let b = vault_signer_seeds(house2, bump2);
        assert(a[1] == b[1]);
        assert(a[2] == b[2]);
        assert(house.0@ =~= house2.0@);
        assert(house.0 == house2.0);
        assert(a[2][0] == bump);
        assert(b[2][0] == bump2);
    }
}

} // verus!
