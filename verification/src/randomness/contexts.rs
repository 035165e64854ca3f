use super::bet::Bet;
use super::dice::{payout, roll_from_hash, roll_of, sha256, sha256_digest, u128_modulus};
use vstd::bytes::spec_u128_from_le_bytes;
use super::signature::{
    ed25519_program_id, ed25519_program_key, signed_bet_check, unpacked_view, Ed25519Signature, Instruction,
};
use super::{
    vault_signer, vault_signer_seeds, ErrorCode, ResolveError, Transfer, TransferView, HOUSE_EDGE,
};
use crate::keys::{bytes_eq, Pubkey};
use vstd::prelude::*;

verus! {

/// The accounts with which the house funds its vault.
#[derive(Clone, Copy, Debug, PartialEq, Eq)]
pub struct Initialize {
    pub house: Pubkey,
    pub vault: Pubkey,
}

impl Initialize {
    /// The transfer that funds the vault with `amount` lamports from the
    /// house, which signs itself.
    pub fn initialize(&mut self, amount: u64) -> (t: Transfer)
        ensures
            *final(self) == *old(self),
            t@ == (TransferView {
                from: old(self).house,
                to: old(self).vault,
                lamports: amount,
                signer_seeds: Seq::empty(),
            }),
            t.from == old(self).house,
            t.to == old(self).vault,
            t.lamports == amount,
            t.signer_seeds@.len() == 0,
    {
        let t = Transfer { from: self.house, to: self.vault, lamports: amount, signer_seeds: Vec::new() };
        assert(t.signer_seeds.deep_view() =~= Seq::<Seq<u8>>::empty());
        t
    }
}

/// The bump seeds found for the addresses of a placed bet.
#[derive(Clone, Copy, Debug, PartialEq, Eq, Structural)]
pub struct PlaceBetBumps {
    pub vault: u8,
    pub bet: u8,
}

/// The accounts with which a player places a bet.
#[derive(Clone, Copy, Debug, PartialEq, Eq)]
pub struct PlaceBet {
    pub player: Pubkey,
    pub house: Pubkey,
    pub vault: Pubkey,
    pub bet: Bet,
}

impl PlaceBet {
    /// Records the bet of the player: its seed, amount and roll, the bet
    /// account's bump, and the slot at which it was placed.
    pub fn create_bet(&mut self, seed: u64, amount: u64, roll: u8, bumps: &PlaceBetBumps, slot: u64)
        ensures
            final(self).bet == (Bet {
                player: old(self).player,
                seed,
                amount,
                roll,
                slot,
                bump: bumps.bet,
            }),
            final(self).player == old(self).player,
            final(self).house == old(self).house,
            final(self).vault == old(self).vault,
    {
        self.bet = Bet { amount, bump: bumps.bet, player: self.player, roll, seed, slot };
    }

    /// The transfer of the stake, `amount` lamports, from the player, who
    /// signs, into the house's vault.
    pub fn deposit(&mut self, amount: u64) -> (t: Transfer)
        ensures
            *final(self) == *old(self),
            t@ == (TransferView {
                from: old(self).player,
                to: old(self).vault,
                lamports: amount,
                signer_seeds: Seq::empty(),
            }),
            t.from == old(self).player,
            t.to == old(self).vault,
            t.lamports == amount,
            t.signer_seeds@.len() == 0,
    {
        let t = Transfer {
            from: self.player,
            to: self.vault,
            lamports: amount,
            signer_seeds: Vec::new(),
        };
        assert(t.signer_seeds.deep_view() =~= Seq::<Seq<u8>>::empty());
        t
    }
}

/// The bump seed found for the house vault's address.
#[derive(Clone, Copy, Debug, PartialEq, Eq, Structural)]
pub struct ResolveBetBumps {
    pub vault: u8,
}

/// The accounts with which the house settles a bet.
#[derive(Clone, Copy, Debug, PartialEq, Eq)]
pub struct ResolveBet {
    pub house: Pubkey,
    pub player: Pubkey,
    pub vault: Pubkey,
    pub bet: Bet,
}

impl ResolveBet {
    /// Checks that the transaction's first instruction `ix` is a call of the
    /// ed25519 program, naming no account, whose data holds exactly one
    /// signature: by the house, equal to `sig`, over the bet's message.
    /// `unpacked` is that instruction's data unpacked into its signature
    /// entries, or `None` where it could not be unpacked.
    pub fn verify_ed25519_signature(
        &mut self,
        ix: &Instruction,
        unpacked: &Option<Vec<Ed25519Signature>>,
        sig: &[u8],
    ) -> (r: Result<(), ResolveError>)
        ensures
            *final(self) == *old(self),
            r == signed_bet_check(
                old(self).house,
                old(self).bet.message(),
                ix.program_id,
                ix.accounts@.len(),
                unpacked_view(*unpacked),
                sig@,
            ),
            r is Ok <==> {
                &&& ix.program_id == ed25519_program_id()
                &&& ix.accounts@.len() == 0
                &&& unpacked is Some
                &&& unpacked->Some_0@.len() == 1
                &&& unpacked->Some_0@[0].public_key == Some(old(self).house)
                &&& unpacked->Some_0@[0].signature is Some
                &&& unpacked->Some_0@[0].signature->Some_0@ == sig@
                &&& unpacked->Some_0@[0].message is Some
                &&& unpacked->Some_0@[0].message->Some_0@ == old(self).bet.message()
            },
            r == Err::<(), ResolveError>(ResolveError::InvalidInstructionData) <==> (
            ix.program_id == ed25519_program_id() && ix.accounts@.len() == 0 && unpacked is None),
            r is Err ==> r == Err::<(), ResolveError>(ResolveError::InvalidInstructionData) || r
                == Err::<(), ResolveError>(ResolveError::Code(ErrorCode::SomeError)),
    {
        let program = ed25519_program_key();
        if !ix.program_id.key_eq(&program) {
            return Err(ResolveError::Code(ErrorCode::SomeError));
        }
        if ix.accounts.len() != 0 {
            return Err(ResolveError::Code(ErrorCode::SomeError));
        }
        let signatures = match unpacked {
            Some(v) => v,
            None => {
                return Err(ResolveError::InvalidInstructionData);
            },
        };
        let ghost entries = signatures@.map_values(|s: Ed25519Signature| s@);
        assert(unpacked_view(*unpacked) == Some(entries));
        if signatures.len() != 1 {
            return Err(ResolveError::Code(ErrorCode::SomeError));
        }
        let signature = &signatures[0];
        assert(entries[0] == signature@);
        match &signature.public_key {
            Some(k) => {
                if !k.key_eq(&self.house) {
                    return Err(ResolveError::Code(ErrorCode::SomeError));
                }
            },
            None => {
                return Err(ResolveError::Code(ErrorCode::SomeError));
            },
        }
        match &signature.signature {
            Some(s) => {
                if !bytes_eq(s, sig) {
                    return Err(ResolveError::Code(ErrorCode::SomeError));
                }
            },
            None => {
                return Err(ResolveError::Code(ErrorCode::SomeError));
            },
        }
        let message = self.bet.to_slice();
        match &signature.message {
            Some(m) => {
                if !bytes_eq(m.as_slice(), message.as_slice()) {
                    return Err(ResolveError::Code(ErrorCode::SomeError));
                }
            },
            None => {
                return Err(ResolveError::Code(ErrorCode::SomeError));
            },
        }
        Ok(())
    }

    /// Settles the bet with the house's signature `sig`: the roll is decided
    /// by the SHA-256 digest of `sig`. A bet on a roll above it wins, and the
    /// vault, signing with its seeds, pays the player
    /// `amount * (10000 - HOUSE_EDGE) / (bet roll - 1) / 100` lamports, cut to
    /// 64 bits; otherwise nothing is paid.
    pub fn resolve_bet(&mut self, bumps: &ResolveBetBumps, sig: &[u8]) -> (r: Result<
        Option<Transfer>,
        ErrorCode,
    >)
        ensures
            *final(self) == *old(self),
            r matches Ok(paid) && (paid is Some <==> old(self).bet.roll > roll_of(
                sha256_digest(sig@),
            )),
            r matches Ok(Some(t)) ==> t@ == (TransferView {
                from: old(self).vault,
                to: old(self).player,
                lamports: payout(old(self).bet.amount, old(self).bet.roll) as u64,
                signer_seeds: vault_signer_seeds(old(self).house, bumps.vault),
            }),
            r matches Ok(paid) && (paid is Some <==> old(self).bet.roll as int > (
            spec_u128_from_le_bytes(sha256_digest(sig@).subrange(0, 16))
                + spec_u128_from_le_bytes(sha256_digest(sig@).subrange(16, 32))) % u128_modulus()
                % 100 + 1),
            r matches Ok(Some(t)) ==> t.from == old(self).vault && t.to == old(self).player
                && t.lamports == (old(self).bet.amount * 9850 / (old(self).bet.roll - 1) / 100) as u64
                && t.signer_seeds.deep_view() == seq![
                seq![118u8, 97u8, 117u8, 108u8, 116u8],
                old(self).house.0@,
                seq![bumps.vault],
            ],
    {
        let hash: [u8; 32] = sha256(sig);
        let roll: u8 = roll_from_hash(&hash);
        if self.bet.roll > roll {
            let amount: u128 = self.bet.amount as u128;
            assert(amount * (10000 - HOUSE_EDGE) <= u128::MAX) by (nonlinear_arith)
                requires
                    amount <= u64::MAX,
            ;
            let scaled: u128 = match amount.checked_mul(10000 - HOUSE_EDGE as u128) {
                Some(v) => v,
                None => {
                    return Err(ErrorCode::SomeError);
                },
            };
            let per_roll: u128 = match scaled.checked_div(self.bet.roll as u128 - 1) {
                Some(v) => v,
                None => {
                    return Err(ErrorCode::SomeError);
                },
            };
            let payment: u128 = match per_roll.checked_div(100) {
                Some(v) => v,
                None => {
                    return Err(ErrorCode::SomeError);
                },
            };
            let seeds = vault_signer(&self.house, bumps.vault);
            let t = Transfer {
                from: self.vault,
                to: self.player,
                lamports: payment as u64,
                signer_seeds: seeds,
            };
            return Ok(Some(t));
        }
        Ok(None)
    }
}

} // verus!
