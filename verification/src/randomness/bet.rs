use crate::keys::{append_bytes, Pubkey};
use vstd::bytes::{spec_u64_to_le_bytes, u64_to_le_bytes};
use vstd::prelude::*;

verus! {

/// A placed bet, as stored in its account.
#[derive(Clone, Copy, Debug, PartialEq, Eq)]
pub struct Bet {
    pub player: Pubkey,
    pub seed: u64,
    pub amount: u64,
    pub roll: u8,
    pub slot: u64,
    pub bump: u8,
}

impl Bet {
    /// Bytes that a bet takes in its account, past the 8-byte discriminator.
    pub const INIT_SPACE: usize = 58;

    /// The bytes that the house signs for this bet: the player's address,
    /// then seed, amount, roll, slot and bump, integers in little-endian.
    pub open spec fn message(self) -> Seq<u8> {
        self.player.0@ + spec_u64_to_le_bytes(self.seed) + spec_u64_to_le_bytes(self.amount) + seq![
            self.roll,
        ] + spec_u64_to_le_bytes(self.slot) + seq![self.bump]
    }

    /// Serialises the bet into the message that the house signs.
    pub fn to_slice(&self) -> (s: Vec<u8>)
        ensures
            s@ == self.message(),
    {
        let mut s: Vec<u8> = Vec::new();
        append_bytes(&mut s, &self.player.0);
        let seed = u64_to_le_bytes(self.seed);
        append_bytes(&mut s, seed.as_slice());
        let amount = u64_to_le_bytes(self.amount);
        append_bytes(&mut s, amount.as_slice());
        s.push(self.roll);
        let slot = u64_to_le_bytes(self.slot);
        append_bytes(&mut s, slot.as_slice());
        s.push(self.bump);
        assert(s@ =~= self.message());
        s
    }
}

/// The signed message of a bet is exactly as long as the bet's account space.
pub proof fn lemma_message_len(bet: Bet)
    ensures
        bet.message().len() == Bet::INIT_SPACE,
{
    vstd::bytes::lemma_auto_spec_u64_to_from_le_bytes();
}

/// Two bets with the same signed message are the same bet: a signature over
/// the message binds every field of the bet.
pub proof fn lemma_message_injective(a: Bet, b: Bet)
    requires
        a.message() == b.message(),
    ensures
        a == b,
{
    vstd::bytes::lemma_auto_spec_u64_to_from_le_bytes();
    let m = a.message();
    let n = b.message();
    assert(m.subrange(0, 32) =~= a.player.0@);
    assert(n.subrange(0, 32) =~= b.player.0@);
    assert(a.player.0@ =~= b.player.0@);
    assert(a.player.0 == b.player.0);
    assert(m.subrange(32, 40) =~= spec_u64_to_le_bytes(a.seed));
    assert(n.subrange(32, 40) =~= spec_u64_to_le_bytes(b.seed));
    assert(m.subrange(40, 48) =~= spec_u64_to_le_bytes(a.amount));
    assert(n.subrange(40, 48) =~= spec_u64_to_le_bytes(b.amount));
    assert(m[48] == a.roll);
    assert(n[48] == b.roll);
    assert(m.subrange(49, 57) =~= spec_u64_to_le_bytes(a.slot));
    assert(n.subrange(49, 57) =~= spec_u64_to_le_bytes(b.slot));
    assert(m[57] == a.bump);
    assert(n[57] == b.bump);
    assert(vstd::bytes::spec_u64_from_le_bytes(spec_u64_to_le_bytes(a.seed)) == a.seed);
    assert(vstd::bytes::spec_u64_from_le_bytes(spec_u64_to_le_bytes(b.seed)) == b.seed);
    assert(vstd::bytes::spec_u64_from_le_bytes(spec_u64_to_le_bytes(a.amount)) == a.amount);
    assert(vstd::bytes::spec_u64_from_le_bytes(spec_u64_to_le_bytes(b.amount)) == b.amount);
    assert(vstd::bytes::spec_u64_from_le_bytes(spec_u64_to_le_bytes(a.slot)) == a.slot);
    assert(vstd::bytes::spec_u64_from_le_bytes(spec_u64_to_le_bytes(b.slot)) == b.slot);
}

/// The signed message reads back as the bet: the player's 32 bytes, then
/// seed, amount, roll, slot and bump at fixed places, the integers in
/// little-endian.
pub proof fn lemma_message_decodes(bet: Bet)
    ensures
        bet.message().len() == 58,
        bet.message().subrange(0, 32) == bet.player.0@,
        vstd::bytes::spec_u64_from_le_bytes(bet.message().subrange(32, 40)) == bet.seed,
        vstd::bytes::spec_u64_from_le_bytes(bet.message().subrange(40, 48)) == bet.amount,
        bet.message()[48] == bet.roll,
        vstd::bytes::spec_u64_from_le_bytes(bet.message().subrange(49, 57)) == bet.slot,
        bet.message()[57] == bet.bump,
{
    vstd::bytes::lemma_auto_spec_u64_to_from_le_bytes();
    let m = bet.message();
    assert(m.subrange(0, 32) =~= bet.player.0@);
    assert(m.subrange(32, 40) =~= spec_u64_to_le_bytes(bet.seed));
    assert(m.subrange(40, 48) =~= spec_u64_to_le_bytes(bet.amount));
    assert(m.subrange(49, 57) =~= spec_u64_to_le_bytes(bet.slot));
}

} // verus!
