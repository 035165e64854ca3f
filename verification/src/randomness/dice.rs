use super::HOUSE_EDGE;
use vstd::bytes::{spec_u128_from_le_bytes, u128_from_le_bytes};
use vstd::prelude::*;

verus! {

/// The digest that `anchor_lang::solana_program::hash::hash` gives for the
/// bytes `data` (SHA-256).
pub uninterp spec fn sha256_digest(data: Seq<u8>) -> Seq<u8>;

/// Calls `anchor_lang::solana_program::hash::hash` on `data` and returns the
/// 32 bytes of the digest. Claimed: the result is the named digest of `data`,
/// the same for the same bytes; nothing is claimed of which bytes it is.
#[verifier::external_body]
pub(crate) fn sha256(data: &[u8]) -> (h: [u8; 32])
    ensures
        h@ == sha256_digest(data@),
{
    anchor_lang::solana_program::hash::hash(data).to_bytes()
}

/// 2 to the 128th: the modulus of wrapping `u128` arithmetic.
pub open spec fn u128_modulus() -> int {
    0x1_0000_0000_0000_0000_0000_0000_0000_0000int
}

/// The roll that a 32-byte digest decides: its two little-endian 128-bit
/// halves, added with wrap-around, taken modulo 100, plus one.
pub open spec fn roll_of(hash: Seq<u8>) -> u8 {
    let lower = spec_u128_from_le_bytes(hash.subrange(0, 16));
    let upper = spec_u128_from_le_bytes(hash.subrange(16, 32));
    (((lower + upper) % u128_modulus()) % 100 + 1) as u8
}

/// Computes the roll from a digest; it lies between 1 and 100.
pub fn roll_from_hash(hash: &[u8; 32]) -> (roll: u8)
    ensures
        roll == roll_of(hash@),
        1 <= roll <= 100,
        roll as int == (spec_u128_from_le_bytes(hash@.subrange(0, 16)) + spec_u128_from_le_bytes(
            hash@.subrange(16, 32),
        )) % u128_modulus() % 100 + 1,
{
    let lo: &[u8] = &hash[0..16];
    let hi: &[u8] = &hash[16..32];
    let lower: u128 = u128_from_le_bytes(lo);
    let upper: u128 = u128_from_le_bytes(hi);
    let sum: u128 = lower.wrapping_add(upper);
    assert(sum as int == (lower + upper) % u128_modulus());
    let r: u128 = sum % 100;
    (r as u8) + 1
}

/// What a winning bet of `amount` lamports on `bet_roll` pays:
/// `amount * (10000 - HOUSE_EDGE) / (bet_roll - 1) / 100`, rounded down.
pub open spec fn payout(amount: u64, bet_roll: u8) -> int
    recommends
        bet_roll >= 2,
{
    amount * (10000 - HOUSE_EDGE) / (bet_roll - 1) / 100
}

/// The house edge: a winning bet on `bet_roll` wins on `bet_roll - 1` of the
/// hundred rolls, and the payout times that count, over a hundred, never
/// exceeds the stake less `HOUSE_EDGE` basis points.
pub proof fn lemma_house_edge(amount: u64, bet_roll: u8)
    requires
        bet_roll >= 2,
    ensures
        payout(amount, bet_roll) * (bet_roll - 1) * 100 <= amount * (10000 - HOUSE_EDGE),
        payout(amount, bet_roll) >= 0,
{
    let a: int = amount * (10000 - HOUSE_EDGE);
    let d: int = bet_roll - 1;
    let q: int = a / d;
    let p: int = q / 100;
    assert(a >= 0);
    assert(d >= 1);
    assert(q * d <= a) by (nonlinear_arith)
        requires
            q == a / d,
            d >= 1,
            a >= 0,
    ;
    assert(p * 100 <= q) by (nonlinear_arith)
        requires
            p == q / 100,
            q >= 0,
    ;
    assert(q >= 0) by (nonlinear_arith)
        requires
            q == a / d,
            d >= 1,
            a >= 0,
    ;
    assert(p >= 0) by (nonlinear_arith)
        requires
            p == q / 100,
            q >= 0,
    ;
    assert(p * d * 100 <= q * d) by (nonlinear_arith)
        requires
            p * 100 <= q,
            d >= 1,
    ;
}

/// The rolls on which a bet on `bet_roll` wins: those below it.
pub open spec fn winning_rolls(bet_roll: u8) -> Set<int> {
    Set::new(|x: int| 1 <= x <= 100 && bet_roll > x)
}

/// A bet on a roll between 1 and 101 wins on exactly `bet_roll - 1` of the
/// hundred possible rolls.
pub proof fn lemma_winning_rolls(bet_roll: u8)
    requires
        1 <= bet_roll <= 101,
    ensures
        winning_rolls(bet_roll).finite(),
        winning_rolls(bet_roll).len() == bet_roll - 1,
{
    vstd::set_lib::lemma_int_range(1, bet_roll as int);
    assert(winning_rolls(bet_roll) =~= vstd::set_lib::set_int_range(1, bet_roll as int));
}

/// The roll of a digest whose high half is zero and whose low half is
/// `x < 100` is `x + 1`; and raising the low half by 100, without wrapping,
/// leaves the roll unchanged.
pub proof fn lemma_roll_of_low_half(hash: Seq<u8>, hash2: Seq<u8>)
    ensures
        spec_u128_from_le_bytes(hash.subrange(16, 32)) == 0 && spec_u128_from_le_bytes(
            hash.subrange(0, 16),
        ) < 100 ==> roll_of(hash) == spec_u128_from_le_bytes(hash.subrange(0, 16)) + 1,
        spec_u128_from_le_bytes(hash2.subrange(16, 32)) == spec_u128_from_le_bytes(
            hash.subrange(16, 32),
        ) && spec_u128_from_le_bytes(hash2.subrange(0, 16)) == spec_u128_from_le_bytes(
            hash.subrange(0, 16),
        ) + 100 && spec_u128_from_le_bytes(hash2.subrange(0, 16)) + spec_u128_from_le_bytes(
            hash2.subrange(16, 32),
        ) < u128_modulus() ==> roll_of(hash2) == roll_of(hash),
        1 <= roll_of(hash) <= 100,
{
}

/// The payout is the stake times `10000 - HOUSE_EDGE`, divided by
/// `100 * (bet_roll - 1)` and rounded down: the largest whole number of
/// lamports whose `100 * (bet_roll - 1)` multiple does not exceed it.
pub proof fn lemma_payout_is_rounded_share(amount: u64, bet_roll: u8)
    requires
        bet_roll >= 2,
    ensures
        payout(amount, bet_roll) * (100 * (bet_roll - 1)) <= amount * (10000 - HOUSE_EDGE),
        amount * (10000 - HOUSE_EDGE) < (payout(amount, bet_roll) + 1) * (100 * (bet_roll - 1)),
        payout(amount, bet_roll) == amount * (10000 - HOUSE_EDGE) / (100 * (bet_roll - 1)),
{
    let a: int = amount * (10000 - HOUSE_EDGE);
    let d: int = bet_roll - 1;
    vstd::arithmetic::div_mod::lemma_div_denominator(a, d, 100);
    assert(a / d / 100 == a / (d * 100));
    assert(d * 100 == 100 * d);
    let p: int = a / (100 * d);
    assert(p * (100 * d) <= a && a < (p + 1) * (100 * d)) by (nonlinear_arith)
        requires
            p == a / (100 * d),
            d >= 1,
            a >= 0,
    ;
}

} // verus!
