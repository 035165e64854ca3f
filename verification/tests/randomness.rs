use programs::keys::Pubkey;
use programs::randomness::bet::Bet;
use programs::randomness::contexts::{
    Initialize, PlaceBet, PlaceBetBumps, ResolveBet, ResolveBetBumps,
};
use programs::randomness::dice::roll_from_hash;
use programs::randomness::signature::{
    ed25519_program_key, AccountMeta, Ed25519Signature, Instruction,
};
use programs::randomness::{vault_signer, ErrorCode, ResolveError, HOUSE_EDGE};

fn rkey(b: u8) -> Pubkey {
    Pubkey([b; 32])
}

fn sample_bet() -> Bet {
    Bet {
        player: rkey(7),
        seed: 0x0102030405060708,
        amount: 1_000_000,
        roll: 60,
        slot: 42,
        bump: 254,
    }
}

fn resolver(bet: Bet) -> ResolveBet {
    ResolveBet { house: rkey(1), player: rkey(7), vault: rkey(9), bet }
}

fn vault_seeds(house: &Pubkey, bump: u8) -> Vec<Vec<u8>> {
    vec![b"vault".to_vec(), house.0.to_vec(), vec![bump]]
}

#[test]
fn to_slice_lays_out_fields_little_endian() {
    let bet = sample_bet();
    let s = bet.to_slice();
    let mut expected = vec![7u8; 32];
    expected.extend_from_slice(&[8, 7, 6, 5, 4, 3, 2, 1]);
    expected.extend_from_slice(&1_000_000u64.to_le_bytes());
    expected.push(60);
    expected.extend_from_slice(&[42, 0, 0, 0, 0, 0, 0, 0]);
    expected.push(254);
    assert_eq!(s, expected);
    assert_eq!(s.len(), Bet::INIT_SPACE);
}

#[test]
fn to_slice_differs_for_different_bets() {
    let a = sample_bet();
    let mut b = sample_bet();
    b.slot = 43;
    assert_ne!(a.to_slice(), b.to_slice());
}

#[test]
fn ed25519_program_key_is_the_native_program() {
    assert_eq!(
        ed25519_program_key().0,
        anchor_lang::solana_program::ed25519_program::ID.to_bytes()
    );
}

#[test]
fn roll_from_known_digest() {
    // SHA-256 of "abc".
    let h: [u8; 32] = [
        0xba, 0x78, 0x16, 0xbf, 0x8f, 0x01, 0xcf, 0xea, 0x41, 0x41, 0x40, 0xde, 0x5d, 0xae, 0x22,
        0x23, 0xb0, 0x03, 0x61, 0xa3, 0x96, 0x17, 0x7a, 0x9c, 0xb4, 0x10, 0xff, 0x61, 0xf2, 0x00,
        0x15, 0xad,
    ];
    assert_eq!(roll_from_hash(&h), 51);
}

#[test]
fn roll_of_zero_and_full_digests() {
    assert_eq!(roll_from_hash(&[0u8; 32]), 1);
    // (2^128 - 1) + (2^128 - 1) wraps to 2^128 - 2; modulo 100 that is 54.
    assert_eq!(roll_from_hash(&[0xffu8; 32]), 55);
}

#[test]
fn resolve_bet_pays_when_bet_roll_is_above_roll() {
    // The roll for the signature "abc" is 51; a bet on 60 wins.
    let mut r = resolver(sample_bet());
    let before = r;
    let paid = r.resolve_bet(&ResolveBetBumps { vault: 250 }, b"abc").unwrap();
    let t = paid.expect("a winning bet is paid");
    assert_eq!(t.from, rkey(9));
    assert_eq!(t.to, rkey(7));
    assert_eq!(t.lamports, 1_000_000 * (10_000 - HOUSE_EDGE as u64) / 59 / 100);
    assert_eq!(t.lamports, 1_669_491);
    assert_eq!(t.signer_seeds, vault_seeds(&rkey(1), 250));
    assert_eq!(r, before);
}

#[test]
fn resolve_bet_pays_nothing_when_bet_roll_is_not_above_roll() {
    let mut bet = sample_bet();
    bet.roll = 51;
    let mut r = resolver(bet);
    assert_eq!(r.resolve_bet(&ResolveBetBumps { vault: 250 }, b"abc"), Ok(None));
    bet.roll = 52;
    let mut r = resolver(bet);
    assert!(r.resolve_bet(&ResolveBetBumps { vault: 250 }, b"abc").unwrap().is_some());
}

#[test]
fn resolve_bet_with_a_64_byte_signature() {
    // The roll for the bytes 0, 1, ..., 63 is 10.
    let sig: Vec<u8> = (0u8..64).collect();
    let mut bet = sample_bet();
    bet.roll = 10;
    assert_eq!(resolver(bet).resolve_bet(&ResolveBetBumps { vault: 1 }, &sig), Ok(None));
    bet.roll = 11;
    bet.amount = 500;
    let t = resolver(bet).resolve_bet(&ResolveBetBumps { vault: 1 }, &sig).unwrap().unwrap();
    assert_eq!(t.lamports, 500 * 9850 / 10 / 100);
}

#[test]
fn resolve_bet_cuts_large_payouts_to_64_bits() {
    let mut bet = sample_bet();
    bet.amount = u64::MAX;
    bet.roll = 2;
    // Every roll is at least 1, so a bet on 2 wins when the roll is 1; the
    // bet on 255 wins against any roll.
    bet.roll = 255;
    let t = resolver(bet).resolve_bet(&ResolveBetBumps { vault: 0 }, b"abc").unwrap().unwrap();
    let full: u128 = (u64::MAX as u128) * 9850 / 254 / 100;
    assert_eq!(t.lamports, full as u64);
    bet.roll = 101;
    let t = resolver(bet).resolve_bet(&ResolveBetBumps { vault: 0 }, b"abc").unwrap().unwrap();
    let full: u128 = (u64::MAX as u128) * 9850 / 100 / 100;
    assert_eq!(t.lamports, full as u64);
}

fn good_instruction() -> Instruction {
    Instruction { program_id: ed25519_program_key(), accounts: vec![] }
}

fn good_signature(bet: &Bet, sig: &[u8; 64]) -> Ed25519Signature {
    Ed25519Signature {
        public_key: Some(rkey(1)),
        signature: Some(*sig),
        message: Some(bet.to_slice()),
    }
}

#[test]
fn verify_accepts_the_house_signature_over_the_bet() {
    let bet = sample_bet();
    let sig = [5u8; 64];
    let mut r = resolver(bet);
    let entries = Some(vec![good_signature(&bet, &sig)]);
    assert_eq!(r.verify_ed25519_signature(&good_instruction(), &entries, &sig), Ok(()));
}

#[test]
fn verify_rejects_another_program() {
    let bet = sample_bet();
    let sig = [5u8; 64];
    let mut r = resolver(bet);
    let entries = Some(vec![good_signature(&bet, &sig)]);
    let ix = Instruction { program_id: rkey(3), accounts: vec![] };
    assert_eq!(
        r.verify_ed25519_signature(&ix, &entries, &sig),
        Err(ResolveError::Code(ErrorCode::SomeError))
    );
}

#[test]
fn verify_rejects_an_instruction_with_accounts() {
    let bet = sample_bet();
    let sig = [5u8; 64];
    let mut r = resolver(bet);
    let entries = Some(vec![good_signature(&bet, &sig)]);
    let ix = Instruction {
        program_id: ed25519_program_key(),
        accounts: vec![AccountMeta { pubkey: rkey(1), is_signer: false, is_writable: false }],
    };
    assert_eq!(
        r.verify_ed25519_signature(&ix, &entries, &sig),
        Err(ResolveError::Code(ErrorCode::SomeError))
    );
}

#[test]
fn verify_reports_unreadable_instruction_data() {
    let mut r = resolver(sample_bet());
    assert_eq!(
        r.verify_ed25519_signature(&good_instruction(), &None, &[5u8; 64]),
        Err(ResolveError::InvalidInstructionData)
    );
}

#[test]
fn verify_checks_the_program_before_the_data() {
    let mut r = resolver(sample_bet());
    let ix = Instruction { program_id: rkey(3), accounts: vec![] };
    assert_eq!(
        r.verify_ed25519_signature(&ix, &None, &[5u8; 64]),
        Err(ResolveError::Code(ErrorCode::SomeError))
    );
}

#[test]
fn verify_rejects_zero_or_two_signatures() {
    let bet = sample_bet();
    let sig = [5u8; 64];
    let mut r = resolver(bet);
    let none = Some(vec![]);
    assert_eq!(
        r.verify_ed25519_signature(&good_instruction(), &none, &sig),
        Err(ResolveError::Code(ErrorCode::SomeError))
    );
    let two = Some(vec![good_signature(&bet, &sig), good_signature(&bet, &sig)]);
    assert_eq!(
        r.verify_ed25519_signature(&good_instruction(), &two, &sig),
        Err(ResolveError::Code(ErrorCode::SomeError))
    );
}

#[test]
fn verify_rejects_wrong_or_missing_parts() {
    let bet = sample_bet();
    let sig = [5u8; 64];
    let mut r = resolver(bet);
    let err = Err(ResolveError::Code(ErrorCode::SomeError));

    let mut e = good_signature(&bet, &sig);
    e.public_key = Some(rkey(2));
    assert_eq!(r.verify_ed25519_signature(&good_instruction(), &Some(vec![e]), &sig), err);
    let mut e = good_signature(&bet, &sig);
    e.public_key = None;
    assert_eq!(r.verify_ed25519_signature(&good_instruction(), &Some(vec![e]), &sig), err);

    let mut e = good_signature(&bet, &sig);
    e.signature = Some([6u8; 64]);
    assert_eq!(r.verify_ed25519_signature(&good_instruction(), &Some(vec![e]), &sig), err);
    let mut e = good_signature(&bet, &sig);
    e.signature = None;
    assert_eq!(r.verify_ed25519_signature(&good_instruction(), &Some(vec![e]), &sig), err);
    let e = good_signature(&bet, &sig);
    assert_eq!(
        r.verify_ed25519_signature(&good_instruction(), &Some(vec![e]), &sig[..63]),
        err
    );

    let mut other = bet;
    other.amount += 1;
    let mut e = good_signature(&bet, &sig);
    e.message = Some(other.to_slice());
    assert_eq!(r.verify_ed25519_signature(&good_instruction(), &Some(vec![e]), &sig), err);
    let mut e = good_signature(&bet, &sig);
    e.message = None;
    assert_eq!(r.verify_ed25519_signature(&good_instruction(), &Some(vec![e]), &sig), err);
}

#[test]
fn create_bet_records_the_bet() {
    let mut p = PlaceBet {
        player: rkey(7),
        house: rkey(1),
        vault: rkey(9),
        bet: Bet { player: rkey(0), seed: 0, amount: 0, roll: 0, slot: 0, bump: 0 },
    };
    p.create_bet(11, 2_000, 50, &PlaceBetBumps { vault: 3, bet: 4 }, 777);
    assert_eq!(
        p.bet,
        Bet { player: rkey(7), seed: 11, amount: 2_000, roll: 50, slot: 777, bump: 4 }
    );
    assert_eq!(p.player, rkey(7));
}

#[test]
fn deposit_moves_the_stake_into_the_vault() {
    let mut p = PlaceBet { player: rkey(7), house: rkey(1), vault: rkey(9), bet: sample_bet() };
    let t = p.deposit(2_000);
    assert_eq!(t.from, rkey(7));
    assert_eq!(t.to, rkey(9));
    assert_eq!(t.lamports, 2_000);
    assert!(t.signer_seeds.is_empty());
}

#[test]
fn initialize_funds_the_vault_from_the_house() {
    let mut i = Initialize { house: rkey(1), vault: rkey(9) };
    let t = i.initialize(10_000);
    assert_eq!(t.from, rkey(1));
    assert_eq!(t.to, rkey(9));
    assert_eq!(t.lamports, 10_000);
    assert!(t.signer_seeds.is_empty());
}

#[test]
fn vault_signer_seeds_are_vault_house_bump() {
    assert_eq!(vault_signer(&rkey(1), 17), vault_seeds(&rkey(1), 17));
}

#[test]
fn house_edge_on_concrete_bets() {
    // A bet on 51 wins on 50 rolls; paying 1_000_000 * 9850 / 50 / 100 each
    // time, it returns 98.5% of the stake over the hundred rolls.
    let amount: u64 = 1_000_000;
    for bet_roll in 2u64..=101 {
        let pay = amount * 9850 / (bet_roll - 1) / 100;
        assert!(pay * (bet_roll - 1) * 100 <= amount * 9850);
    }
}

#[test]
fn a_bet_on_r_wins_on_r_minus_one_rolls() {
    // A digest whose low half is x and high half is zero rolls x + 1, so the
    // digests for x = 0..100 give every roll once.
    let rolls: Vec<u8> = (0u8..100)
        .map(|x| {
            let mut h = [0u8; 32];
            h[0] = x;
            roll_from_hash(&h)
        })
        .collect();
    let mut sorted = rolls.clone();
    sorted.sort();
    assert_eq!(sorted, (1u8..=100).collect::<Vec<u8>>());
    for bet_roll in 1u8..=101 {
        let wins = rolls.iter().filter(|&&r| bet_roll > r).count();
        assert_eq!(wins, bet_roll as usize - 1);
    }
}
