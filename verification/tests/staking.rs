use programs::keys::Pubkey;
use programs::staking::claim::{pow10_u64, Claim};
use programs::staking::collection::{stake_collection_ok, unstake_collection_ok, Collection};
use programs::staking::cpi::{config_signer, stake_signer};
use programs::staking::init_config::{InitializeConfig, InitializeConfigBumps};
use programs::staking::init_user_account::{InitUserAccount, InitUserAccountBumps};
use programs::staking::stake::{Stake, StakeBumps};
use programs::staking::state::{StakeAccount, StakeConfig, UserAccount};
use programs::staking::unstake::Unstake;
use programs::staking::ErrorCode;

fn skey(b: u8) -> Pubkey {
    Pubkey([b; 32])
}

fn config(points_per_stake: u8, max_stake: u8) -> StakeConfig {
    StakeConfig { points_per_stake, max_stake, freeze_period: 0, rewards_bump: 2, bump: 3 }
}

fn blank_stake_account() -> StakeAccount {
    StakeAccount { mint: skey(0), owner: skey(0), last_updated: 0, bump: 0 }
}

fn staker(user_account: UserAccount, config: StakeConfig) -> Stake {
    Stake {
        user: skey(1),
        mint: skey(2),
        mint_ata: skey(3),
        edition: skey(4),
        token_program: skey(5),
        config,
        user_account,
        stake_account_key: skey(6),
        stake_account: blank_stake_account(),
    }
}

fn unstaker(user_account: UserAccount, config: StakeConfig, last_updated: i64) -> Unstake {
    Unstake {
        user: skey(1),
        mint: skey(2),
        mint_ata: skey(3),
        edition: skey(4),
        token_program: skey(5),
        config_key: skey(8),
        config,
        user_account,
        stake_account_key: skey(6),
        stake_account: StakeAccount { mint: skey(2), owner: skey(1), last_updated, bump: 251 },
    }
}

#[test]
fn init_config_writes_every_field() {
    let mut c = InitializeConfig { config: config(0, 0) };
    let r = c.init_config(10, 5, 3600, &InitializeConfigBumps { config: 254, rewards_mint: 253 });
    assert_eq!(r, Ok(()));
    assert_eq!(
        c.config,
        StakeConfig {
            points_per_stake: 10,
            max_stake: 5,
            freeze_period: 3600,
            rewards_bump: 253,
            bump: 254
        }
    );
}

#[test]
fn init_user_account_starts_empty() {
    let mut u = InitUserAccount { user_account: UserAccount { points: 9, amount_staked: 9, bump: 9 } };
    assert_eq!(u.init_user_account(&InitUserAccountBumps { user_account: 200 }), Ok(()));
    assert_eq!(u.user_account, UserAccount { points: 0, amount_staked: 0, bump: 200 });
}

#[test]
fn stake_counts_one_more_nft_and_freezes_it() {
    let mut s = staker(UserAccount { points: 4, amount_staked: 1, bump: 7 }, config(10, 2));
    let cpis = s.stake(&StakeBumps { stake_account: 250 }, 1_700_000_000).unwrap();
    assert_eq!(s.user_account, UserAccount { points: 4, amount_staked: 2, bump: 7 });
    assert_eq!(
        s.stake_account,
        StakeAccount { mint: skey(2), owner: skey(1), last_updated: 1_700_000_000, bump: 250 }
    );
    assert_eq!(cpis.approve.amount, 1);
    assert_eq!(cpis.approve.to, skey(3));
    assert_eq!(cpis.approve.delegate, skey(6));
    assert_eq!(cpis.approve.authority, skey(1));
    assert_eq!(cpis.freeze.delegate, skey(6));
    assert_eq!(cpis.freeze.token_account, skey(3));
    assert_eq!(cpis.freeze.edition, skey(4));
    assert_eq!(cpis.freeze.mint, skey(2));
    assert_eq!(cpis.freeze.token_program, skey(5));
}

#[test]
fn stake_refuses_beyond_max_stake() {
    let mut s = staker(UserAccount { points: 4, amount_staked: 2, bump: 7 }, config(10, 2));
    let r = s.stake(&StakeBumps { stake_account: 250 }, 5);
    assert_eq!(r.unwrap_err(), ErrorCode::MaxStake);
    assert_eq!(s.user_account, UserAccount { points: 4, amount_staked: 2, bump: 7 });
    let mut s = staker(UserAccount { points: 0, amount_staked: 0, bump: 0 }, config(10, 0));
    assert_eq!(s.stake(&StakeBumps { stake_account: 1 }, 5).unwrap_err(), ErrorCode::MaxStake);
}

#[test]
fn unstake_earns_points_per_full_day() {
    let mut u = unstaker(UserAccount { points: 5, amount_staked: 2, bump: 7 }, config(10, 3), 1_000);
    let cpis = u.unstake(1_000 + 3 * 86_400 + 86_399);
    assert_eq!(u.user_account, UserAccount { points: 35, amount_staked: 1, bump: 7 });
    assert_eq!(cpis.thaw.delegate, skey(6));
    assert_eq!(cpis.thaw.token_account, skey(3));
    assert_eq!(cpis.revoke.source, skey(3));
    assert_eq!(cpis.revoke.authority, skey(6));
    assert_eq!(
        cpis.revoke.signer_seeds,
        vec![b"stake".to_vec(), skey(2).0.to_vec(), skey(8).0.to_vec(), vec![251]]
    );
}

#[test]
fn unstake_within_a_day_earns_nothing() {
    let mut u = unstaker(UserAccount { points: 5, amount_staked: 1, bump: 7 }, config(10, 3), 1_000);
    u.unstake(1_000 + 86_399);
    assert_eq!(u.user_account, UserAccount { points: 5, amount_staked: 0, bump: 7 });
}

#[test]
fn unstake_before_staking_time_rounds_toward_zero() {
    // Half a day before the recorded time: -0.5 days round to 0.
    let mut u = unstaker(UserAccount { points: 5, amount_staked: 1, bump: 7 }, config(10, 3), 100_000);
    u.unstake(100_000 - 43_200);
    assert_eq!(u.user_account.points, 5);
}

#[test]
fn stake_then_unstake_restores_the_count() {
    let before = UserAccount { points: 0, amount_staked: 0, bump: 7 };
    let mut s = staker(before, config(3, 1));
    s.stake(&StakeBumps { stake_account: 250 }, 0).unwrap();
    let mut u = unstaker(s.user_account, s.config, s.stake_account.last_updated);
    u.unstake(2 * 86_400);
    assert_eq!(u.user_account.amount_staked, before.amount_staked);
    assert_eq!(u.user_account.points, 6);
}

fn claimer(points: u32, decimals: u8) -> Claim {
    Claim {
        user: skey(1),
        config_key: skey(8),
        config: config(10, 3),
        user_account: UserAccount { points, amount_staked: 1, bump: 7 },
        rewards_mint: skey(11),
        rewards_decimals: decimals,
        rewards_ata: skey(12),
    }
}

#[test]
fn claim_mints_one_token_per_point_and_resets_points() {
    let mut c = claimer(35, 6);
    let m = c.claim();
    assert_eq!(m.amount, 35_000_000);
    assert_eq!(m.mint, skey(11));
    assert_eq!(m.to, skey(12));
    assert_eq!(m.authority, skey(8));
    assert_eq!(m.signer_seeds, vec![b"config".to_vec(), vec![3]]);
    assert_eq!(c.user_account, UserAccount { points: 0, amount_staked: 1, bump: 7 });
}

#[test]
fn claim_twice_mints_nothing_the_second_time() {
    let mut c = claimer(35, 6);
    c.claim();
    let m = c.claim();
    assert_eq!(m.amount, 0);
}

#[test]
fn claim_with_zero_decimals() {
    let mut c = claimer(4, 0);
    assert_eq!(c.claim().amount, 4);
}

#[test]
fn pow10_values() {
    assert_eq!(pow10_u64(0), 1);
    assert_eq!(pow10_u64(6), 1_000_000);
    assert_eq!(pow10_u64(19), 10_000_000_000_000_000_000);
}

#[test]
fn signer_seed_builders() {
    assert_eq!(config_signer(9), vec![b"config".to_vec(), vec![9]]);
    assert_eq!(
        stake_signer(&skey(2), &skey(8), 1),
        vec![b"stake".to_vec(), vec![2; 32], vec![8; 32], vec![1]]
    );
}

#[test]
fn only_verified_members_of_the_collection_may_be_staked() {
    let ok = Some(Collection { verified: true, key: skey(20) });
    assert!(stake_collection_ok(&ok, &skey(20)));
    assert!(!stake_collection_ok(&ok, &skey(21)));
    let unverified = Some(Collection { verified: false, key: skey(20) });
    assert!(!stake_collection_ok(&unverified, &skey(20)));
    assert!(unstake_collection_ok(&ok));
    assert!(!unstake_collection_ok(&unverified));
}
