//! The weighted winner selection and the fee splitter on concrete values,
//! including an exhaustive draw count against the expected proportions, and
//! the oracle account parsing against real serialized accounts.

use jackpot_smart_contract::errors::ContractError;
use jackpot_smart_contract::gameground::{DepositInfo, GameGround};
use jackpot_smart_contract::misc::{current_state, get_account_data};
use jackpot_smart_contract::pubkey::Pubkey;
use jackpot_smart_contract::utils::bps_mul;

use anchor_lang::AccountSerialize;
use orao_solana_vrf::state::Randomness;

fn key(b: u8) -> Pubkey {
    Pubkey { bytes: [b; 32] }
}

fn round_of(entries: &[(u8, u64)]) -> GameGround {
    let list: Vec<DepositInfo> = entries
        .iter()
        .map(|(b, amount)| DepositInfo {
            user: key(*b),
            amount: *amount,
        })
        .collect();
    let total: u64 = list.iter().map(|d| d.amount).sum();
    GameGround {
        creator: key(1),
        game_round: 0,
        create_date: 0,
        start_date: 10,
        end_date: 20,
        round_time: 10,
        total_deposit: total,
        rand: 0,
        winner: Pubkey::zeroed(),
        user_count: list.len() as u64,
        min_deposit_amount: 1,
        max_joiner_count: 16,
        force: [0u8; 32],
        is_completed: false,
        is_claimed: false,
        deposit_list: list,
    }
}

#[test]
fn weighted_walk_picks_second_entrant_for_250_of_400() {
    // entries 100 and 300, total 400; R = 250 leaves r = 250, the first
    // entry consumes 100 leaving 150, and 150 < 300 selects the second.
    let mut round = round_of(&[(10, 100), (11, 300)]);
    round.set_winner(250).unwrap();
    assert_eq!(round.rand, 250);
    assert_eq!(round.winner.bytes, key(11).bytes);
}

#[test]
fn weighted_walk_reduces_draw_modulo_total() {
    // R = 650, total 400: the draw wraps to 250 and selects the second entry
    let mut round = round_of(&[(10, 100), (11, 300)]);
    round.set_winner(650).unwrap();
    assert_eq!(round.winner.bytes, key(11).bytes);
}

#[test]
fn weighted_walk_boundaries() {
    let mut round = round_of(&[(10, 100), (11, 300)]);
    round.set_winner(0).unwrap();
    assert_eq!(round.winner.bytes, key(10).bytes);

    let mut round = round_of(&[(10, 100), (11, 300)]);
    round.set_winner(99).unwrap();
    assert_eq!(round.winner.bytes, key(10).bytes);

    let mut round = round_of(&[(10, 100), (11, 300)]);
    round.set_winner(100).unwrap();
    assert_eq!(round.winner.bytes, key(11).bytes);

    let mut round = round_of(&[(10, 100), (11, 300)]);
    round.set_winner(399).unwrap();
    assert_eq!(round.winner.bytes, key(11).bytes);
}

#[test]
fn selection_frequency_equals_deposit_share() {
    // every draw in [0, total) lands in exactly one participant's window, so
    // the exact selection counts equal the deposit amounts
    let entries: [(u8, u64); 3] = [(10, 100), (11, 300), (12, 25)];
    let total: u64 = entries.iter().map(|(_, a)| a).sum();
    let mut counts = [0u64; 3];
    for r in 0..total {
        let mut round = round_of(&entries);
        round.set_winner(r).unwrap();
        for (i, (b, _)) in entries.iter().enumerate() {
            if round.winner.bytes == key(*b).bytes {
                counts[i] += 1;
            }
        }
    }
    assert_eq!(counts, [100, 300, 25]);
}

#[test]
fn set_winner_rejects_an_empty_round() {
    let mut round = round_of(&[]);
    let r = round.set_winner(5);
    assert_eq!(r.unwrap_err(), ContractError::InvalidAmount);
    assert!(!round.is_completed);
    assert_eq!(round.winner.bytes, [0u8; 32]);
}

#[test]
fn fee_split_examples() {
    // 500 bps of 1000: fee 50, applied 950
    assert_eq!(bps_mul(500, 1_000, 10_000), Some(50));
    assert_eq!(1_000 - 50, 950);

    assert_eq!(bps_mul(0, 1_000, 10_000), Some(0));
    assert_eq!(bps_mul(10_000, 7, 10_000), Some(7));
    assert_eq!(bps_mul(1, 19_999, 10_000), Some(1));
    assert_eq!(bps_mul(250, 100_000, 10_000), Some(2_500));
}

#[test]
fn fee_split_detects_overflow() {
    assert_eq!(bps_mul(3, u64::MAX / 2, 10_000), None);
    assert_eq!(bps_mul(10_000, u64::MAX, 10_000), None);
}

#[test]
fn fee_plus_applied_reassemble_amount() {
    for (bps, amount) in [(0u64, 1u64), (1, 9_999), (500, 12_345), (9_999, 77), (10_000, 4)] {
        let fee = bps_mul(bps, amount, 10_000).unwrap();
        let applied = amount - fee;
        assert_eq!(fee + applied, amount);
        assert_eq!(fee, amount * bps / 10_000);
    }
}

#[test]
fn space_grows_linearly_with_entries() {
    assert_eq!(GameGround::space(0), 190);
    assert_eq!(GameGround::space(1), 190 + 40);
    assert_eq!(GameGround::space(2), 190 + 80);
}

fn oracle_bytes(randomness: [u8; 64]) -> Vec<u8> {
    let account = Randomness {
        seed: [9u8; 32],
        randomness,
        responses: vec![],
    };
    let mut out: Vec<u8> = Vec::new();
    account.try_serialize(&mut out).unwrap();
    out
}

#[test]
fn oracle_account_round_trip() {
    let mut randomness = [0u8; 64];
    for (i, b) in randomness.iter_mut().enumerate() {
        *b = i as u8 + 1;
    }
    let data = oracle_bytes(randomness);
    let account = get_account_data(&data).unwrap();
    let expected = u64::from_le_bytes([1, 2, 3, 4, 5, 6, 7, 8]);
    assert_eq!(current_state(&account), expected);
}

#[test]
fn oracle_account_pending_reads_zero() {
    let data = oracle_bytes([0u8; 64]);
    let account = get_account_data(&data).unwrap();
    assert_eq!(current_state(&account), 0);
}

#[test]
fn oracle_account_empty_is_uninitialized() {
    match get_account_data(&[]) {
        Err(e) => assert_eq!(e, ContractError::UninitializedAccount),
        Ok(_) => panic!("an empty account must not parse"),
    }
}

#[test]
fn oracle_account_garbage_is_invalid() {
    match get_account_data(&[1, 2, 3, 4, 5, 6, 7, 8, 9, 10]) {
        Err(e) => assert_eq!(e, ContractError::InvalidAccountData),
        Ok(_) => panic!("garbage bytes must not parse"),
    }
}
