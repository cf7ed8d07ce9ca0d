//! Lifecycle of a competition: creation, activation, final commit,
//! challenge window, settlement.

use trading_competition::competition::CompetitionError;
use trading_competition::competition::CompetitionPhase;
use trading_competition::finality::final_commit;
use trading_competition::finality::settle_competition;
use trading_competition::phase::activate;
use trading_competition::phase::init_competition;

const AUTHORITY: u64 = 11;
const MINT: u64 = 22;
const VENUE: u64 = 33;
const ORACLE_PDA: u64 = 44;

#[test]
fn init_creates_upcoming_run() {
    let (comp, price) = init_competition(AUTHORITY, 1_000, MINT, VENUE, ORACLE_PDA, 50, 7);
    assert_eq!(comp.authority, AUTHORITY);
    assert_eq!(comp.usdc_mint, MINT);
    assert_eq!(comp.er_instance, VENUE);
    assert_eq!(comp.mock_price_pda, ORACLE_PDA);
    assert_eq!(comp.phase, CompetitionPhase::Upcoming);
    assert_eq!(comp.start_time, 50);
    assert_eq!(comp.end_time, 1_050);
    assert_eq!(comp.challenge_deadline, 1_050 + 3_600);
    assert_eq!(comp.state_root, [0u8; 32]);
    assert_eq!(comp.winner, 0);
    assert_eq!(comp.winner_profit, 0);
    assert_eq!(comp.bump, 7);
    assert_eq!(price.price, 150_000_000);
    assert_eq!(price.expo, -8);
    assert_eq!(price.timestamp, 50);
}

#[test]
fn activate_requires_authority_and_upcoming() {
    let (mut comp, _) = init_competition(AUTHORITY, 1_000, MINT, VENUE, ORACLE_PDA, 0, 0);
    assert_eq!(activate(&mut comp, 99), Err(CompetitionError::Unauthorized));
    assert_eq!(comp.phase, CompetitionPhase::Upcoming);
    assert_eq!(activate(&mut comp, AUTHORITY), Ok(()));
    assert_eq!(comp.phase, CompetitionPhase::Active);
    assert_eq!(activate(&mut comp, AUTHORITY), Err(CompetitionError::NotActive));
}

#[test]
fn final_commit_time_gate_is_exact() {
    // one second early is a time violation; at the boundary it succeeds
    // and the challenge window opens 300 seconds after the commit time
    let (mut comp, _) = init_competition(AUTHORITY, 1_000, MINT, VENUE, ORACLE_PDA, 0, 0);
    activate(&mut comp, AUTHORITY).unwrap();
    let end = comp.end_time;
    let early = final_commit(&mut comp, AUTHORITY, VENUE, [1u8; 32], 5, 0, end - 1);
    assert_eq!(early, Err(CompetitionError::NotEnded));
    assert_eq!(comp.phase, CompetitionPhase::Active);
    let done = final_commit(&mut comp, AUTHORITY, VENUE, [1u8; 32], 5, 0, end);
    assert!(done.is_ok());
    assert_eq!(comp.phase, CompetitionPhase::Finalizing);
    assert_eq!(comp.challenge_deadline, end + 300);
    assert_eq!(comp.state_root, [1u8; 32]);
    assert_eq!(comp.winner, 5);
}

#[test]
fn final_commit_rejects_wrong_caller_and_venue() {
    let (mut comp, _) = init_competition(AUTHORITY, 1_000, MINT, VENUE, ORACLE_PDA, 0, 0);
    activate(&mut comp, AUTHORITY).unwrap();
    let r = final_commit(&mut comp, 99, VENUE, [1u8; 32], 5, 0, 1_000);
    assert_eq!(r, Err(CompetitionError::Unauthorized));
    let r = final_commit(&mut comp, AUTHORITY, 77, [1u8; 32], 5, 0, 1_000);
    assert_eq!(r, Err(CompetitionError::Unauthorized));
    assert_eq!(comp.phase, CompetitionPhase::Active);
}

#[test]
fn final_commit_reports_root_in_hex() {
    let (mut comp, _) = init_competition(AUTHORITY, 1_000, MINT, VENUE, ORACLE_PDA, 0, 0);
    activate(&mut comp, AUTHORITY).unwrap();
    let mut root = [0u8; 32];
    root[0] = 0x01;
    root[1] = 0xab;
    root[31] = 0xff;
    let digest = final_commit(&mut comp, AUTHORITY, VENUE, root, 5, 0, 1_000).unwrap();
    let expected = format!("01ab{}ff", "00".repeat(29));
    assert_eq!(digest, expected);
    assert_eq!(digest.len(), 64);
}

#[test]
fn second_final_commit_is_rejected() {
    let (mut comp, _) = init_competition(AUTHORITY, 1_000, MINT, VENUE, ORACLE_PDA, 0, 0);
    activate(&mut comp, AUTHORITY).unwrap();
    final_commit(&mut comp, AUTHORITY, VENUE, [2u8; 32], 5, 10, 1_000).unwrap();
    let again = final_commit(&mut comp, AUTHORITY, VENUE, [3u8; 32], 6, 20, 1_100);
    assert_eq!(again, Err(CompetitionError::NotActive));
    // the committed fields were not re-applied
    assert_eq!(comp.state_root, [2u8; 32]);
    assert_eq!(comp.winner, 5);
    assert_eq!(comp.winner_profit, 10);
}

#[test]
fn settle_waits_for_challenge_deadline() {
    let (mut comp, _) = init_competition(AUTHORITY, 1_000, MINT, VENUE, ORACLE_PDA, 0, 0);
    activate(&mut comp, AUTHORITY).unwrap();
    final_commit(&mut comp, AUTHORITY, VENUE, [1u8; 32], 5, 0, 1_000).unwrap();
    assert_eq!(comp.challenge_deadline, 1_300);
    let early = settle_competition(&mut comp, AUTHORITY, 1_299);
    assert_eq!(early, Err(CompetitionError::NotEnded));
    assert_eq!(comp.phase, CompetitionPhase::Finalizing);
    assert_eq!(settle_competition(&mut comp, AUTHORITY, 1_300), Ok(()));
    assert_eq!(comp.phase, CompetitionPhase::Settled);
}

#[test]
fn settle_succeeds_exactly_once() {
    let (mut comp, _) = init_competition(AUTHORITY, 1_000, MINT, VENUE, ORACLE_PDA, 0, 0);
    activate(&mut comp, AUTHORITY).unwrap();
    final_commit(&mut comp, AUTHORITY, VENUE, [1u8; 32], 5, 0, 1_000).unwrap();
    assert_eq!(settle_competition(&mut comp, AUTHORITY, 2_000), Ok(()));
    // a second settlement is a phase violation, not a time violation
    let again = settle_competition(&mut comp, AUTHORITY, 3_000);
    assert_eq!(again, Err(CompetitionError::NotActive));
    assert_eq!(comp.phase, CompetitionPhase::Settled);
}

#[test]
fn settle_rejects_wrong_caller() {
    let (mut comp, _) = init_competition(AUTHORITY, 1_000, MINT, VENUE, ORACLE_PDA, 0, 0);
    activate(&mut comp, AUTHORITY).unwrap();
    final_commit(&mut comp, AUTHORITY, VENUE, [1u8; 32], 5, 0, 1_000).unwrap();
    let r = settle_competition(&mut comp, 99, 2_000);
    assert_eq!(r, Err(CompetitionError::Unauthorized));
    assert_eq!(comp.phase, CompetitionPhase::Finalizing);
}

#[test]
fn phases_only_advance_along_the_run() {
    let (mut comp, _) = init_competition(AUTHORITY, 1_000, MINT, VENUE, ORACLE_PDA, 0, 0);
    let mut seen = vec![comp.phase];
    activate(&mut comp, AUTHORITY).unwrap();
    seen.push(comp.phase);
    final_commit(&mut comp, AUTHORITY, VENUE, [1u8; 32], 5, 0, 1_000).unwrap();
    seen.push(comp.phase);
    settle_competition(&mut comp, AUTHORITY, 1_300).unwrap();
    seen.push(comp.phase);
    assert_eq!(
        seen,
        vec![
            CompetitionPhase::Upcoming,
            CompetitionPhase::Active,
            CompetitionPhase::Finalizing,
            CompetitionPhase::Settled,
        ]
    );
}
