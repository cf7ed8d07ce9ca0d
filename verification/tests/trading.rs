//! The trade engine: valuation, conservation of funds, and every gate in
//! front of a trade.

use trading_competition::competition::CompetitionError;
use trading_competition::competition::MockPriceAccount;
use trading_competition::delegation::delegate_accounts;
use trading_competition::ledger::PositionLedger;
use trading_competition::math::normalize_price;
use trading_competition::math::pow10_checked;
use trading_competition::math::trade_value;
use trading_competition::oracle::update_mock_price;
use trading_competition::phase::activate;
use trading_competition::phase::init_competition;
use trading_competition::trade::process_trade;

const AUTHORITY: u64 = 11;
const MINT: u64 = 22;
const VENUE: u64 = 33;
const ORACLE_PDA: u64 = 44;
const USER: u64 = 55;
const ATA: u64 = 66;
const COMP_KEY: u64 = 77;

fn active_run() -> (
    trading_competition::competition::Competition,
    MockPriceAccount,
    PositionLedger,
) {
    let (mut comp, price) = init_competition(AUTHORITY, 1_000, MINT, VENUE, ORACLE_PDA, 0, 0);
    let mut ledger = PositionLedger::new(COMP_KEY);
    delegate_accounts(&comp, &mut ledger, USER, ATA, VENUE, 0).unwrap();
    activate(&mut comp, AUTHORITY).unwrap();
    (comp, price, ledger)
}

#[test]
fn price_normalization_example() {
    // $1.50 quoted at 10^-8 comes out as 1_500_000 at the 6-decimal scale
    assert_eq!(normalize_price(150_000_000, -8), Ok(1_500_000));
    // a positive exponent is used by its magnitude as well
    assert_eq!(normalize_price(1_500, 2), Ok(15_000_000));
    // overflow of the checked multiply is a calculation error
    assert_eq!(normalize_price(u128::MAX, -8), Err(CompetitionError::CalculationError));
    // an exponent whose power of ten cannot be represented is one too
    assert_eq!(normalize_price(150_000_000, -39), Err(CompetitionError::CalculationError));
    assert_eq!(pow10_checked(38), Some(10u128.pow(38)));
    assert_eq!(pow10_checked(39), None);
}

#[test]
fn trade_valuation_example() {
    assert_eq!(trade_value(200_000, 1_500_000), Ok(300_000));
    assert_eq!(
        trade_value(u64::MAX, u128::MAX),
        Err(CompetitionError::CalculationError)
    );
}

#[test]
fn buy_moves_funds_and_derives_profit() {
    let (comp, price, mut ledger) = active_run();
    let event = process_trade(&comp, &mut ledger, USER, &price, 10, 200_000, true).unwrap();
    assert_eq!(event.user, USER);
    assert_eq!(event.competition, COMP_KEY);
    assert_eq!(event.timestamp, 10);
    assert!(event.is_buy);
    assert_eq!(event.amount_u64, 200_000);
    assert_eq!(event.new_balance, 999_999_700_000);
    assert_eq!(event.new_current_value, 1_000_000_300_000);
    assert_eq!(event.new_profit, 300_000);
    assert_eq!(event.price_used, 150_000_000);
    let position = ledger.entry_of(USER).unwrap().position;
    assert_eq!(position.usdc_balance, 999_999_700_000);
    assert_eq!(position.current_value, 1_000_000_300_000);
    assert_eq!(position.initial_value, 1_000_000_000_000);
}

#[test]
fn sell_moves_funds_the_other_way() {
    let (comp, price, mut ledger) = active_run();
    let event = process_trade(&comp, &mut ledger, USER, &price, 10, 200_000, false).unwrap();
    assert_eq!(event.new_balance, 1_000_000_300_000);
    assert_eq!(event.new_current_value, 999_999_700_000);
    assert_eq!(event.new_profit, -300_000);
}

#[test]
fn funds_are_conserved_across_trades() {
    let (comp, price, mut ledger) = active_run();
    process_trade(&comp, &mut ledger, USER, &price, 5, 200_000, true).unwrap();
    process_trade(&comp, &mut ledger, USER, &price, 6, 500_000, true).unwrap();
    process_trade(&comp, &mut ledger, USER, &price, 7, 300_000, false).unwrap();
    let position = ledger.entry_of(USER).unwrap().position;
    assert_eq!(
        position.usdc_balance + position.current_value,
        2_000_000_000_000
    );
    let profit = position.current_value as i128 - position.initial_value as i128;
    assert_eq!(profit, (200_000i128 + 500_000 - 300_000) * 3 / 2);
}

#[test]
fn freshness_bound_is_exact() {
    // a snapshot 16 seconds old is stale; 15 seconds old is accepted
    let (comp, mut price, mut ledger) = active_run();
    let now = 20;
    price.timestamp = now - 16;
    let stale = process_trade(&comp, &mut ledger, USER, &price, now, 200_000, true);
    assert_eq!(stale, Err(CompetitionError::StalePrice));
    price.timestamp = now - 15;
    let fresh = process_trade(&comp, &mut ledger, USER, &price, now, 200_000, true);
    assert!(fresh.is_ok());
}

#[test]
fn trade_gates_reject_in_order() {
    let (mut comp, price, mut ledger) = {
        let (comp, price) = init_competition(AUTHORITY, 1_000, MINT, VENUE, ORACLE_PDA, 0, 0);
        let mut ledger = PositionLedger::new(COMP_KEY);
        delegate_accounts(&comp, &mut ledger, USER, ATA, VENUE, 0).unwrap();
        (comp, price, ledger)
    };
    // not yet active
    let r = process_trade(&comp, &mut ledger, USER, &price, 10, 200_000, true);
    assert_eq!(r, Err(CompetitionError::NotActive));
    activate(&mut comp, AUTHORITY).unwrap();
    // an unknown participant has no delegated position
    let r = process_trade(&comp, &mut ledger, 999, &price, 10, 200_000, true);
    assert_eq!(r, Err(CompetitionError::AccountNotDelegated));
    // the trading window closes at end_time
    let r = process_trade(&comp, &mut ledger, USER, &price, comp.end_time, 200_000, true);
    assert_eq!(r, Err(CompetitionError::NotEnded));
    // below the minimum trade size
    let r = process_trade(&comp, &mut ledger, USER, &price, 10, 99_999, true);
    assert_eq!(r, Err(CompetitionError::InsufficientFunds));
    // the ledger was never touched
    let position = ledger.entry_of(USER).unwrap().position;
    assert_eq!(position.usdc_balance, 1_000_000_000_000);
    assert_eq!(position.current_value, 1_000_000_000_000);
}

#[test]
fn buy_beyond_balance_is_rejected_without_mutation() {
    let (comp, mut price, mut ledger) = active_run();
    // at $1.50, spending the whole balance takes amount ~ 2/3 * 10^12
    price.timestamp = 10;
    let r = process_trade(&comp, &mut ledger, USER, &price, 10, u64::MAX, true);
    assert_eq!(r, Err(CompetitionError::InsufficientFunds));
    let position = ledger.entry_of(USER).unwrap().position;
    assert_eq!(position.usdc_balance, 1_000_000_000_000);
    assert_eq!(position.current_value, 1_000_000_000_000);
}

#[test]
fn sell_beyond_value_is_rejected() {
    let (comp, price, mut ledger) = active_run();
    let r = process_trade(&comp, &mut ledger, USER, &price, 10, u64::MAX, false);
    assert_eq!(r, Err(CompetitionError::InsufficientFunds));
}

#[test]
fn oracle_overflow_is_a_calculation_error() {
    let (comp, mut price, mut ledger) = active_run();
    price.price = u128::MAX;
    price.timestamp = 10;
    let r = process_trade(&comp, &mut ledger, USER, &price, 10, 200_000, true);
    assert_eq!(r, Err(CompetitionError::CalculationError));
}

#[test]
fn authority_refreshes_the_price() {
    let (comp, mut price, mut ledger) = active_run();
    assert_eq!(
        update_mock_price(&comp, &mut price, 99, 200_000_000, -8, 40),
        Err(CompetitionError::Unauthorized)
    );
    update_mock_price(&comp, &mut price, AUTHORITY, 200_000_000, -8, 40).unwrap();
    assert_eq!(price.price, 200_000_000);
    assert_eq!(price.timestamp, 40);
    // $2.00: buying 150_000 now moves 300_000
    let event = process_trade(&comp, &mut ledger, USER, &price, 41, 150_000, true).unwrap();
    assert_eq!(event.new_balance, 999_999_700_000);
    // refreshing after the run has ended is a time violation
    let r = update_mock_price(&comp, &mut price, AUTHORITY, 250_000_000, -8, comp.end_time);
    assert_eq!(r, Err(CompetitionError::NotEnded));
    assert_eq!(price.price, 200_000_000);
}
