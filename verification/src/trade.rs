//! The trade engine: authority, phase, time, size and freshness gates,
//! price normalization, and the atomic balance update, applied in the
//! order the protocol tests them. Any rejection aborts the whole trade
//! with no partial mutation.

use vstd::prelude::*;

use crate::competition::Competition;
use crate::competition::CompetitionError;
use crate::competition::CompetitionPhase;
use crate::competition::MockPriceAccount;
use crate::competition::Position;
use crate::competition::MAX_PRICE_AGE;
use crate::competition::MIN_TRADE_AMOUNT;
use crate::events::TradeExecuted;
use crate::ledger::apply_result;
use crate::ledger::PositionEntry;
use crate::ledger::PositionLedger;
use crate::math::normalize_price;
use crate::math::normalized_price;
use crate::math::spec_trade_value;
use crate::math::trade_value;

verus! {

/// The rejection a trade request meets, if any, in the order the gates
/// are tested: venue authority, phase, trading window, minimum size,
/// snapshot freshness, then the checked arithmetic of valuation and
/// application.
pub open spec fn trade_error(
    comp: Competition,
    ledger: PositionLedger,
    user: u64,
    oracle: MockPriceAccount,
    now: i64,
    amount: u64,
    is_buy: bool,
) -> Option<CompetitionError> {
    if !ledger.trade_permitted(user) {
        Some(CompetitionError::AccountNotDelegated)
    } else if !(comp.phase is Active) {
        Some(CompetitionError::NotActive)
    } else if now >= comp.end_time {
        Some(CompetitionError::NotEnded)
    } else if amount < MIN_TRADE_AMOUNT {
        Some(CompetitionError::InsufficientFunds)
    } else if now - oracle.timestamp > MAX_PRICE_AGE {
        Some(CompetitionError::StalePrice)
    } else {
        match normalized_price(oracle.price, oracle.expo) {
            None => Some(CompetitionError::CalculationError),
            Some(pn) => match spec_trade_value(amount, pn) {
                None => Some(CompetitionError::CalculationError),
                Some(tv) => match apply_result(ledger.entry_for(user).position, tv, is_buy) {
                    Ok(_) => None,
                    Err(e) => Some(e),
                },
            },
        }
    }
}

/// Value moved by an accepted trade request.
pub open spec fn accepted_trade_value(oracle: MockPriceAccount, amount: u64) -> u128 {
    spec_trade_value(amount, normalized_price(oracle.price, oracle.expo)->Some_0)->Some_0
}

/// The participant's position after an accepted trade request.
pub open spec fn trade_new_position(
    ledger: PositionLedger,
    user: u64,
    oracle: MockPriceAccount,
    amount: u64,
    is_buy: bool,
) -> Position {
    apply_result(
        ledger.entry_for(user).position,
        accepted_trade_value(oracle, amount),
        is_buy,
    )->Ok_0
}

/// The record an accepted trade request emits.
pub open spec fn trade_event(
    ledger: PositionLedger,
    user: u64,
    oracle: MockPriceAccount,
    now: i64,
    amount: u64,
    is_buy: bool,
) -> TradeExecuted {
    let p = trade_new_position(ledger, user, oracle, amount, is_buy);
    TradeExecuted {
        user: user,
        competition: p.competition,
        timestamp: now,
        is_buy: is_buy,
        amount_u64: amount,
        new_balance: p.usdc_balance,
        new_current_value: p.current_value,
        new_profit: (p.current_value - p.initial_value) as i128,
        price_used: oracle.price as i64,
    }
}

/// Execute one trade request against the fast venue's view of the ledger.
///
/// Exactly the requests `trade_error` rejects are rejected, with that
/// error and the ledger untouched. An accepted request replaces only the
/// caller's entry, conserving `usdc_balance + current_value` exactly, and
/// returns the emitted trade record.
pub fn process_trade(
    comp: &Competition,
    ledger: &mut PositionLedger,
    user: u64,
    oracle: &MockPriceAccount,
    now: i64,
    amount: u64,
    is_buy: bool,
) -> (r: Result<TradeExecuted, CompetitionError>)
    requires
        old(ledger).wf(),
    ensures
        final(ledger).wf(),
        final(ledger).competition == old(ledger).competition,
        r is Err <==> trade_error(*comp, *old(ledger), user, *oracle, now, amount, is_buy)
            is Some,
        r is Err ==> *final(ledger) == *old(ledger) && r == Err::<
            TradeExecuted,
            CompetitionError,
        >(trade_error(*comp, *old(ledger), user, *oracle, now, amount, is_buy)->Some_0),
        r is Ok ==> final(ledger).entries@ == old(ledger).entries@.update(
            old(ledger).user_index(user),
            PositionEntry {
                position: trade_new_position(*old(ledger), user, *oracle, amount, is_buy),
                delegated: true,
            },
        ),
        r is Ok ==> r == Ok::<TradeExecuted, CompetitionError>(
            trade_event(*old(ledger), user, *oracle, now, amount, is_buy),
        ),
        r is Ok ==> ({
            let before = old(ledger).entry_for(user).position;
            let after = final(ledger).entry_for(user).position;
            after.usdc_balance + after.current_value == before.usdc_balance + before.current_value
        }),
{
    let idx = match ledger.find_user(user) {
        Some(i) => i,
        None => {
            return Err(CompetitionError::AccountNotDelegated);
        },
    };
    let entry = ledger.entries[idx];
    if !entry.delegated {
        return Err(CompetitionError::AccountNotDelegated);
    }
    if comp.phase != CompetitionPhase::Active {
        return Err(CompetitionError::NotActive);
    }
    if now >= comp.end_time {
        return Err(CompetitionError::NotEnded);
    }
    if amount < MIN_TRADE_AMOUNT {
        return Err(CompetitionError::InsufficientFunds);
    }
    if (now as i128) - (oracle.timestamp as i128) > (MAX_PRICE_AGE as i128) {
        return Err(CompetitionError::StalePrice);
    }
    let price_norm = match normalize_price(oracle.price, oracle.expo) {
        Ok(p) => p,
        Err(e) => {
            return Err(e);
        },
    };
    let value = match trade_value(amount, price_norm) {
        Ok(v) => v,
        Err(e) => {
            return Err(e);
        },
    };
    let new_position = match entry.position.apply(value, is_buy) {
        Ok(p) => p,
        Err(e) => {
            return Err(e);
        },
    };
    let new_entry = PositionEntry { position: new_position, delegated: true };
    ledger.replace_at(idx, new_entry);
    let new_profit = new_position.profit();
    Ok(
        TradeExecuted {
            user: user,
            competition: new_position.competition,
            timestamp: now,
            is_buy: is_buy,
            amount_u64: amount,
            new_balance: new_position.usdc_balance,
            new_current_value: new_position.current_value,
            new_profit: new_profit,
            price_used: #[verifier::truncate] (oracle.price as i64),
        },
    )
}

} // verus!
