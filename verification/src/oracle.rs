//! Administration of the oracle price record: the authority may refresh
//! the stored price while trading is open.

use vstd::prelude::*;

use crate::competition::Competition;
use crate::competition::CompetitionError;
use crate::competition::CompetitionPhase;
use crate::competition::MockPriceAccount;

verus! {

/// The rejection a price refresh meets, if any: only the authority, only
/// while trading is the current phase, only before the run ends.
pub open spec fn update_price_error(comp: Competition, caller: u64, now: i64) -> Option<
    CompetitionError,
> {
    if caller != comp.authority {
        Some(CompetitionError::Unauthorized)
    } else if !(comp.phase is Active) {
        Some(CompetitionError::NotActive)
    } else if now >= comp.end_time {
        Some(CompetitionError::NotEnded)
    } else {
        None
    }
}

/// Refresh the oracle record with a price observed `now`.
///
/// Exactly the requests `update_price_error` rejects are rejected, with
/// that error and the record untouched.
pub fn update_mock_price(
    comp: &Competition,
    mock_price: &mut MockPriceAccount,
    caller: u64,
    new_price: u128,
    new_expo: i32,
    now: i64,
) -> (r: Result<(), CompetitionError>)
    ensures
        r is Err <==> update_price_error(*comp, caller, now) is Some,
        r is Err ==> *final(mock_price) == *old(mock_price) && r == Err::<(), CompetitionError>(
            update_price_error(*comp, caller, now)->Some_0,
        ),
        r is Ok ==> *final(mock_price) == (MockPriceAccount {
            price: new_price,
            expo: new_expo,
            timestamp: now,
            bump: old(mock_price).bump,
        }),
{
    if caller != comp.authority {
        return Err(CompetitionError::Unauthorized);
    }
    if comp.phase != CompetitionPhase::Active {
        return Err(CompetitionError::NotActive);
    }
    if now >= comp.end_time {
        return Err(CompetitionError::NotEnded);
    }
    mock_price.update_price(new_price, new_expo, now);
    Ok(())
}

} // verus!
