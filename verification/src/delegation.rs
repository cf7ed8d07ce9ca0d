//! The delegation bridge: hand write authority for a participant's
//! position to the fast venue at registration, and take it back, with the
//! final state, once the competition is finalizing or settled. At most
//! one side holds write authority for a position at any time: the
//! `delegated` bit of its entry says which.

use vstd::prelude::*;

use crate::competition::Competition;
use crate::competition::CompetitionError;
use crate::competition::CompetitionPhase;
use crate::competition::MockPriceAccount;
use crate::events::UserUndelegated;
use crate::ledger::fresh_position;
use crate::ledger::PositionEntry;
use crate::ledger::PositionLedger;
use crate::trade::trade_error;

verus! {

/// The rejection a delegation request meets, if any: a pre-trading phase
/// gate, the venue identity check, then uniqueness of registration.
pub open spec fn delegate_error(
    comp: Competition,
    ledger: PositionLedger,
    user: u64,
    venue: u64,
) -> Option<CompetitionError> {
    if !(comp.phase is Upcoming) {
        Some(CompetitionError::NotActive)
    } else if venue != comp.er_instance {
        Some(CompetitionError::Unauthorized)
    } else if ledger.has_user(user) {
        Some(CompetitionError::UserAlreadyRegistered)
    } else {
        None
    }
}

/// Register a participant and hand the new position to the fast venue.
///
/// Exactly the requests `delegate_error` rejects are rejected, with that
/// error and the ledger untouched. Acceptance appends one entry, funded
/// with the fixed initial capital and delegated to the venue.
pub fn delegate_accounts(
    comp: &Competition,
    ledger: &mut PositionLedger,
    user: u64,
    usdc_ata: u64,
    venue: u64,
    bump: u8,
) -> (r: Result<(), CompetitionError>)
    requires
        old(ledger).wf(),
    ensures
        final(ledger).wf(),
        final(ledger).competition == old(ledger).competition,
        r is Err <==> delegate_error(*comp, *old(ledger), user, venue) is Some,
        r is Err ==> *final(ledger) == *old(ledger) && r == Err::<(), CompetitionError>(
            delegate_error(*comp, *old(ledger), user, venue)->Some_0,
        ),
        r is Ok ==> final(ledger).entries@ == old(ledger).entries@.push(
            PositionEntry {
                position: fresh_position(old(ledger).competition, user, usdc_ata, bump),
                delegated: true,
            },
        ),
        r is Ok ==> final(ledger).trade_permitted(user),
{
    if comp.phase != CompetitionPhase::Upcoming {
        return Err(CompetitionError::NotActive);
    }
    if venue != comp.er_instance {
        return Err(CompetitionError::Unauthorized);
    }
    match ledger.register(user, usdc_ata, bump) {
        Ok(()) => Ok(()),
        Err(e) => Err(e),
    }
}

/// The rejection an undelegation request meets, if any: the post-trading
/// phase gate, the venue identity check, then possession of authority.
pub open spec fn undelegate_error(
    comp: Competition,
    ledger: PositionLedger,
    user: u64,
    er_instance_key: u64,
) -> Option<CompetitionError> {
    if !(comp.phase is Finalizing || comp.phase is Settled) {
        Some(CompetitionError::NotActive)
    } else if er_instance_key != comp.er_instance {
        Some(CompetitionError::Unauthorized)
    } else if !ledger.trade_permitted(user) {
        Some(CompetitionError::AccountNotDelegated)
    } else {
        None
    }
}

/// Commit a participant's final position back to the durable ledger and
/// revoke the fast venue's authority over it.
///
/// Exactly the requests `undelegate_error` rejects are rejected, with
/// that error and the ledger untouched. Acceptance clears only the
/// entry's delegation bit — the position itself is already the final
/// state — and reports the participant's final derived profit.
pub fn user_undelegate(
    comp: &Competition,
    ledger: &mut PositionLedger,
    user: u64,
    er_instance_key: u64,
    now: i64,
) -> (r: Result<UserUndelegated, CompetitionError>)
    requires
        old(ledger).wf(),
    ensures
        final(ledger).wf(),
        final(ledger).competition == old(ledger).competition,
        r is Err <==> undelegate_error(*comp, *old(ledger), user, er_instance_key) is Some,
        r is Err ==> *final(ledger) == *old(ledger) && r == Err::<
            UserUndelegated,
            CompetitionError,
        >(undelegate_error(*comp, *old(ledger), user, er_instance_key)->Some_0),
        r is Ok ==> final(ledger).entries@ == old(ledger).entries@.update(
            old(ledger).user_index(user),
            PositionEntry { position: old(ledger).entry_for(user).position, delegated: false },
        ),
        r is Ok ==> r == Ok::<UserUndelegated, CompetitionError>(
            UserUndelegated {
                user: user,
                competition: old(ledger).entry_for(user).position.competition,
                final_pnl: (old(ledger).entry_for(user).position.current_value - old(
                    ledger,
                ).entry_for(user).position.initial_value) as i128,
                timestamp: now,
            },
        ),
        r is Ok ==> !final(ledger).trade_permitted(user),
{
    if !(comp.phase == CompetitionPhase::Finalizing || comp.phase == CompetitionPhase::Settled) {
        return Err(CompetitionError::NotActive);
    }
    if er_instance_key != comp.er_instance {
        return Err(CompetitionError::Unauthorized);
    }
    let idx = match ledger.find_user(user) {
        Some(i) => i,
        None => {
            return Err(CompetitionError::AccountNotDelegated);
        },
    };
    let entry = ledger.entries[idx];
    if !entry.delegated {
        return Err(CompetitionError::AccountNotDelegated);
    }
    proof {
        assert(ledger.entries[idx as int].position.wf());
    }
    let final_pnl = entry.position.profit();
    ledger.replace_at(idx, PositionEntry { position: entry.position, delegated: false });
    Ok(
        UserUndelegated {
            user: user,
            competition: entry.position.competition,
            final_pnl: final_pnl,
            timestamp: now,
        },
    )
}

/// Delegation is mutually exclusive: while a participant is registered,
/// the bridge refuses to delegate the same participant again.
pub proof fn lemma_delegate_excludes_second(
    comp: Competition,
    ledger: PositionLedger,
    user: u64,
    venue: u64,
)
    requires
        ledger.has_user(user),
    ensures
        delegate_error(comp, ledger, user, venue) is Some,
{
}

/// Once the fast venue's authority over a position is revoked, a trade
/// submitted as if it were still delegated is rejected for exactly that
/// reason.
pub proof fn lemma_trade_after_undelegate_rejected(
    comp: Competition,
    ledger: PositionLedger,
    user: u64,
    oracle: MockPriceAccount,
    now: i64,
    amount: u64,
    is_buy: bool,
)
    requires
        ledger.wf(),
        ledger.has_user(user),
        !ledger.entry_for(user).delegated,
    ensures
        trade_error(comp, ledger, user, oracle, now, amount, is_buy) == Some(
            CompetitionError::AccountNotDelegated,
        ),
{
}

} // verus!
