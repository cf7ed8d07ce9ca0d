//! The phase controller: creation and activation of a competition, and
//! the laws of its lifecycle. Every phase-changing operation is a step of
//! `competition_step`, and steps never move the phase backwards.

use vstd::prelude::*;

use crate::competition::Competition;
use crate::competition::CompetitionError;
use crate::competition::CompetitionPhase;
use crate::competition::MockPriceAccount;
use crate::competition::CHALLENGE_WINDOW;
use crate::competition::PROVISIONAL_CHALLENGE_WINDOW;
use crate::finality::final_commit_allowed;
use crate::finality::final_commit_post;
use crate::finality::settle_allowed;
use crate::finality::settle_post;

verus! {

/// Price the oracle record is seeded with at creation.
pub const INITIAL_MOCK_PRICE: u128 = 150_000_000;

/// Exponent the oracle record is seeded with at creation.
pub const INITIAL_MOCK_EXPO: i32 = -8;

/// What a freshly created competition record looks like: an upcoming run
/// from `now` to `now + duration`, a provisional challenge deadline, and
/// every write-once finalization field still blank.
pub open spec fn is_initial_competition(
    c: Competition,
    authority: u64,
    usdc_mint: u64,
    er_instance: u64,
    mock_price_pda: u64,
    now: i64,
    duration: i64,
    bump: u8,
) -> bool {
    &&& c.authority == authority
    &&& c.usdc_mint == usdc_mint
    &&& c.er_instance == er_instance
    &&& c.mock_price_pda == mock_price_pda
    &&& c.start_time == now
    &&& c.end_time == now + duration
    &&& c.phase is Upcoming
    &&& c.state_root@ == Seq::new(32, |i: int| 0u8)
    &&& c.winner == 0
    &&& c.winner_profit == 0
    &&& c.challenge_deadline == now + duration + PROVISIONAL_CHALLENGE_WINDOW
    &&& c.bump == bump
}

/// Create one competition record and its seeded oracle record.
///
/// The run lasts from `now` for `duration` seconds; the oracle starts at
/// the fixed seed price, observed `now`.
pub fn init_competition(
    authority: u64,
    duration: i64,
    usdc_mint: u64,
    er_instance: u64,
    mock_price_pda: u64,
    now: i64,
    bump: u8,
) -> (r: (Competition, MockPriceAccount))
    requires
        0 <= now,
        0 < duration,
        now + duration + PROVISIONAL_CHALLENGE_WINDOW <= i64::MAX,
    ensures
        is_initial_competition(
            r.0,
            authority,
            usdc_mint,
            er_instance,
            mock_price_pda,
            now,
            duration,
            bump,
        ),
        r.0.wf(),
        r.1 == (MockPriceAccount {
            price: INITIAL_MOCK_PRICE,
            expo: INITIAL_MOCK_EXPO,
            timestamp: now,
            bump: bump,
        }),
{
    let competition = Competition {
        authority: authority,
        usdc_mint: usdc_mint,
        er_instance: er_instance,
        mock_price_pda: mock_price_pda,
        start_time: now,
        end_time: now + duration,
        phase: CompetitionPhase::Upcoming,
        state_root: [0u8; 32],
        winner: 0,
        winner_profit: 0,
        challenge_deadline: now + duration + PROVISIONAL_CHALLENGE_WINDOW,
        bump: bump,
    };
    let mut mock_price = MockPriceAccount {
        price: 0,
        expo: 0,
        timestamp: 0,
        bump: bump,
    };
    mock_price.update_price(INITIAL_MOCK_PRICE, INITIAL_MOCK_EXPO, now);
    proof {
        assert(competition.state_root@ =~= Seq::new(32, |i: int| 0u8));
    }
    (competition, mock_price)
}

/// Whether activation is accepted: only the authority, only from
/// `Upcoming`.
pub open spec fn activate_allowed(c: Competition, caller: u64) -> bool {
    caller == c.authority && c.phase is Upcoming
}

/// The rejection a refused activation reports.
pub open spec fn activate_err(c: Competition, caller: u64) -> CompetitionError {
    if caller != c.authority {
        CompetitionError::Unauthorized
    } else {
        CompetitionError::NotActive
    }
}

/// The competition after activation: only the phase moves; the time
/// gates were fixed at creation.
pub open spec fn activate_post(c: Competition) -> Competition {
    Competition { phase: CompetitionPhase::Active, ..c }
}

/// Open trading: advance `Upcoming` to `Active`.
///
/// Exactly the requests `activate_allowed` admits succeed; any rejection
/// leaves the competition untouched.
pub fn activate(comp: &mut Competition, caller: u64) -> (r: Result<(), CompetitionError>)
    ensures
        r is Ok <==> activate_allowed(*old(comp), caller),
        r is Ok ==> *final(comp) == activate_post(*old(comp)),
        r is Err ==> *final(comp) == *old(comp) && r == Err::<(), CompetitionError>(
            activate_err(*old(comp), caller),
        ),
        old(comp).phase.rank() <= final(comp).phase.rank(),
        competition_step(*old(comp), *final(comp)),
        old(comp).wf() ==> final(comp).wf(),
{
    if caller != comp.authority {
        return Err(CompetitionError::Unauthorized);
    }
    if comp.phase != CompetitionPhase::Upcoming {
        return Err(CompetitionError::NotActive);
    }
    comp.phase = CompetitionPhase::Active;
    proof {
        assert(activate_allowed(*old(comp), caller));
    }
    Ok(())
}

/// One step of the competition lifecycle: the record is left alone, or
/// exactly one accepted operation runs. The committed fields of a final
/// commit are read off the post state itself.
pub open spec fn competition_step(pre: Competition, post: Competition) -> bool {
    ||| post == pre
    ||| (exists|caller: u64| #[trigger] activate_allowed(pre, caller) && post == activate_post(pre))
    ||| (exists|caller: u64, er_instance: u64, now: i64|
        #[trigger] final_commit_allowed(pre, caller, er_instance, now) && post
            == final_commit_post(pre, post.state_root, post.winner, post.winner_profit, now)
        && now <= i64::MAX - CHALLENGE_WINDOW)
    ||| (exists|caller: u64, now: i64|
        #[trigger] settle_allowed(pre, caller, now) && post == settle_post(pre))
}

/// Phase ranks are strictly ordered along the lifecycle.
pub proof fn lemma_phase_order()
    ensures
        CompetitionPhase::Upcoming.rank() < CompetitionPhase::Active.rank(),
        CompetitionPhase::Active.rank() < CompetitionPhase::Finalizing.rank(),
        CompetitionPhase::Finalizing.rank() < CompetitionPhase::Settled.rank(),
{
}

/// No step of the lifecycle moves the phase backwards.
pub proof fn lemma_phase_never_decreases(pre: Competition, post: Competition)
    requires
        competition_step(pre, post),
    ensures
        pre.phase.rank() <= post.phase.rank(),
{
}

/// A step that settles comes from `Finalizing` alone: no competition is
/// settled without a final commit having happened first.
pub proof fn lemma_no_settle_without_commit(pre: Competition, post: Competition)
    requires
        competition_step(pre, post),
        post.phase is Settled,
        !(pre.phase is Settled),
    ensures
        pre.phase is Finalizing,
{
}

} // verus!
