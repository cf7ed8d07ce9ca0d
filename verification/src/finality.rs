//! The finality protocol: commit a proposed final state from the fast
//! venue, hold it open to dispute for a fixed challenge window, then
//! settle. Settling is what makes reading the final state safe.

use vstd::prelude::*;

use crate::competition::Competition;
use crate::competition::CompetitionError;
use crate::competition::CompetitionPhase;
use crate::competition::CHALLENGE_WINDOW;
use crate::phase::competition_step;

verus! {

/// Lower-case hexadecimal digit for a nibble.
pub open spec fn hex_digit(n: u8) -> char
    recommends
        n < 16,
{
    if n < 10 {
        ((n + 48) as u8) as char
    } else {
        ((n + 87) as u8) as char
    }
}

/// Lower-case hexadecimal rendering of a byte string: two digits per
/// byte, high nibble first.
pub open spec fn hex_render(bytes: Seq<u8>) -> Seq<char> {
    Seq::new(
        bytes.len() * 2,
        |i: int|
            if i % 2 == 0 {
                hex_digit((bytes[i / 2] / 16) as u8)
            } else {
                hex_digit((bytes[i / 2] % 16) as u8)
            },
    )
}

/// Relies on hex::encode of the hex crate: it renders bytes as
/// lower-case hexadecimal, two digits per byte, high nibble first.
#[verifier::external_body]
fn encode_state_root(root: &[u8; 32]) -> (r: String)
    ensures
        r@ == hex_render(root@),
{
    hex::encode(root)
}

/// Whether a final commit is accepted: only the authority, only while
/// trading is the current phase, only for the recorded venue, and only
/// once the run has ended.
pub open spec fn final_commit_allowed(
    c: Competition,
    caller: u64,
    er_instance: u64,
    now: i64,
) -> bool {
    &&& caller == c.authority
    &&& c.phase is Active
    &&& er_instance == c.er_instance
    &&& now >= c.end_time
}

/// The rejection a refused final commit reports, in the order the gates
/// are tested.
pub open spec fn final_commit_err(
    c: Competition,
    caller: u64,
    er_instance: u64,
    now: i64,
) -> CompetitionError {
    if caller != c.authority {
        CompetitionError::Unauthorized
    } else if !(c.phase is Active) {
        CompetitionError::NotActive
    } else if er_instance != c.er_instance {
        CompetitionError::Unauthorized
    } else {
        CompetitionError::NotEnded
    }
}

/// The competition after an accepted final commit: the write-once
/// finalization fields are recorded, the phase advances to `Finalizing`,
/// and the challenge window opens for `CHALLENGE_WINDOW` seconds.
pub open spec fn final_commit_post(
    c: Competition,
    state_root: [u8; 32],
    winner: u64,
    winner_profit: i128,
    now: i64,
) -> Competition {
    Competition {
        state_root: state_root,
        winner: winner,
        winner_profit: winner_profit,
        phase: CompetitionPhase::Finalizing,
        challenge_deadline: (now + CHALLENGE_WINDOW) as i64,
        ..c
    }
}

/// Whether settling is accepted: only the authority, only from
/// `Finalizing`, and only once the challenge window has closed.
pub open spec fn settle_allowed(c: Competition, caller: u64, now: i64) -> bool {
    &&& caller == c.authority
    &&& c.phase is Finalizing
    &&& now >= c.challenge_deadline
}

/// The rejection a refused settlement reports, in the order the gates
/// are tested.
pub open spec fn settle_err(c: Competition, caller: u64, now: i64) -> CompetitionError {
    if caller != c.authority {
        CompetitionError::Unauthorized
    } else if !(c.phase is Finalizing) {
        CompetitionError::NotActive
    } else {
        CompetitionError::NotEnded
    }
}

/// The competition after an accepted settlement: only the phase moves.
pub open spec fn settle_post(c: Competition) -> Competition {
    Competition { phase: CompetitionPhase::Settled, ..c }
}

/// Record the fast venue's final state root, winner and winner profit,
/// open the challenge window, and advance the phase to `Finalizing`.
///
/// Exactly the requests `final_commit_allowed` admits succeed; any
/// rejection leaves the competition untouched. Success returns the
/// lower-case hex rendering of the committed root, for announcing the
/// commit to observers.
pub fn final_commit(
    comp: &mut Competition,
    caller: u64,
    er_instance: u64,
    state_root: [u8; 32],
    winner_pubkey: u64,
    winner_profit: i128,
    now: i64,
) -> (r: Result<String, CompetitionError>)
    requires
        now <= i64::MAX - CHALLENGE_WINDOW,
    ensures
        r is Ok <==> final_commit_allowed(*old(comp), caller, er_instance, now),
        r is Ok ==> *final(comp) == final_commit_post(
            *old(comp),
            state_root,
            winner_pubkey,
            winner_profit,
            now,
        ),
        r is Ok ==> r->Ok_0@ == hex_render(state_root@),
        r is Err ==> *final(comp) == *old(comp) && r == Err::<String, CompetitionError>(
            final_commit_err(*old(comp), caller, er_instance, now),
        ),
        old(comp).phase.rank() <= final(comp).phase.rank(),
        competition_step(*old(comp), *final(comp)),
        old(comp).wf() ==> final(comp).wf(),
{
    if caller != comp.authority {
        return Err(CompetitionError::Unauthorized);
    }
    if comp.phase != CompetitionPhase::Active {
        return Err(CompetitionError::NotActive);
    }
    if er_instance != comp.er_instance {
        return Err(CompetitionError::Unauthorized);
    }
    if now < comp.end_time {
        return Err(CompetitionError::NotEnded);
    }
    comp.state_root = state_root;
    comp.winner = winner_pubkey;
    comp.winner_profit = winner_profit;
    comp.phase = CompetitionPhase::Finalizing;
    comp.challenge_deadline = now + CHALLENGE_WINDOW;
    proof {
        assert(final_commit_allowed(*old(comp), caller, er_instance, now));
    }
    Ok(encode_state_root(&comp.state_root))
}

/// Close the challenge window: advance `Finalizing` to `Settled`.
///
/// Exactly the requests `settle_allowed` admits succeed; any rejection
/// leaves the competition untouched, and settling a settled competition
/// is such a rejection.
pub fn settle_competition(comp: &mut Competition, caller: u64, now: i64) -> (r: Result<
    (),
    CompetitionError,
>)
    ensures
        r is Ok <==> settle_allowed(*old(comp), caller, now),
        r is Ok ==> *final(comp) == settle_post(*old(comp)),
        r is Err ==> *final(comp) == *old(comp) && r == Err::<(), CompetitionError>(
            settle_err(*old(comp), caller, now),
        ),
        old(comp).phase.rank() <= final(comp).phase.rank(),
        competition_step(*old(comp), *final(comp)),
        old(comp).wf() ==> final(comp).wf(),
{
    if caller != comp.authority {
        return Err(CompetitionError::Unauthorized);
    }
    if comp.phase != CompetitionPhase::Finalizing {
        return Err(CompetitionError::NotActive);
    }
    if now < comp.challenge_deadline {
        return Err(CompetitionError::NotEnded);
    }
    comp.phase = CompetitionPhase::Settled;
    proof {
        assert(settle_allowed(*old(comp), caller, now));
    }
    Ok(())
}

/// Settlement happens at most once: after an accepted settlement no
/// later request is admitted, whoever makes it and whenever.
pub proof fn lemma_settle_exactly_once(
    c: Competition,
    caller: u64,
    now: i64,
    later_caller: u64,
    later: i64,
)
    requires
        settle_allowed(c, caller, now),
    ensures
        !settle_allowed(settle_post(c), later_caller, later),
{
}

/// A second settlement request by the authority reports a phase
/// violation, not a time violation: the competition is already settled.
pub proof fn lemma_second_settle_rejected(c: Competition, caller: u64, now: i64, later: i64)
    requires
        settle_allowed(c, caller, now),
    ensures
        settle_err(settle_post(c), caller, later) == CompetitionError::NotActive,
{
}

} // verus!
