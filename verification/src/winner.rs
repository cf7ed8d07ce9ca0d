//! Clearance for reward issuance: the winner's artifact is produced
//! outside the core, but it may only be prepared once the competition is
//! settled and for the committed winner's own position.

use vstd::prelude::*;

use crate::competition::Competition;
use crate::competition::CompetitionError;
use crate::competition::CompetitionPhase;
use crate::competition::Position;
use crate::events::WinnerNftMinted;

verus! {

/// The rejection an issuance request meets, if any: only the authority,
/// only once settled, only with a committed winner, and only for that
/// winner's position.
pub open spec fn mint_error(comp: Competition, winner_position: Position, caller: u64) -> Option<
    CompetitionError,
> {
    if caller != comp.authority {
        Some(CompetitionError::Unauthorized)
    } else if !(comp.phase is Settled) {
        Some(CompetitionError::NotActive)
    } else if comp.winner == 0 {
        Some(CompetitionError::NoWinner)
    } else if winner_position.user != comp.winner {
        Some(CompetitionError::Unauthorized)
    } else {
        None
    }
}

/// Clear the winner's reward artifact for issuance and return the record
/// to emit with it. The artifact itself is produced outside the core;
/// this is the only path that approves reading the final state for it.
pub fn mint_winner_nft(
    comp: &Competition,
    winner_position: &Position,
    caller: u64,
    nft_mint: u64,
    now: i64,
) -> (r: Result<WinnerNftMinted, CompetitionError>)
    requires
        winner_position.current_value <= i128::MAX,
        winner_position.initial_value <= i128::MAX,
    ensures
        r is Err <==> mint_error(*comp, *winner_position, caller) is Some,
        r is Err ==> r == Err::<WinnerNftMinted, CompetitionError>(
            mint_error(*comp, *winner_position, caller)->Some_0,
        ),
        r is Ok ==> r == Ok::<WinnerNftMinted, CompetitionError>(
            WinnerNftMinted {
                winner: winner_position.user,
                competition: winner_position.competition,
                nft_mint: nft_mint,
                profit: (winner_position.current_value - winner_position.initial_value) as i128,
                timestamp: now,
            },
        ),
{
    if caller != comp.authority {
        return Err(CompetitionError::Unauthorized);
    }
    if comp.phase != CompetitionPhase::Settled {
        return Err(CompetitionError::NotActive);
    }
    if comp.winner == 0 {
        return Err(CompetitionError::NoWinner);
    }
    if winner_position.user != comp.winner {
        return Err(CompetitionError::Unauthorized);
    }
    let profit = winner_position.profit();
    Ok(
        WinnerNftMinted {
            winner: winner_position.user,
            competition: winner_position.competition,
            nft_mint: nft_mint,
            profit: profit,
            timestamp: now,
        },
    )
}

} // verus!
