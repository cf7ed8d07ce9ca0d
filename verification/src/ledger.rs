//! The durable position ledger: an explicit indexed store of positions for
//! one competition, keyed by participant identity, carrying for each
//! position the side that currently holds write authority for it.

use vstd::prelude::*;

use crate::competition::CompetitionError;
use crate::competition::Position;
use crate::competition::INITIAL_CAPITAL;

verus! {

/// A stored position together with its authority bit: while `delegated`
/// is set, the fast venue holds write authority; otherwise the durable
/// ledger does. At no time do both sides hold it.
#[derive(Clone, Copy, Debug, PartialEq, Eq, Structural)]
pub struct PositionEntry {
    pub position: Position,
    pub delegated: bool,
}

/// Positions of one competition, keyed by participant identity.
pub struct PositionLedger {
    /// Identifier of the competition every stored position belongs to.
    pub competition: u64,
    pub entries: Vec<PositionEntry>,
}

/// The record a participant is registered with: the fixed initial capital
/// on both the balance and the value side.
pub open spec fn fresh_position(competition: u64, user: u64, usdc_ata: u64, bump: u8) -> Position {
    Position {
        competition: competition,
        user: user,
        usdc_ata: usdc_ata,
        usdc_balance: INITIAL_CAPITAL,
        initial_value: INITIAL_CAPITAL,
        current_value: INITIAL_CAPITAL,
        bump: bump,
    }
}

/// Outcome of applying one signed value movement to a position, with the
/// checked-arithmetic rejections in the order the engine tests them.
/// A buy spends balance and gains value; a sell does the opposite.
pub open spec fn apply_result(p: Position, trade_value: u128, is_buy: bool) -> Result<
    Position,
    CompetitionError,
> {
    if is_buy {
        if p.usdc_balance < trade_value {
            Err(CompetitionError::InsufficientFunds)
        } else if p.current_value + trade_value > u128::MAX {
            Err(CompetitionError::CalculationError)
        } else {
            Ok(Position {
                usdc_balance: (p.usdc_balance - trade_value) as u128,
                current_value: (p.current_value + trade_value) as u128,
                ..p
            })
        }
    } else {
        if p.usdc_balance + trade_value > u128::MAX {
            Err(CompetitionError::CalculationError)
        } else if p.current_value < trade_value {
            Err(CompetitionError::InsufficientFunds)
        } else {
            Ok(Position {
                usdc_balance: (p.usdc_balance + trade_value) as u128,
                current_value: (p.current_value - trade_value) as u128,
                ..p
            })
        }
    }
}

impl Position {
    /// Move `trade_value` between the balance side and the value side,
    /// using checked arithmetic only; a rejection leaves nothing applied.
    /// This is the only mutation path for balances.
    ///
    /// A successful application conserves `usdc_balance + current_value`
    /// exactly: value is moved, never created or destroyed.
    pub fn apply(&self, trade_value: u128, is_buy: bool) -> (r: Result<
        Position,
        CompetitionError,
    >)
        ensures
            r == apply_result(*self, trade_value, is_buy),
            r matches Ok(p) ==> p.usdc_balance + p.current_value == self.usdc_balance
                + self.current_value,
            r matches Ok(p) ==> p.initial_value == self.initial_value && p.user == self.user
                && p.competition == self.competition,
            r matches Ok(p) ==> (self.wf() ==> p.wf()),
    {
        if is_buy {
            let balance = match self.usdc_balance.checked_sub(trade_value) {
                Some(b) => b,
                None => {
                    return Err(CompetitionError::InsufficientFunds);
                },
            };
            let value = match self.current_value.checked_add(trade_value) {
                Some(v) => v,
                None => {
                    return Err(CompetitionError::CalculationError);
                },
            };
            Ok(Position { usdc_balance: balance, current_value: value, ..*self })
        } else {
            let balance = match self.usdc_balance.checked_add(trade_value) {
                Some(b) => b,
                None => {
                    return Err(CompetitionError::CalculationError);
                },
            };
            let value = match self.current_value.checked_sub(trade_value) {
                Some(v) => v,
                None => {
                    return Err(CompetitionError::InsufficientFunds);
                },
            };
            Ok(Position { usdc_balance: balance, current_value: value, ..*self })
        }
    }
}

/// Money is moved, never created or destroyed: every applied movement
/// leaves `usdc_balance + current_value` exactly as it was, and the two
/// sides, being unsigned, never go negative.
pub proof fn lemma_apply_conserves_funds(p: Position, trade_value: u128, is_buy: bool)
    ensures
        apply_result(p, trade_value, is_buy) matches Ok(q) ==> q.usdc_balance + q.current_value
            == p.usdc_balance + p.current_value,
        apply_result(p, trade_value, is_buy) matches Ok(q) ==> q.usdc_balance >= 0
            && q.current_value >= 0,
{
}

impl PositionLedger {
    /// Well-formed ledger: participants are unique, every position belongs
    /// to this competition, and every position's balances are sound.
    pub open spec fn wf(self) -> bool {
        &&& forall|i: int, j: int|
            0 <= i < j < self.entries.len() ==> #[trigger] self.entries[i].position.user
                != #[trigger] self.entries[j].position.user
        &&& forall|i: int|
            0 <= i < self.entries.len() ==> #[trigger] self.entries[i].position.competition
                == self.competition
        &&& forall|i: int| 0 <= i < self.entries.len() ==> #[trigger] self.entries[i].position.wf()
    }

    /// Whether a position exists for `user`.
    pub open spec fn has_user(self, user: u64) -> bool {
        exists|i: int| 0 <= i < self.entries.len() && #[trigger] self.entries[i].position.user == user
    }

    /// Index of the (unique) entry registered for `user`.
    pub open spec fn user_index(self, user: u64) -> int {
        choose|i: int| 0 <= i < self.entries.len() && #[trigger] self.entries[i].position.user == user
    }

    /// The entry registered for `user`; meaningful under `has_user`.
    pub open spec fn entry_for(self, user: u64) -> PositionEntry {
        self.entries[self.user_index(user)]
    }

    /// Whether the fast venue may mutate `user`'s position: it exists and
    /// its write authority is with the venue.
    pub open spec fn trade_permitted(self, user: u64) -> bool {
        self.has_user(user) && self.entry_for(user).delegated
    }

    /// In a well-formed ledger an entry whose participant matches is the
    /// entry `user_index` designates.
    pub proof fn lemma_user_index_is(self, user: u64, i: int)
        requires
            self.wf(),
            0 <= i < self.entries.len(),
            self.entries[i].position.user == user,
        ensures
            self.has_user(user),
            self.user_index(user) == i,
    {
        assert(self.has_user(user));
        let k = self.user_index(user);
        if k < i {
            assert(self.entries[k].position.user != self.entries[i].position.user);
        } else if k > i {
            assert(self.entries[i].position.user != self.entries[k].position.user);
        }
    }

    /// An empty ledger for one competition.
    pub fn new(competition: u64) -> (r: PositionLedger)
        ensures
            r.wf(),
            r.competition == competition,
            r.entries@.len() == 0,
    {
        PositionLedger { competition, entries: Vec::new() }
    }

    /// Index of the entry registered for `user`, if any.
    pub(crate) fn find_user(&self, user: u64) -> (r: Option<usize>)
        requires
            self.wf(),
        ensures
            match r {
                Some(i) => self.has_user(user) && i < self.entries.len() && i == self.user_index(
                    user,
                ),
                None => !self.has_user(user),
            },
    {
        let n = self.entries.len();
        let mut i: usize = 0;
        while i < n
            invariant
                self.wf(),
                n == self.entries.len(),
                i <= n,
                forall|j: int| 0 <= j < i ==> #[trigger] self.entries[j].position.user != user,
            decreases n - i,
        {
            if self.entries[i].position.user == user {
                proof {
                    self.lemma_user_index_is(user, i as int);
                }
                return Some(i);
            }
            i = i + 1;
        }
        None
    }

    /// The entry registered for `user`, if any.
    pub fn entry_of(&self, user: u64) -> (r: Option<PositionEntry>)
        requires
            self.wf(),
        ensures
            match r {
                Some(e) => self.has_user(user) && e == self.entry_for(user),
                None => !self.has_user(user),
            },
    {
        match self.find_user(user) {
            Some(i) => Some(self.entries[i]),
            None => None,
        }
    }

    /// Create a position for a new participant, funded with the fixed
    /// initial capital and handed to the fast venue at once. Rejected when
    /// one already exists; nothing is stored then.
    pub fn register(&mut self, user: u64, usdc_ata: u64, bump: u8) -> (r: Result<
        (),
        CompetitionError,
    >)
        requires
            old(self).wf(),
        ensures
            final(self).wf(),
            final(self).competition == old(self).competition,
            r is Ok <==> !old(self).has_user(user),
            r is Err ==> *final(self) == *old(self) && r == Err::<(), CompetitionError>(
                CompetitionError::UserAlreadyRegistered,
            ),
            r is Ok ==> final(self).entries@ == old(self).entries@.push(
                PositionEntry {
                    position: fresh_position(old(self).competition, user, usdc_ata, bump),
                    delegated: true,
                },
            ),
            r is Ok ==> final(self).trade_permitted(user),
    {
        match self.find_user(user) {
            Some(_) => Err(CompetitionError::UserAlreadyRegistered),
            None => {
                let position = Position {
                    competition: self.competition,
                    user: user,
                    usdc_ata: usdc_ata,
                    usdc_balance: INITIAL_CAPITAL,
                    initial_value: INITIAL_CAPITAL,
                    current_value: INITIAL_CAPITAL,
                    bump: bump,
                };
                let ghost pre = *self;
                self.entries.push(PositionEntry { position, delegated: true });
                proof {
                    let n = pre.entries.len() as int;
                    assert forall|i: int, j: int|
                        0 <= i < j < self.entries.len() implies #[trigger] self.entries[i].position.user
                        != #[trigger] self.entries[j].position.user by {
                        if j < n {
                            assert(pre.entries[i].position.user != pre.entries[j].position.user);
                        }
                    }
                    self.lemma_user_index_is(user, n);
                }
                Ok(())
            },
        }
    }

    /// Replace the entry at `i` with one for the same participant and
    /// competition; the store's shape and every other entry are unchanged.
    pub(crate) fn replace_at(&mut self, i: usize, e: PositionEntry)
        requires
            old(self).wf(),
            i < old(self).entries.len(),
            e.position.user == old(self).entries[i as int].position.user,
            e.position.competition == old(self).competition,
            e.position.wf(),
        ensures
            final(self).wf(),
            final(self).competition == old(self).competition,
            final(self).entries@ == old(self).entries@.update(i as int, e),
            final(self).has_user(e.position.user),
            final(self).user_index(e.position.user) == i,
            final(self).entry_for(e.position.user) == e,
    {
        self.entries[i] = e;
        proof {
            self.lemma_user_index_is(e.position.user, i as int);
        }
    }
}

} // verus!
