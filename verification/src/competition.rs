//! Data model: the competition record, per-participant positions, the
//! oracle snapshot, and the error taxonomy shared by every operation.

use vstd::prelude::*;

verus! {

/// Synthetic capital every participant starts with (6-decimal units).
pub const INITIAL_CAPITAL: u128 = 1_000_000_000_000;

/// Smallest accepted trade size (6-decimal units).
pub const MIN_TRADE_AMOUNT: u64 = 100_000;

/// Oracle snapshots older than this many seconds are rejected.
pub const MAX_PRICE_AGE: i64 = 15;

/// Challenge window opened by a final commit, in seconds.
pub const CHALLENGE_WINDOW: i64 = 300;

/// Provisional challenge window recorded at creation, in seconds;
/// a final commit replaces it with `CHALLENGE_WINDOW` past the commit time.
pub const PROVISIONAL_CHALLENGE_WINDOW: i64 = 3600;

/// Fixed-point scale shared by balances and normalized prices: 10^6.
pub const PRICE_SCALE: u128 = 1_000_000;

/// Lifecycle phase of a competition. Phases only ever advance.
#[derive(Clone, Copy, Debug, PartialEq, Eq, Structural)]
pub enum CompetitionPhase {
    Upcoming,
    /// Trading is open.
    Active,
    /// A final state was committed; the challenge window is open.
    Finalizing,
    /// The challenge window closed; results are final.
    Settled,
}

impl CompetitionPhase {
    /// Numeric rank of a phase; every transition increases it.
    pub open spec fn rank(self) -> int {
        match self {
            CompetitionPhase::Upcoming => 0,
            CompetitionPhase::Active => 1,
            CompetitionPhase::Finalizing => 2,
            CompetitionPhase::Settled => 3,
        }
    }
}

/// One timed trading run: identities it trusts, its time gates, and the
/// write-once finalization fields.
#[derive(Clone, Copy, Debug)]
pub struct Competition {
    /// Admin identity; the only caller phase transitions accept.
    pub authority: u64,
    /// Identifier of the collateral asset.
    pub usdc_mint: u64,
    /// Identifier of the fast execution venue holding delegated authority.
    pub er_instance: u64,
    /// Identifier of the price source record.
    pub mock_price_pda: u64,
    pub start_time: i64,
    pub end_time: i64,
    pub phase: CompetitionPhase,
    /// Digest of the venue's final ledger; all zero until committed.
    pub state_root: [u8; 32],
    /// Winner identity; zero until committed.
    pub winner: u64,
    pub winner_profit: i128,
    /// Time at which `settle_competition` becomes allowed.
    pub challenge_deadline: i64,
    /// Derivation metadata for the record's deterministic address.
    pub bump: u8,
}

impl Competition {
    /// Structural soundness of a competition record: the run has positive
    /// length and its timestamps are ordinary (non-negative) clock values.
    pub open spec fn wf(self) -> bool {
        &&& 0 <= self.start_time < self.end_time
        &&& self.end_time <= self.challenge_deadline
    }
}

/// A participant's synthetic balance and portfolio value in one competition.
///
/// Profit is always derived from `current_value` and `initial_value`,
/// never stored.
#[derive(Clone, Copy, Debug, PartialEq, Eq, Structural)]
pub struct Position {
    /// Identifier of the owning competition record.
    pub competition: u64,
    /// Participant identity.
    pub user: u64,
    /// Identifier of the participant's delegated collateral account.
    pub usdc_ata: u64,
    /// Synthetic spendable balance (6-decimal units).
    pub usdc_balance: u128,
    /// Portfolio value at registration (6-decimal units).
    pub initial_value: u128,
    /// Portfolio value now (6-decimal units).
    pub current_value: u128,
    /// Derivation metadata for the record's deterministic address.
    pub bump: u8,
}

impl Position {
    /// Balance soundness: positions are created with the fixed initial
    /// capital on both sides, and trades move value between the two sides
    /// without creating or destroying any, so their sum never drifts.
    pub open spec fn wf(self) -> bool {
        &&& self.initial_value == INITIAL_CAPITAL
        &&& self.usdc_balance + self.current_value == 2 * INITIAL_CAPITAL
    }

    /// Profit as a mathematical integer: portfolio value gained since
    /// registration. Negative when the participant lost value.
    pub open spec fn spec_profit(self) -> int {
        self.current_value - self.initial_value
    }

    /// Derived profit. The result is exactly `current_value - initial_value`;
    /// nothing is read from storage besides the two value fields.
    pub fn profit(&self) -> (r: i128)
        requires
            self.current_value <= i128::MAX,
            self.initial_value <= i128::MAX,
        ensures
            r == self.spec_profit(),
    {
        self.current_value as i128 - self.initial_value as i128
    }
}

/// Oracle price record: a scaled price, its power-of-ten exponent, and the
/// time it was observed.
#[derive(Clone, Copy, Debug, PartialEq, Eq, Structural)]
pub struct MockPriceAccount {
    /// Scaled price; `expo` gives the scale.
    pub price: u128,
    /// Power-of-ten exponent of `price` (e.g. -8 for 10^-8 units).
    pub expo: i32,
    /// Unix time the price was observed.
    pub timestamp: i64,
    /// Derivation metadata for the record's deterministic address.
    pub bump: u8,
}

impl MockPriceAccount {
    /// Overwrite the stored price with a fresh observation taken `now`.
    pub fn update_price(&mut self, new_price: u128, new_expo: i32, now: i64)
        ensures
            *final(self) == (MockPriceAccount {
                price: new_price,
                expo: new_expo,
                timestamp: now,
                bump: old(self).bump,
            }),
    {
        self.price = new_price;
        self.expo = new_expo;
        self.timestamp = now;
    }
}

/// Everything an operation can reject with. Every rejection aborts the whole
/// operation; no record is partially mutated.
#[derive(Clone, Copy, Debug, PartialEq, Eq, Structural)]
pub enum CompetitionError {
    /// The competition's phase forbids the operation.
    NotActive,
    /// The oracle record could not be used.
    InvalidPriceFeed,
    /// The oracle snapshot is older than `MAX_PRICE_AGE`.
    StalePrice,
    /// Caller or venue identity does not match the competition record.
    Unauthorized,
    /// A time gate has not opened yet (or has already closed).
    NotEnded,
    /// Finalization was queried before any winner was committed.
    NoWinner,
    /// A position already exists for this participant.
    UserAlreadyRegistered,
    /// The position's authority is not with the fast venue.
    AccountNotDelegated,
    /// A balance or value would go negative, or the trade is too small.
    InsufficientFunds,
    /// Checked arithmetic overflowed or a division failed.
    CalculationError,
}

} // verus!
