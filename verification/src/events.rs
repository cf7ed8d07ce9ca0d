//! Records returned by operations for eventing. They notify observers and
//! are never required for correctness of the core state.

use vstd::prelude::*;

verus! {

/// Emitted after every applied trade.
#[derive(Clone, Copy, Debug, PartialEq, Eq, Structural)]
pub struct TradeExecuted {
    pub user: u64,
    pub competition: u64,
    pub timestamp: i64,
    pub is_buy: bool,
    pub amount_u64: u64,
    pub new_balance: u128,
    pub new_current_value: u128,
    /// Derived profit of the mutated position; never stored anywhere.
    pub new_profit: i128,
    /// Raw oracle price the trade was valued with, narrowed for eventing.
    pub price_used: i64,
}

/// Emitted when the winner's reward artifact is cleared for issuance.
#[derive(Clone, Copy, Debug, PartialEq, Eq, Structural)]
pub struct WinnerNftMinted {
    pub winner: u64,
    pub competition: u64,
    pub nft_mint: u64,
    pub profit: i128,
    pub timestamp: i64,
}

/// Emitted when a participant's final state is committed back to the
/// durable ledger and the fast venue's authority over it is revoked.
#[derive(Clone, Copy, Debug, PartialEq, Eq, Structural)]
pub struct UserUndelegated {
    pub user: u64,
    pub competition: u64,
    pub final_pnl: i128,
    pub timestamp: i64,
}

} // verus!
