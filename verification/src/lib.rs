//! Core of a timed trading competition.
//!
//! Participants hold a synthetic balance and trade against an oracle price
//! while write authority for their positions is delegated to a fast
//! execution venue; results are brought back through a
//! commit / challenge-window / settle handshake before any reward is read.

pub mod competition;
pub mod delegation;
pub mod events;
pub mod finality;
pub mod oracle;
pub mod ledger;
pub mod math;
pub mod phase;
pub mod trade;
pub mod winner;
