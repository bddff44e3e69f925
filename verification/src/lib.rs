//! State-transition core of a minimal token ledger.
//!
//! An owner is recorded once at initialization; after that the ledger
//! supports deposits via `Transfer` (the declared amount is split between
//! two destination principals), owner-independent `Withdraw` (which emits
//! an outgoing payment instruction), and read-only queries. The ledger
//! store is an explicit value handed into every operation; the host that
//! persists it and moves real value is outside this crate.

pub mod contract;
pub mod error;
pub mod laws;
pub mod msg;
pub mod state;
