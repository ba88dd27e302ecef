//! A minimal ledger model for upgradeable program deployment: accounts,
//! the loader's two-account layout (a program pointer plus a slot-versioned
//! payload), a simulated execution environment with slot-gated visibility of
//! program upgrades, and the one-instruction handler that logs a byte.

pub mod account;
pub mod codec;
pub mod errors;
pub mod handler;
pub mod laws;
pub mod ledger;
