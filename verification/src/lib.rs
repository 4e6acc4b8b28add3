//! Verified rules of two small account-based programs: a bounded data
//! record and a two-player tic-tac-toe match.
//!
//! Every function in this crate is checked by Verus against the contract
//! written on it. The crate holds the rules only; storing records and
//! authenticating players is left to the host.

pub mod hello_anchor;
pub mod tic_tac_toe;
