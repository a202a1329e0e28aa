//! Bookkeeping for crowdfunding campaigns whose records live at addresses
//! derived from their title and creator.
//!
//! The host that stores records, moves funds and tells the time stays outside:
//! every operation takes what the host observed as plain values and says what
//! the record becomes.

pub mod identity;
pub mod derivation;
pub mod error;
pub mod ledger;
pub mod transfer;
pub mod creation;
pub mod investment;
pub mod laws;
