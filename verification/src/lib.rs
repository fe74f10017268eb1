//! A covered-option agreement as a verified state machine.
//!
//! One party (the creator) locks collateral and offers an option. The
//! rights-holder (the owner, initially the creator) may transfer the option,
//! exercise it by paying the recorded counter-offer before the expiration
//! height, or — once expired and unexercised — anyone may burn it, returning
//! the collateral to the creator.
//!
//! The state machine itself lives here and is verified: its record, its
//! transition guards, and the settlement instructions it authorizes. Storage,
//! message (de)serialization and host wiring are left to the surrounding
//! runtime, which hands the machine a caller identity, attached funds and the
//! current ledger height as plain values.

pub mod contract;
pub mod error;
pub mod funds;
pub mod laws;
pub mod msg;
pub mod state;
