//! Message codec, builders, error translation and session logic for Busmust
//! CAN / CAN-FD transceivers, plus the register-bus session rules of the
//! Digilent Adept interface.

pub mod bits;
pub mod types;
pub mod codec;
pub mod error;
pub mod dmgr;
pub mod builders;
pub mod adept;
pub mod depp;
pub mod djtag;
