//! Initialization phase of a two-party token-swap escrow.
//!
//! The crate has two halves. `state` holds the escrow record and its fixed
//! 105-byte wire encoding; `processor` holds the initialization transition,
//! which validates the caller-supplied accounts, fills the record, and
//! describes the custody hand-over that the runtime must perform. Calls into
//! the Solana SDK (the token program's address, the derived custody
//! authority, the rent oracle) sit behind the trusted declarations in
//! `solana`.

pub mod error;
pub mod instruction;
pub mod processor;
pub mod solana;
pub mod state;
