//! A minimal single-unit token ledger.
//!
//! The library keeps "mint" and "account" records in fixed-length binary
//! storage slots supplied by a host, and applies three instructions to them:
//! create a mint, create a holding account, and transfer the single unit of
//! value between two holding accounts. Each record codec, the instruction
//! codec, and the processor's state transitions carry full contracts.

pub mod error;
pub mod instructions;
pub mod laws;
pub mod processor;
pub mod state;
