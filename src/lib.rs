//! A tool registry and an escrow ledger for paid tool calls.
//!
//! `registry` holds the rules for tool metadata; `escrow` is the state
//! machine that locks a payer's funds, releases them to the provider, or
//! refunds them after expiry. Storage, messages and bank transfers are left
//! to the host: the functions here take plain values and return plain values.
pub mod error;
pub mod escrow;
pub mod registry;
