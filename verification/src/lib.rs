//! A verified multisig custody engine: a fixed set of owner identities
//! collectively authorizes actions under an N-of-M approval threshold, with
//! replay protection, expiration, rate limiting and a separate higher
//! threshold for administrative self-amendments.
//!
//! The host ledger runtime (signature verification, account storage, the
//! clock) is an external collaborator: callers verify the signer, read the
//! clock and derive account addresses, and hand the results in as plain
//! values. Every state transition here is a total function from the old
//! state and those values to either the new state plus an event, or a typed
//! error with the state unchanged.

pub mod admin;
pub mod codec;
pub mod errors;
pub mod events;
pub mod helpers;
pub mod laws;
pub mod multisig;
pub mod state;
pub mod transaction;
