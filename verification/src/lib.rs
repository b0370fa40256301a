//! A single-asset dividend-escrow state machine.
//!
//! One party deposits a fixed pool of a fungible asset together with a list of
//! beneficiaries ("holders") and a release date; after that date the pool
//! becomes claimable according to the recorded allocation. The state machine
//! here owns the persisted escrow record and the single-shot initialization
//! flag; moving actual balances is delegated to an external token service
//! reached through the narrow [`gateway::TokenGateway`] capability.

pub mod asset;
pub mod errors;
pub mod escrow;
pub mod gateway;
pub mod laws;
