//! A registry-and-factory for trading pairs.
//!
//! The factory tracks a configuration (an owner and two code templates),
//! accepts requests to create a trading pair for an unordered pair of
//! assets, and commits the pair to a canonical registry only once the
//! host delivers the acknowledgment of the dispatched instantiation.
//! The host environment (message delivery, persistence, address
//! canonicalization, the actual sub-message dispatch) sits outside this
//! crate; the core here is a state machine over plain values, and every
//! entry point carries a contract pinning its result.

pub mod ack;
pub mod asset;
pub mod contract;
pub mod error;
pub mod laws;
pub mod lex;
pub mod msgs;
pub mod pair_key;
pub mod state;
pub mod store;
pub mod util;
