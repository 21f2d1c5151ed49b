//! An order-settlement engine: callers deposit an offer asset and a fee,
//! submit an order against an exchange pool, and the engine later settles the
//! order by emitting a swap instruction and distributing proceeds, excess and
//! fees. Recurring orders reinvest their proceeds into a successor order,
//! alternating conversion direction, until their legs are exhausted.
//!
//! The library is pure: every operation is a function from the engine state
//! and plain input values to a new state plus the instructions to emit. The
//! host that persists state, performs pool queries and dispatches the emitted
//! instructions lives outside the library.

pub mod adapter;
pub mod asset;
pub mod config;
pub mod contract;
pub mod engine;
pub mod laws;
pub mod ledger;
pub mod msg;
pub mod order;
pub mod query;

pub use asset::Asset;
pub use asset::AssetKind;
pub use asset::Coin;
pub use config::Config;
pub use order::Order;
pub use order::Recurring;
