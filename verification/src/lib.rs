//! The price-resolution core of an oracle aggregator, verified with Verus.
//!
//! An aggregator quotes a set of assets against one base asset. Each asset
//! is registered with the upstream source that prices it, the decimal
//! precision of that source and its sampling interval. A query for an
//! asset's last price
//!
//! 1. refuses a blocked asset, then an unregistered one;
//! 2. prices the base asset at one;
//! 3. brings the upstream observation to the aggregator's precision
//!    ([`decimals`]);
//! 4. holds it against the observation one sampling interval earlier
//!    ([`circuit_breaker`]), which rejects a price that moved too far and
//!    then stays tripped for a cooldown;
//! 5. caches and returns an accepted price, and otherwise answers from the
//!    cache while the cached price is at most five minutes old
//!    ([`price_cache`]).
//!
//! The library performs no I/O. The ledger's clock and the durable entries
//! live in a [`storage::Env`], and what the upstream source answered is
//! passed in as [`contract::Quotes`]; [`contract::source_for`] and
//! [`contract::reference_timestamp`] tell a caller what to ask. Every
//! function carries a contract over the mathematical view of its
//! arguments, and [`laws`] states what follows for the aggregator as a
//! whole.

pub mod errors;
pub mod types;
pub mod decimals;
pub mod circuit_breaker;
pub mod table;
pub mod storage;
pub mod registry;
pub mod price_cache;
pub mod contract;
pub mod laws;
pub mod testutils;
