//! Fee governance for a permissioned ledger: a price oracle that caches the
//! exchange rate between the native token and a fiat currency, and a fee
//! filter that prices a fixed catalogue of operations in fiat and charges
//! the submitter in native token.

pub mod abi;
pub mod balances;
pub mod common;
pub mod dispatch;
pub mod fiat_filter;
pub mod mock;
pub mod price_feed;
pub mod rpc;
