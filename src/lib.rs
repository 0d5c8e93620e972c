//! A read-only access layer over a partition-key / sort-key document store.
//!
//! Records are decoded from the store's untyped attribute maps, looked up by
//! their composite key, and listed through a secondary index on their
//! classification. The store itself is reached by the caller: this library
//! builds the requests, and turns the store's replies into typed records.
pub mod attr;
pub mod error;
pub mod number;
pub mod record;
pub mod access;
pub mod dispatch;
