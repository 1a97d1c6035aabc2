//! Typed helpers for a decentralized-exchange data API.
//!
//! The crate holds the parts of a client that can be stated and proved:
//! the parameter builder, the response cache and the request pipeline's
//! decisions, the decoding of JSON documents into typed records, and the
//! filters, orderings and summaries over those records. Network transport
//! and binary floating-point arithmetic live with the caller; numbers are
//! carried here as IEEE-754 bit patterns, which is enough to order them.

pub mod float;
pub mod text;
pub mod params;
pub mod assoc;
pub mod json;
pub mod records;
pub mod decode;
pub mod error;
pub mod time;
pub mod cache;
pub mod request;
pub mod endpoints;
pub mod batch;
pub mod filter;
pub mod sort;
pub mod extract;
pub mod metrics;
pub mod analysis;
pub mod address;
pub mod format;
