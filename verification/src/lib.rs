//! A resilient query layer for two unreliable upstream chain endpoints.
//!
//! The core primitive is the stubborn retry: a fallible query is repeated
//! until it succeeds, with one diagnostic entry and one fixed-length
//! suspension per failed attempt, and no error path exposed to the caller.
//! The query endpoints, the diagnostic sink and the delay are capabilities
//! owned by the caller; this crate only decides what to do with each
//! response and proves exactly how the returned value, the diagnostics and
//! the suspensions relate to the sequence of underlying responses.

pub mod account;
pub mod chain_id;
pub mod cli;
pub mod clients;
pub mod error;
pub mod messages;
pub mod observe;
pub mod operations;
pub mod retry;
