//! A channel-authenticated relay library.
//!
//! The library holds the verified core of a gatekeeping relay: a read-only
//! registry of named channels, credential checking, construction of the
//! backend wire payloads (text message body and document form) under a hard
//! size limit and a fixed order of checks, and classification of the
//! backend's HTTP response into the caller-visible error taxonomy.
//!
//! All network and file plumbing lives outside the library; the functions
//! here go from plain values to plain values and carry full contracts.

pub mod common;
pub mod config;
pub mod error;
pub mod relay;
