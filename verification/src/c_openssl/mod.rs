//! The TLS side: configurations, contexts and sessions of libssl.

pub mod adapter;
pub mod ctx;
pub mod error;
pub mod session;
