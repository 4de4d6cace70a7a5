//! The synchronous client.

pub mod connector;
pub mod proxy;
