//! The asynchronous client.

pub mod proxy;
