//! Reaching an origin server through an HTTP or HTTPS proxy.
//!
//! The crate holds the decisions of the proxy path of an HTTP client, verified
//! with Verus. It performs no I/O: every function that needs the outside world
//! returns the work to be done next (a socket to open, bytes to write, a TLS
//! handshake to run, a libssl call to make) and takes back what came of it.

pub mod async_impl;
pub mod c_openssl;
pub mod config;
pub mod error;
pub mod octets;
pub mod proxy;
pub mod sync_impl;
pub mod tunnel;
