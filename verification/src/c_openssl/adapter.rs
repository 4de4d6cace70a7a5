//! TLS configurations.

use vstd::prelude::*;

verus! {

/// The TLS settings that a handshake uses.
#[derive(Clone, Copy, PartialEq, Eq, Structural, Debug)]
pub enum TlsConfig {
    /// The settings of a configuration that nothing was set on.
    Standard,
    /// The settings that this `SSL_CTX` holds.
    Context(usize),
}

impl Default for TlsConfig {
    fn default() -> (r: Self)
        ensures
            r == TlsConfig::Standard,
    {
        TlsConfig::Standard
    }
}

} // verus!
