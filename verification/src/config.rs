//! Relay tunables.

use vstd::prelude::*;

verus! {

/// Time allowed for the upstream dial when nothing else is configured, in milliseconds.
pub const DEFAULT_DIAL_TIMEOUT_MS: u64 = 15_000;

/// Size of a direction's transfer buffer when nothing else is configured, in bytes.
pub const DEFAULT_BUFFER_SIZE: usize = 1024;

/// The parameters of a relay that are not addresses.
#[derive(Clone, Copy, Debug, PartialEq, Eq)]
pub struct RelayConfig {
    /// Upper bound on the time one upstream dial may take, in milliseconds.
    pub dial_timeout_ms: u64,
    /// Largest number of bytes one read may return.
    pub buffer_size: usize,
}

impl RelayConfig {
    /// A configuration with the given dial timeout and buffer size.
    pub fn new(dial_timeout_ms: u64, buffer_size: usize) -> (r: RelayConfig)
        ensures
            r == (RelayConfig { dial_timeout_ms, buffer_size }),
    {
        RelayConfig { dial_timeout_ms, buffer_size }
    }
}

impl Default for RelayConfig {
    /// The stock configuration: a 15 second dial timeout and a 1024 byte buffer.
    fn default() -> (r: RelayConfig)
        ensures
            r == (RelayConfig {
                dial_timeout_ms: DEFAULT_DIAL_TIMEOUT_MS,
                buffer_size: DEFAULT_BUFFER_SIZE,
            }),
    {
        RelayConfig { dial_timeout_ms: DEFAULT_DIAL_TIMEOUT_MS, buffer_size: DEFAULT_BUFFER_SIZE }
    }
}

} // verus!
