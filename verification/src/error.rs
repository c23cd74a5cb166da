use vstd::prelude::*;

verus! {

/// Errors of the send path.
#[derive(Debug)]
pub enum TpuCcError {
    /// RPC error.
    Rpc(String),
    /// The send window is exhausted: backpressure is active.
    WindowExhausted { window: usize, in_flight: usize },
    /// Connection to the TPU endpoint failed.
    Connection(String),
    /// Transaction serialization failed.
    Serialization(String),
    /// Invalid configuration.
    Config(String),
    /// Timeout after the given number of milliseconds.
    Timeout { ms: u64 },
}

/// Result type of the send path.
pub type TpuCcResult<T> = Result<T, TpuCcError>;

} // verus!
