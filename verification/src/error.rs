//! The failures of the bridge that its callers tell apart.

use vstd::prelude::*;

verus! {

/// Why a datagram gave no reading.
#[derive(Debug, Clone, Copy, PartialEq, Eq, Structural)]
pub enum CodecError {
    /// The message is not UTF-8 text.
    EncodingError,
    /// The text is not JSON, or is JSON of neither kind of reading.
    DecodeError,
}

/// Why a start failed. Only these failures reach whoever asked for the
/// start; every other failure stays inside the stage it happened in.
#[derive(Debug)]
pub enum StartupError {
    /// The local socket could not be bound.
    BindError { address: String, cause: String },
    /// The broker could not be reached, or turned the connection down.
    ConnectError { server_uri: String, cause: String },
}

} // verus!
