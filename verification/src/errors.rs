//! The failure kinds that every transport operation can surface.

use vstd::prelude::*;

verus! {

/// Everything a caller of this library can see go wrong.
///
/// Transport-level I/O failures and channel failures are folded into their
/// own variants by the unverified shell; the remaining variants are produced
/// by the verified logic itself.
#[derive(Clone, Copy, Debug, PartialEq, Eq, Structural)]
pub enum Error {
    /// No inherited session: a descriptor marker is absent or not a
    /// non-negative integer.
    NoSession,
    /// The worker pool was asked for with lists of different lengths.
    ArgumentMismatch,
    /// A response of zero bytes where a body was expected.
    EmptyResponse,
    /// Response bytes that are not valid UTF-8 text.
    DecodeError,
    /// Response text that is empty or not syntactically valid JSON.
    ParseError,
    /// A transport-level I/O failure (spawn, connect, read or write).
    Io,
    /// A send or receive against a channel whose other end is gone.
    ChannelClosed,
}

} // verus!
