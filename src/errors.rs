//! The kinds of failure of this library and of the transport around it.

use vstd::prelude::*;

verus! {

/// Why a client configuration was refused, before any request was made.
#[derive(Debug, Clone, Copy, PartialEq, Eq, Structural)]
pub enum ConfigurationError {
    /// The token does not have exactly 20 characters; holds its length.
    TokenLength(usize),
    /// The host starts with `.`.
    HostStartsWithDot,
    /// The host ends with `.`.
    HostEndsWithDot,
    /// The base URL built from the scheme, host and port does not parse.
    InvalidUrl,
    /// The base URL parses, but its host is not the one that was given.
    HostMismatch,
}

/// A failure of this library or of the transport around it.
#[derive(Debug, Clone)]
pub enum Error {
    /// An invalid host, token, scheme or port; no request was made.
    Configuration(ConfigurationError),
    /// The request could not be sent; holds the transport's message.
    Transport(String),
    /// The server answered with a status other than success.
    Status(u16),
    /// The body did not match the expected schema; holds the raw body.
    Decode(String),
    /// A search ended without a match; holds what was looked for.
    NotFound(String),
}

} // verus!
