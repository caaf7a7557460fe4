use vstd::prelude::*;

verus! {

/// What was wrong with an answer of the broker.
#[derive(Debug, Clone, Copy, PartialEq, Eq)]
pub enum ProtocolFault {
    /// The login response holds no `URL` key.
    MissingUrl,
    /// The login URL does not parse as a URL.
    InvalidUrl,
    /// The login URL has no `state` query parameter.
    MissingState,
    /// The redemption response lacks a field of the credential, or holds one
    /// of the wrong type.
    MalformedCredential,
}

/// Why a handshake attempt ended without a credential. Every error is
/// terminal for the attempt.
#[derive(Debug, Clone, PartialEq, Eq)]
pub enum HandshakeError {
    /// The network failed: DNS, connection, timeout, unreadable body.
    Transport(String),
    /// The broker answered with something malformed or incomplete.
    Protocol(ProtocolFault),
    /// The browser could not be launched.
    Environment(String),
    /// The caller aborted the handshake.
    Cancelled,
}

impl ProtocolFault {
    /// A sentence for the user.
    pub fn describe(&self) -> (r: &'static str)
        ensures
            r@ == match self {
                ProtocolFault::MissingUrl => "the broker's login response has no URL"@,
                ProtocolFault::InvalidUrl => "the broker's login URL is not a valid URL"@,
                ProtocolFault::MissingState => "the broker's login URL has no state parameter"@,
                ProtocolFault::MalformedCredential => "the broker's credential is incomplete or mistyped"@,
            },
    {
        match self {
            ProtocolFault::MissingUrl => "the broker's login response has no URL",
            ProtocolFault::InvalidUrl => "the broker's login URL is not a valid URL",
            ProtocolFault::MissingState => "the broker's login URL has no state parameter",
            ProtocolFault::MalformedCredential => "the broker's credential is incomplete or mistyped",
        }
    }
}

impl HandshakeError {
    /// The kind of error, for the user.
    pub fn kind(&self) -> (r: &'static str)
        ensures
            r@ == match self {
                HandshakeError::Transport(_) => "transport error"@,
                HandshakeError::Protocol(_) => "protocol error"@,
                HandshakeError::Environment(_) => "environment error"@,
                HandshakeError::Cancelled => "cancelled"@,
            },
    {
        match self {
            HandshakeError::Transport(_) => "transport error",
            HandshakeError::Protocol(_) => "protocol error",
            HandshakeError::Environment(_) => "environment error",
            HandshakeError::Cancelled => "cancelled",
        }
    }
}

} // verus!
