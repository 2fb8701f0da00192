//! What can go wrong, by kind. None of these ends the process: each hands
//! control back to the prompt.

use vstd::prelude::*;

verus! {

/// A failure to reach the server. The variants are the causes; callers treat
/// them all alike: the request is abandoned and the user is told.
#[derive(Debug, Clone, PartialEq, Eq)]
pub enum TransportError {
    /// The target's scheme is not the secure one.
    UnsupportedScheme,
    /// The target names no host.
    MissingHost,
    /// The plain connection could not be opened; the text is the cause.
    ConnectionFailed(String),
    /// The connection was opened but the TLS handshake failed; the text is
    /// the cause.
    HandshakeFailed(String),
}

/// A payload that could not be turned into an entity.
#[derive(Debug, Clone, Copy, PartialEq, Eq, Structural)]
pub enum DecodeError {
    /// The payload is not JSON.
    Malformed,
    /// The payload is JSON of another shape than the entity's.
    SchemaMismatch,
}

/// A command that the navigation state does not admit.
#[derive(Debug, Clone, Copy, PartialEq, Eq, Structural)]
pub enum NavigationError {
    /// The page asked for lies before the first or past the last one.
    OverIndex,
    /// The command has no meaning in the current mode or state.
    InvalidForMode,
}

/// Why a fetch brought nothing.
#[derive(Debug, Clone, PartialEq, Eq)]
pub enum FetchError {
    Transport(TransportError),
    Decode(DecodeError),
}

/// Any failure that the client reports to its user.
#[derive(Debug, Clone, PartialEq, Eq)]
pub enum AppError {
    Transport(TransportError),
    Decode(DecodeError),
    Navigation(NavigationError),
    /// Something was asked of the cache that it does not hold.
    CacheMiss,
}

/// What a transport failure tells the user: a fixed sentence for a target
/// that was refused, the cause for a connection or handshake that failed.
pub open spec fn transport_message(failure: TransportError) -> Seq<char> {
    match failure {
        TransportError::UnsupportedScheme => "only works with https"@,
        TransportError::MissingHost => "missing host"@,
        TransportError::ConnectionFailed(cause) => cause@,
        TransportError::HandshakeFailed(cause) => cause@,
    }
}

impl TransportError {
    /// What the failure tells the user.
    pub fn message(&self) -> (text: String)
        ensures
            text@ == transport_message(*self),
    {
        match self {
            TransportError::UnsupportedScheme => String::from_str("only works with https"),
            TransportError::MissingHost => String::from_str("missing host"),
            TransportError::ConnectionFailed(cause) => cause.clone(),
            TransportError::HandshakeFailed(cause) => cause.clone(),
        }
    }
}

impl FetchError {
    /// The same failure as an [`AppError`].
    pub open spec fn as_app_error(self) -> AppError {
        match self {
            FetchError::Transport(e) => AppError::Transport(e),
            FetchError::Decode(e) => AppError::Decode(e),
        }
    }

    /// The same failure as an [`AppError`].
    pub fn into_app_error(self) -> (e: AppError)
        ensures
            e == self.as_app_error(),
    {
        match self {
            FetchError::Transport(e) => AppError::Transport(e),
            FetchError::Decode(e) => AppError::Decode(e),
        }
    }
}

} // verus!
