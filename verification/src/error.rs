//! Error types for the client and the streaming subsystem.
//!
//! Errors coming from outside collaborators (the HTTP transport, JSON
//! decoding, the websocket layer, the operating system) are carried here as
//! their human-readable text; the surrounding application converts the
//! concrete foreign error values at the boundary.

use vstd::prelude::*;

verus! {

/// Errors raised by the market-data feed connection.
#[derive(Debug)]
pub enum DxFeedError {
    /// A connection to the feed could not be created.
    CreateConnectionError,
}

/// An inner, more specific error nested inside an [`ApiError`].
#[derive(Debug)]
pub struct InnerApiError {
    /// An optional machine-readable error code.
    pub code: Option<String>,
    /// A human-readable error message.
    pub message: String,
}

/// An error returned by the remote API.
#[derive(Debug)]
pub struct ApiError {
    /// An optional machine-readable error code.
    pub code: Option<String>,
    /// A human-readable error message.
    pub message: String,
    /// Optional nested errors with more detail.
    pub errors: Option<Vec<InnerApiError>>,
}

/// Errors that can occur within the client.
///
/// Variants that wrap a collaborator's concrete error value
/// (`Http`, `Json`, `WebSocket`, `Io`) carry that error's text here.
#[derive(Debug)]
pub enum TastyTradeError {
    /// An error returned by the remote API.
    Api(ApiError),
    /// An HTTP error, carried as its text.
    Http(String),
    /// A JSON serialization or deserialization error, carried as its text.
    Json(String),
    /// An error from the market-data feed connection.
    DxFeed(DxFeedError),
    /// A websocket error, carried as its text.
    WebSocket(String),
    /// An I/O error, carried as its text.
    Io(String),
    /// An authentication failure.
    Auth(String),
    /// A connection failure during connection establishment.
    Connection(String),
    /// A streaming failure after a successful connection.
    Streaming(String),
    /// An unknown or unexpected error.
    Unknown(String),
    /// A configuration error.
    ConfigError(String),
}

impl TastyTradeError {
    /// Builds an authentication error from a message.
    pub fn auth_error(msg: &str) -> (r: TastyTradeError)
        ensures
            r matches TastyTradeError::Auth(m) && m@ == msg@,
    {
        TastyTradeError::Auth(msg.to_owned())
    }

    /// Builds a connection error from a message.
    pub fn connection_error(msg: &str) -> (r: TastyTradeError)
        ensures
            r matches TastyTradeError::Connection(m) && m@ == msg@,
    {
        TastyTradeError::Connection(msg.to_owned())
    }

    /// Builds a streaming error from a message.
    pub fn streaming_error(msg: &str) -> (r: TastyTradeError)
        ensures
            r matches TastyTradeError::Streaming(m) && m@ == msg@,
    {
        TastyTradeError::Streaming(msg.to_owned())
    }

    /// Builds an unknown error from a message.
    pub fn unknown_error(msg: &str) -> (r: TastyTradeError)
        ensures
            r matches TastyTradeError::Unknown(m) && m@ == msg@,
    {
        TastyTradeError::Unknown(msg.to_owned())
    }
}

impl From<ApiError> for TastyTradeError {
    fn from(err: ApiError) -> (r: TastyTradeError) {
        TastyTradeError::Api(err)
    }
}

impl vstd::std_specs::convert::FromSpecImpl<ApiError> for TastyTradeError {
    open spec fn obeys_from_spec() -> bool {
        true
    }

    open spec fn from_spec(err: ApiError) -> TastyTradeError {
        TastyTradeError::Api(err)
    }
}

impl From<DxFeedError> for TastyTradeError {
    fn from(err: DxFeedError) -> (r: TastyTradeError) {
        TastyTradeError::DxFeed(err)
    }
}

impl vstd::std_specs::convert::FromSpecImpl<DxFeedError> for TastyTradeError {
    open spec fn obeys_from_spec() -> bool {
        true
    }

    open spec fn from_spec(err: DxFeedError) -> TastyTradeError {
        TastyTradeError::DxFeed(err)
    }
}

} // verus!
