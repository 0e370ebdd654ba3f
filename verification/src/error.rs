//! Error taxonomy.
//!
//! Transient transport errors are retryable and are handled inside the
//! supervisor by reconnecting; API rejections and validation errors are
//! not. Causes are carried as plain strings: propagating the detailed
//! cause is a logging concern, not part of the consumer-visible
//! contract.

use vstd::prelude::*;

verus! {

/// What can go wrong when talking to the exchange.
#[derive(Debug)]
pub enum Error {
    /// Network or HTTP transport failure: connection refused, reset,
    /// DNS, and the like.
    Network(String),
    /// The exchange rejected the request with an error message.
    Api(String),
    /// Serializing or deserializing JSON data failed.
    Json(String),
    /// Signing a transaction or action failed.
    Signing(String),
    /// Order parameters do not meet exchange requirements.
    InvalidOrder { message: String },
    /// Establishing or keeping the streaming connection failed.
    WebSocket(String),
    /// The provided address is not valid.
    InvalidAddress(String),
    /// The operation took too long and was cancelled.
    Timeout,
    /// Anything not covered by a specific variant.
    Other(String),
}

impl Error {
    /// True exactly for the transient failures that may succeed on
    /// retry: network errors, timeouts and streaming-connection errors.
    /// API rejections and validation errors must not be retried.
    pub fn is_retryable(&self) -> (r: bool)
        ensures
            r == (self is Network || self is Timeout || self is WebSocket),
    {
        match self {
            Error::Network(_) => true,
            Error::Timeout => true,
            Error::WebSocket(_) => true,
            _ => false,
        }
    }

    /// True exactly for network-related failures.
    pub fn is_network_error(&self) -> (r: bool)
        ensures
            r == (self is Network || self is Timeout),
    {
        match self {
            Error::Network(_) => true,
            Error::Timeout => true,
            _ => false,
        }
    }

    /// True exactly when the exchange itself rejected the request.
    pub fn is_api_error(&self) -> (r: bool)
        ensures
            r == (self is Api),
    {
        match self {
            Error::Api(_) => true,
            _ => false,
        }
    }
}

/// A batch operation that failed: the IDs of the orders or actions that
/// hit the error, and the exchange's message.
#[derive(Debug, Clone)]
pub struct ActionError<T> {
    ids: Vec<T>,
    err: String,
}

impl<T> ActionError<T> {
    /// The IDs this error is about.
    pub closed spec fn ids_spec(&self) -> Seq<T> {
        self.ids@
    }

    /// The exchange's message.
    pub closed spec fn message_spec(&self) -> Seq<char> {
        self.err@
    }

    /// Creates a batch-failure error from the failed IDs and the
    /// exchange's message.
    pub fn new(ids: Vec<T>, err: String) -> (r: ActionError<T>)
        ensures
            r.ids_spec() == ids@,
            r.message_spec() == err@,
    {
        ActionError { ids, err }
    }

    /// Returns the error message.
    pub fn message(&self) -> (r: &str)
        ensures
            r@ == self.message_spec(),
    {
        self.err.as_str()
    }

    /// Returns the failed IDs.
    pub fn ids(&self) -> (r: &[T])
        ensures
            r@ == self.ids_spec(),
    {
        self.ids.as_slice()
    }

    /// Consumes the error and returns the IDs.
    pub fn into_ids(self) -> (r: Vec<T>)
        ensures
            r@ == self.ids_spec(),
    {
        self.ids
    }
}

} // verus!
