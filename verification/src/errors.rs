//! The error taxonomy of the feed client.

use vstd::prelude::*;

verus! {

/// A transport-level failure while talking to the remote feed service.
#[derive(Clone, Copy, Debug, PartialEq, Eq, Structural)]
pub enum NetworkError {
    /// The connection itself failed (name resolution, TCP, TLS); no response
    /// body was received.
    ConnectionFailed,
}

impl NetworkError {
    /// A static human-readable message for this failure.
    pub fn message(&self) -> (r: &'static str)
        ensures
            r@ == "Failed to connect to NASA API"@,
    {
        match self {
            NetworkError::ConnectionFailed => "Failed to connect to NASA API",
        }
    }
}

/// A failure specific to the near-earth-object feed.
#[derive(Clone, Copy, Debug, PartialEq, Eq, Structural)]
pub enum NeowsError {
    /// The feed request could not be made or was rejected.
    BadRequest,
}

impl NeowsError {
    /// A static human-readable message for this failure.
    pub fn message(&self) -> (r: &'static str)
        ensures
            r@ == "Bad Request"@,
    {
        match self {
            NeowsError::BadRequest => "Bad Request",
        }
    }
}

/// A failure around the locally stored key.
#[derive(Clone, Copy, Debug, PartialEq, Eq, Structural)]
pub enum ApiKeyError {
    /// The key file's contents are not in the expected shape.
    InvalidApiKey,
    /// The key could not be written to or read from its file.
    KeyStore,
}

impl ApiKeyError {
    /// A static human-readable message for this failure.
    pub fn message(&self) -> (r: &'static str)
        ensures
            *self == ApiKeyError::InvalidApiKey ==> r@ == "Invalid API key"@,
            *self == ApiKeyError::KeyStore ==> r@ == "Failed to save API key"@,
    {
        match self {
            ApiKeyError::InvalidApiKey => "Invalid API key",
            ApiKeyError::KeyStore => "Failed to save API key",
        }
    }
}

/// Everything that can go wrong while serving a feed request end to end.
///
/// Every failure of the credential store, the URL builder, the remote fetch
/// and the response mapper is surfaced as one of these; none is recovered
/// silently.
#[derive(Clone, Copy, Debug, PartialEq, Eq, Structural)]
pub enum FeedError {
    /// No local key file was found, so no request can carry a key.
    CredentialMissing,
    /// The key file could not be written.
    CredentialWriteFailed,
    /// A transport-level network failure; no response body was received.
    ConnectionFailed,
    /// The response body is not valid JSON.
    ParseFailed,
    /// A user-supplied date is not a calendar date, or the end of the range
    /// precedes its start, or the range reaches into the future.
    InvalidDateInput,
}

impl FeedError {
    /// A static human-readable message for this failure, for the caller to
    /// display.
    pub fn message(&self) -> (r: &'static str)
        ensures
            r@ == spec_feed_error_message(*self),
    {
        match self {
            FeedError::CredentialMissing => "No API key file was found.",
            FeedError::CredentialWriteFailed => "Failed to save the API key.",
            FeedError::ConnectionFailed => "Failed to connect to NASA API",
            FeedError::ParseFailed => "The response was not valid JSON.",
            FeedError::InvalidDateInput => "Invalid date input.",
        }
    }
}

/// The message that [`FeedError::message`] returns for each failure.
pub open spec fn spec_feed_error_message(e: FeedError) -> Seq<char> {
    match e {
        FeedError::CredentialMissing => "No API key file was found."@,
        FeedError::CredentialWriteFailed => "Failed to save the API key."@,
        FeedError::ConnectionFailed => "Failed to connect to NASA API"@,
        FeedError::ParseFailed => "The response was not valid JSON."@,
        FeedError::InvalidDateInput => "Invalid date input."@,
    }
}

} // verus!
