//! Errors of configuration, connection and event handling.
use vstd::prelude::*;

use crate::decimal::{decimal_nat, u64_to_decimal};

verus! {

/// `url::ParseError`, carried unopened in [`EndpointError`].
#[verifier::external_type_specification]
#[verifier::external_body]
pub struct ExUrlParseError(url::ParseError);

/// `serde_json::Error`, carried unopened in [`JetstreamEventError::ReceivedMalformedJSON`].
#[verifier::external_type_specification]
#[verifier::external_body]
pub struct ExJsonError(serde_json::Error);

/// `std::io::Error`, carried unopened in the decompression errors.
#[verifier::external_type_specification]
#[verifier::external_body]
pub struct ExIoError(std::io::Error);

/// The WebSocket library's error, carried unopened in the WebSocket failures.
#[verifier::external_type_specification]
#[verifier::external_body]
pub struct ExWebSocketError(tokio_tungstenite::tungstenite::Error);

/// Why a [`JetstreamConfig`](crate::JetstreamConfig) handed to a
/// [`JetstreamConnector`](crate::JetstreamConnector) is refused.
#[derive(Clone, Copy, Debug, PartialEq, Eq, Structural)]
pub enum ConfigValidationError {
    /// More wanted collections than the API accepts; holds their number.
    TooManyWantedCollections(usize),
    /// More wanted DIDs than the API accepts; holds their number.
    TooManyDids(usize),
}

impl ConfigValidationError {
    /// The human-readable text of the error.
    pub open spec fn text(self) -> Seq<char> {
        match self {
            ConfigValidationError::TooManyWantedCollections(n) => "too many wanted collections: "@
                + decimal_nat(n as nat) + " > 100"@,
            ConfigValidationError::TooManyDids(n) => "too many wanted DIDs: "@ + decimal_nat(n as nat)
                + " > 10,000"@,
        }
    }

    /// The human-readable text of the error, as its `Display` writes it.
    pub fn message(&self) -> (text: String)
        ensures
            text@ == self.text(),
    {
        match self {
            ConfigValidationError::TooManyWantedCollections(n) => {
                let mut text = String::from_str("too many wanted collections: ");
                let count = u64_to_decimal(*n as u64);
                text.append(count.as_str());
                text.append(" > 100");
                text
            },
            ConfigValidationError::TooManyDids(n) => {
                let mut text = String::from_str("too many wanted DIDs: ");
                let count = u64_to_decimal(*n as u64);
                text.append(count.as_str());
                text.append(" > 10,000");
                text
            },
        }
    }
}

/// The kind of a `url::ParseError`: one variant per variant of the url crate's
/// enum, and `Unknown` for any that a later version of the crate adds.
#[derive(Clone, Copy, Debug, PartialEq, Eq, Structural)]
pub enum UrlParseErrorKind {
    /// `empty host`
    EmptyHost,
    /// `invalid international domain name`
    IdnaError,
    /// `invalid port number`
    InvalidPort,
    /// `invalid IPv4 address`
    InvalidIpv4Address,
    /// `invalid IPv6 address`
    InvalidIpv6Address,
    /// `invalid domain character`
    InvalidDomainCharacter,
    /// `relative URL without a base`
    RelativeUrlWithoutBase,
    /// `relative URL with a cannot-be-a-base base`
    RelativeUrlWithCannotBeABaseBase,
    /// `a cannot-be-a-base URL doesn't have a host to set`
    SetHostOnCannotBeABaseUrl,
    /// `URLs more than 4 GB are not supported`
    Overflow,
    /// A kind that the url crate adds after the version this library was built with.
    Unknown,
}

/// Why a subscription URL could not be built: the url crate's error and its kind.
#[derive(Debug)]
pub struct EndpointError {
    /// The kind of `error`.
    pub kind: UrlParseErrorKind,
    /// The error that the url crate gave.
    pub error: url::ParseError,
}

/// Why connecting to a Jetstream instance failed.
#[derive(Debug)]
pub enum ConnectionError {
    /// The endpoint, with the configuration's query, is not a URL.
    InvalidEndpoint(EndpointError),
    /// The WebSocket connection could not be opened.
    WebSocketFailure(tokio_tungstenite::tungstenite::Error),
    /// The configuration is invalid.
    InvalidConfig(ConfigValidationError),
}

/// Why the task that receives Jetstream events stopped with an error.
#[derive(Debug)]
pub enum JetstreamEventError {
    /// A message was not a JSON Jetstream event.
    ReceivedMalformedJSON(serde_json::Error),
    /// The zstd decoder could not be set up with the dictionary.
    CompressionDictionaryError(std::io::Error),
    /// A compressed message could not be decoded into text.
    CompressionDecoderError(std::io::Error),
    /// All receivers were dropped but the connection did not close cleanly.
    WebSocketCloseFailure,
    /// The WebSocket connection failed.
    WebSocketFailure(tokio_tungstenite::tungstenite::Error),
}

} // verus!
