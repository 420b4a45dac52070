//! The error taxonomy shared by every part of the library.
use vstd::prelude::*;
use crate::text::prefixed;

verus! {

/// A client could not be set up.
#[derive(Debug, PartialEq, Eq)]
pub enum ConfigError {
    /// Neither an explicit token nor the fallback value supplied a credential.
    MissingCredential,
    /// The credential holds characters that cannot stand in a header value.
    InvalidHeaderValue,
    /// The HTTP client itself could not be built.
    ClientBuild(String),
}

/// A caller-supplied value broke its format before any request was made.
#[derive(Debug, PartialEq, Eq)]
pub enum ValidationError {
    Identifier(String),
    CalendarDate(String),
    Timestamp(String),
    Slug(String),
    EmptyEndpoint,
    Url(String),
}

/// The request did not come back with a usable response.
#[derive(Debug, PartialEq, Eq)]
pub enum TransportError {
    /// The server answered with a status outside 200..=299.
    Status(u16),
    /// The request failed before any status was received.
    Network(String),
}

/// Every failure the library reports.
#[derive(Debug, PartialEq, Eq)]
pub enum ApiError {
    Config(ConfigError),
    Validation(ValidationError),
    Transport(TransportError),
    /// A success response whose body does not fit the requested shape.
    Decode(String),
}

/// The fixed text of [`ConfigError::MissingCredential`].
pub const MISSING_CREDENTIAL_MESSAGE: &'static str =
    "ruddr api token was not input through code or RUDDR_TOKEN environment variable";

impl ConfigError {
    /// The text that [`ConfigError::message`] returns.
    pub open spec fn message_text(&self) -> Seq<char> {
        match self {
            ConfigError::MissingCredential => MISSING_CREDENTIAL_MESSAGE@,
            ConfigError::InvalidHeaderValue => "invalid authorization header value"@,
            ConfigError::ClientBuild(m) => "client could not be built: "@ + m@,
        }
    }

    /// Human-readable rendering.
    pub fn message(&self) -> (r: String)
        ensures
            r@ == self.message_text(),
    {
        match self {
            ConfigError::MissingCredential => String::from_str(MISSING_CREDENTIAL_MESSAGE),
            ConfigError::InvalidHeaderValue => String::from_str("invalid authorization header value"),
            ConfigError::ClientBuild(m) => prefixed("client could not be built: ", m.as_str()),
        }
    }
}

impl ValidationError {
    /// The text that [`ValidationError::message`] returns.
    pub open spec fn message_text(&self) -> Seq<char> {
        match self {
            ValidationError::Identifier(s) => "invalid uuid: "@ + s@,
            ValidationError::CalendarDate(s) => "invalid date: "@ + s@,
            ValidationError::Timestamp(s) => "invalid timestamp: "@ + s@,
            ValidationError::Slug(s) => "invalid slug: "@ + s@,
            ValidationError::EmptyEndpoint => "invalid empty endpoint"@,
            ValidationError::Url(s) => "invalid url: "@ + s@,
        }
    }

    /// Human-readable rendering, naming the kind of value and the offending input.
    pub fn message(&self) -> (r: String)
        ensures
            r@ == self.message_text(),
    {
        match self {
            ValidationError::Identifier(s) => prefixed("invalid uuid: ", s.as_str()),
            ValidationError::CalendarDate(s) => prefixed("invalid date: ", s.as_str()),
            ValidationError::Timestamp(s) => prefixed("invalid timestamp: ", s.as_str()),
            ValidationError::Slug(s) => prefixed("invalid slug: ", s.as_str()),
            ValidationError::EmptyEndpoint => String::from_str("invalid empty endpoint"),
            ValidationError::Url(s) => prefixed("invalid url: ", s.as_str()),
        }
    }
}

impl TransportError {
    /// The text that [`TransportError::message`] returns.
    pub open spec fn message_text(&self) -> Seq<char> {
        match self {
            TransportError::Status(_) => "request failed with a non-success status"@,
            TransportError::Network(m) => "request failed: "@ + m@,
        }
    }

    /// Human-readable rendering.
    pub fn message(&self) -> (r: String)
        ensures
            r@ == self.message_text(),
    {
        match self {
            TransportError::Status(_) => String::from_str("request failed with a non-success status"),
            TransportError::Network(m) => prefixed("request failed: ", m.as_str()),
        }
    }
}

impl ApiError {
    /// Human-readable rendering: that of the wrapped error, or for a decode
    /// error the decoder's description after a fixed prefix.
    pub fn message(&self) -> (r: String)
        ensures
            self matches ApiError::Config(e) ==> r@ == e.message_text(),
            self matches ApiError::Validation(e) ==> r@ == e.message_text(),
            self matches ApiError::Transport(e) ==> r@ == e.message_text(),
            self matches ApiError::Decode(m) ==> r@ == "response could not be decoded: "@ + m@,
    {
        match self {
            ApiError::Config(e) => e.message(),
            ApiError::Validation(e) => e.message(),
            ApiError::Transport(e) => e.message(),
            ApiError::Decode(m) => prefixed("response could not be decoded: ", m.as_str()),
        }
    }
}

} // verus!
