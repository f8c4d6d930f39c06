//! The closed set of failures that a client operation can end in.

use vstd::prelude::*;
use vstd::string::StringExecFns;

verus! {

/// `reqwest::Error`, carried through as an opaque value.
#[verifier::external_type_specification]
#[verifier::external_body]
pub struct ExTransportError(reqwest::Error);

/// `serde_json::Error`, carried through as an opaque value.
#[verifier::external_type_specification]
#[verifier::external_body]
pub struct ExJsonError(serde_json::Error);

/// Errors that can occur when using the client.
#[derive(Debug)]
pub enum DoorPassesError {
    /// The request failed below the HTTP level (resolution, connection, TLS).
    HttpError(reqwest::Error),
    /// The service answered with a status outside 2xx that has no kind of its own.
    ApiError { status: u16, message: String },
    /// A body could not be read as JSON.
    SerializationError(serde_json::Error),
    /// The configuration is unusable.
    ConfigError(String),
    /// The service rejected the credentials.
    AuthError(String),
    /// A parameter was rejected before anything was sent.
    InvalidParameter(String),
    /// The service does not know the entity that was asked for.
    NotFound(String),
    /// The service asked the caller to slow down.
    RateLimitExceeded,
    /// The request took longer than the configured timeout.
    Timeout,
}

/// What an error says, with its texts as character sequences. The causes that
/// `HttpError` and `SerializationError` wrap are opaque and left out.
pub enum ErrorKind {
    Http,
    Api { status: u16, message: Seq<char> },
    Serialization,
    Config(Seq<char>),
    Auth(Seq<char>),
    InvalidParameter(Seq<char>),
    NotFound(Seq<char>),
    RateLimitExceeded,
    Timeout,
}

/// The character that stands for a digit.
pub open spec fn digit_char(d: nat) -> char {
    if d == 0 {
        '0'
    } else if d == 1 {
        '1'
    } else if d == 2 {
        '2'
    } else if d == 3 {
        '3'
    } else if d == 4 {
        '4'
    } else if d == 5 {
        '5'
    } else if d == 6 {
        '6'
    } else if d == 7 {
        '7'
    } else if d == 8 {
        '8'
    } else {
        '9'
    }
}

/// A number in decimal, without leading zeros.
pub open spec fn decimal(n: nat) -> Seq<char>
    decreases n,
{
    if n < 10 {
        seq![digit_char(n)]
    } else {
        decimal(n / 10).push(digit_char(n % 10))
    }
}

impl ErrorKind {
    /// What the error says of itself, given what its cause says where it
    /// has one.
    pub open spec fn text(self, cause: Seq<char>) -> Seq<char> {
        match self {
            ErrorKind::Http => "HTTP request failed: "@ + cause,
            ErrorKind::Api { status, message } => "API error: "@ + decimal(status as nat) + " - "@
                + message,
            ErrorKind::Serialization => "Serialization error: "@ + cause,
            ErrorKind::Config(m) => "Configuration error: "@ + m,
            ErrorKind::Auth(m) => "Authentication error: "@ + m,
            ErrorKind::InvalidParameter(m) => "Invalid parameter: "@ + m,
            ErrorKind::NotFound(m) => "Resource not found: "@ + m,
            ErrorKind::RateLimitExceeded => "Rate limit exceeded"@,
            ErrorKind::Timeout => "Request timeout"@,
        }
    }
}

impl View for DoorPassesError {
    type V = ErrorKind;

    open spec fn view(&self) -> ErrorKind {
        match self {
            DoorPassesError::HttpError(_) => ErrorKind::Http,
            DoorPassesError::ApiError { status, message } => ErrorKind::Api {
                status: *status,
                message: message@,
            },
            DoorPassesError::SerializationError(_) => ErrorKind::Serialization,
            DoorPassesError::ConfigError(m) => ErrorKind::Config(m@),
            DoorPassesError::AuthError(m) => ErrorKind::Auth(m@),
            DoorPassesError::InvalidParameter(m) => ErrorKind::InvalidParameter(m@),
            DoorPassesError::NotFound(m) => ErrorKind::NotFound(m@),
            DoorPassesError::RateLimitExceeded => ErrorKind::RateLimitExceeded,
            DoorPassesError::Timeout => ErrorKind::Timeout,
        }
    }
}

/// Whether `reqwest::Error::is_timeout` finds a timeout in an error's chain
/// of causes.
pub uninterp spec fn is_timeout_error(cause: reqwest::Error) -> bool;

/// What a `reqwest::Error` says of itself through its `Display`.
pub uninterp spec fn transport_error_said(cause: reqwest::Error) -> Seq<char>;

/// What a `serde_json::Error` says of itself through its `Display`.
pub uninterp spec fn json_error_said(cause: serde_json::Error) -> Seq<char>;

/// `reqwest::Error::is_timeout`: whether a timeout stands anywhere in the
/// error's chain of causes, which depends on the error alone.
#[verifier::external_body]
fn caused_by_timeout(cause: &reqwest::Error) -> (timed_out: bool)
    ensures
        timed_out == is_timeout_error(*cause),
{
    cause.is_timeout()
}

/// `reqwest::Error`'s `Display`: what the error says of itself, which
/// depends on the error alone.
#[verifier::external_body]
fn transport_error_text(cause: &reqwest::Error) -> (text: String)
    ensures
        text@ == transport_error_said(*cause),
{
    cause.to_string()
}

/// `serde_json::Error`'s `Display`: what the error says of itself, which
/// depends on the error alone.
#[verifier::external_body]
fn json_error_text(cause: &serde_json::Error) -> (text: String)
    ensures
        text@ == json_error_said(*cause),
{
    cause.to_string()
}

/// The text of one digit.
fn digit_text(d: u16) -> (text: &'static str)
    requires
        d < 10,
    ensures
        text@ == seq![digit_char(d as nat)],
{
    proof {
        reveal_strlit("0");
        reveal_strlit("1");
        reveal_strlit("2");
        reveal_strlit("3");
        reveal_strlit("4");
        reveal_strlit("5");
        reveal_strlit("6");
        reveal_strlit("7");
        reveal_strlit("8");
        reveal_strlit("9");
    }
    let text = if d == 0 {
        "0"
    } else if d == 1 {
        "1"
    } else if d == 2 {
        "2"
    } else if d == 3 {
        "3"
    } else if d == 4 {
        "4"
    } else if d == 5 {
        "5"
    } else if d == 6 {
        "6"
    } else if d == 7 {
        "7"
    } else if d == 8 {
        "8"
    } else {
        "9"
    };
    assert(text@ =~= seq![digit_char(d as nat)]);
    text
}

/// A status code in decimal.
pub fn status_text(status: u16) -> (text: String)
    ensures
        text@ == decimal(status as nat),
    decreases status,
{
    if status < 10 {
        String::from_str(digit_text(status))
    } else {
        let text = status_text(status / 10).concat(digit_text(status % 10));
        assert(text@ =~= decimal((status / 10) as nat).push(digit_char((status % 10) as nat)));
        text
    }
}

impl DoorPassesError {
    /// What the error says of itself, given what its cause says where it
    /// has one.
    pub fn message_with(&self, cause: &str) -> (text: String)
        ensures
            text@ == self@.text(cause@),
    {
        match self {
            DoorPassesError::HttpError(_) => String::from_str("HTTP request failed: ").concat(cause),
            DoorPassesError::ApiError { status, message } => String::from_str("API error: ").concat(
                status_text(*status).as_str(),
            ).concat(" - ").concat(message.as_str()),
            DoorPassesError::SerializationError(_) => String::from_str(
                "Serialization error: ",
            ).concat(cause),
            DoorPassesError::ConfigError(m) => String::from_str("Configuration error: ").concat(
                m.as_str(),
            ),
            DoorPassesError::AuthError(m) => String::from_str("Authentication error: ").concat(
                m.as_str(),
            ),
            DoorPassesError::InvalidParameter(m) => String::from_str("Invalid parameter: ").concat(
                m.as_str(),
            ),
            DoorPassesError::NotFound(m) => String::from_str("Resource not found: ").concat(
                m.as_str(),
            ),
            DoorPassesError::RateLimitExceeded => String::from_str("Rate limit exceeded"),
            DoorPassesError::Timeout => String::from_str("Request timeout"),
        }
    }

    /// What the cause that the error wraps says of itself; nothing for an
    /// error that wraps none.
    pub open spec fn cause_text(&self) -> Seq<char> {
        match self {
            DoorPassesError::HttpError(cause) => transport_error_said(*cause),
            DoorPassesError::SerializationError(cause) => json_error_said(*cause),
            _ => Seq::<char>::empty(),
        }
    }

    /// What the error says of itself. Where it wraps a cause, the text ends
    /// in what the cause says of itself.
    pub fn message(&self) -> (text: String)
        ensures
            text@ == self@.text(self.cause_text()),
    {
        match self {
            DoorPassesError::HttpError(cause) => {
                let said = transport_error_text(cause);
                self.message_with(said.as_str())
            },
            DoorPassesError::SerializationError(cause) => {
                let said = json_error_text(cause);
                self.message_with(said.as_str())
            },
            _ => self.message_with(""),
        }
    }

    /// The error for a transport failure of which it is known whether it was
    /// a timeout: `Timeout` if so, otherwise `HttpError` around the cause.
    pub fn from_transport_failure(cause: reqwest::Error, timed_out: bool) -> (e: Self)
        ensures
            timed_out ==> e == DoorPassesError::Timeout,
            !timed_out ==> e == DoorPassesError::HttpError(cause),
    {
        if timed_out {
            DoorPassesError::Timeout
        } else {
            DoorPassesError::HttpError(cause)
        }
    }

    /// The error for a request that never got an answer: `Timeout` where
    /// the cause is a timeout, and `HttpError` around the cause for every
    /// other transport failure.
    pub fn from_transport(cause: reqwest::Error) -> (e: Self)
        ensures
            is_timeout_error(cause) ==> e == DoorPassesError::Timeout,
            !is_timeout_error(cause) ==> e == DoorPassesError::HttpError(cause),
    {
        let timed_out = caused_by_timeout(&cause);
        Self::from_transport_failure(cause, timed_out)
    }

    /// The error for a body that was not the JSON that was expected.
    pub fn from_json(cause: serde_json::Error) -> (e: Self)
        ensures
            e == DoorPassesError::SerializationError(cause),
    {
        DoorPassesError::SerializationError(cause)
    }
}

} // verus!
