//! The failures of a call, and how a failed exchange is classified.

use crate::text::{decimal, push_decimal};
use vstd::prelude::*;
use vstd::string::StringExecFns;

verus! {

/// `reqwest::Error`, the error type of the HTTP client. A value is carried
/// through unread; what this crate needs of one it asks through
/// `transport_status` and `transport_text`, and names in contracts as
/// [`transport_status_of`] and [`transport_text_of`].
#[verifier::external_type_specification]
#[verifier::external_body]
pub struct ExTransportError(reqwest::Error);

/// Everything that can go wrong with a call.
#[derive(Debug)]
pub enum ElevenLabsTTVError {
    /// No response was obtained (network failure, timeout and the like).
    RequestError(reqwest::Error),
    /// The service answered with a failing status that has no variant of its own.
    ApiError { status: u16, message: String },
    /// A response arrived, but its body did not have the expected shape.
    ParseError(reqwest::Error),
    /// The key was refused (status 401).
    AuthenticationError(String),
    /// Too many requests (status 429); `retry_after` is in seconds.
    RateLimitError { retry_after: Option<u64>, message: String },
    /// Not enough credits (status 402).
    QuotaExceededError(String),
    /// The caller's input was rejected before anything was sent.
    ValidationError(String),
}

/// The mathematical value of an [`ElevenLabsTTVError`]: the same variants,
/// with each text as a sequence of characters.
pub enum Failure {
    Request(reqwest::Error),
    Api { status: u16, message: Seq<char> },
    Parse(reqwest::Error),
    Authentication(Seq<char>),
    RateLimit { retry_after: Option<u64>, message: Seq<char> },
    QuotaExceeded(Seq<char>),
    Validation(Seq<char>),
}

impl View for ElevenLabsTTVError {
    type V = Failure;

    open spec fn view(&self) -> Failure {
        match *self {
            ElevenLabsTTVError::RequestError(cause) => Failure::Request(cause),
            ElevenLabsTTVError::ApiError { status, message } => Failure::Api {
                status,
                message: message@,
            },
            ElevenLabsTTVError::ParseError(cause) => Failure::Parse(cause),
            ElevenLabsTTVError::AuthenticationError(message) => Failure::Authentication(message@),
            ElevenLabsTTVError::RateLimitError { retry_after, message } => Failure::RateLimit {
                retry_after,
                message: message@,
            },
            ElevenLabsTTVError::QuotaExceededError(message) => Failure::QuotaExceeded(message@),
            ElevenLabsTTVError::ValidationError(message) => Failure::Validation(message@),
        }
    }
}

/// The status of a refused key.
pub const STATUS_UNAUTHORIZED: u16 = 401;

/// The status of an exhausted quota.
pub const STATUS_PAYMENT_REQUIRED: u16 = 402;

/// The status of a rate limit.
pub const STATUS_TOO_MANY_REQUESTS: u16 = 429;

/// The message of an [`ElevenLabsTTVError::AuthenticationError`] made from a status.
pub open spec fn invalid_key_message() -> Seq<char> {
    "Invalid API key"@
}

/// The message of an [`ElevenLabsTTVError::RateLimitError`] made from a status.
pub open spec fn too_many_requests_message() -> Seq<char> {
    "Too many requests"@
}

/// The message of an [`ElevenLabsTTVError::QuotaExceededError`] made from a status.
pub open spec fn insufficient_credits_message() -> Seq<char> {
    "Insufficient credits"@
}

/// The failure that a status stands for. Three statuses have a variant of
/// their own; every other one is an API failure that carries the status and
/// the text that came with it. A delay to wait, where the service named one,
/// goes with the rate limit and is dropped otherwise.
pub open spec fn failure_for_status(status: u16, retry_after: Option<u64>, text: Seq<char>) -> Failure {
    if status == STATUS_UNAUTHORIZED {
        Failure::Authentication(invalid_key_message())
    } else if status == STATUS_TOO_MANY_REQUESTS {
        Failure::RateLimit { retry_after, message: too_many_requests_message() }
    } else if status == STATUS_PAYMENT_REQUIRED {
        Failure::QuotaExceeded(insufficient_credits_message())
    } else {
        Failure::Api { status, message: text }
    }
}

/// The failure of an exchange: by its status where it has one, and a request
/// failure around `cause` where it has none.
pub open spec fn classification(
    status: Option<u16>,
    retry_after: Option<u64>,
    text: Seq<char>,
    cause: reqwest::Error,
) -> Failure {
    match status {
        Some(code) => failure_for_status(code, retry_after, text),
        None => Failure::Request(cause),
    }
}

/// The status that a transport error holds: what `reqwest::Error::status`
/// returns for it, as the number that `StatusCode::as_u16` gives, and `None`
/// where the error was not made from a response. The status is read from the
/// error alone, so the same error always has the same one.
pub uninterp spec fn transport_status_of(cause: reqwest::Error) -> Option<u16>;

/// The text that a transport error displays: what `to_string` returns for a
/// `reqwest::Error`. The text is written from the error alone (its kind, its
/// status and the URL it holds), so the same error always has the same one.
pub uninterp spec fn transport_text_of(cause: reqwest::Error) -> Seq<char>;

/// Calls `reqwest::Error::status` and numbers the code with
/// `StatusCode::as_u16`. Not proved: that the result is the status named
/// above, and, taken from the HTTP types, that a status code is a number from
/// 100 to 999.
#[verifier::external_body]
fn transport_status(cause: &reqwest::Error) -> (r: Option<u16>)
    ensures
        r == transport_status_of(*cause),
        r matches Some(code) ==> 100 <= code <= 999,
{
    match cause.status() {
        Some(code) => Some(code.as_u16()),
        None => None,
    }
}

/// Calls `to_string` on a `reqwest::Error`. Not proved: that the result is
/// the text named above. What the text says is not stated.
#[verifier::external_body]
fn transport_text(cause: &reqwest::Error) -> (r: String)
    ensures
        r@ == transport_text_of(*cause),
{
    cause.to_string()
}

/// The failure that a transport error amounts to: classified by the status
/// that it holds, with its own text as the text of the failure and no delay
/// to wait; a request failure around it where it holds no status.
pub open spec fn transport_failure(cause: reqwest::Error) -> Failure {
    classification(transport_status_of(cause), None, transport_text_of(cause), cause)
}

/// The text of the transport error that a failure wraps, and the empty text
/// for a failure that wraps none.
pub open spec fn cause_text_of(failure: Failure) -> Seq<char> {
    match failure {
        Failure::Request(cause) => transport_text_of(cause),
        Failure::Parse(cause) => transport_text_of(cause),
        _ => Seq::empty(),
    }
}

impl ElevenLabsTTVError {
    /// The error for a response with a failing status.
    pub fn from_status(status: u16, retry_after: Option<u64>, text: String) -> (r: Self)
        ensures
            r@ == failure_for_status(status, retry_after, text@),
    {
        if status == STATUS_UNAUTHORIZED {
            ElevenLabsTTVError::AuthenticationError(String::from_str("Invalid API key"))
        } else if status == STATUS_TOO_MANY_REQUESTS {
            ElevenLabsTTVError::RateLimitError {
                retry_after,
                message: String::from_str("Too many requests"),
            }
        } else if status == STATUS_PAYMENT_REQUIRED {
            ElevenLabsTTVError::QuotaExceededError(String::from_str("Insufficient credits"))
        } else {
            ElevenLabsTTVError::ApiError { status, message: text }
        }
    }

    /// The error for a failed exchange, from what is known of it: the status,
    /// if a response was obtained; the delay that the service asked for, if
    /// any; the text that came with the failure; and the transport's own error.
    pub fn classify(
        status: Option<u16>,
        retry_after: Option<u64>,
        text: String,
        cause: reqwest::Error,
    ) -> (r: Self)
        ensures
            r@ == classification(status, retry_after, text@, cause),
    {
        match status {
            Some(code) => Self::from_status(code, retry_after, text),
            None => ElevenLabsTTVError::RequestError(cause),
        }
    }
}

/// What an error says of itself, given the text of the transport error that
/// it wraps (which the other variants do not read).
pub open spec fn rendered(failure: Failure, cause_text: Seq<char>) -> Seq<char> {
    match failure {
        Failure::Request(_) => "Request failed: "@ + cause_text,
        Failure::Api { status, message } => "API error ("@ + decimal(status as nat) + "): "@
            + message,
        Failure::Parse(_) => "Failed to parse response: "@ + cause_text,
        Failure::Authentication(message) => "Authentication failed: "@ + message,
        Failure::RateLimit { retry_after: Some(seconds), message } =>
            "Rate limit exceeded (retry in "@ + decimal(seconds as nat) + "s): "@ + message,
        Failure::RateLimit { retry_after: None, message } => "Rate limit exceeded: "@ + message,
        Failure::QuotaExceeded(message) => "Quota exceeded: "@ + message,
        Failure::Validation(message) => "Validation error: "@ + message,
    }
}

impl ElevenLabsTTVError {
    /// The text of the error, where `cause_text` is the text of the transport
    /// error inside it.
    pub fn render(&self, cause_text: &str) -> (r: String)
        ensures
            r@ == rendered(self@, cause_text@),
    {
        match self {
            ElevenLabsTTVError::RequestError(_) => String::from_str("Request failed: ").concat(
                cause_text,
            ),
            ElevenLabsTTVError::ApiError { status, message } => {
                let mut out = String::from_str("API error (");
                push_decimal(&mut out, u64::from(*status));
                out.append("): ");
                out.append(message.as_str());
                out
            },
            ElevenLabsTTVError::ParseError(_) => String::from_str(
                "Failed to parse response: ",
            ).concat(cause_text),
            ElevenLabsTTVError::AuthenticationError(message) => String::from_str(
                "Authentication failed: ",
            ).concat(message.as_str()),
            ElevenLabsTTVError::RateLimitError { retry_after: Some(seconds), message } => {
                let mut out = String::from_str("Rate limit exceeded (retry in ");
                push_decimal(&mut out, *seconds);
                out.append("s): ");
                out.append(message.as_str());
                out
            },
            ElevenLabsTTVError::RateLimitError { retry_after: None, message } => String::from_str(
                "Rate limit exceeded: ",
            ).concat(message.as_str()),
            ElevenLabsTTVError::QuotaExceededError(message) => String::from_str(
                "Quota exceeded: ",
            ).concat(message.as_str()),
            ElevenLabsTTVError::ValidationError(message) => String::from_str(
                "Validation error: ",
            ).concat(message.as_str()),
        }
    }

    /// The text of the error. An error that wraps a transport error ends with
    /// that error's own text; the text of every other error is fixed by its
    /// fields.
    pub fn to_string(&self) -> (r: String)
        ensures
            r@ == rendered(self@, cause_text_of(self@)),
    {
        match self {
            ElevenLabsTTVError::RequestError(cause) => {
                let cause_text = transport_text(cause);
                self.render(cause_text.as_str())
            },
            ElevenLabsTTVError::ParseError(cause) => {
                let cause_text = transport_text(cause);
                self.render(cause_text.as_str())
            },
            _ => self.render(""),
        }
    }
}

impl From<reqwest::Error> for ElevenLabsTTVError {
    /// The error for a failure that the transport reported: classified by the
    /// status inside `error` where there is one, with the transport's text as
    /// the message of an API failure, and a request failure around `error`
    /// where there is none. The transport names no delay to wait.
    fn from(error: reqwest::Error) -> (r: Self)
        ensures
            r@ == transport_failure(error),
            transport_status_of(error) matches Some(code) ==> 100 <= code <= 999,
    {
        let status = transport_status(&error);
        let text = transport_text(&error);
        ElevenLabsTTVError::classify(status, None, text, error)
    }
}

/// The conversion is stated by the view of its result, in the `ensures` of
/// `from`: two errors with the same view need not be the same value, so it
/// claims to follow no spec function on values.
impl vstd::std_specs::convert::FromSpecImpl<reqwest::Error> for ElevenLabsTTVError {
    open spec fn obeys_from_spec() -> bool {
        false
    }

    open spec fn from_spec(error: reqwest::Error) -> Self {
        arbitrary()
    }
}

/// A failed exchange is classified by its status alone: 401 is an
/// authentication failure, 402 an exceeded quota, 429 a rate limit that
/// carries the delay to wait if one was named; any other status is an API
/// failure with that status and the text that came with it; and an exchange
/// without a status is a request failure around the transport's error.
pub proof fn lemma_classification_by_status(
    status: Option<u16>,
    retry_after: Option<u64>,
    text: Seq<char>,
    cause: reqwest::Error,
)
    ensures
        classification(status, retry_after, text, cause) == (match status {
            Some(401u16) => Failure::Authentication(invalid_key_message()),
            Some(402u16) => Failure::QuotaExceeded(insufficient_credits_message()),
            Some(429u16) => Failure::RateLimit {
                retry_after,
                message: too_many_requests_message(),
            },
            Some(code) => Failure::Api { status: code, message: text },
            None => Failure::Request(cause),
        }),
{
}

} // verus!
