//! Why a call failed.

use vstd::prelude::*;
use vstd::string::StringExecFns;

use crate::duration::format_duration;
use crate::text::push_decimal;

verus! {

/// Why an HTTP request did not complete. It never carries the request path.
#[derive(Debug)]
pub enum HttpError {
    Resolve(String),
    Connect(String),
    Tls(String),
    Io(String),
    /// The peer answered something that is not HTTP.
    Protocol(String),
    /// The answer was longer than the client reads.
    TooLarge,
    /// The request did not finish within the HTTP client's own deadline.
    Timeout(String),
    /// The URL could not be used.
    Url(String),
}

/// The characters of an [`HttpError`].
pub enum HttpErrorView {
    Resolve(Seq<char>),
    Connect(Seq<char>),
    Tls(Seq<char>),
    Io(Seq<char>),
    Protocol(Seq<char>),
    TooLarge,
    Timeout(Seq<char>),
    Url(Seq<char>),
}

impl View for HttpError {
    type V = HttpErrorView;

    open spec fn view(&self) -> HttpErrorView {
        match self {
            HttpError::Resolve(detail) => HttpErrorView::Resolve(detail@),
            HttpError::Connect(detail) => HttpErrorView::Connect(detail@),
            HttpError::Tls(detail) => HttpErrorView::Tls(detail@),
            HttpError::Io(detail) => HttpErrorView::Io(detail@),
            HttpError::Protocol(detail) => HttpErrorView::Protocol(detail@),
            HttpError::TooLarge => HttpErrorView::TooLarge,
            HttpError::Timeout(detail) => HttpErrorView::Timeout(detail@),
            HttpError::Url(detail) => HttpErrorView::Url(detail@),
        }
    }
}

impl HttpErrorView {
    /// The error in words.
    pub open spec fn text(self) -> Seq<char> {
        match self {
            HttpErrorView::Resolve(detail) => "DNS resolution failed: "@ + detail,
            HttpErrorView::Connect(detail) => "TCP connect failed: "@ + detail,
            HttpErrorView::Tls(detail) => "TLS failed: "@ + detail,
            HttpErrorView::Io(detail) => "connection failed: "@ + detail,
            HttpErrorView::Protocol(detail) => "malformed response: "@ + detail,
            HttpErrorView::TooLarge => "response exceeded 8388608 bytes"@,
            HttpErrorView::Timeout(detail) => "timed out: "@ + detail,
            HttpErrorView::Url(detail) => "unusable URL: "@ + detail,
        }
    }
}

/// The error in words: what `Display` writes of the `nago_http::Error` of the
/// same kind and detail, a few words for the kind and then the detail.
#[verifier::external_body]
fn http_error_text(error: HttpError) -> (r: String)
    ensures
        r@ == error@.text(),
{
    let outside = match error {
        HttpError::Resolve(detail) => nago_http::Error::Resolve(detail),
        HttpError::Connect(detail) => nago_http::Error::Connect(detail),
        HttpError::Tls(detail) => nago_http::Error::Tls(detail),
        HttpError::Io(detail) => nago_http::Error::Io(detail),
        HttpError::Protocol(detail) => nago_http::Error::Protocol(detail),
        HttpError::TooLarge => nago_http::Error::TooLarge,
        HttpError::Timeout(detail) => nago_http::Error::Timeout(detail),
        HttpError::Url(detail) => nago_http::Error::Url(detail),
    };
    outside.to_string()
}

impl Clone for HttpError {
    fn clone(&self) -> (r: Self)
        ensures
            r == *self,
    {
        match self {
            HttpError::Resolve(detail) => HttpError::Resolve(detail.clone()),
            HttpError::Connect(detail) => HttpError::Connect(detail.clone()),
            HttpError::Tls(detail) => HttpError::Tls(detail.clone()),
            HttpError::Io(detail) => HttpError::Io(detail.clone()),
            HttpError::Protocol(detail) => HttpError::Protocol(detail.clone()),
            HttpError::TooLarge => HttpError::TooLarge,
            HttpError::Timeout(detail) => HttpError::Timeout(detail.clone()),
            HttpError::Url(detail) => HttpError::Url(detail.clone()),
        }
    }
}

impl HttpError {
    /// The error in words.
    pub fn to_string(&self) -> (r: String)
        ensures
            r@ == self@.text(),
    {
        http_error_text(self.clone())
    }
}

/// Why a call failed. None of these carries the bot's token.
#[derive(Debug)]
#[non_exhaustive]
pub enum Error {
    /// The request did not complete: connect, TLS or I/O.
    Http(HttpError),
    /// No answer within the call's deadline.
    Timeout { method: String, after: std::time::Duration },
    /// Telegram answered and refused.
    Api {
        method: String,
        status: u16,
        /// Telegram's own code, usually the HTTP status.
        error_code: Option<i64>,
        description: String,
        /// Seconds to wait before retrying, when rate limited.
        retry_after: Option<u64>,
    },
    /// The answer was not the JSON the method returns.
    Decode { method: String, status: u16, message: String },
    /// The parameters could not be serialized.
    Encode(String),
}

/// The contents of an [`Error`].
pub enum ErrorView {
    Http(HttpErrorView),
    Timeout { method: Seq<char>, after: nat },
    Api {
        method: Seq<char>,
        status: u16,
        error_code: Option<i64>,
        description: Seq<char>,
        retry_after: Option<u64>,
    },
    Decode { method: Seq<char>, status: u16, message: Seq<char> },
    Encode(Seq<char>),
}

impl View for Error {
    type V = ErrorView;

    open spec fn view(&self) -> ErrorView {
        match self {
            Error::Http(e) => ErrorView::Http(e@),
            Error::Timeout { method, after } => ErrorView::Timeout {
                method: method@,
                after: crate::duration::std_nanos(*after),
            },
            Error::Api { method, status, error_code, description, retry_after } => ErrorView::Api {
                method: method@,
                status: *status,
                error_code: *error_code,
                description: description@,
                retry_after: *retry_after,
            },
            Error::Decode { method, status, message } => ErrorView::Decode {
                method: method@,
                status: *status,
                message: message@,
            },
            Error::Encode(message) => ErrorView::Encode(message@),
        }
    }
}

impl ErrorView {
    /// The error in words.
    pub open spec fn text(self) -> Seq<char> {
        match self {
            ErrorView::Http(e) => "Telegram request failed: "@ + e.text(),
            ErrorView::Timeout { method, after } => "Telegram "@ + method + " timed out after "@
                + crate::duration::nanos_text(after),
            ErrorView::Api { method, status, description, .. } => "Telegram "@ + method
                + " failed with HTTP "@ + crate::text::decimal(status as nat) + ": "@ + description,
            ErrorView::Decode { method, status, message } => "Telegram "@ + method
                + " answered HTTP "@ + crate::text::decimal(status as nat)
                + " with an unreadable body: "@ + message,
            ErrorView::Encode(message) => "encoding Telegram parameters: "@ + message,
        }
    }
}

/// A timeout in words: `span` is how long the call of `method` was given.
pub fn timeout_text(method: &str, span: &str) -> (r: String)
    ensures
        r@ == "Telegram "@ + method@ + " timed out after "@ + span@,
{
    let mut r = "Telegram ".to_owned();
    r.append(method);
    r.append(" timed out after ");
    r.append(span);
    r
}

impl Error {
    /// The error in words.
    pub fn to_string(&self) -> (r: String)
        ensures
            r@ == self@.text(),
    {
        match self {
            Error::Http(e) => {
                let mut r = "Telegram request failed: ".to_owned();
                r.append(e.to_string().as_str());
                r
            },
            Error::Timeout { method, after } => timeout_text(
                method.as_str(),
                format_duration(after).as_str(),
            ),
            Error::Api { method, status, description, .. } => {
                let mut r = "Telegram ".to_owned();
                r.append(method.as_str());
                r.append(" failed with HTTP ");
                push_decimal(&mut r, *status);
                r.append(": ");
                r.append(description.as_str());
                r
            },
            Error::Decode { method, status, message } => {
                let mut r = "Telegram ".to_owned();
                r.append(method.as_str());
                r.append(" answered HTTP ");
                push_decimal(&mut r, *status);
                r.append(" with an unreadable body: ");
                r.append(message.as_str());
                r
            },
            Error::Encode(message) => {
                let mut r = "encoding Telegram parameters: ".to_owned();
                r.append(message.as_str());
                r
            },
        }
    }
}

/// What each error says: what happened to which method, and then the detail,
/// all of it.
pub proof fn law_errors_say_what_happened(error: Error)
    ensures
        error matches Error::Http(e) ==> error@.text() == "Telegram request failed: "@ + e@.text(),
        error matches Error::Timeout { method, after } ==> error@.text() == "Telegram "@ + method@
            + " timed out after "@ + crate::duration::duration_debug(
            (crate::duration::std_nanos(after) / 1_000_000_000) as u64,
            (crate::duration::std_nanos(after) % 1_000_000_000) as u32,
        ),
        error matches Error::Api { method, status, description, .. } ==> error@.text()
            == "Telegram "@ + method@ + " failed with HTTP "@ + crate::text::decimal(status as nat)
            + ": "@ + description@,
        error matches Error::Decode { method, status, message } ==> error@.text() == "Telegram "@
            + method@ + " answered HTTP "@ + crate::text::decimal(status as nat)
            + " with an unreadable body: "@ + message@,
        error matches Error::Encode(message) ==> error@.text() == "encoding Telegram parameters: "@
            + message@,
{
}

/// What each HTTP error says: what failed, and then the detail, all of it.
pub proof fn law_http_errors_say_what_failed(error: HttpError)
    ensures
        error matches HttpError::Resolve(detail) ==> error@.text() == "DNS resolution failed: "@
            + detail@,
        error matches HttpError::Connect(detail) ==> error@.text() == "TCP connect failed: "@
            + detail@,
        error matches HttpError::Tls(detail) ==> error@.text() == "TLS failed: "@ + detail@,
        error matches HttpError::Io(detail) ==> error@.text() == "connection failed: "@ + detail@,
        error matches HttpError::Protocol(detail) ==> error@.text() == "malformed response: "@
            + detail@,
        error is TooLarge ==> error@.text() == "response exceeded 8388608 bytes"@,
        error matches HttpError::Timeout(detail) ==> error@.text() == "timed out: "@ + detail@,
        error matches HttpError::Url(detail) ==> error@.text() == "unusable URL: "@ + detail@,
{
}

} // verus!
