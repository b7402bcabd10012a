//! One call of a Bot API method, from its parameters to its result.
//!
//! Sending and reading are the caller's part. [`Bot::call`](crate::Bot::call)
//! gives the [`Post`] to send, [`Pending::settle`] takes how that ended, and
//! [`Answer::decide`] the reply that was read from the answer's body.

use std::marker::PhantomData;

use vstd::prelude::*;

use crate::duration::Duration;
use crate::error::{Error, ErrorView, HttpError};
use crate::json::Json;

verus! {

/// A method to call, with its parameters and how long the call may take. Its
/// answer is read as a `T`.
#[derive(Debug)]
pub struct Call<T> {
    pub method: &'static str,
    pub params: Json,
    pub limit: Duration,
    pub result: PhantomData<T>,
}

impl<T> Call<T> {
    pub fn new(method: &'static str, params: Json, limit: Duration) -> (r: Self)
        ensures
            r.method == method,
            r.params == params,
            r.limit == limit,
    {
        Call { method, params, limit, result: PhantomData }
    }
}

/// The result of a method that may answer with any JSON, and whose answer is
/// not used.
#[derive(Clone, Copy, Debug, PartialEq, Eq)]
pub struct AnyJson {}

/// A request to post. It cannot be printed: its URL carries the bot's token.
pub struct Post {
    pub url: String,
    pub content_type: &'static str,
    pub body: Vec<u8>,
}

/// The contents of a [`Post`].
pub struct PostView {
    pub url: Seq<char>,
    pub content_type: Seq<char>,
    pub body: Seq<u8>,
}

impl View for Post {
    type V = PostView;

    open spec fn view(&self) -> PostView {
        PostView { url: self.url@, content_type: self.content_type@, body: self.body@ }
    }
}

/// An HTTP answer.
#[derive(Debug)]
pub struct Response {
    pub status: u16,
    pub body: Vec<u8>,
}

/// How posting a request ended.
#[derive(Debug)]
pub enum Outcome {
    /// There was an answer.
    Answered(Response),
    /// The HTTP client gave up.
    Failed(HttpError),
    /// The call's deadline passed first.
    Elapsed,
}

/// Telegram's answer to a call, whatever the method.
#[derive(Debug)]
pub struct Reply<T> {
    pub ok: bool,
    pub result: Option<T>,
    pub description: Option<String>,
    pub error_code: Option<i64>,
    pub parameters: Option<ResponseParameters>,
}

#[derive(Debug)]
pub struct ResponseParameters {
    pub retry_after: Option<u64>,
}

/// A result, with the contents of its error.
pub open spec fn error_view<T>(result: Result<T, Error>) -> Result<T, ErrorView> {
    match result {
        Ok(value) => Ok(value),
        Err(error) => Err(error@),
    }
}

/// Where a method is called: the token and the method are the path.
pub open spec fn request_url(token: Seq<char>, method: Seq<char>) -> Seq<char> {
    "https://api.telegram.org/bot"@ + token + "/"@ + method
}

/// What is posted for a call: the encoded parameters, where they could be
/// encoded.
pub open spec fn prepared(
    token: Seq<char>,
    method: Seq<char>,
    encoded: Result<Vec<u8>, String>,
) -> Result<PostView, ErrorView> {
    match encoded {
        Ok(body) => Ok(
            PostView {
                url: request_url(token, method),
                content_type: "application/json"@,
                body: body@,
            },
        ),
        Err(message) => Err(ErrorView::Encode(message@)),
    }
}

/// What the end of the exchange means: both deadlines, the call's own and the
/// HTTP client's, are the call's timeout.
pub open spec fn settled(method: Seq<char>, limit: nat, outcome: Outcome) -> Result<
    Response,
    ErrorView,
> {
    match outcome {
        Outcome::Answered(response) => Ok(response),
        Outcome::Elapsed | Outcome::Failed(HttpError::Timeout(_)) => Err(
            ErrorView::Timeout { method, after: limit },
        ),
        Outcome::Failed(error) => Err(ErrorView::Http(error@)),
    }
}

/// What a reply means: its result where it says `ok` and has one, Telegram's
/// refusal where it does not say `ok`, and an unreadable answer where it says
/// `ok` without a result.
pub open spec fn decided<T>(
    method: Seq<char>,
    status: u16,
    reply: Result<Reply<T>, String>,
) -> Result<T, ErrorView> {
    match reply {
        Err(message) => Err(ErrorView::Decode { method, status, message: message@ }),
        Ok(reply) => if reply.ok && reply.result is Some {
            Ok(reply.result->0)
        } else if reply.ok {
            Err(ErrorView::Decode { method, status, message: "missing field `result`"@ })
        } else {
            Err(
                ErrorView::Api {
                    method,
                    status,
                    error_code: reply.error_code,
                    description: match reply.description {
                        Some(description) => description@,
                        None => Seq::empty(),
                    },
                    retry_after: match reply.parameters {
                        Some(parameters) => parameters.retry_after,
                        None => None,
                    },
                },
            )
        },
    }
}

/// How a whole call ends, with `outcome` for the exchange and `reply` for what
/// was read from the body of an answer.
pub open spec fn call_result<T>(
    token: Seq<char>,
    method: Seq<char>,
    limit: nat,
    encoded: Result<Vec<u8>, String>,
    outcome: Outcome,
    reply: spec_fn(Seq<u8>) -> Result<Reply<T>, String>,
) -> Result<T, ErrorView> {
    match prepared(token, method, encoded) {
        Err(error) => Err(error),
        Ok(_) => match settled(method, limit, outcome) {
            Err(error) => Err(error),
            Ok(response) => decided(method, response.status, reply(response.body@)),
        },
    }
}

/// A call whose request is on its way, and whose answer is to be read as a `T`.
/// It knows nothing of the bot's token.
#[derive(Debug)]
pub struct Pending<T> {
    pub method: String,
    pub limit: Duration,
    pub result: PhantomData<T>,
}

/// A call that was answered, in what is to be read as a `T`.
#[derive(Debug)]
pub struct Answer<T> {
    pub method: String,
    pub response: Response,
    pub result: PhantomData<T>,
}

impl<T> Pending<T> {
    /// The answer, or why there is none.
    ///
    /// # Errors
    /// If the exchange failed or took too long.
    pub fn settle(self, outcome: Outcome) -> (r: Result<Answer<T>, Error>)
        ensures
            match settled(self.method@, self.limit@, outcome) {
                Ok(response) => r is Ok && r->Ok_0.method@ == self.method@ && r->Ok_0.response
                    == response,
                Err(error) => r is Err && r->Err_0@ == error,
            },
            outcome matches Outcome::Answered(response) ==> r is Ok && r->Ok_0.method@
                == self.method@ && r->Ok_0.response == response,
            outcome is Elapsed || (outcome is Failed && outcome->Failed_0 is Timeout) ==> (
            r matches Err(Error::Timeout { method, after }) && method@ == self.method@
                && crate::duration::std_nanos(after) == self.limit@),
            outcome is Failed && !(outcome->Failed_0 is Timeout) ==> (r matches Err(Error::Http(e))
                && e == outcome->Failed_0),
    {
        match outcome {
            Outcome::Answered(response) => Ok(
                Answer { method: self.method, response, result: PhantomData },
            ),
            Outcome::Elapsed | Outcome::Failed(HttpError::Timeout(_)) => Err(
                Error::Timeout { method: self.method, after: self.limit.to_std() },
            ),
            Outcome::Failed(error) => Err(Error::Http(error)),
        }
    }
}

impl<T> Answer<T> {
    /// The result, or why there is none. `reply` is what was read from the
    /// body, or why it could not be read.
    ///
    /// # Errors
    /// If the body was not a reply, Telegram refused the call, or the reply
    /// says `ok` and holds no result.
    pub fn decide(self, reply: Result<Reply<T>, String>) -> (r: Result<T, Error>)
        ensures
            error_view(r) == decided(self.method@, self.response.status, reply),
            reply matches Err(message) ==> (r matches Err(Error::Decode { method, status, message: m })
                && method@ == self.method@ && status == self.response.status && m@ == message@),
            reply matches Ok(reply) ==> (reply.ok && reply.result is Some ==> r is Ok && r->Ok_0
                == reply.result->0),
            reply matches Ok(reply) ==> (reply.ok && reply.result is None ==> (r matches Err(
                Error::Decode { method, status, .. },
            ) && method@ == self.method@ && status == self.response.status)),
            reply matches Ok(reply) ==> (!reply.ok ==> (r matches Err(
                Error::Api { method, status, error_code, description, retry_after },
            ) && method@ == self.method@ && status == self.response.status && error_code
                == reply.error_code && (reply.description is Some ==> description@
                == reply.description->0@) && (reply.description is None ==> description@.len() == 0)
                && (reply.parameters is Some ==> retry_after == reply.parameters->0.retry_after) && (
            reply.parameters is None ==> retry_after is None))),
    {
        let method = self.method;
        let status: u16 = self.response.status;
        let reply = match reply {
            Ok(reply) => reply,
            Err(message) => {
                return Err(Error::Decode { method, status, message });
            },
        };
        match reply {
            Reply { ok: true, result: Some(result), .. } => Ok(result),
            Reply { ok: true, result: None, .. } => Err(
                Error::Decode { method, status, message: "missing field `result`".to_owned() },
            ),
            Reply { description, error_code, parameters, .. } => Err(
                Error::Api {
                    method,
                    status,
                    error_code,
                    description: match description {
                        Some(description) => description,
                        None => String::new(),
                    },
                    retry_after: match parameters {
                        Some(parameters) => parameters.retry_after,
                        None => None,
                    },
                },
            ),
        }
    }
}

/// No error carries the token: with any other token in its place, the call ends
/// in the same way, to the last character of the error, as long as the exchange
/// does.
pub proof fn law_errors_do_not_depend_on_the_token<T>(
    token: Seq<char>,
    other: Seq<char>,
    method: Seq<char>,
    limit: nat,
    encoded: Result<Vec<u8>, String>,
    outcome: Outcome,
    reply: spec_fn(Seq<u8>) -> Result<Reply<T>, String>,
)
    ensures
        call_result(token, method, limit, encoded, outcome, reply) == call_result(
            other,
            method,
            limit,
            encoded,
            outcome,
            reply,
        ),
{
}

/// The token is part of every request's path, after `/bot` and up to the `/`
/// before the method.
pub proof fn law_every_request_carries_the_token(
    token: Seq<char>,
    method: Seq<char>,
    encoded: Result<Vec<u8>, String>,
)
    requires
        encoded is Ok,
    ensures
        prepared(token, method, encoded) is Ok,
        ({
            let url = prepared(token, method, encoded)->Ok_0.url;
            let start = "https://api.telegram.org/bot"@.len() as int;
            &&& "https://api.telegram.org/bot"@.is_prefix_of(url)
            &&& start + token.len() + 1 + method.len() == url.len()
            &&& url.subrange(start, start + token.len()) == token
            &&& url[start + token.len()] == '/'
            &&& url.skip(start + token.len() + 1) == method
        }),
{
    reveal_strlit("https://api.telegram.org/bot");
    reveal_strlit("/");
    let url = request_url(token, method);
    let start = "https://api.telegram.org/bot"@.len() as int;
    assert(url.subrange(0, start) =~= "https://api.telegram.org/bot"@);
    assert(url.subrange(start, start + token.len()) =~= token);
    assert(url.skip(start + token.len() + 1) =~= method);
}

/// Bots with different tokens never call a method at the same URL.
pub proof fn law_urls_tell_bots_apart(token: Seq<char>, other: Seq<char>, method: Seq<char>)
    requires
        request_url(token, method) == request_url(other, method),
    ensures
        token == other,
{
    let body: Result<Vec<u8>, String> = Ok(arbitrary());
    law_every_request_carries_the_token(token, method, body);
    law_every_request_carries_the_token(other, method, body);
}

/// Whichever deadline passes first, the call's or the HTTP client's, the timeout
/// is reported alike, with the call's own limit.
pub proof fn law_both_deadlines_are_the_same_timeout(method: Seq<char>, limit: nat, detail: String)
    ensures
        settled(method, limit, Outcome::Failed(HttpError::Timeout(detail))) == settled(
            method,
            limit,
            Outcome::Elapsed,
        ),
        settled(method, limit, Outcome::Elapsed) == Err::<Response, ErrorView>(
            ErrorView::Timeout { method, after: limit },
        ),
{
}

/// Telegram's word decides, not the HTTP status: a call succeeds exactly where
/// the reply says `ok` and has a result, with that result.
pub proof fn law_status_decides_nothing<T>(
    method: Seq<char>,
    status: u16,
    other: u16,
    reply: Reply<T>,
)
    ensures
        decided(method, status, Ok(reply)) is Ok <==> reply.ok && reply.result is Some,
        decided(method, status, Ok(reply)) is Ok ==> decided(method, status, Ok(reply)) == decided(
            method,
            other,
            Ok(reply),
        ),
{
}

/// Only what Telegram refused is reported as a refusal: a reply that says `ok`
/// without a result is an answer that could not be read.
pub proof fn law_ok_is_never_a_refusal<T>(method: Seq<char>, status: u16, reply: Reply<T>)
    requires
        reply.ok,
    ensures
        !(decided(method, status, Ok(reply)) matches Err(ErrorView::Api { .. })),
        reply.result is None ==> (decided(method, status, Ok(reply)) matches Err(
            ErrorView::Decode { method: m, status: s, .. },
        ) && m == method && s == status),
{
}

/// A refusal is always reported as one, with the method, the HTTP status and
/// what Telegram said.
pub proof fn law_refusals_are_reported<T>(method: Seq<char>, status: u16, reply: Reply<T>)
    requires
        !reply.ok,
    ensures
        decided(method, status, Ok(reply)) matches Err(ErrorView::Api {
            method: m,
            status: s,
            error_code,
            description,
            retry_after,
        }) && m == method && s == status && error_code == reply.error_code && (
        reply.description is Some ==> description == reply.description->0@) && (
        reply.description is None ==> description.len() == 0) && (reply.parameters is Some
            ==> retry_after == reply.parameters->0.retry_after) && (reply.parameters is None
            ==> retry_after is None),
{
}

/// What is posted is what was encoded, byte for byte, as JSON; where nothing
/// could be encoded, nothing is posted and the reason is the error.
pub proof fn law_the_parameters_are_posted(
    token: Seq<char>,
    method: Seq<char>,
    encoded: Result<Vec<u8>, String>,
)
    ensures
        encoded matches Ok(bytes) ==> (prepared(token, method, encoded) matches Ok(post)
            && post.body.len() == bytes@.len() && (forall|i: int|
            0 <= i < bytes@.len() ==> #[trigger] post.body[i] == bytes@[i]) && post.content_type
            == "application/json"@),
        encoded matches Err(message) ==> (prepared(token, method, encoded) matches Err(
            ErrorView::Encode(m),
        ) && m == message@),
{
}

/// Calls with different parameters post different bodies, whoever makes them
/// and whatever the methods.
pub proof fn law_different_parameters_are_posted_differently(
    token: Seq<char>,
    other_token: Seq<char>,
    method: Seq<char>,
    other_method: Seq<char>,
    bytes: Vec<u8>,
    other_bytes: Vec<u8>,
)
    requires
        bytes@ != other_bytes@,
    ensures
        prepared(token, method, Ok(bytes))->Ok_0.body != prepared(
            other_token,
            other_method,
            Ok(other_bytes),
        )->Ok_0.body,
{
}

/// An answer is handed on as it came, and a failure that is no timeout as it
/// was reported.
pub proof fn law_an_exchange_is_handed_on(
    method: Seq<char>,
    limit: nat,
    response: Response,
    error: HttpError,
)
    requires
        !(error is Timeout),
    ensures
        settled(method, limit, Outcome::Answered(response)) == Ok::<Response, ErrorView>(response),
        settled(method, limit, Outcome::Failed(error)) == Err::<Response, ErrorView>(
            ErrorView::Http(error@),
        ),
{
}

/// A result is handed on as it came, and an answer that could not be read, or
/// has no result where it says `ok`, is reported with its method, its HTTP
/// status and the reason.
pub proof fn law_a_reply_is_handed_on<T>(
    method: Seq<char>,
    status: u16,
    reply: Reply<T>,
    message: String,
)
    ensures
        reply.ok && reply.result is Some ==> decided(method, status, Ok(reply)) == Ok::<
            T,
            ErrorView,
        >(reply.result->0),
        reply.ok && reply.result is None ==> decided(method, status, Ok(reply)) == Err::<
            T,
            ErrorView,
        >(ErrorView::Decode { method, status, message: "missing field `result`"@ }),
        decided(method, status, Err::<Reply<T>, String>(message)) == Err::<T, ErrorView>(
            ErrorView::Decode { method, status, message: message@ },
        ),
{
}

} // verus!
