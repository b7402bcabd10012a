//! A bot and the methods it can call.

use std::marker::PhantomData;

use vstd::prelude::*;
use vstd::string::StringExecFns;

use crate::call::{AnyJson, Call, Pending, Post};
use crate::duration::Duration;
use crate::error::{Error, ErrorView, HttpError};
use crate::json::{array, no_members, object, optional_text, push_part, text, Json, JsonValue};
use crate::message::{Message, Update, User, WebhookInfo};
use crate::outgoing::{InlineKeyboardMarkup, SendMessage};
use crate::text::IntoText;

verus! {

/// The budget in seconds for any call but a long poll, and the round-trip slack
/// on top of one. A request past this is a dead connection rather than a slow
/// one.
pub const REQUEST_TIMEOUT_SECS: u64 = 15;

/// The HTTP client's own ceiling in seconds. It only has to clear the longest
/// call; each call keeps its own tighter deadline. A long poll whose wait and
/// slack go beyond it ends at the ceiling, as a timeout.
pub const CLIENT_CEILING_SECS: u64 = 120;

/// [`REQUEST_TIMEOUT_SECS`] in nanoseconds.
pub open spec fn request_timeout_nanos() -> nat {
    (REQUEST_TIMEOUT_SECS * crate::duration::NANOS_PER_SEC) as nat
}

/// [`REQUEST_TIMEOUT_SECS`] as a span.
pub fn request_timeout() -> (r: Duration)
    ensures
        r@ == request_timeout_nanos(),
{
    Duration::from_secs(REQUEST_TIMEOUT_SECS)
}

/// [`CLIENT_CEILING_SECS`] as a span.
pub fn client_ceiling() -> (r: Duration)
    ensures
        r@ == CLIENT_CEILING_SECS * crate::duration::NANOS_PER_SEC,
{
    Duration::from_secs(CLIENT_CEILING_SECS)
}

/// How long a long poll of `timeout` nanoseconds may take: the wait and the
/// slack, as far as a span can be.
pub open spec fn poll_limit(timeout: nat) -> nat {
    if timeout + request_timeout_nanos() <= crate::duration::max_nanos() {
        timeout + request_timeout_nanos()
    } else {
        crate::duration::max_nanos()
    }
}

/// No parameters.
pub open spec fn no_params() -> JsonValue {
    crate::json::object_of(Seq::empty())
}

/// The parts of the parameters of `getUpdates`. An empty list is no part.
pub open spec fn get_updates_parts(
    offset: Option<i64>,
    timeout_secs: nat,
    allowed: Seq<Seq<char>>,
) -> Seq<(Seq<char>, Option<JsonValue>)> {
    let from = match offset {
        Some(n) => Some(JsonValue::Int(n as int)),
        None => None,
    };
    let kinds = if allowed.len() > 0 {
        Some(texts_json(allowed))
    } else {
        None
    };
    Seq::empty()
        .push(("offset"@, from))
        .push(("timeout"@, Some(JsonValue::Int(timeout_secs as int))))
        .push(("allowed_updates"@, kinds))
}

/// A list of texts.
pub open spec fn texts_json(texts: Seq<Seq<char>>) -> JsonValue {
    JsonValue::Array(Seq::new(texts.len(), |i: int| JsonValue::Text(texts[i])))
}

/// The parts of the parameters of `editMessageReplyMarkup`.
pub open spec fn edit_message_reply_markup_parts(
    chat_id: i64,
    message_id: i64,
    markup: Option<&InlineKeyboardMarkup>,
) -> Seq<(Seq<char>, Option<JsonValue>)> {
    let keyboard = match markup {
        Some(m) => Some(m.spec_json()),
        None => None,
    };
    Seq::empty()
        .push(("chat_id"@, Some(JsonValue::Int(chat_id as int))))
        .push(("message_id"@, Some(JsonValue::Int(message_id as int))))
        .push(("reply_markup"@, keyboard))
}

/// The parts of the parameters of `answerCallbackQuery`.
pub open spec fn answer_callback_query_parts(
    callback_query_id: Seq<char>,
    text: Option<&str>,
    show_alert: bool,
) -> Seq<(Seq<char>, Option<JsonValue>)> {
    Seq::empty()
        .push(("callback_query_id"@, Some(JsonValue::Text(callback_query_id))))
        .push(("text"@, crate::json::optional_text_view(text)))
        .push(("show_alert"@, Some(JsonValue::Bool(show_alert))))
}

/// The parts of the parameters of `setWebhook`.
pub open spec fn set_webhook_parts(url: Seq<char>, secret_token: Option<&str>) -> Seq<
    (Seq<char>, Option<JsonValue>),
> {
    Seq::empty()
        .push(("url"@, Some(JsonValue::Text(url))))
        .push(("secret_token"@, crate::json::optional_text_view(secret_token)))
}

fn no_params_json() -> (r: Json)
    ensures
        r@ == no_params(),
{
    object(no_members())
}

/// A bot, by its token. It cannot be printed, so its token cannot be either.
pub struct Bot {
    token: String,
}

impl Clone for Bot {
    fn clone(&self) -> (r: Self)
        ensures
            r == *self,
    {
        Bot { token: self.token.clone() }
    }
}

impl Bot {
    /// The bot's token.
    pub closed spec fn token(&self) -> Seq<char> {
        self.token@
    }

    /// A bot for `token`, once the HTTP client it will call through has
    /// started. Nothing touches the network until a call.
    ///
    /// # Errors
    /// If the HTTP client's reactor could not start.
    pub fn new(token: impl IntoText, client: Result<(), HttpError>) -> (r: Result<Self, Error>)
        ensures
            match client {
                Ok(_) => r is Ok && r->Ok_0.token() == token.text(),
                Err(error) => r is Err && r->Err_0@ == ErrorView::Http(error@),
            },
            client matches Err(error) ==> (r matches Err(Error::Http(e)) && e == error),
    {
        match client {
            Ok(_) => Ok(Bot { token: token.into_text() }),
            Err(error) => Err(Error::Http(error)),
        }
    }

    /// What may be printed of a bot: never the token.
    pub fn debug_text(&self) -> (r: String)
        ensures
            r@ == "Bot { .. }"@,
    {
        "Bot { .. }".to_owned()
    }

    /// Call any Bot API method with JSON parameters, within `limit`. `encoded`
    /// is the parameters' JSON, or why there is none; the answer is read as a `T`.
    ///
    /// # Errors
    /// If the parameters could not be encoded.
    pub fn call<T>(
        &self,
        method: &str,
        encoded: Result<Vec<u8>, String>,
        limit: Duration,
    ) -> (r: Result<(Post, Pending<T>), Error>)
        ensures
            match crate::call::prepared(self.token(), method@, encoded) {
                Ok(post) => r is Ok && r->Ok_0.0@ == post && r->Ok_0.1.method@ == method@
                    && r->Ok_0.1.limit == limit,
                Err(error) => r is Err && r->Err_0@ == error,
            },
            encoded matches Ok(bytes) ==> r is Ok && r->Ok_0.0.body@ == bytes@
                && r->Ok_0.0.content_type@ == "application/json"@ && r->Ok_0.0.url@
                == "https://api.telegram.org/bot"@ + self.token() + "/"@ + method@
                && r->Ok_0.1.method@ == method@ && r->Ok_0.1.limit == limit,
            encoded matches Err(message) ==> (r matches Err(Error::Encode(m)) && m@ == message@),
    {
        let body = match encoded {
            Ok(body) => body,
            Err(message) => {
                return Err(Error::Encode(message));
            },
        };
        let mut url = "https://api.telegram.org/bot".to_owned();
        url.append(self.token.as_str());
        url.append("/");
        url.append(method);
        let post = Post { url, content_type: "application/json", body };
        Ok((post, Pending { method: method.to_owned(), limit, result: PhantomData }))
    }

    /// `getMe`: the bot's own user, which also proves the token works.
    pub fn get_me(&self) -> (r: Call<User>)
        ensures
            r.method@ == "getMe"@,
            r.params@ == no_params(),
            r.limit@ == request_timeout_nanos(),
    {
        Call::new("getMe", no_params_json(), request_timeout())
    }

    /// `getUpdates`: updates from `offset` on, waiting up to `timeout` for one
    /// to arrive. `allowed` names the update kinds wanted (`"message"`,
    /// `"callback_query"`, ...); empty keeps whatever was asked for last.
    pub fn get_updates(&self, offset: Option<i64>, timeout: Duration, allowed: &[&str]) -> (r: Call<Vec<Update>>)
        ensures
            r.method@ == "getUpdates"@,
            r.params@ == crate::json::object_of(
                get_updates_parts(
                    offset,
                    timeout@ / (crate::duration::NANOS_PER_SEC as nat),
                    allowed.deep_view(),
                ),
            ),
            r.limit@ == poll_limit(timeout@),
    {
        let from: Option<Json> = match offset {
            Some(n) => Some(Json::Int(n)),
            None => None,
        };
        let mut kinds: Option<Json> = None;
        if allowed.len() > 0 {
            let mut list: Vec<Json> = Vec::new();
            for i in 0..allowed.len()
                invariant
                    list@.len() == i,
                    forall|j: int|
                        0 <= j < i ==> (#[trigger] list@[j])@ == JsonValue::Text(allowed@[j]@),
            {
                list.push(text(allowed[i]));
            }
            let texts = array(list);
            assert(texts@->Array_0 =~= texts_json(allowed.deep_view())->Array_0);
            kinds = Some(texts);
        }
        broadcast use crate::json::lemma_members_of_push;

        let mut members = no_members();
        push_part(&mut members, "offset", from);
        push_part(&mut members, "timeout", Some(Json::Uint(timeout.as_secs())));
        push_part(&mut members, "allowed_updates", kinds);
        Call::new("getUpdates", object(members), timeout.saturating_add(request_timeout()))
    }

    /// `sendMessage`.
    pub fn send_message(&self, message: &SendMessage) -> (r: Call<Message>)
        ensures
            r.method@ == "sendMessage"@,
            r.params@ == message.spec_json(),
            r.limit@ == request_timeout_nanos(),
    {
        Call::new("sendMessage", message.to_json(), request_timeout())
    }

    /// `editMessageReplyMarkup`: replace a message's inline keyboard, or remove
    /// it with `None`.
    pub fn edit_message_reply_markup(
        &self,
        chat_id: i64,
        message_id: i64,
        markup: Option<&InlineKeyboardMarkup>,
    ) -> (r: Call<AnyJson>)
        ensures
            r.method@ == "editMessageReplyMarkup"@,
            r.params@ == crate::json::object_of(
                edit_message_reply_markup_parts(chat_id, message_id, markup),
            ),
            r.limit@ == request_timeout_nanos(),
    {
        let keyboard: Option<Json> = match markup {
            Some(m) => Some(m.to_json()),
            None => None,
        };
        broadcast use crate::json::lemma_members_of_push;

        let mut members = no_members();
        push_part(&mut members, "chat_id", Some(Json::Int(chat_id)));
        push_part(&mut members, "message_id", Some(Json::Int(message_id)));
        push_part(&mut members, "reply_markup", keyboard);
        Call::new("editMessageReplyMarkup", object(members), request_timeout())
    }

    /// `answerCallbackQuery`: acknowledge an inline-button press, optionally
    /// with a notification (`show_alert` makes it a dialog).
    pub fn answer_callback_query(
        &self,
        callback_query_id: &str,
        text: Option<&str>,
        show_alert: bool,
    ) -> (r: Call<bool>)
        ensures
            r.method@ == "answerCallbackQuery"@,
            r.params@ == crate::json::object_of(
                answer_callback_query_parts(callback_query_id@, text, show_alert),
            ),
            r.limit@ == request_timeout_nanos(),
    {
        broadcast use crate::json::lemma_members_of_push;

        let mut members = no_members();
        push_part(
            &mut members,
            "callback_query_id",
            Some(crate::json::text(callback_query_id)),
        );
        push_part(&mut members, "text", optional_text(text));
        push_part(&mut members, "show_alert", Some(Json::Bool(show_alert)));
        Call::new("answerCallbackQuery", object(members), request_timeout())
    }

    /// `setWebhook`. With a `secret_token`, Telegram sends it back in the
    /// `X-Telegram-Bot-Api-Secret-Token` header of every delivery, which is how
    /// a webhook tells Telegram from anyone else.
    pub fn set_webhook(&self, url: &str, secret_token: Option<&str>) -> (r: Call<bool>)
        ensures
            r.method@ == "setWebhook"@,
            r.params@ == crate::json::object_of(set_webhook_parts(url@, secret_token)),
            r.limit@ == request_timeout_nanos(),
    {
        broadcast use crate::json::lemma_members_of_push;

        let mut members = no_members();
        push_part(&mut members, "url", Some(text(url)));
        push_part(&mut members, "secret_token", optional_text(secret_token));
        Call::new("setWebhook", object(members), request_timeout())
    }

    /// `deleteWebhook`, which `getUpdates` needs: Telegram refuses a long poll
    /// while a webhook is set.
    pub fn delete_webhook(&self) -> (r: Call<bool>)
        ensures
            r.method@ == "deleteWebhook"@,
            r.params@ == no_params(),
            r.limit@ == request_timeout_nanos(),
    {
        Call::new("deleteWebhook", no_params_json(), request_timeout())
    }

    /// `getWebhookInfo`.
    pub fn get_webhook_info(&self) -> (r: Call<WebhookInfo>)
        ensures
            r.method@ == "getWebhookInfo"@,
            r.params@ == no_params(),
            r.limit@ == request_timeout_nanos(),
    {
        Call::new("getWebhookInfo", no_params_json(), request_timeout())
    }
}

/// A long poll's deadline leaves the full slack after the wait that Telegram is
/// asked for, unless no span is that long.
pub proof fn law_poll_outlasts_the_wait(timeout: nat)
    requires
        timeout + request_timeout_nanos() <= crate::duration::max_nanos(),
    ensures
        poll_limit(timeout) >= (timeout / (crate::duration::NANOS_PER_SEC as nat))
            * crate::duration::NANOS_PER_SEC + request_timeout_nanos(),
{
}

/// The HTTP client's ceiling clears every call with the usual budget, and of the
/// long polls exactly those whose wait and slack fit under it.
pub proof fn law_ceiling_clears_calls(timeout: nat)
    ensures
        request_timeout_nanos() <= CLIENT_CEILING_SECS * crate::duration::NANOS_PER_SEC,
        poll_limit(timeout) <= CLIENT_CEILING_SECS * crate::duration::NANOS_PER_SEC <==> timeout
            <= (CLIENT_CEILING_SECS - REQUEST_TIMEOUT_SECS) * crate::duration::NANOS_PER_SEC,
{
}

/// `getUpdates` names an offset exactly where there is one, and update kinds
/// exactly where some were asked for.
pub proof fn law_get_updates_params(offset: Option<i64>, timeout_secs: nat, allowed: Seq<Seq<char>>)
    ensures
        ({
            let params = crate::json::object_of(get_updates_parts(offset, timeout_secs, allowed));
            &&& params.has_distinct_names()
            &&& params.has_member("timeout"@)
            &&& params.has_member("offset"@) <==> offset is Some
            &&& params.has_member("allowed_updates"@) <==> allowed.len() > 0
        }),
{
    reveal_strlit("offset");
    reveal_strlit("timeout");
    reveal_strlit("allowed_updates");
    let parts = get_updates_parts(offset, timeout_secs, allowed);
    assert(parts[0].0.len() == 6 && parts[1].0.len() == 7 && parts[2].0.len() == 15);
    crate::json::law_object_names_what_it_has(parts);
}

/// `editMessageReplyMarkup` names a keyboard exactly where there is one: without
/// one the keyboard is removed.
pub proof fn law_edit_message_reply_markup_params(
    chat_id: i64,
    message_id: i64,
    markup: Option<&InlineKeyboardMarkup>,
)
    ensures
        ({
            let params = crate::json::object_of(
                edit_message_reply_markup_parts(chat_id, message_id, markup),
            );
            &&& params.has_distinct_names()
            &&& params.has_member("chat_id"@)
            &&& params.has_member("message_id"@)
            &&& params.has_member("reply_markup"@) <==> markup is Some
        }),
{
    reveal_strlit("chat_id");
    reveal_strlit("message_id");
    reveal_strlit("reply_markup");
    let parts = edit_message_reply_markup_parts(chat_id, message_id, markup);
    assert(parts[0].0.len() == 7 && parts[1].0.len() == 10 && parts[2].0.len() == 12);
    crate::json::law_object_names_what_it_has(parts);
}

/// `answerCallbackQuery` names a text exactly where there is one, and always
/// says whether it is an alert.
pub proof fn law_answer_callback_query_params(
    callback_query_id: Seq<char>,
    text: Option<&str>,
    show_alert: bool,
)
    ensures
        ({
            let params = crate::json::object_of(
                answer_callback_query_parts(callback_query_id, text, show_alert),
            );
            &&& params.has_distinct_names()
            &&& params.has_member("callback_query_id"@)
            &&& params.has_member("show_alert"@)
            &&& params.has_member("text"@) <==> text is Some
        }),
{
    reveal_strlit("callback_query_id");
    reveal_strlit("text");
    reveal_strlit("show_alert");
    let parts = answer_callback_query_parts(callback_query_id, text, show_alert);
    assert(parts[0].0.len() == 17 && parts[1].0.len() == 4 && parts[2].0.len() == 10);
    crate::json::law_object_names_what_it_has(parts);
}

/// `setWebhook` names a secret exactly where there is one.
pub proof fn law_set_webhook_params(url: Seq<char>, secret_token: Option<&str>)
    ensures
        ({
            let params = crate::json::object_of(set_webhook_parts(url, secret_token));
            &&& params.has_distinct_names()
            &&& params.has_member("url"@)
            &&& params.has_member("secret_token"@) <==> secret_token is Some
        }),
{
    reveal_strlit("url");
    reveal_strlit("secret_token");
    let parts = set_webhook_parts(url, secret_token);
    assert(parts[0].0.len() == 3 && parts[1].0.len() == 12);
    crate::json::law_object_names_what_it_has(parts);
}

/// A long poll's deadline is its wait and fifteen seconds more, or the longest
/// span where no span is that long; every other call's is fifteen seconds, and
/// the HTTP client's two minutes.
pub proof fn law_deadlines(timeout: nat)
    ensures
        request_timeout_nanos() == 15_000_000_000,
        CLIENT_CEILING_SECS * crate::duration::NANOS_PER_SEC == 120_000_000_000,
        timeout + 15_000_000_000 <= crate::duration::max_nanos() ==> poll_limit(timeout) == timeout
            + 15_000_000_000,
        timeout + 15_000_000_000 > crate::duration::max_nanos() ==> poll_limit(timeout)
            == crate::duration::max_nanos(),
{
}

/// A call without parameters sends an object without members.
pub proof fn law_no_params_are_no_members()
    ensures
        no_params() matches JsonValue::Object(members) && members.len() == 0,
{
}

/// `getUpdates` asks from the offset it was given, for the seconds it was given
/// and for the kinds it was given, each in its place and nothing besides.
pub proof fn law_updates_are_asked_for_as_given(
    offset: Option<i64>,
    timeout_secs: nat,
    allowed: Seq<Seq<char>>,
)
    ensures
        crate::json::object_of(
            get_updates_parts(offset, timeout_secs, allowed),
        ) matches JsonValue::Object(members) && ({
            let t: int = if offset is Some { 1 } else { 0 };
            &&& members.len() == (if allowed.len() > 0 { t + 2 } else { t + 1 })
            &&& offset is Some ==> members[0] == ("offset"@, JsonValue::Int(offset->0 as int))
            &&& members[t] == ("timeout"@, JsonValue::Int(timeout_secs as int))
            &&& allowed.len() > 0 ==> members[t + 1].0 == "allowed_updates"@ && (members[t
                + 1].1 matches JsonValue::Array(kinds) && kinds.len() == allowed.len() && forall|
                i: int,
            |
                0 <= i < allowed.len() ==> #[trigger] kinds[i] == JsonValue::Text(allowed[i]))
        }),
{
    broadcast use crate::json::lemma_members_of_push;

    let none = Seq::<(Seq<char>, Option<JsonValue>)>::empty();
    assert(crate::json::members_of(none) =~= Seq::empty());
}

/// Polls from different offsets, of different waits or for different kinds ask
/// differently.
pub proof fn law_different_polls_ask_differently(
    offset: Option<i64>,
    other_offset: Option<i64>,
    timeout_secs: nat,
    other_timeout_secs: nat,
    allowed: Seq<Seq<char>>,
    other_allowed: Seq<Seq<char>>,
)
    requires
        crate::json::object_of(get_updates_parts(offset, timeout_secs, allowed))
            == crate::json::object_of(
            get_updates_parts(other_offset, other_timeout_secs, other_allowed),
        ),
    ensures
        offset == other_offset,
        timeout_secs == other_timeout_secs,
        allowed == other_allowed,
{
    law_updates_are_asked_for_as_given(offset, timeout_secs, allowed);
    law_updates_are_asked_for_as_given(other_offset, other_timeout_secs, other_allowed);
    law_get_updates_params(offset, timeout_secs, allowed);
    law_get_updates_params(other_offset, other_timeout_secs, other_allowed);
    let members = crate::json::object_of(
        get_updates_parts(offset, timeout_secs, allowed),
    )->Object_0;
    let t: int = if offset is Some { 1 } else { 0 };
    if allowed.len() > 0 {
        let kinds = members[t + 1].1->Array_0;
        assert forall|i: int| 0 <= i < allowed.len() implies allowed[i] == other_allowed[i] by {
            assert(kinds[i] == JsonValue::Text(allowed[i]));
            assert(kinds[i] == JsonValue::Text(other_allowed[i]));
        }
    }
    assert(allowed =~= other_allowed);
}

/// `editMessageReplyMarkup` names the chat and the message it was given, and the
/// keyboard it was given, each in its place and nothing besides.
pub proof fn law_a_keyboard_is_replaced_as_given(
    chat_id: i64,
    message_id: i64,
    markup: Option<&InlineKeyboardMarkup>,
)
    ensures
        crate::json::object_of(
            edit_message_reply_markup_parts(chat_id, message_id, markup),
        ) matches JsonValue::Object(members) && ({
            &&& members.len() == (if markup is Some { 3int } else { 2 })
            &&& members[0] == ("chat_id"@, JsonValue::Int(chat_id as int))
            &&& members[1] == ("message_id"@, JsonValue::Int(message_id as int))
            &&& markup is Some ==> members[2] == ("reply_markup"@, markup->0.spec_json())
        }),
{
    broadcast use crate::json::lemma_members_of_push;

    let none = Seq::<(Seq<char>, Option<JsonValue>)>::empty();
    assert(crate::json::members_of(none) =~= Seq::empty());
}

/// Every button of the keyboard that `editMessageReplyMarkup` was given is sent
/// in its row and at its place, with its own text, callback data and URL; and
/// no row or button is sent that the keyboard does not have.
pub proof fn law_every_button_is_sent_in_its_place(
    chat_id: i64,
    message_id: i64,
    markup: &InlineKeyboardMarkup,
    i: int,
    j: int,
)
    ensures
        crate::json::object_of(
            edit_message_reply_markup_parts(chat_id, message_id, Some(markup)),
        ) matches JsonValue::Object(members) && members[2].0 == "reply_markup"@ && (
        members[2].1 matches JsonValue::Object(keyboard) && keyboard.len() == 1 && keyboard[0].0
            == "inline_keyboard"@ && (keyboard[0].1 matches JsonValue::Array(rows) && rows.len()
            == markup.inline_keyboard@.len() && (0 <= i < rows.len() ==> (
        rows[i] matches JsonValue::Array(buttons) && buttons.len()
            == markup.inline_keyboard@[i]@.len() && (0 <= j < buttons.len() ==> (
        buttons[j] matches JsonValue::Object(sent) && ({
            let button = markup.inline_keyboard@[i]@[j];
            let c: int = if button.callback_data is Some { 2 } else { 1 };
            &&& sent.len() == (if button.url is Some { c + 1 } else { c })
            &&& sent[0] == ("text"@, JsonValue::Text(button.text@))
            &&& button.callback_data is Some ==> sent[1] == (
                "callback_data"@,
                JsonValue::Text(button.callback_data->0@),
            )
            &&& button.url is Some ==> sent[c] == ("url"@, JsonValue::Text(button.url->0@))
        }))))))),
{
    law_a_keyboard_is_replaced_as_given(chat_id, message_id, Some(markup));
    crate::outgoing::law_a_keyboard_is_sent_as_it_is(*markup);
    crate::outgoing::law_a_button_is_sent_as_it_is(markup.inline_keyboard@[i]@[j]);
}

/// `answerCallbackQuery` answers the query it was given, with the text and the
/// kind of notification it was given, each in its place and nothing besides.
pub proof fn law_a_query_is_answered_as_given(
    callback_query_id: Seq<char>,
    text: Option<&str>,
    show_alert: bool,
)
    ensures
        crate::json::object_of(
            answer_callback_query_parts(callback_query_id, text, show_alert),
        ) matches JsonValue::Object(members) && ({
            let a: int = if text is Some { 2 } else { 1 };
            &&& members.len() == a + 1
            &&& members[0] == ("callback_query_id"@, JsonValue::Text(callback_query_id))
            &&& text is Some ==> members[1] == ("text"@, JsonValue::Text(text->0@))
            &&& members[a] == ("show_alert"@, JsonValue::Bool(show_alert))
        }),
{
    broadcast use crate::json::lemma_members_of_push;

    let none = Seq::<(Seq<char>, Option<JsonValue>)>::empty();
    assert(crate::json::members_of(none) =~= Seq::empty());
}

/// `setWebhook` sets the URL it was given, with the secret it was given, each in
/// its place and nothing besides.
pub proof fn law_a_webhook_is_set_as_given(url: Seq<char>, secret_token: Option<&str>)
    ensures
        crate::json::object_of(
            set_webhook_parts(url, secret_token),
        ) matches JsonValue::Object(members) && ({
            &&& members.len() == (if secret_token is Some { 2int } else { 1 })
            &&& members[0] == ("url"@, JsonValue::Text(url))
            &&& secret_token is Some ==> members[1] == (
                "secret_token"@,
                JsonValue::Text(secret_token->0@),
            )
        }),
{
    broadcast use crate::json::lemma_members_of_push;

    let none = Seq::<(Seq<char>, Option<JsonValue>)>::empty();
    assert(crate::json::members_of(none) =~= Seq::empty());
}

} // verus!
