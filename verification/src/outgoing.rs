//! What a bot sends: messages and the keyboards under them.

use vstd::prelude::*;

use crate::json::{array, no_members, object, optional_text, push_part, text, Json, JsonValue};
use crate::text::IntoText;

verus! {

/// How Telegram should read a message's text.
#[derive(Clone, Copy, Debug, PartialEq, Eq, Structural)]
pub enum ParseMode {
    /// Escape interpolated text with [`escape_html`](crate::escape_html).
    Html,
    MarkdownV2,
}

impl ParseMode {
    /// The name Telegram knows the mode by.
    pub open spec fn spec_name(self) -> Seq<char> {
        match self {
            ParseMode::Html => "HTML"@,
            ParseMode::MarkdownV2 => "MarkdownV2"@,
        }
    }

    /// The name Telegram knows the mode by.
    pub fn name(self) -> (r: &'static str)
        ensures
            r@ == self.spec_name(),
    {
        match self {
            ParseMode::Html => "HTML",
            ParseMode::MarkdownV2 => "MarkdownV2",
        }
    }
}

/// Which message a reply answers.
#[derive(Clone, Debug)]
pub struct ReplyParameters {
    pub message_id: i64,
}

impl ReplyParameters {
    /// The parameters as Telegram reads them.
    pub open spec fn spec_json(&self) -> JsonValue {
        crate::json::object_of(
            seq![("message_id"@, Some(JsonValue::Int(self.message_id as int)))],
        )
    }

    /// The parameters as Telegram reads them.
    pub fn to_json(&self) -> (r: Json)
        ensures
            r@ == self.spec_json(),
    {
        broadcast use crate::json::lemma_members_of_push;

        let mut members = no_members();
        push_part(&mut members, "message_id", Some(Json::Int(self.message_id)));
        object(members)
    }
}

#[derive(Clone, Debug)]
pub struct InlineKeyboardButton {
    pub text: String,
    /// Sent back in the [`CallbackQuery`](crate::CallbackQuery) when pressed.
    pub callback_data: Option<String>,
    /// Opened when pressed, instead of a callback.
    pub url: Option<String>,
}

/// The JSON text of an optional string.
pub open spec fn spec_optional_text(value: Option<String>) -> Option<JsonValue> {
    match value {
        Some(s) => Some(JsonValue::Text(s@)),
        None => None,
    }
}

/// An optional string, borrowed.
fn borrowed(value: &Option<String>) -> (r: Option<&str>)
    ensures
        match *value {
            Some(s) => r is Some && r->0@ == s@,
            None => r is None,
        },
{
    match value {
        Some(s) => Some(s.as_str()),
        None => None,
    }
}

impl InlineKeyboardButton {
    /// A button that sends `data` back as a callback query.
    pub fn callback(text: impl IntoText, data: impl IntoText) -> (r: Self)
        ensures
            r.text@ == text.text(),
            r.callback_data is Some && r.callback_data->0@ == data.text(),
            r.url is None,
    {
        InlineKeyboardButton {
            text: text.into_text(),
            callback_data: Some(data.into_text()),
            url: None,
        }
    }

    /// A button that opens `url`.
    pub fn url(text: impl IntoText, url: impl IntoText) -> (r: Self)
        ensures
            r.text@ == text.text(),
            r.callback_data is None,
            r.url is Some && r.url->0@ == url.text(),
    {
        InlineKeyboardButton {
            text: text.into_text(),
            callback_data: None,
            url: Some(url.into_text()),
        }
    }

    /// The parts of the button as Telegram reads it.
    pub open spec fn parts(&self) -> Seq<(Seq<char>, Option<JsonValue>)> {
        Seq::empty()
            .push(("text"@, Some(JsonValue::Text(self.text@))))
            .push(("callback_data"@, spec_optional_text(self.callback_data)))
            .push(("url"@, spec_optional_text(self.url)))
    }

    /// The button as Telegram reads it: what it does not have is left out.
    pub open spec fn spec_json(&self) -> JsonValue {
        crate::json::object_of(self.parts())
    }

    /// The button as Telegram reads it.
    pub fn to_json(&self) -> (r: Json)
        ensures
            r@ == self.spec_json(),
    {
        broadcast use crate::json::lemma_members_of_push;

        let mut members = no_members();
        push_part(&mut members, "text", Some(text(self.text.as_str())));
        push_part(&mut members, "callback_data", optional_text(borrowed(&self.callback_data)));
        push_part(&mut members, "url", optional_text(borrowed(&self.url)));
        object(members)
    }
}

/// Buttons under a message, row by row.
#[derive(Clone, Debug)]
pub struct InlineKeyboardMarkup {
    pub inline_keyboard: Vec<Vec<InlineKeyboardButton>>,
}

impl Default for InlineKeyboardMarkup {
    /// No rows.
    fn default() -> (r: Self)
        ensures
            r.inline_keyboard@ == Seq::<Vec<InlineKeyboardButton>>::empty(),
    {
        InlineKeyboardMarkup { inline_keyboard: Vec::new() }
    }
}

/// A row of buttons as Telegram reads it.
pub open spec fn row_json(row: Seq<InlineKeyboardButton>) -> JsonValue {
    JsonValue::Array(Seq::new(row.len(), |i: int| row[i].spec_json()))
}

/// Rows of buttons as Telegram reads them.
pub open spec fn rows_json(rows: Seq<Vec<InlineKeyboardButton>>) -> JsonValue {
    JsonValue::Array(Seq::new(rows.len(), |i: int| row_json(rows[i]@)))
}

fn row_to_json(row: &Vec<InlineKeyboardButton>) -> (r: Json)
    ensures
        r@ == row_json(row@),
{
    let mut buttons: Vec<Json> = Vec::new();
    for i in 0..row.len()
        invariant
            buttons@.len() == i,
            forall|j: int| 0 <= j < i ==> (#[trigger] buttons@[j])@ == row@[j].spec_json(),
    {
        buttons.push(row[i].to_json());
    }
    let r = array(buttons);
    assert(r@->Array_0 =~= row_json(row@)->Array_0);
    r
}

impl InlineKeyboardMarkup {
    /// The keyboard as Telegram reads it.
    pub open spec fn spec_json(&self) -> JsonValue {
        crate::json::object_of(
            seq![("inline_keyboard"@, Some(rows_json(self.inline_keyboard@)))],
        )
    }

    /// The keyboard as Telegram reads it.
    pub fn to_json(&self) -> (r: Json)
        ensures
            r@ == self.spec_json(),
    {
        let mut rows: Vec<Json> = Vec::new();
        for i in 0..self.inline_keyboard.len()
            invariant
                rows@.len() == i,
                forall|j: int|
                    0 <= j < i ==> (#[trigger] rows@[j])@ == row_json(self.inline_keyboard@[j]@),
        {
            rows.push(row_to_json(&self.inline_keyboard[i]));
        }
        let keyboard = array(rows);
        assert(keyboard@->Array_0 =~= rows_json(self.inline_keyboard@)->Array_0);
        broadcast use crate::json::lemma_members_of_push;

        let mut members = no_members();
        push_part(&mut members, "inline_keyboard", Some(keyboard));
        object(members)
    }
}

/// The parameters of `sendMessage`.
#[derive(Clone, Debug)]
pub struct SendMessage {
    pub chat_id: i64,
    pub text: String,
    pub parse_mode: Option<ParseMode>,
    pub reply_parameters: Option<ReplyParameters>,
    pub reply_markup: Option<InlineKeyboardMarkup>,
}

impl SendMessage {
    /// Plain text to `chat_id`.
    pub fn new(chat_id: i64, text: impl IntoText) -> (r: Self)
        ensures
            r.chat_id == chat_id,
            r.text@ == text.text(),
            r.parse_mode is None,
            r.reply_parameters is None,
            r.reply_markup is None,
    {
        SendMessage {
            chat_id,
            text: text.into_text(),
            parse_mode: None,
            reply_parameters: None,
            reply_markup: None,
        }
    }

    /// Read the text as HTML.
    #[must_use]
    pub fn html(self) -> (r: Self)
        ensures
            r == (SendMessage { parse_mode: Some(ParseMode::Html), ..self }),
    {
        let mut r = self;
        r.parse_mode = Some(ParseMode::Html);
        r
    }

    /// Read the text as MarkdownV2.
    #[must_use]
    pub fn markdown_v2(self) -> (r: Self)
        ensures
            r == (SendMessage { parse_mode: Some(ParseMode::MarkdownV2), ..self }),
    {
        let mut r = self;
        r.parse_mode = Some(ParseMode::MarkdownV2);
        r
    }

    /// Send as a reply to `message_id` in the same chat.
    #[must_use]
    pub fn reply_to(self, message_id: i64) -> (r: Self)
        ensures
            r == (SendMessage { reply_parameters: Some(ReplyParameters { message_id }), ..self }),
    {
        let mut r = self;
        r.reply_parameters = Some(ReplyParameters { message_id });
        r
    }

    /// Attach an inline keyboard.
    #[must_use]
    pub fn keyboard(self, markup: InlineKeyboardMarkup) -> (r: Self)
        ensures
            r == (SendMessage { reply_markup: Some(markup), ..self }),
    {
        let mut r = self;
        r.reply_markup = Some(markup);
        r
    }

    /// The parts of the parameters as Telegram reads them.
    pub open spec fn parts(&self) -> Seq<(Seq<char>, Option<JsonValue>)> {
        let mode = match self.parse_mode {
            Some(mode) => Some(JsonValue::Text(mode.spec_name())),
            None => None,
        };
        let reply = match self.reply_parameters {
            Some(reply) => Some(reply.spec_json()),
            None => None,
        };
        let markup = match self.reply_markup {
            Some(markup) => Some(markup.spec_json()),
            None => None,
        };
        Seq::empty()
            .push(("chat_id"@, Some(JsonValue::Int(self.chat_id as int))))
            .push(("text"@, Some(JsonValue::Text(self.text@))))
            .push(("parse_mode"@, mode))
            .push(("reply_parameters"@, reply))
            .push(("reply_markup"@, markup))
    }

    /// The parameters as Telegram reads them: what was not set is left out.
    pub open spec fn spec_json(&self) -> JsonValue {
        crate::json::object_of(self.parts())
    }

    /// The parameters as Telegram reads them.
    pub fn to_json(&self) -> (r: Json)
        ensures
            r@ == self.spec_json(),
    {
        let mode: Option<Json> = match self.parse_mode {
            Some(mode) => Some(text(mode.name())),
            None => None,
        };
        let reply: Option<Json> = match &self.reply_parameters {
            Some(reply) => Some(reply.to_json()),
            None => None,
        };
        let markup: Option<Json> = match &self.reply_markup {
            Some(markup) => Some(markup.to_json()),
            None => None,
        };
        broadcast use crate::json::lemma_members_of_push;

        let mut members = no_members();
        push_part(&mut members, "chat_id", Some(Json::Int(self.chat_id)));
        push_part(&mut members, "text", Some(text(self.text.as_str())));
        push_part(&mut members, "parse_mode", mode);
        push_part(&mut members, "reply_parameters", reply);
        push_part(&mut members, "reply_markup", markup);
        object(members)
    }
}

/// A message's parameters name exactly what was set, each once.
pub proof fn law_send_message_params(message: SendMessage)
    ensures
        message.spec_json().has_distinct_names(),
        message.spec_json().has_member("chat_id"@),
        message.spec_json().has_member("text"@),
        message.spec_json().has_member("parse_mode"@) <==> message.parse_mode is Some,
        message.spec_json().has_member("reply_parameters"@) <==> message.reply_parameters is Some,
        message.spec_json().has_member("reply_markup"@) <==> message.reply_markup is Some,
{
    reveal_strlit("chat_id");
    reveal_strlit("text");
    reveal_strlit("parse_mode");
    reveal_strlit("reply_parameters");
    reveal_strlit("reply_markup");
    let parts = message.parts();
    assert(parts[0].0.len() == 7 && parts[1].0.len() == 4 && parts[2].0.len() == 10);
    assert(parts[3].0.len() == 16 && parts[4].0.len() == 12);
    crate::json::law_object_names_what_it_has(parts);
}

/// A button names exactly what it has, each once: a callback button no URL, and
/// a URL button no callback data.
pub proof fn law_button_params(button: InlineKeyboardButton)
    ensures
        button.spec_json().has_distinct_names(),
        button.spec_json().has_member("text"@),
        button.spec_json().has_member("callback_data"@) <==> button.callback_data is Some,
        button.spec_json().has_member("url"@) <==> button.url is Some,
{
    reveal_strlit("text");
    reveal_strlit("callback_data");
    reveal_strlit("url");
    let parts = button.parts();
    assert(parts[0].0.len() == 4 && parts[1].0.len() == 13 && parts[2].0.len() == 3);
    crate::json::law_object_names_what_it_has(parts);
}

/// A mode goes by the name Telegram gives it, letter for letter.
pub proof fn law_parse_mode_names(mode: ParseMode)
    ensures
        mode == ParseMode::Html ==> mode.spec_name() == seq!['H', 'T', 'M', 'L'],
        mode == ParseMode::MarkdownV2 ==> mode.spec_name() == seq![
            'M',
            'a',
            'r',
            'k',
            'd',
            'o',
            'w',
            'n',
            'V',
            '2',
        ],
{
    reveal_strlit("HTML");
    reveal_strlit("MarkdownV2");
    assert("HTML"@ =~= seq!['H', 'T', 'M', 'L']);
    assert("MarkdownV2"@ =~= seq!['M', 'a', 'r', 'k', 'd', 'o', 'w', 'n', 'V', '2']);
}

/// A message is sent to its chat with its text, and with the mode, the reply and
/// the keyboard that were set, each in its place and nothing besides.
pub proof fn law_a_message_is_sent_as_it_is(message: SendMessage)
    ensures
        message.spec_json() matches JsonValue::Object(members) && ({
            let p: int = if message.parse_mode is Some { 3 } else { 2 };
            let r: int = if message.reply_parameters is Some { p + 1 } else { p };
            let m: int = if message.reply_markup is Some { r + 1 } else { r };
            &&& members.len() == m
            &&& members[0] == ("chat_id"@, JsonValue::Int(message.chat_id as int))
            &&& members[1] == ("text"@, JsonValue::Text(message.text@))
            &&& message.parse_mode == Some(ParseMode::Html) ==> members[2] == (
                "parse_mode"@,
                JsonValue::Text("HTML"@),
            )
            &&& message.parse_mode == Some(ParseMode::MarkdownV2) ==> members[2] == (
                "parse_mode"@,
                JsonValue::Text("MarkdownV2"@),
            )
            &&& message.reply_parameters is Some ==> members[p].0 == "reply_parameters"@ && (
            members[p].1 matches JsonValue::Object(reply) && reply.len() == 1 && reply[0] == (
                "message_id"@,
                JsonValue::Int(message.reply_parameters->0.message_id as int),
            ))
            &&& message.reply_markup is Some ==> members[r] == (
                "reply_markup"@,
                message.reply_markup->0.spec_json(),
            )
        }),
{
    broadcast use crate::json::lemma_members_of_push;

    let none = Seq::<(Seq<char>, Option<JsonValue>)>::empty();
    assert(crate::json::members_of(none) =~= Seq::empty());
}

/// A button is sent with its text, and with the callback data and the URL that
/// it has, each in its place and nothing besides.
pub proof fn law_a_button_is_sent_as_it_is(button: InlineKeyboardButton)
    ensures
        button.spec_json() matches JsonValue::Object(members) && ({
            let c: int = if button.callback_data is Some { 2 } else { 1 };
            let u: int = if button.url is Some { c + 1 } else { c };
            &&& members.len() == u
            &&& members[0] == ("text"@, JsonValue::Text(button.text@))
            &&& button.callback_data is Some ==> members[1] == (
                "callback_data"@,
                JsonValue::Text(button.callback_data->0@),
            )
            &&& button.url is Some ==> members[c] == ("url"@, JsonValue::Text(button.url->0@))
        }),
{
    broadcast use crate::json::lemma_members_of_push;

    let none = Seq::<(Seq<char>, Option<JsonValue>)>::empty();
    assert(crate::json::members_of(none) =~= Seq::empty());
}

/// A keyboard is sent row by row and button by button: as many rows as it has,
/// each with as many buttons, and each button as it is sent on its own.
pub proof fn law_a_keyboard_is_sent_as_it_is(markup: InlineKeyboardMarkup)
    ensures
        markup.spec_json() matches JsonValue::Object(members) && members.len() == 1 && members[0].0
            == "inline_keyboard"@ && (members[0].1 matches JsonValue::Array(rows) && rows.len()
            == markup.inline_keyboard@.len() && forall|i: int|
            0 <= i < rows.len() ==> (#[trigger] rows[i] matches JsonValue::Array(buttons)
                && buttons.len() == markup.inline_keyboard@[i]@.len() && forall|j: int|
                0 <= j < buttons.len() ==> #[trigger] buttons[j]
                    == markup.inline_keyboard@[i]@[j].spec_json())),
{
    broadcast use crate::json::lemma_members_of_push;

    let none = Seq::<(Seq<char>, Option<JsonValue>)>::empty();
    assert(crate::json::members_of(none) =~= Seq::empty());
}

/// Buttons that differ are sent differently.
pub proof fn law_different_buttons_are_sent_differently(
    a: InlineKeyboardButton,
    b: InlineKeyboardButton,
)
    requires
        a.spec_json() == b.spec_json(),
    ensures
        a.text@ == b.text@,
        a.callback_data is Some <==> b.callback_data is Some,
        a.callback_data is Some ==> a.callback_data->0@ == b.callback_data->0@,
        a.url is Some <==> b.url is Some,
        a.url is Some ==> a.url->0@ == b.url->0@,
{
    law_a_button_is_sent_as_it_is(a);
    law_a_button_is_sent_as_it_is(b);
    law_button_params(a);
    law_button_params(b);
}

/// Keyboards that differ are sent differently.
pub proof fn law_different_keyboards_are_sent_differently(
    a: InlineKeyboardMarkup,
    b: InlineKeyboardMarkup,
)
    requires
        a.spec_json() == b.spec_json(),
    ensures
        a.inline_keyboard@.len() == b.inline_keyboard@.len(),
        forall|i: int|
            0 <= i < a.inline_keyboard@.len() ==> (#[trigger] a.inline_keyboard@[i])@.len()
                == b.inline_keyboard@[i]@.len(),
        forall|i: int, j: int|
            #![trigger a.inline_keyboard@[i]@[j]]
            0 <= i < a.inline_keyboard@.len() && 0 <= j < a.inline_keyboard@[i]@.len() ==> ({
                let p = a.inline_keyboard@[i]@[j];
                let q = b.inline_keyboard@[i]@[j];
                &&& p.text@ == q.text@
                &&& p.callback_data is Some <==> q.callback_data is Some
                &&& p.callback_data is Some ==> p.callback_data->0@ == q.callback_data->0@
                &&& p.url is Some <==> q.url is Some
                &&& p.url is Some ==> p.url->0@ == q.url->0@
            }),
{
    law_a_keyboard_is_sent_as_it_is(a);
    law_a_keyboard_is_sent_as_it_is(b);
    let rows = a.spec_json()->Object_0[0].1->Array_0;
    assert forall|i: int| 0 <= i < a.inline_keyboard@.len() implies (
    #[trigger] a.inline_keyboard@[i])@.len() == b.inline_keyboard@[i]@.len() by {
        assert(rows[i] is Array);
    }
    assert forall|i: int, j: int|
        #![trigger a.inline_keyboard@[i]@[j]]
        0 <= i < a.inline_keyboard@.len() && 0 <= j < a.inline_keyboard@[i]@.len() implies ({
        let p = a.inline_keyboard@[i]@[j];
        let q = b.inline_keyboard@[i]@[j];
        &&& p.text@ == q.text@
        &&& p.callback_data is Some <==> q.callback_data is Some
        &&& p.callback_data is Some ==> p.callback_data->0@ == q.callback_data->0@
        &&& p.url is Some <==> q.url is Some
        &&& p.url is Some ==> p.url->0@ == q.url->0@
    }) by {
        let buttons = rows[i]->Array_0;
        assert(buttons[j] == a.inline_keyboard@[i]@[j].spec_json());
        assert(buttons[j] == b.inline_keyboard@[i]@[j].spec_json());
        law_different_buttons_are_sent_differently(
            a.inline_keyboard@[i]@[j],
            b.inline_keyboard@[i]@[j],
        );
    }
}

/// Messages that differ are sent differently: in chat, text, mode, reply or
/// keyboard.
pub proof fn law_different_messages_are_sent_differently(a: SendMessage, b: SendMessage)
    requires
        a.spec_json() == b.spec_json(),
    ensures
        a.chat_id == b.chat_id,
        a.text@ == b.text@,
        a.parse_mode == b.parse_mode,
        a.reply_parameters == b.reply_parameters,
        a.reply_markup is Some <==> b.reply_markup is Some,
        a.reply_markup is Some ==> a.reply_markup->0.spec_json() == b.reply_markup->0.spec_json(),
{
    law_a_message_is_sent_as_it_is(a);
    law_a_message_is_sent_as_it_is(b);
    law_send_message_params(a);
    law_send_message_params(b);
    reveal_strlit("HTML");
    reveal_strlit("MarkdownV2");
    assert("HTML"@.len() == 4 && "MarkdownV2"@.len() == 10);
}

} // verus!
