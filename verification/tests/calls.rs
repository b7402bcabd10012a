use nago_telegram::error::timeout_text;
use nago_telegram::{
    client_ceiling, request_timeout, Answer, AnyJson, Bot, Call, Duration, Error, HttpError,
    InlineKeyboardButton, InlineKeyboardMarkup, Json, Message, Outcome, ParseMode, Pending, Reply,
    Response, ResponseParameters, SendMessage, Update, User, WebhookInfo,
};
use serde::ser::{SerializeMap, SerializeSeq};
use serde::{Serialize, Serializer};

const TOKEN: &str = "123456:ABC-DEF";

struct Wire<'a>(&'a Json);

impl Serialize for Wire<'_> {
    fn serialize<S: Serializer>(&self, serializer: S) -> Result<S::Ok, S::Error> {
        match self.0 {
            Json::Int(n) => serializer.serialize_i64(*n),
            Json::Uint(n) => serializer.serialize_u64(*n),
            Json::Bool(b) => serializer.serialize_bool(*b),
            Json::Text(s) => serializer.serialize_str(s),
            Json::Array(items) => {
                let mut seq = serializer.serialize_seq(Some(items.len()))?;
                for item in items {
                    seq.serialize_element(&Wire(item))?;
                }
                seq.end()
            }
            Json::Object(members) => {
                let mut map = serializer.serialize_map(Some(members.len()))?;
                for (name, value) in members {
                    map.serialize_entry(name, &Wire(value))?;
                }
                map.end()
            }
        }
    }
}

fn written(json: &Json) -> String {
    serde_json::to_string(&Wire(json)).unwrap()
}

fn bot() -> Bot {
    match Bot::new(TOKEN, Ok(())) {
        Ok(bot) => bot,
        Err(e) => panic!("{}", e.to_string()),
    }
}

fn pending(method: &str) -> Pending<u8> {
    match bot().call(method, Ok(Vec::new()), Duration::from_secs(25)) {
        Ok((_, pending)) => pending,
        Err(e) => panic!("{}", e.to_string()),
    }
}

fn answer(method: &str, status: u16) -> Answer<u8> {
    let response = Response {
        status,
        body: Vec::new(),
    };
    match pending(method).settle(Outcome::Answered(response)) {
        Ok(answer) => answer,
        Err(e) => panic!("{}", e.to_string()),
    }
}

fn reply(ok: bool, result: Option<u8>) -> Reply<u8> {
    Reply {
        ok,
        result,
        description: None,
        error_code: None,
        parameters: None,
    }
}

fn assert_call<T>(call: &Call<T>, method: &str, params: &str, secs: u64) {
    assert_eq!(call.method, method);
    assert_eq!(written(&call.params), params);
    assert_eq!(call.limit, Duration::from_secs(secs));
}

#[test]
fn a_bot_needs_its_client() {
    match Bot::new(TOKEN, Err(HttpError::Io("no reactor".to_string()))) {
        Err(Error::Http(HttpError::Io(detail))) => assert_eq!(detail, "no reactor"),
        _ => panic!("a bot without a client"),
    }
}

#[test]
fn a_bot_prints_without_its_token() {
    assert_eq!(bot().debug_text(), "Bot { .. }");
    assert_eq!(bot().clone().debug_text(), "Bot { .. }");
}

#[test]
fn a_call_posts_json_to_the_bots_path() {
    let Ok((post, pending)) = bot().call::<u8>("getMe", Ok(b"{}".to_vec()), request_timeout()) else {
        panic!("not prepared");
    };
    assert_eq!(post.url, "https://api.telegram.org/bot123456:ABC-DEF/getMe");
    assert_eq!(post.content_type, "application/json");
    assert_eq!(post.body, b"{}");
    assert_eq!(pending.method, "getMe");
    assert_eq!(pending.limit, request_timeout());
}

#[test]
fn bots_call_at_their_own_urls() {
    let other = match Bot::new("654321:XYZ".to_string(), Ok(())) {
        Ok(bot) => bot,
        Err(e) => panic!("{}", e.to_string()),
    };
    let url = |bot: &Bot| match bot.call::<u8>("getMe", Ok(Vec::new()), request_timeout()) {
        Ok((post, _)) => post.url,
        Err(e) => panic!("{}", e.to_string()),
    };
    assert_ne!(url(&bot()), url(&other));
}

#[test]
fn unencodable_parameters_are_an_error() {
    match bot().call::<u8>("x", Err("key must be a string".to_string()), request_timeout()) {
        Err(e) => {
            assert!(matches!(e, Error::Encode(_)));
            assert_eq!(
                e.to_string(),
                "encoding Telegram parameters: key must be a string"
            );
        }
        Ok(_) => panic!("prepared"),
    }
}

#[test]
fn an_answer_settles_a_call() {
    let response = Response {
        status: 200,
        body: b"{}".to_vec(),
    };
    match pending("getMe").settle(Outcome::Answered(response)) {
        Ok(answer) => {
            assert_eq!(answer.method, "getMe");
            assert_eq!(answer.response.status, 200);
            assert_eq!(answer.response.body, b"{}");
        }
        Err(e) => panic!("{}", e.to_string()),
    }
}

#[test]
fn both_deadlines_are_the_same_timeout() {
    let outcomes = [
        Outcome::Elapsed,
        Outcome::Failed(HttpError::Timeout(
            "api.telegram.org did not answer within 120s".to_string(),
        )),
    ];
    for outcome in outcomes {
        match pending("getUpdates").settle(outcome) {
            Err(Error::Timeout { method, after }) => {
                assert_eq!(method, "getUpdates");
                assert_eq!(after, std::time::Duration::from_secs(25));
            }
            _ => panic!("no timeout"),
        }
    }
}

#[test]
fn other_failures_are_http_errors() {
    let failures = [
        (HttpError::Resolve("a".to_string()), "DNS resolution failed: a"),
        (HttpError::Connect("b".to_string()), "TCP connect failed: b"),
        (HttpError::Tls("c".to_string()), "TLS failed: c"),
        (HttpError::Io("d".to_string()), "connection failed: d"),
        (HttpError::Protocol("e".to_string()), "malformed response: e"),
        (HttpError::TooLarge, "response exceeded 8388608 bytes"),
        (HttpError::Url("f".to_string()), "unusable URL: f"),
    ];
    for (failure, text) in failures {
        assert_eq!(failure.to_string(), text);
        match pending("getMe").settle(Outcome::Failed(failure)) {
            Err(e) => {
                assert!(matches!(e, Error::Http(_)));
                assert_eq!(e.to_string(), format!("Telegram request failed: {text}"));
            }
            Ok(_) => panic!("settled"),
        }
    }
    assert_eq!(
        HttpError::Timeout("g".to_string()).to_string(),
        "timed out: g"
    );
}

#[test]
fn a_timeout_in_words() {
    let Err(e) = pending("getMe").settle(Outcome::Elapsed) else {
        panic!("settled");
    };
    assert_eq!(e.to_string(), "Telegram getMe timed out after 25s");
}

#[test]
fn a_timeout_names_its_method_and_span() {
    assert_eq!(
        timeout_text("getUpdates", "1.5s"),
        "Telegram getUpdates timed out after 1.5s"
    );
    assert_eq!(timeout_text("", ""), "Telegram  timed out after ");
}

#[test]
fn an_ok_reply_is_its_result_whatever_the_status() {
    for status in [200, 404, 500] {
        match answer("getMe", status).decide(Ok(reply(true, Some(7)))) {
            Ok(result) => assert_eq!(result, 7),
            Err(e) => panic!("{}", e.to_string()),
        }
    }
}

#[test]
fn a_refusal_says_what_telegram_said() {
    let refusal: Reply<u8> = Reply {
        ok: false,
        result: None,
        description: Some("Too Many Requests: retry after 3".to_string()),
        error_code: Some(429),
        parameters: Some(ResponseParameters {
            retry_after: Some(3),
        }),
    };
    let Err(e) = answer("sendMessage", 429).decide(Ok(refusal)) else {
        panic!("accepted");
    };
    assert_eq!(
        e.to_string(),
        "Telegram sendMessage failed with HTTP 429: Too Many Requests: retry after 3"
    );
    match e {
        Error::Api {
            method,
            status,
            error_code,
            description,
            retry_after,
        } => {
            assert_eq!(method, "sendMessage");
            assert_eq!(status, 429);
            assert_eq!(error_code, Some(429));
            assert_eq!(description, "Too Many Requests: retry after 3");
            assert_eq!(retry_after, Some(3));
        }
        _ => panic!("not a refusal"),
    }
}

#[test]
fn not_ok_is_a_refusal() {
    for r in [reply(false, Some(1)), reply(false, None)] {
        match answer("getMe", 200).decide(Ok(r)) {
            Err(Error::Api {
                error_code,
                description,
                retry_after,
                ..
            }) => {
                assert_eq!(error_code, None);
                assert_eq!(description, "");
                assert_eq!(retry_after, None);
            }
            _ => panic!("accepted"),
        }
    }
}

#[test]
fn ok_without_a_result_is_a_decode_error() {
    let mut empty = reply(true, None);
    empty.description = Some("d".to_string());
    empty.error_code = Some(1);
    for r in [reply(true, None), empty] {
        match answer("setWebhook", 200).decide(Ok(r)) {
            Err(Error::Decode {
                method,
                status,
                message,
            }) => {
                assert_eq!(method, "setWebhook");
                assert_eq!(status, 200);
                assert_eq!(message, "missing field `result`");
            }
            _ => panic!("no decode error"),
        }
    }
}

#[test]
fn an_unreadable_reply_is_a_decode_error() {
    let unreadable: Result<Reply<u8>, String> = Err("expected value at line 1".to_string());
    let Err(e) = answer("getMe", 502).decide(unreadable) else {
        panic!("decided");
    };
    assert!(matches!(e, Error::Decode { status: 502, .. }));
    assert_eq!(
        e.to_string(),
        "Telegram getMe answered HTTP 502 with an unreadable body: expected value at line 1"
    );
}

#[test]
fn every_status_is_written_in_decimal() {
    for status in [0, 7, 10, 99, 100, 200, 1000, 65535] {
        let Err(e) = answer("m", status).decide(Ok(reply(false, None))) else {
            panic!("accepted");
        };
        assert_eq!(
            e.to_string(),
            format!("Telegram m failed with HTTP {status}: ")
        );
    }
}

#[test]
fn no_error_carries_the_token() {
    let unreadable: Result<Reply<u8>, String> = Err("eof".to_string());
    let errors = [
        bot().call::<u8>("m", Err("e".to_string()), request_timeout()).err(),
        pending("m").settle(Outcome::Elapsed).err(),
        pending("m").settle(Outcome::Failed(HttpError::TooLarge)).err(),
        answer("m", 200).decide(unreadable).err(),
        answer("m", 403).decide(Ok(reply(false, None))).err(),
    ];
    for error in errors {
        let Some(error) = error else {
            panic!("no error");
        };
        assert!(!error.to_string().contains(TOKEN));
        assert!(!format!("{error:?}").contains(TOKEN));
    }
}

#[test]
fn each_answer_is_read_as_what_its_method_returns() {
    let bot = bot();
    let _: Call<User> = bot.get_me();
    let _: Call<Vec<Update>> = bot.get_updates(None, request_timeout(), &[]);
    let _: Call<Message> = bot.send_message(&SendMessage::new(1, "t"));
    let _: Call<AnyJson> = bot.edit_message_reply_markup(1, 2, None);
    let _: Call<bool> = bot.answer_callback_query("q", None, false);
    let _: Call<bool> = bot.set_webhook("u", None);
    let _: Call<bool> = bot.delete_webhook();
    let _: Call<WebhookInfo> = bot.get_webhook_info();
}

#[test]
fn errors_print_their_spans_as_std_does() {
    let Err(e) = pending("getMe").settle(Outcome::Elapsed) else {
        panic!("settled");
    };
    assert_eq!(
        format!("{e:?}"),
        "Timeout { method: \"getMe\", after: 25s }"
    );
}

#[test]
fn spans_as_std_has_them() {
    assert_eq!(
        Duration::new(1, 2_500_000_000).to_std(),
        std::time::Duration::from_millis(3500)
    );
    assert_eq!(
        Duration::new(u64::MAX, 999_999_999).to_std(),
        std::time::Duration::MAX
    );
}

#[test]
fn parameterless_calls() {
    assert_call(&bot().get_me(), "getMe", "{}", 15);
    assert_call(&bot().delete_webhook(), "deleteWebhook", "{}", 15);
    assert_call(&bot().get_webhook_info(), "getWebhookInfo", "{}", 15);
}

#[test]
fn get_updates_call() {
    assert_call(
        &bot().get_updates(Some(-3), Duration::from_secs(25), &["message", "callback_query"]),
        "getUpdates",
        r#"{"offset":-3,"timeout":25,"allowed_updates":["message","callback_query"]}"#,
        40,
    );
    assert_call(
        &bot().get_updates(None, Duration::from_secs(0), &[]),
        "getUpdates",
        r#"{"timeout":0}"#,
        15,
    );
}

#[test]
fn a_long_poll_waits_whole_seconds_and_outlasts_them() {
    let call = bot().get_updates(None, Duration::new(1, 999_999_999), &[]);
    assert_eq!(written(&call.params), r#"{"timeout":1}"#);
    assert_eq!(call.limit, Duration::new(16, 999_999_999));
}

#[test]
fn an_endless_poll_has_the_longest_limit() {
    let call = bot().get_updates(None, Duration::from_secs(u64::MAX), &[]);
    assert_eq!(
        written(&call.params),
        r#"{"timeout":18446744073709551615}"#
    );
    assert_eq!(call.limit, Duration::new(u64::MAX, 999_999_999));
}

#[test]
fn the_client_ceiling_clears_calls() {
    assert_eq!(client_ceiling(), Duration::from_secs(120));
    assert_eq!(request_timeout(), Duration::from_secs(15));
    let longest = bot().get_updates(None, Duration::from_secs(105), &[]);
    assert_eq!(longest.limit, client_ceiling());
    let beyond = bot().get_updates(None, Duration::new(105, 1), &[]);
    assert_eq!(beyond.limit, Duration::new(120, 1));
}

#[test]
fn send_message_call() {
    assert_call(
        &bot().send_message(&SendMessage::new(5, "hello")),
        "sendMessage",
        r#"{"chat_id":5,"text":"hello"}"#,
        15,
    );
    let markup = InlineKeyboardMarkup {
        inline_keyboard: vec![
            vec![
                InlineKeyboardButton::callback("Yes", "y"),
                InlineKeyboardButton::callback("No".to_string(), 'n'),
            ],
            vec![InlineKeyboardButton::url("Site", "https://example.com")],
            vec![],
        ],
    };
    let full = SendMessage::new(-100, String::from("<b>é</b>"))
        .html()
        .reply_to(9)
        .keyboard(markup);
    assert_call(
        &bot().send_message(&full),
        "sendMessage",
        full_message(),
        15,
    );
}

fn full_message() -> &'static str {
    r#"{"chat_id":-100,"text":"<b>é</b>","parse_mode":"HTML","reply_parameters":{"message_id":9},"reply_markup":{"inline_keyboard":[[{"text":"Yes","callback_data":"y"},{"text":"No","callback_data":"n"}],[{"text":"Site","url":"https://example.com"}],[]]}}"#
}

#[test]
fn builders_set_one_thing_each() {
    let plain = SendMessage::new(1, "t");
    assert_eq!(plain.chat_id, 1);
    assert_eq!(plain.text, "t");
    assert!(plain.parse_mode.is_none());
    assert!(plain.reply_parameters.is_none());
    assert!(plain.reply_markup.is_none());
    let last_wins = plain.clone().html().markdown_v2();
    assert_eq!(last_wins.parse_mode, Some(ParseMode::MarkdownV2));
    assert_eq!(last_wins.text, "t");
    let one = plain.clone().reply_to(3).html();
    let two = plain.html().reply_to(3);
    assert_eq!(one.to_json(), two.to_json());
    assert_eq!(
        written(&one.to_json()),
        r#"{"chat_id":1,"text":"t","parse_mode":"HTML","reply_parameters":{"message_id":3}}"#
    );
}

#[test]
fn text_may_come_in_any_form() {
    let owned = String::from("t");
    let boxed: Box<str> = Box::from("t");
    let mut changing = String::from("t");
    assert_eq!(SendMessage::new(1, &owned).text, "t");
    assert_eq!(SendMessage::new(1, owned).text, "t");
    assert_eq!(SendMessage::new(1, boxed).text, "t");
    assert_eq!(SendMessage::new(1, 't').text, "t");
    assert_eq!(SendMessage::new(1, changing.as_mut_str()).text, "t");
    assert_eq!(SendMessage::new(1, std::borrow::Cow::Borrowed("t")).text, "t");
    let cow: std::borrow::Cow<'_, str> = std::borrow::Cow::Owned(String::from("t"));
    assert_eq!(SendMessage::new(1, cow).text, "t");
}

#[test]
fn buttons_call_back_or_open() {
    let callback = InlineKeyboardButton::callback("a", "d");
    assert_eq!(callback.text, "a");
    assert_eq!(callback.callback_data, Some("d".to_string()));
    assert_eq!(callback.url, None);
    let url = InlineKeyboardButton::url("b", "u");
    assert_eq!(url.text, "b");
    assert_eq!(url.callback_data, None);
    assert_eq!(url.url, Some("u".to_string()));
}

#[test]
fn an_empty_keyboard_is_still_sent() {
    let markup = InlineKeyboardMarkup::default();
    assert_eq!(written(&markup.to_json()), r#"{"inline_keyboard":[]}"#);
    assert_call(
        &bot().edit_message_reply_markup(1, 2, Some(&markup)),
        "editMessageReplyMarkup",
        r#"{"chat_id":1,"message_id":2,"reply_markup":{"inline_keyboard":[]}}"#,
        15,
    );
}

#[test]
fn no_keyboard_removes_it() {
    assert_call(
        &bot().edit_message_reply_markup(1, 2, None),
        "editMessageReplyMarkup",
        r#"{"chat_id":1,"message_id":2}"#,
        15,
    );
}

#[test]
fn answer_callback_query_call() {
    assert_call(
        &bot().answer_callback_query("q", Some("done"), true),
        "answerCallbackQuery",
        r#"{"callback_query_id":"q","text":"done","show_alert":true}"#,
        15,
    );
    assert_call(
        &bot().answer_callback_query("q", None, false),
        "answerCallbackQuery",
        r#"{"callback_query_id":"q","show_alert":false}"#,
        15,
    );
}

#[test]
fn set_webhook_call() {
    assert_call(
        &bot().set_webhook("https://example.com/hook", Some("s3cret")),
        "setWebhook",
        r#"{"url":"https://example.com/hook","secret_token":"s3cret"}"#,
        15,
    );
    assert_call(
        &bot().set_webhook("u", None),
        "setWebhook",
        r#"{"url":"u"}"#,
        15,
    );
}

#[test]
fn spans_of_time() {
    let d = Duration::new(1, 2_500_000_000);
    assert_eq!(d.as_secs(), 3);
    assert_eq!(d.subsec_nanos(), 500_000_000);
    assert_eq!(d.to_text(), "3.5s");
    assert_eq!(Duration::new(0, 1_000_000).to_text(), "1ms");
    assert_eq!(
        d.saturating_add(Duration::new(0, 700_000_000)),
        Duration::new(4, 200_000_000)
    );
    let longest = Duration::new(u64::MAX, 999_999_999);
    assert_eq!(longest.saturating_add(Duration::new(0, 1)), longest);
    assert_eq!(longest.saturating_add(Duration::from_secs(1)), longest);
    assert_eq!(
        Duration::from_secs(u64::MAX).saturating_add(Duration::new(0, 999_999_999)),
        longest
    );
}
