use nago_telegram::words::split_words;
use nago_telegram::{
    Bot, CallbackQuery, Chat, Command, Duration, Json, Message, SendMessage, Update, User,
};

fn user() -> User {
    User {
        id: 42,
        is_bot: false,
        first_name: "Ada".to_string(),
        username: Some("ada".to_string()),
    }
}

fn chat(kind: &str) -> Chat {
    Chat {
        id: 7,
        kind: kind.to_string(),
        title: None,
        username: None,
    }
}

fn message(text: Option<&str>, caption: Option<&str>) -> Message {
    Message {
        message_id: 1,
        date: 1_700_000_000,
        chat: chat("private"),
        from: Some(user()),
        text: text.map(str::to_string),
        caption: caption.map(str::to_string),
        reply_to_message: None,
    }
}

fn command(name: &'static str, args: &[&'static str]) -> Command<'static> {
    Command {
        name,
        args: args.to_vec(),
    }
}

#[test]
fn text_comes_before_caption() {
    assert_eq!(message(Some("t"), Some("c")).text(), Some("t"));
    assert_eq!(message(Some(""), Some("c")).text(), Some(""));
    assert_eq!(message(None, Some("c")).text(), Some("c"));
    assert_eq!(message(None, None).text(), None);
}

#[test]
fn command_with_arguments() {
    let m = message(Some("/name@bot arg  arg2"), None);
    assert_eq!(m.command(), Some(command("/name", &["arg", "arg2"])));
}

#[test]
fn command_alone() {
    let m = message(Some("/start"), None);
    assert_eq!(m.command(), Some(command("/start", &[])));
    assert!(m.command().is_some_and(|c| c.name == "/start"));
}

#[test]
fn command_after_leading_white_space() {
    let m = message(Some(" \n\t/go\u{a0}now\u{3000}please \n"), None);
    assert_eq!(m.command(), Some(command("/go", &["now", "please"])));
}

#[test]
fn bot_name_is_dropped() {
    assert_eq!(
        message(Some("/a@b@c d"), None).command(),
        message(Some("/a d"), None).command()
    );
    assert_eq!(
        message(Some("/@bot"), None).command(),
        Some(command("/", &[]))
    );
    assert_eq!(
        message(Some("/"), None).command(),
        Some(command("/", &[]))
    );
    assert_eq!(
        message(Some("/héllo@bot wörld x@y"), None).command(),
        Some(command("/héllo", &["wörld", "x@y"]))
    );
}

#[test]
fn no_command() {
    assert_eq!(message(Some("hello /start"), None).command(), None);
    assert_eq!(message(Some("@/start"), None).command(), None);
    assert_eq!(message(Some(""), None).command(), None);
    assert_eq!(message(Some("  \u{2003} "), None).command(), None);
    assert_eq!(message(None, None).command(), None);
}

#[test]
fn a_caption_holds_no_command() {
    assert_eq!(message(None, Some("/start")).command(), None);
}

#[test]
fn words_as_std_splits_them() {
    for text in [
        "",
        " ",
        "a",
        " a",
        "a ",
        "a b",
        "a\u{85}b\u{2028}\u{2029}c",
        "é\tü\r\n😀 z",
        "zero\u{200b}width\u{feff}joins",
    ] {
        let std_words: Vec<&str> = text.split_whitespace().collect();
        assert_eq!(split_words(text), std_words);
    }
}

#[test]
fn white_space_is_the_unicode_property() {
    let listed = |n: u32| {
        matches!(
            n,
            0x9..=0xD | 0x20 | 0x85 | 0xA0 | 0x1680 | 0x2000..=0x200A | 0x2028 | 0x2029 | 0x202F
                | 0x205F | 0x3000
        )
    };
    for n in 0..=0x10_FFFFu32 {
        if let Some(c) = char::from_u32(n) {
            let text = format!("a{c}b");
            let expected = if listed(n) { 2 } else { 1 };
            assert_eq!(split_words(&text).len(), expected);
        }
    }
}

#[test]
fn words_are_solid_and_leave_nothing_out() {
    let text = " one\u{2003}two\n\nthree ";
    let words = split_words(text);
    assert_eq!(words, ["one", "two", "three"]);
    assert!(words.iter().all(|w| !w.is_empty() && !w.contains(char::is_whitespace)));
    let kept: String = text.chars().filter(|c| !c.is_whitespace()).collect();
    assert_eq!(words.concat(), kept);
    assert_eq!(split_words("whole"), ["whole"]);
}

#[test]
fn only_private_chats_are_private() {
    assert!(chat("private").is_private());
    assert!(!chat("group").is_private());
    assert!(!chat("supergroup").is_private());
    assert!(!chat("channel").is_private());
    assert!(!chat("Private").is_private());
    assert!(!chat("").is_private());
}

#[test]
fn clones_are_whole() {
    let mut m = message(Some("reply"), None);
    m.reply_to_message = Some(Box::new(message(None, Some("photo"))));
    let update = Update {
        update_id: 9,
        message: Some(m.clone()),
        edited_message: None,
        callback_query: Some(CallbackQuery {
            id: "q".to_string(),
            from: user(),
            message: Some(Box::new(m)),
            data: Some("d".to_string()),
        }),
    };
    let copy = update.clone();
    assert_eq!(format!("{copy:?}"), format!("{update:?}"));
    let reply = copy.message.unwrap().reply_to_message.unwrap();
    assert_eq!(reply.text(), Some("photo"));
}

#[test]
fn start_is_answered_with_hello() {
    let Ok(bot) = Bot::new("123456:ABC-DEF", Ok(())) else {
        panic!("no bot");
    };
    let updates = vec![
        Update {
            update_id: 10,
            message: None,
            edited_message: Some(message(Some("/start"), None)),
            callback_query: None,
        },
        Update {
            update_id: 11,
            message: Some(message(Some("/start@my_bot now"), None)),
            edited_message: None,
            callback_query: None,
        },
        Update {
            update_id: 12,
            message: Some(message(Some("hi"), None)),
            edited_message: None,
            callback_query: None,
        },
    ];
    let mut offset = None;
    let mut calls = Vec::new();
    for update in updates {
        offset = Some(update.update_id + 1);
        let Some(message) = update.message else { continue };
        if message.command().is_some_and(|c| c.name == "/start") {
            calls.push(bot.send_message(&SendMessage::new(message.chat.id, "hello")));
        }
    }
    assert_eq!(calls.len(), 1);
    assert_eq!(calls[0].method, "sendMessage");
    assert_eq!(calls[0].params, SendMessage::new(7, "hello").to_json());
    let next = bot.get_updates(offset, Duration::from_secs(25), &["message"]);
    let expected = Json::Object(vec![
        ("offset".to_string(), Json::Int(13)),
        ("timeout".to_string(), Json::Uint(25)),
        (
            "allowed_updates".to_string(),
            Json::Array(vec![Json::Text("message".to_string())]),
        ),
    ]);
    assert_eq!(next.params, expected);
}
