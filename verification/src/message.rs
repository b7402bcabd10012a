//! What Telegram delivers: updates, messages, chats, users and button presses.

use vstd::prelude::*;
use vstd::string::StrSliceExecFns;

use crate::words::split_words;

verus! {

/// One update, from `getUpdates` or a webhook body. Kinds this crate does not
/// model are left out.
#[derive(Clone, Debug)]
pub struct Update {
    pub update_id: i64,
    pub message: Option<Message>,
    pub edited_message: Option<Message>,
    pub callback_query: Option<CallbackQuery>,
}

#[derive(Debug)]
pub struct Message {
    pub message_id: i64,
    /// Unix seconds.
    pub date: i64,
    pub chat: Chat,
    pub from: Option<User>,
    pub text: Option<String>,
    pub caption: Option<String>,
    pub reply_to_message: Option<Box<Message>>,
}

#[derive(Debug)]
pub struct Chat {
    pub id: i64,
    /// `private`, `group`, `supergroup` or `channel`.
    pub kind: String,
    pub title: Option<String>,
    pub username: Option<String>,
}

#[derive(Debug)]
pub struct User {
    pub id: i64,
    pub is_bot: bool,
    pub first_name: String,
    pub username: Option<String>,
}

impl Clone for User {
    fn clone(&self) -> (r: Self)
        ensures
            r == *self,
    {
        User {
            id: self.id,
            is_bot: self.is_bot,
            first_name: self.first_name.clone(),
            username: self.username.clone(),
        }
    }
}

impl Clone for Chat {
    fn clone(&self) -> (r: Self)
        ensures
            r == *self,
    {
        Chat {
            id: self.id,
            kind: self.kind.clone(),
            title: self.title.clone(),
            username: self.username.clone(),
        }
    }
}

impl Clone for Message {
    fn clone(&self) -> (r: Self)
        ensures
            r == *self,
        decreases self,
    {
        Message {
            message_id: self.message_id,
            date: self.date,
            chat: self.chat.clone(),
            from: self.from.clone(),
            text: self.text.clone(),
            caption: self.caption.clone(),
            reply_to_message: match &self.reply_to_message {
                Some(message) => Some(Box::new((&**message).clone())),
                None => None,
            },
        }
    }
}

/// An inline-button press.
#[derive(Clone, Debug)]
pub struct CallbackQuery {
    pub id: String,
    pub from: User,
    /// The message the button was on, if the bot can still see it.
    pub message: Option<Box<Message>>,
    pub data: Option<String>,
}

#[derive(Clone, Debug)]
pub struct WebhookInfo {
    /// Empty when no webhook is set.
    pub url: String,
    pub pending_update_count: i64,
    pub last_error_message: Option<String>,
}

/// A bot command at the start of a message: `/name@bot arg arg`.
#[derive(Clone, Debug, PartialEq, Eq)]
pub struct Command<'a> {
    /// With its `/`, without any `@botname` suffix.
    pub name: &'a str,
    /// The whitespace-separated words after it.
    pub args: Vec<&'a str>,
}

/// The characters of a [`Command`].
pub struct CommandView {
    pub name: Seq<char>,
    pub args: Seq<Seq<char>>,
}

impl View for Command<'_> {
    type V = CommandView;

    open spec fn view(&self) -> CommandView {
        CommandView { name: self.name@, args: self.args.deep_view() }
    }
}

/// How many characters of `word` come before its first `@`.
pub open spec fn at_position(word: Seq<char>) -> nat
    decreases word.len(),
{
    if word.len() == 0 || word[0] == '@' {
        0
    } else {
        1 + at_position(word.skip(1))
    }
}

/// `word` up to its first `@`.
pub open spec fn without_bot_name(word: Seq<char>) -> Seq<char> {
    word.take(at_position(word) as int)
}

/// The command that `text` starts with: its first word, where that starts with
/// a `/`, and the words after it.
pub open spec fn command_of(text: Seq<char>) -> Option<CommandView> {
    let words = crate::words::words(text);
    if words.len() > 0 && words[0].len() > 0 && words[0][0] == '/' {
        Some(CommandView { name: without_bot_name(words[0]), args: words.skip(1) })
    } else {
        None
    }
}

/// The characters of an optional text.
pub open spec fn text_view(text: Option<&str>) -> Option<Seq<char>> {
    match text {
        Some(t) => Some(t@),
        None => None,
    }
}

/// The characters of an optional command.
pub open spec fn command_view(command: Option<Command<'_>>) -> Option<CommandView> {
    match command {
        Some(c) => Some(c@),
        None => None,
    }
}

impl Message {
    /// The characters of the text, or of the caption where there is no text.
    pub open spec fn text_of(&self) -> Option<Seq<char>> {
        match (self.text, self.caption) {
            (Some(t), _) => Some(t@),
            (None, Some(c)) => Some(c@),
            (None, None) => None,
        }
    }

    /// The text, or a media message's caption.
    #[must_use]
    pub fn text(&self) -> (r: Option<&str>)
        ensures
            text_view(r) == self.text_of(),
            r is Some <==> self.text is Some || self.caption is Some,
            self.text is Some ==> r->0@ == self.text->0@,
            self.text is None && self.caption is Some ==> r->0@ == self.caption->0@,
    {
        match &self.text {
            Some(text) => Some(text.as_str()),
            None => match &self.caption {
                Some(caption) => Some(caption.as_str()),
                None => None,
            },
        }
    }

    /// The command this message's text starts with, if any.
    #[must_use]
    pub fn command(&self) -> (r: Option<Command<'_>>)
        ensures
            command_view(r) == match self.text {
                Some(text) => command_of(text@),
                None => None,
            },
            r is Some <==> self.text is Some && crate::words::words(self.text->0@).len() > 0
                && crate::words::words(self.text->0@)[0][0] == '/',
            r is Some ==> ({
                let words = crate::words::words(self.text->0@);
                let name = r->0.name@;
                &&& name.len() <= words[0].len()
                &&& forall|i: int|
                    0 <= i < name.len() ==> #[trigger] name[i] == words[0][i] && name[i] != '@'
                &&& name.len() < words[0].len() ==> words[0][name.len() as int] == '@'
                &&& r->0.args@.len() + 1 == words.len()
                &&& forall|k: int|
                    0 <= k < r->0.args@.len() ==> (#[trigger] r->0.args@[k])@ == words[k + 1]
            }),
    {
        let text: &str = match &self.text {
            Some(text) => text.as_str(),
            None => {
                return None;
            },
        };
        let mut args = split_words(text);
        let ghost words = args.deep_view();
        proof {
            crate::words::law_words_are_solid(text@);
        }
        if args.len() == 0 {
            return None;
        }
        let first = args.remove(0);
        assert(first@ == words[0]);
        assert(args.deep_view() =~= words.skip(1));
        let len: usize = first.unicode_len();
        if len == 0 || first.get_char(0) != '/' {
            return None;
        }
        let mut at: usize = 0;
        let mut seen = false;
        for c in it: first.chars()
            invariant
                it.seq() == first@,
                len == first@.len(),
                at <= it.index(),
                forall|i: int| 0 <= i < at ==> #[trigger] first@[i] != '@',
                seen ==> at < it.index() && first@[at as int] == '@',
                !seen ==> at == it.index(),
        {
            if c == '@' {
                seen = true;
            } else if !seen {
                at = at + 1;
            }
        }
        proof {
            lemma_at_position(first@);
        }
        Some(Command { name: first.substring_char(0, at), args })
    }
}

impl Chat {
    /// A one-to-one chat with a user.
    #[must_use]
    pub fn is_private(&self) -> (r: bool)
        ensures
            r == (self.kind@ == "private"@),
    {
        self.kind == "private".to_owned()
    }
}

proof fn lemma_at_position(word: Seq<char>)
    ensures
        at_position(word) <= word.len(),
        forall|i: int| 0 <= i < at_position(word) ==> #[trigger] word[i] != '@',
        at_position(word) < word.len() ==> word[at_position(word) as int] == '@',
    decreases word.len(),
{
    if word.len() > 0 && word[0] != '@' {
        let tail = word.skip(1);
        lemma_at_position(tail);
        assert forall|i: int| 0 <= i < at_position(word) implies #[trigger] word[i] != '@' by {
            if i > 0 {
                assert(tail[i - 1] != '@');
            }
        }
    }
}

/// A command's name starts with its `/`, names no bot and holds no white
/// space; its arguments are solid words.
pub proof fn law_command_shape(text: Seq<char>)
    requires
        command_of(text) is Some,
    ensures
        ({
            let command = command_of(text)->0;
            &&& command.name.len() > 0
            &&& command.name[0] == '/'
            &&& forall|i: int|
                0 <= i < command.name.len() ==> #[trigger] command.name[i] != '@'
                    && !crate::words::is_white_space(command.name[i])
            &&& forall|k: int| 0 <= k < command.args.len() ==> (#[trigger] command.args[k]).len() > 0
            &&& forall|k: int, i: int|
                0 <= k < command.args.len() && 0 <= i < command.args[k].len()
                    ==> !crate::words::is_white_space(#[trigger] command.args[k][i])
        }),
{
    let words = crate::words::words(text);
    let first = words[0];
    let command = command_of(text)->0;
    crate::words::law_words_are_solid(text);
    lemma_at_position(first);
    assert(at_position(first) > 0);
    assert forall|i: int| 0 <= i < command.name.len() implies #[trigger] command.name[i] != '@'
        && !crate::words::is_white_space(command.name[i]) by {
        assert(first[i] == words[0][i]);
    }
    assert forall|k: int| 0 <= k < command.args.len() implies (#[trigger] command.args[k]).len() > 0 by {
        assert(words[k + 1].len() > 0);
    }
    assert forall|k: int, i: int|
        0 <= k < command.args.len() && 0 <= i < command.args[k].len() implies !crate::words::is_white_space(
        #[trigger] command.args[k][i],
    ) by {
        assert(!crate::words::is_white_space(words[k + 1][i]));
    }
}

/// A bot's name after the command changes nothing: `/name@bot args` and
/// `/name args` are the same command.
pub proof fn law_bot_name_is_dropped(name: Seq<char>, bot: Seq<char>, space: char, rest: Seq<char>)
    requires
        name.len() > 0,
        name[0] == '/',
        forall|i: int|
            0 <= i < name.len() ==> #[trigger] name[i] != '@' && !crate::words::is_white_space(name[i]),
        forall|i: int| 0 <= i < bot.len() ==> !crate::words::is_white_space(#[trigger] bot[i]),
        crate::words::is_white_space(space),
    ensures
        command_of((name + seq!['@'] + bot).push(space) + rest) == Some(
            CommandView { name, args: crate::words::words(rest) },
        ),
        command_of(name.push(space) + rest) == Some(
            CommandView { name, args: crate::words::words(rest) },
        ),
{
    let named = name + seq!['@'] + bot;
    assert forall|i: int| 0 <= i < named.len() implies !crate::words::is_white_space(
        #[trigger] named[i],
    ) by {
        if i < name.len() {
            assert(named[i] == name[i]);
        } else if i > name.len() {
            assert(named[i] == bot[i - name.len() - 1]);
        }
    }
    crate::words::law_white_space_separates_words(named, space, rest);
    crate::words::law_solid_text_is_one_word(named);
    crate::words::law_white_space_separates_words(name, space, rest);
    crate::words::law_solid_text_is_one_word(name);
    lemma_at_position(named);
    lemma_at_position(name);
    assert(named[name.len() as int] == '@');
    assert(named[0] == name[0]);
    if at_position(named) < name.len() {
        assert(named[at_position(named) as int] == name[at_position(named) as int]);
    }
    assert(at_position(named) == name.len());
    if at_position(name) < name.len() {
        assert(name[at_position(name) as int] != '@');
    }
    assert(without_bot_name(named) =~= name);
    assert(without_bot_name(name) =~= name);
    let tail = crate::words::words(rest);
    assert((seq![named] + tail).skip(1) =~= tail);
    assert((seq![name] + tail).skip(1) =~= tail);
}

/// A text holds a command exactly where its first word starts with a `/`. The
/// command's name is that word up to its first `@`, or all of it where it has
/// none, and its arguments are the words after it.
pub proof fn law_command_is_the_first_word(text: Seq<char>)
    ensures
        ({
            let words = crate::words::words(text);
            &&& command_of(text) is Some <==> words.len() > 0 && words[0][0] == '/'
            &&& command_of(text) is Some ==> ({
                let name = command_of(text)->0.name;
                let args = command_of(text)->0.args;
                &&& name.len() <= words[0].len()
                &&& forall|i: int| 0 <= i < name.len() ==> #[trigger] name[i] == words[0][i]
                &&& forall|i: int| 0 <= i < name.len() ==> #[trigger] name[i] != '@'
                &&& name.len() < words[0].len() ==> words[0][name.len() as int] == '@'
                &&& args.len() + 1 == words.len()
                &&& forall|k: int| 0 <= k < args.len() ==> #[trigger] args[k] == words[k + 1]
            })
        }),
{
    crate::words::law_words_are_solid(text);
    let words = crate::words::words(text);
    if words.len() > 0 {
        assert(words[0].len() > 0);
        lemma_at_position(words[0]);
    }
}

/// A command that is all of a text, but for white space before it, is the same
/// with a bot's name as without, and has no arguments.
pub proof fn law_bot_name_is_dropped_from_a_lone_command(
    lead: Seq<char>,
    name: Seq<char>,
    bot: Seq<char>,
)
    requires
        forall|i: int| 0 <= i < lead.len() ==> crate::words::is_white_space(#[trigger] lead[i]),
        name.len() > 0,
        name[0] == '/',
        forall|i: int|
            0 <= i < name.len() ==> #[trigger] name[i] != '@' && !crate::words::is_white_space(name[i]),
        forall|i: int| 0 <= i < bot.len() ==> !crate::words::is_white_space(#[trigger] bot[i]),
    ensures
        command_of(lead + (name + seq!['@'] + bot)) == command_of(lead + name),
        command_of(lead + name) is Some,
        command_of(lead + name)->0.name == name,
        command_of(lead + name)->0.args.len() == 0,
{
    let named = name + seq!['@'] + bot;
    assert forall|i: int| 0 <= i < named.len() implies !crate::words::is_white_space(
        #[trigger] named[i],
    ) by {
        if i < name.len() {
            assert(named[i] == name[i]);
        } else if i > name.len() {
            assert(named[i] == bot[i - name.len() - 1]);
        }
    }
    crate::words::law_solid_text_is_one_word(named);
    crate::words::law_solid_text_is_one_word(name);
    crate::words::law_leading_white_space_is_ignored(lead, named);
    crate::words::law_leading_white_space_is_ignored(lead, name);
    lemma_at_position(named);
    lemma_at_position(name);
    assert(named[name.len() as int] == '@');
    assert(named[0] == name[0]);
    if at_position(named) < name.len() {
        assert(named[at_position(named) as int] == name[at_position(named) as int]);
    }
    if at_position(name) < name.len() {
        assert(name[at_position(name) as int] != '@');
    }
    assert(without_bot_name(named) =~= name);
    assert(without_bot_name(name) =~= name);
    assert(seq![named].skip(1) =~= seq![name].skip(1));
}

/// A text wins over a caption, which counts only where there is no text.
pub proof fn law_text_wins_over_caption(message: Message)
    ensures
        message.text is Some ==> message.text_of() == Some(message.text->0@),
        message.text is None && message.caption is Some ==> message.text_of() == Some(
            message.caption->0@,
        ),
        message.text is None && message.caption is None ==> message.text_of() is None,
{
}

} // verus!
