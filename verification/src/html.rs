//! Escaping text for HTML messages.

use vstd::prelude::*;
use vstd::string::StringExecFns;

verus! {

/// The characters that HTML text may not hold as they are.
pub open spec fn is_markup(c: char) -> bool {
    c == '&' || c == '<' || c == '>' || c == '"'
}

/// How one character is written in HTML text.
pub open spec fn escaped_char(c: char) -> Seq<char> {
    if c == '&' {
        "&amp;"@
    } else if c == '<' {
        "&lt;"@
    } else if c == '>' {
        "&gt;"@
    } else if c == '"' {
        "&quot;"@
    } else {
        seq![c]
    }
}

/// How `text` is written in HTML text: each character in turn.
pub open spec fn escaped(text: Seq<char>) -> Seq<char>
    decreases text.len(),
{
    if text.len() == 0 {
        Seq::empty()
    } else {
        escaped(text.drop_last()) + escaped_char(text.last())
    }
}

/// Escape text for [`ParseMode::Html`](crate::ParseMode::Html).
#[must_use]
pub fn escape_html(text: &str) -> (r: String)
    ensures
        r@ == escaped(text@),
{
    let mut r = String::new();
    for character in it: text.chars()
        invariant
            it.seq() == text@,
            r@ == escaped(text@.take(it.index())),
    {
        assert(text@.take(it.index() + 1).drop_last() =~= text@.take(it.index()));
        match character {
            '&' => r.append("&amp;"),
            '<' => r.append("&lt;"),
            '>' => r.append("&gt;"),
            '"' => r.append("&quot;"),
            other => {
                r.push(other);
            },
        }
        assert(r@ =~= escaped(text@.take(it.index() + 1)));
    }
    assert(text@.take(text@.len() as int) =~= text@);
    r
}

/// What `text` reads as once each of the four entities is read back as its
/// character.
pub open spec fn unescaped(text: Seq<char>) -> Seq<char>
    decreases text.len(),
{
    proof {
        reveal_strlit("&amp;");
        reveal_strlit("&lt;");
        reveal_strlit("&gt;");
        reveal_strlit("&quot;");
    }
    if text.len() == 0 {
        Seq::empty()
    } else if "&amp;"@.is_prefix_of(text) {
        seq!['&'] + unescaped(text.skip("&amp;"@.len() as int))
    } else if "&lt;"@.is_prefix_of(text) {
        seq!['<'] + unescaped(text.skip("&lt;"@.len() as int))
    } else if "&gt;"@.is_prefix_of(text) {
        seq!['>'] + unescaped(text.skip("&gt;"@.len() as int))
    } else if "&quot;"@.is_prefix_of(text) {
        seq!['"'] + unescaped(text.skip("&quot;"@.len() as int))
    } else {
        seq![text[0]] + unescaped(text.skip(1))
    }
}

/// Escaping goes character by character: a text may be escaped in pieces.
pub proof fn law_escape_concat(a: Seq<char>, b: Seq<char>)
    ensures
        escaped(a + b) == escaped(a) + escaped(b),
    decreases b.len(),
{
    if b.len() == 0 {
        assert(a + b =~= a);
        assert(escaped(a) + escaped(b) =~= escaped(a));
    } else {
        assert((a + b).drop_last() =~= a + b.drop_last());
        law_escape_concat(a, b.drop_last());
        assert(escaped(a + b) =~= escaped(a) + escaped(b));
    }
}

/// Text without markup characters is left as it is.
pub proof fn law_escape_leaves_plain_text(text: Seq<char>)
    requires
        forall|i: int| 0 <= i < text.len() ==> !is_markup(#[trigger] text[i]),
    ensures
        escaped(text) == text,
    decreases text.len(),
{
    if text.len() > 0 {
        law_escape_leaves_plain_text(text.drop_last());
        assert(!is_markup(text[text.len() - 1]));
        assert(escaped(text) =~= text);
    }
}

/// Escaped text opens no tag and closes no attribute: it holds no `<`, no `>`
/// and no `"`.
pub proof fn law_escape_leaves_no_markup(text: Seq<char>)
    ensures
        forall|i: int|
            0 <= i < escaped(text).len() ==> #[trigger] escaped(text)[i] != '<'
                && escaped(text)[i] != '>' && escaped(text)[i] != '"',
    decreases text.len(),
{
    if text.len() > 0 {
        let init = escaped(text.drop_last());
        let end = escaped_char(text.last());
        law_escape_leaves_no_markup(text.drop_last());
        reveal_strlit("&amp;");
        reveal_strlit("&lt;");
        reveal_strlit("&gt;");
        reveal_strlit("&quot;");
        assert forall|i: int| 0 <= i < escaped(text).len() implies #[trigger] escaped(text)[i] != '<'
            && escaped(text)[i] != '>' && escaped(text)[i] != '"' by {
            if i < init.len() {
                assert(escaped(text)[i] == init[i]);
            } else {
                assert(escaped(text)[i] == end[i - init.len()]);
            }
        }
    }
}

/// Whether `text` starts with one of the four entities.
pub open spec fn starts_with_entity(text: Seq<char>) -> bool {
    ||| "&amp;"@.is_prefix_of(text)
    ||| "&lt;"@.is_prefix_of(text)
    ||| "&gt;"@.is_prefix_of(text)
    ||| "&quot;"@.is_prefix_of(text)
}

/// Every `&` of escaped text starts one of the four entities.
pub proof fn law_escape_ampersands_start_entities(text: Seq<char>)
    ensures
        forall|i: int|
            0 <= i < escaped(text).len() && #[trigger] escaped(text)[i] == '&'
                ==> starts_with_entity(escaped(text).skip(i)),
    decreases text.len(),
{
    if text.len() > 0 {
        let init = escaped(text.drop_last());
        let end = escaped_char(text.last());
        law_escape_ampersands_start_entities(text.drop_last());
        reveal_strlit("&amp;");
        reveal_strlit("&lt;");
        reveal_strlit("&gt;");
        reveal_strlit("&quot;");
        assert forall|i: int|
            0 <= i < escaped(text).len() && #[trigger] escaped(text)[i] == '&' implies starts_with_entity(
            escaped(text).skip(i),
        ) by {
            if i < init.len() {
                assert(init[i] == '&');
                assert(escaped(text).skip(i) =~= init.skip(i) + end);
            } else {
                assert(end[i - init.len()] == '&');
                assert(i == init.len());
                assert(escaped(text).skip(i) =~= end);
            }
        }
    }
}

proof fn lemma_entity_starts_with_ampersand(text: Seq<char>)
    requires
        starts_with_entity(text),
    ensures
        text[0] == '&',
{
    reveal_strlit("&amp;");
    reveal_strlit("&lt;");
    reveal_strlit("&gt;");
    reveal_strlit("&quot;");
    let entity = if "&amp;"@.is_prefix_of(text) {
        "&amp;"@
    } else if "&lt;"@.is_prefix_of(text) {
        "&lt;"@
    } else if "&gt;"@.is_prefix_of(text) {
        "&gt;"@
    } else {
        "&quot;"@
    };
    assert(entity[0] == text.subrange(0, entity.len() as int)[0]);
}

/// Nothing is lost: reading the entities back gives the text that was escaped.
pub proof fn law_unescape_undoes_escape(text: Seq<char>)
    ensures
        unescaped(escaped(text)) == text,
    decreases text.len(),
{
    if text.len() > 0 {
        let head = seq![text[0]];
        let tail = text.skip(1);
        let out = escaped(text);
        let first = escaped_char(text[0]);
        assert(text =~= head + tail);
        law_escape_concat(head, tail);
        assert(head.drop_last() =~= Seq::<char>::empty());
        assert(escaped(head) =~= first) by {
            assert(escaped(head.drop_last()) =~= Seq::<char>::empty());
        }
        assert(out == first + escaped(tail));
        law_unescape_undoes_escape(tail);
        reveal_strlit("&amp;");
        reveal_strlit("&lt;");
        reveal_strlit("&gt;");
        reveal_strlit("&quot;");
        assert(out.skip(first.len() as int) =~= escaped(tail));
        if is_markup(text[0]) {
            assert(out[1] == first[1]);
            assert(first.is_prefix_of(out));
        } else {
            assert(out[0] == text[0]);
            if starts_with_entity(out) {
                lemma_entity_starts_with_ampersand(out);
            }
        }
        assert(unescaped(out) =~= head + tail);
    }
}

/// Different texts are escaped differently.
pub proof fn law_escape_is_injective(a: Seq<char>, b: Seq<char>)
    requires
        escaped(a) == escaped(b),
    ensures
        a == b,
{
    law_unescape_undoes_escape(a);
    law_unescape_undoes_escape(b);
}

/// Wherever a character stands, it alone decides what is written for it: an
/// entity for each of the four markup characters, and itself for any other.
/// What comes before and after is escaped as if on its own.
pub proof fn law_escape_at(text: Seq<char>, i: int)
    requires
        0 <= i < text.len(),
    ensures
        ({
            let before = escaped(text.take(i));
            let after = escaped(text.skip(i + 1));
            &&& text[i] == '&' ==> escaped(text) == before + seq!['&', 'a', 'm', 'p', ';'] + after
            &&& text[i] == '<' ==> escaped(text) == before + seq!['&', 'l', 't', ';'] + after
            &&& text[i] == '>' ==> escaped(text) == before + seq!['&', 'g', 't', ';'] + after
            &&& text[i] == '"' ==> escaped(text) == before + seq!['&', 'q', 'u', 'o', 't', ';']
                + after
            &&& text[i] != '&' && text[i] != '<' && text[i] != '>' && text[i] != '"'
                ==> escaped(text) == before.push(text[i]) + after
        }),
{
    reveal_strlit("&amp;");
    reveal_strlit("&lt;");
    reveal_strlit("&gt;");
    reveal_strlit("&quot;");
    assert("&amp;"@ =~= seq!['&', 'a', 'm', 'p', ';']);
    assert("&lt;"@ =~= seq!['&', 'l', 't', ';']);
    assert("&gt;"@ =~= seq!['&', 'g', 't', ';']);
    assert("&quot;"@ =~= seq!['&', 'q', 'u', 'o', 't', ';']);
    let head = text.take(i + 1);
    assert(head.drop_last() =~= text.take(i));
    assert(text =~= head + text.skip(i + 1));
    law_escape_concat(head, text.skip(i + 1));
    assert(escaped(text.take(i)) + seq![text[i]] =~= escaped(text.take(i)).push(text[i]));
}

} // verus!
