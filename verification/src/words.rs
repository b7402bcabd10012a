//! Splitting text into words.

use vstd::prelude::*;
use vstd::string::StrSliceExecFns;

verus! {

/// The Unicode property `White_Space`.
pub open spec fn is_white_space(c: char) -> bool {
    let n = c as nat;
    ||| 0x9 <= n <= 0xD
    ||| n == 0x20
    ||| n == 0x85
    ||| n == 0xA0
    ||| n == 0x1680
    ||| 0x2000 <= n <= 0x200A
    ||| n == 0x2028
    ||| n == 0x2029
    ||| n == 0x202F
    ||| n == 0x205F
    ||| n == 0x3000
}

/// White space is the line breaks, the tab, and the spaces of every width, and
/// nothing else.
pub proof fn law_white_space(c: char)
    ensures
        is_white_space(c) <==> (c == '\t' || c == '\n' || c == '\u{B}' || c == '\u{C}' || c == '\r'
            || c == ' ' || c == '\u{85}' || c == '\u{A0}' || c == '\u{1680}' || c == '\u{2000}' || c
            == '\u{2001}' || c == '\u{2002}' || c == '\u{2003}' || c == '\u{2004}' || c == '\u{2005}'
            || c == '\u{2006}' || c == '\u{2007}' || c == '\u{2008}' || c == '\u{2009}' || c
            == '\u{200A}' || c == '\u{2028}' || c == '\u{2029}' || c == '\u{202F}' || c == '\u{205F}'
            || c == '\u{3000}'),
{
}

/// `char::is_whitespace` tells whether a character has the Unicode property
/// `White_Space`; the characters that have it are those of [`is_white_space`].
pub assume_specification[ char::is_whitespace ](c: char) -> (r: bool)
    ensures
        r == is_white_space(c),
;

/// The words of `text`: its longest runs without white space, in order. A
/// character that is not white space starts a new word after white space, and
/// lengthens the last word elsewhere.
pub open spec fn words(text: Seq<char>) -> Seq<Seq<char>>
    decreases text.len(),
{
    if text.len() == 0 {
        Seq::empty()
    } else {
        let before = words(text.drop_last());
        let c = text.last();
        if is_white_space(c) {
            before
        } else if text.len() == 1 || is_white_space(text[text.len() - 2]) {
            before.push(seq![c])
        } else {
            before.drop_last().push(before.last().push(c))
        }
    }
}

/// Every word holds at least one character, and no white space; a text that
/// does not end in white space, nor is empty, has a word.
pub proof fn law_words_are_solid(text: Seq<char>)
    ensures
        forall|k: int| 0 <= k < words(text).len() ==> (#[trigger] words(text)[k]).len() > 0,
        forall|k: int, i: int|
            0 <= k < words(text).len() && 0 <= i < words(text)[k].len() ==> !is_white_space(
                #[trigger] words(text)[k][i],
            ),
        text.len() > 0 && !is_white_space(text.last()) ==> words(text).len() > 0,
    decreases text.len(),
{
    if text.len() > 0 {
        let before = words(text.drop_last());
        law_words_are_solid(text.drop_last());
        assert forall|k: int| 0 <= k < words(text).len() implies (#[trigger] words(text)[k]).len() > 0
            && forall|i: int|
            0 <= i < words(text)[k].len() ==> !is_white_space(#[trigger] words(text)[k][i]) by {
            if k < before.len() {
                assert(before[k].len() > 0);
                assert forall|i: int| 0 <= i < words(text)[k].len() implies !is_white_space(
                    #[trigger] words(text)[k][i],
                ) by {
                    if i < before[k].len() {
                        assert(!is_white_space(before[k][i]));
                    }
                }
            }
        }
    }
}

/// White space separates: the words of two texts with white space between them
/// are those of the one, then those of the other.
pub proof fn law_white_space_separates_words(a: Seq<char>, c: char, b: Seq<char>)
    requires
        is_white_space(c),
    ensures
        words(a.push(c) + b) == words(a) + words(b),
    decreases b.len(),
{
    let text = a.push(c) + b;
    if b.len() == 0 {
        assert(text =~= a.push(c));
        assert(a.push(c).drop_last() =~= a);
        assert(words(a) + words(b) =~= words(a));
    } else {
        assert(text.drop_last() =~= a.push(c) + b.drop_last());
        law_white_space_separates_words(a, c, b.drop_last());
        law_words_are_solid(b.drop_last());
        assert(words(text) =~= words(a) + words(b));
    }
}

/// A text without white space is one word, unless it is empty.
pub proof fn law_solid_text_is_one_word(text: Seq<char>)
    requires
        text.len() > 0,
        forall|i: int| 0 <= i < text.len() ==> !is_white_space(#[trigger] text[i]),
    ensures
        words(text) == seq![text],
    decreases text.len(),
{
    if text.len() == 1 {
        assert(text.drop_last() =~= Seq::<char>::empty());
        assert(words(text.drop_last()) =~= Seq::<Seq<char>>::empty());
        assert(text =~= seq![text.last()]);
        assert(words(text) =~= seq![text]);
    } else {
        law_solid_text_is_one_word(text.drop_last());
        assert(!is_white_space(text[text.len() - 2]));
        assert(text =~= text.drop_last().push(text.last()));
        assert(words(text) =~= seq![text]);
    }
}

/// Words leave nothing out: one after the other they are the text without its
/// white space.
pub proof fn law_words_keep_every_other_character(text: Seq<char>)
    ensures
        words(text).flatten() == text.filter(|c: char| !is_white_space(c)),
    decreases text.len(),
{
    let solid = |c: char| !is_white_space(c);
    reveal(Seq::filter);
    if text.len() == 0 {
        assert(words(text) =~= Seq::<Seq<char>>::empty());
    } else {
        let init = text.drop_last();
        let before = words(init);
        let c = text.last();
        law_words_keep_every_other_character(init);
        if solid(c) {
            if text.len() == 1 || is_white_space(text[text.len() - 2]) {
                before.lemma_flatten_push(seq![c]);
                assert(before.flatten() + seq![c] =~= before.flatten().push(c));
            } else {
                law_words_are_solid(init);
                let last = before.last();
                before.drop_last().lemma_flatten_push(last);
                before.drop_last().lemma_flatten_push(last.push(c));
                assert(before =~= before.drop_last().push(last));
                assert(before.drop_last().flatten() + last.push(c) =~= before.flatten().push(c));
            }
        }
    }
}

/// The words of `text`, as parts of it.
pub fn split_words<'a>(text: &'a str) -> (r: Vec<&'a str>)
    ensures
        r.deep_view() == words(text@),
{
    let n: usize = text.unicode_len();
    let mut found: Vec<&'a str> = Vec::new();
    let mut start: usize = 0;
    let mut end: usize = 0;
    for c in it: text.chars()
        invariant
            it.seq() == text@,
            n == text@.len(),
            end == it.index(),
            start <= end <= n,
            start < end ==> words(text@.take(end as int)) == found.deep_view().push(
                text@.subrange(start as int, end as int),
            ) && !is_white_space(text@[end - 1]),
            start == end ==> words(text@.take(end as int)) == found.deep_view() && (end == 0
                || is_white_space(text@[end - 1])),
    {
        let ghost before = text@.take(end as int);
        let ghost after = text@.take(end + 1);
        assert(after.drop_last() =~= before);
        if c.is_whitespace() {
            if start < end {
                let ghost done = found.deep_view();
                let word = text.substring_char(start, end);
                found.push(word);
                assert(found.deep_view() =~= done.push(word@));
            }
            start = end + 1;
        } else {
            if start < end {
                let ghost word = text@.subrange(start as int, end as int);
                assert(text@.subrange(start as int, end + 1) =~= word.push(c));
                assert(words(before).drop_last() =~= found.deep_view());
            } else {
                assert(text@.subrange(start as int, end + 1) =~= seq![c]);
            }
        }
        end = end + 1;
    }
    assert(text@.take(n as int) =~= text@);
    if start < end {
        let ghost done = found.deep_view();
        let word = text.substring_char(start, end);
        found.push(word);
        assert(found.deep_view() =~= done.push(word@));
    }
    found
}

/// White space before a text changes none of its words.
pub proof fn law_leading_white_space_is_ignored(lead: Seq<char>, text: Seq<char>)
    requires
        forall|i: int| 0 <= i < lead.len() ==> is_white_space(#[trigger] lead[i]),
    ensures
        words(lead + text) == words(text),
    decreases lead.len(),
{
    if lead.len() == 0 {
        assert(lead + text =~= text);
    } else {
        let init = lead.drop_last();
        assert(lead =~= init.push(lead.last()));
        law_white_space_separates_words(init, lead.last(), text);
        law_leading_white_space_is_ignored(init, Seq::empty());
        assert(init + Seq::<char>::empty() =~= init);
        assert(words(init) + words(text) =~= words(text));
    }
}

/// White space after a text changes none of its words.
pub proof fn law_trailing_white_space_is_ignored(text: Seq<char>, tail: Seq<char>)
    requires
        forall|i: int| 0 <= i < tail.len() ==> is_white_space(#[trigger] tail[i]),
    ensures
        words(text + tail) == words(text),
    decreases tail.len(),
{
    if tail.len() == 0 {
        assert(text + tail =~= text);
    } else {
        assert((text + tail).drop_last() =~= text + tail.drop_last());
        law_trailing_white_space_is_ignored(text, tail.drop_last());
    }
}

} // verus!
