//! Text: what callers may hand over as text, and how numbers are written.

use vstd::prelude::*;

verus! {

/// Appending a character to a string: `String::push` puts `c` after what the
/// string held.
pub assume_specification[ String::push ](s: &mut String, c: char)
    ensures
        final(s)@ == old(s)@.push(c),
;

/// What a caller may pass where the library keeps a `String`: all that the
/// standard library turns into one.
pub trait IntoText: Sized {
    /// The characters it stands for.
    spec fn text(self) -> Seq<char>;

    fn into_text(self) -> (r: String)
        ensures
            r@ == self.text(),
    ;
}

impl IntoText for String {
    open spec fn text(self) -> Seq<char> {
        self@
    }

    fn into_text(self) -> (r: String)
        ensures
            r@ == self@,
    {
        self
    }
}

impl IntoText for &String {
    open spec fn text(self) -> Seq<char> {
        self@
    }

    fn into_text(self) -> (r: String)
        ensures
            r@ == self@,
    {
        self.clone()
    }
}

impl IntoText for &str {
    open spec fn text(self) -> Seq<char> {
        self@
    }

    fn into_text(self) -> (r: String)
        ensures
            r@ == self@,
    {
        self.to_owned()
    }
}

impl IntoText for Box<str> {
    open spec fn text(self) -> Seq<char> {
        self@
    }

    fn into_text(self) -> (r: String)
        ensures
            r@ == self@,
    {
        (&*self).to_owned()
    }
}

impl IntoText for std::borrow::Cow<'_, str> {
    open spec fn text(self) -> Seq<char> {
        self@
    }

    fn into_text(self) -> (r: String)
        ensures
            self matches std::borrow::Cow::Borrowed(s) ==> r@ == s@,
            self matches std::borrow::Cow::Owned(s) ==> r@ == s@,
    {
        match self {
            std::borrow::Cow::Borrowed(borrowed) => borrowed.to_owned(),
            std::borrow::Cow::Owned(owned) => owned,
        }
    }
}

impl IntoText for &mut str {
    open spec fn text(self) -> Seq<char> {
        (*self)@
    }

    fn into_text(self) -> (r: String)
        ensures
            r@ == old(self)@,
    {
        (&*self).to_owned()
    }
}

impl IntoText for char {
    open spec fn text(self) -> Seq<char> {
        seq![self]
    }

    fn into_text(self) -> (r: String)
        ensures
            r@.len() == 1 && r@[0] == self,
    {
        let mut r = String::new();
        r.push(self);
        assert(r@ =~= seq![self]);
        r
    }
}

/// The decimal digit for `n`.
pub open spec fn digit(n: nat) -> char {
    (('0' as nat) + n) as char
}

/// `n` in decimal, without leading zeros.
pub open spec fn decimal(n: nat) -> Seq<char>
    decreases n,
{
    if n < 10 {
        seq![digit(n)]
    } else {
        decimal(n / 10).push(digit(n % 10))
    }
}

/// Write `n` in decimal after what `out` holds.
pub fn push_decimal(out: &mut String, n: u16)
    ensures
        final(out)@ == old(out)@ + decimal(n as nat),
    decreases n,
{
    if n >= 10 {
        push_decimal(out, n / 10);
    }
    let d = (48u8 + (n % 10) as u8) as char;
    assert(d == digit((n % 10) as nat));
    out.push(d);
    assert(out@ =~= old(out)@ + decimal(n as nat));
}

/// Whatever text comes as, its characters are kept.
pub proof fn law_text_is_kept(
    owned: String,
    lent: &String,
    slice: &str,
    boxed: Box<str>,
    cow: std::borrow::Cow<'_, str>,
    c: char,
)
    ensures
        owned.text() == owned@,
        lent.text() == lent@,
        slice.text() == slice@,
        boxed.text() == boxed@,
        cow matches std::borrow::Cow::Borrowed(s) ==> cow.text() == s@,
        cow matches std::borrow::Cow::Owned(s) ==> cow.text() == s@,
        c.text().len() == 1,
        c.text()[0] == c,
{
}

/// A number in decimal ends in its last digit, and what comes before is the
/// number without that digit: nothing for a single digit.
pub proof fn law_decimal_digits(n: nat)
    ensures
        decimal(n).len() > 0,
        decimal(n).last() as nat == '0' as nat + n % 10,
        n < 10 ==> decimal(n).len() == 1,
        n >= 10 ==> decimal(n).drop_last() == decimal(n / 10),
{
    if n >= 10 {
        assert(decimal(n).drop_last() =~= decimal(n / 10));
    }
}

/// Different numbers are written differently.
pub proof fn law_decimal_is_injective(a: nat, b: nat)
    requires
        decimal(a) == decimal(b),
    ensures
        a == b,
    decreases a,
{
    law_decimal_digits(a);
    law_decimal_digits(b);
    if a >= 10 && b >= 10 {
        law_decimal_is_injective(a / 10, b / 10);
    } else if a >= 10 {
        law_decimal_digits(a / 10);
        assert(decimal(a).len() == decimal(a).drop_last().len() + 1);
    } else if b >= 10 {
        law_decimal_digits(b / 10);
        assert(decimal(b).len() == decimal(b).drop_last().len() + 1);
    }
}

} // verus!
