use nago_telegram::escape_html;

#[test]
fn escapes_each_markup_character() {
    assert_eq!(escape_html("&"), "&amp;");
    assert_eq!(escape_html("<"), "&lt;");
    assert_eq!(escape_html(">"), "&gt;");
    assert_eq!(escape_html("\""), "&quot;");
}

#[test]
fn escapes_markup_inside_text() {
    assert_eq!(
        escape_html("<a href=\"x?a=1&b=2\">it's</a>"),
        "&lt;a href=&quot;x?a=1&amp;b=2&quot;&gt;it's&lt;/a&gt;"
    );
}

#[test]
fn escapes_an_entity_again() {
    assert_eq!(escape_html("&lt;"), "&amp;lt;");
}

#[test]
fn leaves_plain_text() {
    assert_eq!(escape_html(""), "");
    assert_eq!(escape_html("it's plain, été 😀\n"), "it's plain, été 😀\n");
}

#[test]
fn escapes_in_pieces() {
    let whole = "a<b & \"c\" > d";
    for (at, _) in whole.char_indices() {
        let (left, right) = whole.split_at(at);
        assert_eq!(escape_html(left) + &escape_html(right), escape_html(whole));
    }
}

#[test]
fn reading_entities_back_gives_the_text() {
    for text in ["", "&", "&amp;", "<b>&lt;</b>", "\"x\" & 'y'", "é<ü>"] {
        let escaped = escape_html(text);
        assert!(!escaped.contains(['<', '>', '"']));
        let back = escaped
            .replace("&lt;", "<")
            .replace("&gt;", ">")
            .replace("&quot;", "\"")
            .replace("&amp;", "&");
        assert_eq!(back, text);
    }
}

#[test]
fn different_texts_are_escaped_differently() {
    assert_ne!(escape_html("<"), escape_html("&lt;"));
    assert_ne!(escape_html("&"), escape_html("&amp;"));
}
