use mqtt_sn::macro_input::{
    consume_any_ident, consume_number, consume_punct, get_string_literal, Error, Span,
    TokenIter, TokenTree,
};

fn sp(id: u64) -> Span {
    Span { id }
}

fn lit(text: &str, id: u64) -> TokenTree {
    TokenTree::Literal(text.to_string(), sp(id))
}

fn ident(text: &str, id: u64) -> TokenTree {
    TokenTree::Ident(text.to_string(), sp(id))
}

#[test]
fn string_literal_alone_gives_its_text() {
    match get_string_literal(vec![lit("\"%Y-%m-%d\"", 7)]) {
        Ok((span, text)) => {
            assert_eq!(span, sp(7));
            assert_eq!(text, "%Y-%m-%d");
        }
        Err(e) => panic!("unexpected error {:?}", e),
    }
    match get_string_literal(vec![lit("\"\"", 1)]) {
        Ok((_, text)) => assert_eq!(text, ""),
        Err(e) => panic!("unexpected error {:?}", e),
    }
}

#[test]
fn string_literal_errors() {
    assert!(matches!(get_string_literal(vec![]), Err(Error::ExpectedString)));
    assert!(matches!(get_string_literal(vec![lit("12", 1)]), Err(Error::ExpectedString)));
    assert!(matches!(get_string_literal(vec![ident("abc", 1)]), Err(Error::ExpectedString)));
    match get_string_literal(vec![lit("\"a\"", 1), TokenTree::Punct(',', sp(2))]) {
        Err(Error::UnexpectedToken { tree: TokenTree::Punct(',', s) }) => assert_eq!(s, sp(2)),
        other => panic!("unexpected result {:?}", other),
    }
}

#[test]
fn number_is_read_without_underscores() {
    let mut chars = TokenIter::new(vec![lit("2_021", 3), TokenTree::Punct('-', sp(4))]);
    match consume_number::<i32>("year", &mut chars) {
        Ok((span, value)) => {
            assert_eq!(span, sp(3));
            assert_eq!(value, 2021);
        }
        Err(e) => panic!("unexpected error {:?}", e),
    }
    assert!(matches!(chars.peek(), Some(TokenTree::Punct('-', _))));
    let mut chars = TokenIter::new(vec![lit("12", 1)]);
    assert!(matches!(consume_number::<u8>("month", &mut chars), Ok((_, 12))));
    assert!(chars.peek().is_none());
    let mut chars = TokenIter::new(vec![lit("366", 1)]);
    assert!(matches!(consume_number::<u16>("ordinal", &mut chars), Ok((_, 366))));
}

#[test]
fn number_errors() {
    let mut chars = TokenIter::new(vec![lit("256", 5)]);
    match consume_number::<u8>("day", &mut chars) {
        Err(Error::InvalidComponent { name, value, span_start, span_end }) => {
            assert_eq!(name, "day");
            assert_eq!(value, "256");
            assert_eq!(span_start, Some(sp(5)));
            assert_eq!(span_end, Some(sp(5)));
        }
        other => panic!("unexpected result {:?}", other),
    }
    assert!(chars.peek().is_none());
    let mut chars = TokenIter::new(vec![lit("3u8", 1)]);
    assert!(matches!(
        consume_number::<u8>("hour", &mut chars),
        Err(Error::InvalidComponent { .. })
    ));
    let mut chars = TokenIter::new(vec![ident("x", 1), lit("1", 2)]);
    assert!(matches!(
        consume_number::<u8>("hour", &mut chars),
        Err(Error::UnexpectedToken { tree: TokenTree::Ident(_, _) })
    ));
    assert!(matches!(chars.peek(), Some(TokenTree::Literal(_, _))));
    let mut chars = TokenIter::new(vec![]);
    assert!(matches!(consume_number::<u8>("hour", &mut chars), Err(Error::UnexpectedEndOfInput)));
}

#[test]
fn ident_among_the_listed_is_read() {
    let mut chars = TokenIter::new(vec![ident("pm", 9), lit("1", 10)]);
    match consume_any_ident(&["am", "pm"], &mut chars) {
        Ok(span) => assert_eq!(span, sp(9)),
        Err(e) => panic!("unexpected error {:?}", e),
    }
    assert!(matches!(chars.peek(), Some(TokenTree::Literal(_, _))));
}

#[test]
fn other_ident_is_left_unread() {
    let mut chars = TokenIter::new(vec![ident("noon", 9)]);
    assert!(matches!(
        consume_any_ident(&["am", "pm"], &mut chars),
        Err(Error::UnexpectedToken { tree: TokenTree::Ident(_, _) })
    ));
    assert!(matches!(chars.peek(), Some(TokenTree::Ident(_, _))));
    let mut empty = TokenIter::new(vec![]);
    assert!(matches!(consume_any_ident(&["am"], &mut empty), Err(Error::UnexpectedEndOfInput)));
}

#[test]
fn punct_is_read_only_when_it_matches() {
    let mut chars = TokenIter::new(vec![TokenTree::Punct(':', sp(1)), TokenTree::Punct(':', sp(2))]);
    assert!(matches!(consume_punct(':', &mut chars), Ok(s) if s == sp(1)));
    assert!(matches!(
        consume_punct('-', &mut chars),
        Err(Error::UnexpectedToken { tree: TokenTree::Punct(':', _) })
    ));
    assert!(matches!(consume_punct(':', &mut chars), Ok(s) if s == sp(2)));
    assert!(matches!(consume_punct(':', &mut chars), Err(Error::UnexpectedEndOfInput)));
    let mut group = TokenIter::new(vec![TokenTree::Group(sp(3))]);
    assert!(matches!(
        consume_punct(':', &mut group),
        Err(Error::UnexpectedToken { tree: TokenTree::Group(_) })
    ));
}
