use parsall::prelude::{ErrorCell, ErrorHandler, ErrorLocation, Input, ParseError, Parser};

const BRACKETS: &[char] = &['(', '['];

#[test]
fn error_cell_starts_empty() {
    let cell: ErrorCell<ParseError> = ErrorCell::new();
    assert!(cell.into_inner().is_none());
    let cell: ErrorCell<ParseError> = Default::default();
    assert!(cell.into_inner().is_none());
}

#[test]
fn error_cell_keeps_the_last_error() {
    let mut cell = ErrorCell::new();
    cell.error(ParseError::ExpectedChar('a'), 0..1);
    cell.error(ParseError::UnexpectedToken, 3..4);
    let ErrorLocation(err, range) = cell.into_inner().unwrap();
    assert_eq!(err, ParseError::UnexpectedToken);
    assert_eq!(range, 3..4);
}

#[test]
fn then_reports_the_errors_of_both_parts() {
    let mut p = Parser::<ParseError, ()>::then(Parser::<ParseError, ()>::not('x'), 'b');
    let mut errs: ErrorCell<ParseError> = ErrorCell::new();
    let r = p.parse(Input::from("ac"), &mut errs, &mut ());
    assert_eq!(r, None);
    let ErrorLocation(err, range) = errs.into_inner().unwrap();
    assert_eq!(err, ParseError::ExpectedChar('b'));
    assert_eq!(range, 0..0);
}

#[test]
fn message_of_a_literal_shows_newlines_and_tabs() {
    let e = ParseError::ExpectedLiteral("a\nb\tc", "list_item");
    assert_eq!(e.message(), "Expected 'a<newline>b<tab>c' while parsing list item");
}

#[test]
fn message_of_a_plain_literal() {
    let e = ParseError::ExpectedLiteral("true", "true");
    assert_eq!(e.message(), "Expected 'true' while parsing true");
}

#[test]
fn message_of_a_token_replaces_underscores() {
    let e = ParseError::ExpectedToken("hex_digit_char");
    assert_eq!(e.message(), "Expected hex digit char");
}

#[test]
fn message_of_an_unexpected_token() {
    assert_eq!(ParseError::UnexpectedToken.message(), "Unexpected token");
}

#[test]
fn message_of_a_symbol_set() {
    let e = ParseError::ExpectedSymbol(BRACKETS);
    assert_eq!(e.message(), "Expected one of ['(', '[']");
}

#[test]
fn message_of_a_char() {
    assert_eq!(ParseError::ExpectedChar('é').message(), "Expected 'é'");
    assert_eq!(ParseError::ExpectedChar('\n').message(), "Expected '\n'");
}

#[test]
fn message_of_a_range() {
    let e = ParseError::ExpectedRange('0'..='9');
    assert_eq!(e.message(), "Expected symbol in '0'..='9'");
}

#[test]
fn error_variants_compare() {
    assert_eq!(ParseError::ExpectedChar('a'), ParseError::ExpectedChar('a'));
    assert_ne!(ParseError::ExpectedChar('a'), ParseError::ExpectedChar('b'));
    assert_ne!(ParseError::UnexpectedToken, ParseError::ExpectedToken("x"));
}

#[test]
fn debug_handler_can_be_cloned() {
    let h: parsall::error::DebugErrorHandler<ParseError> = Default::default();
    let mut h2 = h.clone();
    h2.error(ParseError::UnexpectedToken, 0..1);
}
