use parsall::error::{ErrorCell, ErrorLocation, ParseError};
use parsall::parser_prims::{char_filter, lit, sep};
use parsall::parser_trait::{FixedLengthParser, Parser};
use parsall::Input;

const VOWELS: &[char] = &['a', 'e', 'i', 'o', 'u'];

fn run<'a, P: Parser<'a, ParseError, ()>>(
    p: &mut P,
    src: &'a str,
    cur: usize,
) -> (Option<(usize, P::Output)>, Option<ErrorLocation<ParseError>>) {
    let mut errs = ErrorCell::new();
    let r = p.parse(Input { src, cur }, &mut errs, &mut ());
    (r, errs.into_inner())
}

#[test]
fn literal_matches_its_bytes() {
    let (r, e) = run(&mut "abc", "abcdef", 0);
    assert_eq!(r, Some((3, ())));
    assert!(e.is_none());
}

#[test]
fn literal_reports_the_matching_prefix() {
    let (r, e) = run(&mut "abc", "abxdef", 0);
    assert_eq!(r, None);
    let ErrorLocation(err, range) = e.unwrap();
    assert_eq!(err, ParseError::ExpectedLiteral("abc", "abc"));
    assert_eq!(range, 0..2);
}

#[test]
fn literal_at_the_end_of_the_text_fails() {
    let (r, e) = run(&mut "abc", "xab", 1);
    assert_eq!(r, None);
    let ErrorLocation(err, range) = e.unwrap();
    assert_eq!(err, ParseError::ExpectedLiteral("abc", "abc"));
    assert_eq!(range, 1..3);
}

#[test]
fn empty_literal_always_matches() {
    let (r, e) = run(&mut "", "xyz", 2);
    assert_eq!(r, Some((0, ())));
    assert!(e.is_none());
}

#[test]
fn named_literal_names_its_parser() {
    let mut p = lit("null", "null_value");
    let (r, e) = run(&mut p, "nil", 0);
    assert_eq!(r, None);
    let ErrorLocation(err, range) = e.unwrap();
    assert_eq!(err, ParseError::ExpectedLiteral("null", "null_value"));
    assert_eq!(range, 0..1);
    assert_eq!(FixedLengthParser::<ParseError, ()>::parsed_len(&p), 4);
}

#[test]
fn literal_with_multibyte_characters() {
    let (r, _) = run(&mut "λμ", "λμν", 0);
    assert_eq!(r, Some((4, ())));
    assert_eq!(FixedLengthParser::<ParseError, ()>::parsed_len(&"λμ"), 4);
}

#[test]
fn char_matches_and_consumes_its_encoding() {
    let (r, e) = run(&mut 'é', "été", 0);
    assert_eq!(r, Some((2, ())));
    assert!(e.is_none());
    assert_eq!(FixedLengthParser::<ParseError, ()>::parsed_len(&'é'), 2);
    assert_eq!(FixedLengthParser::<ParseError, ()>::parsed_len(&'a'), 1);
    assert_eq!(FixedLengthParser::<ParseError, ()>::parsed_len(&'€'), 3);
    assert_eq!(FixedLengthParser::<ParseError, ()>::parsed_len(&'𝄞'), 4);
}

#[test]
fn char_reports_expected_char() {
    let (r, e) = run(&mut 'a', "ba", 0);
    assert_eq!(r, None);
    let ErrorLocation(err, range) = e.unwrap();
    assert_eq!(err, ParseError::ExpectedChar('a'));
    assert_eq!(range, 0..0);
}

#[test]
fn char_at_end_of_text_fails() {
    let (r, e) = run(&mut 'a', "a", 1);
    assert_eq!(r, None);
    assert_eq!(e.unwrap().0, ParseError::ExpectedChar('a'));
}

#[test]
fn any_char_takes_one_character() {
    let (r, e) = run(&mut .., "λx", 0);
    assert_eq!(r, Some((2, 'λ')));
    assert!(e.is_none());
    let (r, e) = run(&mut .., "λx", 2);
    assert_eq!(r, Some((1, 'x')));
    assert!(e.is_none());
}

#[test]
fn any_char_fails_silently_at_the_end() {
    let (r, e) = run(&mut .., "ab", 2);
    assert_eq!(r, None);
    assert!(e.is_none());
}

#[test]
fn char_set_matches_a_member() {
    let mut p = VOWELS;
    let (r, e) = run(&mut p, "over", 0);
    assert_eq!(r, Some((1, 'o')));
    assert!(e.is_none());
}

#[test]
fn char_set_reports_expected_symbol() {
    let mut p = VOWELS;
    let (r, e) = run(&mut p, "xyz", 1);
    assert_eq!(r, None);
    let ErrorLocation(err, range) = e.unwrap();
    assert_eq!(err, ParseError::ExpectedSymbol(VOWELS));
    assert_eq!(range, 1..1);
}

#[test]
fn char_range_matches_inside() {
    let (r, e) = run(&mut ('a'..='z'), "q1", 0);
    assert_eq!(r, Some((1, 'q')));
    assert!(e.is_none());
    let (r, _) = run(&mut ('a'..='z'), "z", 0);
    assert_eq!(r, Some((1, 'z')));
    let (r, _) = run(&mut ('α'..='ω'), "β", 0);
    assert_eq!(r, Some((2, 'β')));
}

#[test]
fn char_range_reports_expected_range() {
    let (r, e) = run(&mut ('a'..='z'), "Q", 0);
    assert_eq!(r, None);
    let ErrorLocation(err, range) = e.unwrap();
    assert_eq!(err, ParseError::ExpectedRange('a'..='z'));
    assert_eq!(range, 0..0);
}

#[test]
fn predicate_matches_silently() {
    let mut p = |c: char| c.is_ascii_digit();
    let (r, e) = run(&mut p, "7a", 0);
    assert_eq!(r, Some((1, '7')));
    assert!(e.is_none());
    let (r, e) = run(&mut p, "a7", 0);
    assert_eq!(r, None);
    assert!(e.is_none());
}

#[test]
fn char_filter_names_its_parser() {
    let mut p = char_filter(|c: char| c.is_ascii_hexdigit(), "hex_digit");
    let (r, _) = run(&mut p, "f0", 0);
    assert_eq!(r, Some((1, 'f')));
    let (r, e) = run(&mut p, "g0", 0);
    assert_eq!(r, None);
    let ErrorLocation(err, range) = e.unwrap();
    assert_eq!(err, ParseError::ExpectedToken("hex_digit"));
    assert_eq!(range, 0..0);
}

#[test]
fn sep_skips_all_whitespace() {
    let (r, e) = run(&mut sep, "  \t\nx", 0);
    assert_eq!(r, Some((4, ())));
    assert!(e.is_none());
}

#[test]
fn sep_matches_nothing_before_other_text() {
    let (r, e) = run(&mut sep, "x  ", 0);
    assert_eq!(r, Some((0, ())));
    assert!(e.is_none());
    let (r, _) = run(&mut sep, "", 0);
    assert_eq!(r, Some((0, ())));
}

#[test]
fn sep_knows_unicode_whitespace() {
    let (r, _) = run(&mut sep, "\u{3000}\u{a0}\u{2028}y", 0);
    assert_eq!(r, Some((3 + 2 + 3, ())));
    let (r, _) = run(&mut sep, "\u{200b}y", 0);
    assert_eq!(r, Some((0, ())));
}

#[test]
fn input_slice_and_skip() {
    let input = Input::from("hello");
    assert_eq!(input.cur, 0);
    assert_eq!(input.slice(), "hello");
    let later = input.skip(2);
    assert_eq!(later.cur, 2);
    assert_eq!(later.slice(), "llo");
    assert_eq!(later.skip(3).slice(), "");
}

#[test]
fn sep_agrees_with_char_is_whitespace() {
    let mut buf = [0u8; 4];
    for code in 0u32..=0x10FFFF {
        if let Some(c) = char::from_u32(code) {
            let text: &str = c.encode_utf8(&mut buf);
            let mut errs: ErrorCell<ParseError> = ErrorCell::new();
            let r = sep.parse(Input { src: text, cur: 0 }, &mut errs, &mut ());
            let consumed = r.map(|(n, _)| n).unwrap_or(0);
            assert_eq!(consumed > 0, c.is_whitespace(), "{code:#x}");
        }
    }
}
