use std::ops::Range;

use parsall::error::{ErrorCell, ErrorLocation, ParseError};
use parsall::output::{Ignore, ToVec};
use parsall::parser_prims::{lit, sep};
use parsall::parser_trait::{FixedLengthParser, Parser};
use parsall::Input;

type Pe = ParseError;

/// Runs `p` at `cur` of `src`: its result, and the last error it reported.
fn run_all<'a, P: Parser<'a, ParseError, ()>>(
    p: &mut P,
    src: &'a str,
    cur: usize,
) -> (Option<(usize, P::Output)>, Option<(ParseError, Range<usize>)>) {
    let mut errs = ErrorCell::new();
    let r = p.parse(Input { src, cur }, &mut errs, &mut ());
    (r, errs.into_inner().map(|ErrorLocation(e, range)| (e, range)))
}

#[test]
fn law_opt_always_matches_on_values() {
    let mut p = Parser::<Pe, ()>::opt('a'..='z');
    for s in ["a", "1", ""] {
        let (r, _) = run_all(&mut p, s, 0);
        assert!(r.is_some());
    }
}

#[test]
fn law_lookahead_consumes_nothing_on_values() {
    let mut p = Parser::<Pe, ()>::lookahead(Parser::<Pe, ()>::rep('a'..='z', ToVec));
    let (r, _) = run_all(&mut p, "abc", 0);
    assert_eq!(r, Some((0, vec!['b', 'c'])));
}

#[test]
fn law_not_is_complement_on_values() {
    let mut p = Parser::<Pe, ()>::not("ab");
    let (r, errs) = run_all(&mut p, "abc", 0);
    assert_eq!(r, None);
    assert_eq!(errs, Some((ParseError::UnexpectedToken, 0..0)));
    let (r, errs) = run_all(&mut p, "acb", 0);
    assert_eq!(r, Some((0, ())));
    assert_eq!(errs, Some((ParseError::ExpectedLiteral("ab", "ab"), 0..1)));
}

#[test]
fn law_then_sequences_on_values() {
    let mut p = Parser::<Pe, ()>::then(Parser::<Pe, ()>::not('x'), "λμ");
    let (r, errs) = run_all(&mut p, "λμ", 0);
    assert_eq!(r, Some((4, ())));
    assert_eq!(errs, Some((ParseError::ExpectedChar('x'), 0..0)));
}

#[test]
fn law_or_reports_at_most_one_error_on_values() {
    let mut p = Parser::<Pe, ()>::or(Parser::<Pe, ()>::then('a', 'b'), Parser::<Pe, ()>::then('a', 'c'));
    let (r, errs) = run_all(&mut p, "ad", 0);
    assert_eq!(r, None);
    assert_eq!(errs, Some((ParseError::ExpectedChar('c'), 1..1)));
    let (r, errs) = run_all(&mut p, "ac", 0);
    assert_eq!(r, Some((2, ())));
    assert!(errs.is_none());
}

#[test]
fn law_value_changes_keep_length_on_values() {
    let (r1, _) = run_all(&mut ('a'..='z'), "q", 0);
    let (r2, _) = run_all(&mut Parser::<Pe, ()>::drop('a'..='z'), "q", 0);
    let (r3, _) = run_all(&mut Parser::<Pe, ()>::keep('a'..='z'), "q", 0);
    let (r4, _) = run_all(&mut Parser::<Pe, ()>::map('a'..='z', |c: char| c.len_utf8()), "q", 0);
    assert_eq!(r1.map(|r| r.0), Some(1));
    assert_eq!(r2.map(|r| r.0), Some(1));
    assert_eq!(r3.map(|r| r.0), Some(1));
    assert_eq!(r4, Some((1, 1usize)));
}

#[test]
fn law_slice_gives_consumed_text_on_values() {
    let mut p = Parser::<Pe, ()>::slice(("let", sep, 'a'..='z'));
    let (r, _) = run_all(&mut p, "let  x = 1", 0);
    assert_eq!(r, Some((6, "let  x")));
}

#[test]
fn law_literal_matches_its_bytes_on_values() {
    let mut p = lit("→", "arrow");
    let (r, _) = run_all(&mut p, "a→b", 1);
    assert_eq!(r, Some((3, ())));
    assert_eq!(FixedLengthParser::<Pe, ()>::parsed_len(&p), 3);
}

#[test]
fn law_char_consumes_its_encoding_on_values() {
    let (r, _) = run_all(&mut '𝄞', "𝄞x", 0);
    assert_eq!(r, Some((4, ())));
}

#[test]
fn law_sep_skips_all_whitespace_on_values() {
    let (r, _) = run_all(&mut sep, "a \n\r\t b", 1);
    assert_eq!(r, Some((5, ())));
}

#[test]
fn law_rep_matches_where_first_matches_on_values() {
    let mut p = Parser::<Pe, ()>::rep("ab", Ignore);
    let (r, _) = run_all(&mut p, "ababa", 0);
    assert_eq!(r, Some((4, ())));
    let (r, _) = run_all(&mut p, "ba", 0);
    assert_eq!(r, None);
}

#[test]
fn law_delim_by_matches_where_first_matches_on_values() {
    let mut p = Parser::<Pe, ()>::delim_by('a'..='z', ", ", ToVec);
    let (r, _) = run_all(&mut p, "a, b, c", 0);
    assert_eq!(r, Some((7, vec!['a', 'b', 'c'])));
    let (r, _) = run_all(&mut p, ", a", 0);
    assert_eq!(r, None);
}

#[test]
fn law_wrapped_is_sequence_on_values() {
    let mut p = Parser::<Pe, ()>::wrapped('0'..='9', "<<", ">>");
    let (r, _) = run_all(&mut p, "<<5>>", 0);
    assert_eq!(r, Some((5, '5')));
    let (r, errs) = run_all(&mut p, "<5>>", 0);
    assert_eq!(r, None);
    assert_eq!(errs, Some((ParseError::ExpectedLiteral("<<", "<<"), 0..1)));
}

#[test]
fn law_pad_is_sequence_on_values() {
    let mut p = Parser::<Pe, ()>::pad('0'..='9', '_');
    let (r, _) = run_all(&mut p, "_4_", 0);
    assert_eq!(r, Some((3, '4')));
    let (r, errs) = run_all(&mut p, "_4", 0);
    assert_eq!(r, None);
    assert_eq!(errs, Some((ParseError::ExpectedChar('_'), 2..2)));
}

#[test]
fn law_with_context_keeps_its_context_on_values() {
    let mut p = Parser::<Pe, u32>::with_context("ok", 10);
    let (r, _) = run_all(&mut p, "ok", 0);
    assert_eq!(r, Some((2, ())));
    assert_eq!(p.c, 10);
}

#[test]
fn negative_lookbehind_complements_lookbehind_on_values() {
    for (s, cur) in [("xa", 2), ("xb", 2), ("ab", 1)] {
        let (r1, _) = run_all(&mut FixedLengthParser::<Pe, ()>::lookbehind('a'), s, cur);
        let (r2, _) = run_all(&mut FixedLengthParser::<Pe, ()>::negative_lookbehind('a'), s, cur);
        assert_ne!(r1.is_some(), r2.is_some());
    }
}

#[test]
fn law_then_is_associative_on_values() {
    for s in ["abc", "abx", "xbc", "ab"] {
        let mut left = Parser::<Pe, ()>::then(Parser::<Pe, ()>::then('a', 'b'), 'c');
        let mut right = Parser::<Pe, ()>::then('a', Parser::<Pe, ()>::then('b', 'c'));
        let (r1, e1) = run_all(&mut left, s, 0);
        let (r2, e2) = run_all(&mut right, s, 0);
        assert_eq!(r1, r2);
        assert_eq!(e1, e2);
    }
}

#[test]
fn law_or_is_associative_on_values() {
    for s in ["a", "b", "c", "d", ""] {
        let mut left = Parser::<Pe, ()>::or(Parser::<Pe, ()>::or('a'..='a', 'b'..='b'), 'c'..='c');
        let mut right = Parser::<Pe, ()>::or('a'..='a', Parser::<Pe, ()>::or('b'..='b', 'c'..='c'));
        let (r1, e1) = run_all(&mut left, s, 0);
        let (r2, e2) = run_all(&mut right, s, 0);
        assert_eq!(r1, r2);
        assert_eq!(e1, e2);
    }
    let mut p = Parser::<Pe, ()>::or(Parser::<Pe, ()>::or('a'..='a', 'b'..='b'), 'c'..='c');
    let (r, e) = run_all(&mut p, "d", 0);
    assert_eq!(r, None);
    assert_eq!(e, Some((ParseError::ExpectedRange('c'..='c'), 0..0)));
}

#[test]
fn law_rep_is_greedy_on_values() {
    let mut p = Parser::<Pe, ()>::rep('a'..='z', ToVec);
    let (r, e) = run_all(&mut p, "abc1", 0);
    assert_eq!(r, Some((3, vec!['b', 'c'])));
    assert_eq!(e, Some((ParseError::ExpectedRange('a'..='z'), 3..3)));
}

#[test]
fn fixed_length_parsers_consume_their_length() {
    let (r, _) = run_all(&mut "ab→", "ab→c", 0);
    assert_eq!(r.map(|r| r.0), Some(FixedLengthParser::<Pe, ()>::parsed_len(&"ab→")));
    let (r, _) = run_all(&mut 'λ', "λ", 0);
    assert_eq!(r.map(|r| r.0), Some(FixedLengthParser::<Pe, ()>::parsed_len(&'λ')));
}
