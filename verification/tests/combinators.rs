use std::collections::HashMap;

use parsall::error::{ErrorCell, ErrorLocation, ParseError};
use parsall::output::{collect, lfold, Ignore, ToVec};
use parsall::parser_prims::sep;
use parsall::parser_trait::{FixedLengthParser, Parser};
use parsall::Input;

fn run<'a, P: Parser<'a, ParseError, ()>>(
    p: &mut P,
    src: &'a str,
    cur: usize,
) -> (Option<(usize, P::Output)>, Option<ErrorLocation<ParseError>>) {
    let mut errs = ErrorCell::new();
    let r = p.parse(Input { src, cur }, &mut errs, &mut ());
    (r, errs.into_inner())
}

type Pe = ParseError;

#[test]
fn then_keeps_both_kept_values() {
    let mut p = Parser::<Pe, ()>::then('a'..='z', '0'..='9');
    let (r, _) = run(&mut p, "b7!", 0);
    assert_eq!(r, Some((2, ('b', '7'))));
}

#[test]
fn then_drops_ignored_values() {
    let mut p = Parser::<Pe, ()>::then('a'..='z', '=');
    let (r, _) = run(&mut p, "x=", 0);
    assert_eq!(r, Some((2, 'x')));
    let mut q = Parser::<Pe, ()>::then('=', 'a'..='z');
    let (r, _) = run(&mut q, "=y", 0);
    assert_eq!(r, Some((2, 'y')));
    let mut u = Parser::<Pe, ()>::then('=', '=');
    let (r, _) = run(&mut u, "==", 0);
    assert_eq!(r, Some((2, ())));
}

#[test]
fn then_fails_where_the_second_fails() {
    let mut p = Parser::<Pe, ()>::then('a', 'b');
    let (r, e) = run(&mut p, "ac", 0);
    assert_eq!(r, None);
    let ErrorLocation(err, range) = e.unwrap();
    assert_eq!(err, ParseError::ExpectedChar('b'));
    assert_eq!(range, 1..1);
}

#[test]
fn tuples_chain_their_parsers() {
    let mut p = ('(', 'a'..='z', ',', 'a'..='z', ')');
    let (r, _) = run(&mut p, "(x,y)", 0);
    assert_eq!(r, Some((5, ('x', 'y'))));
    let mut q = ('a'..='z', '0'..='9', 'a'..='z', '0'..='9', 'a'..='z', '0'..='9', '!');
    let (r, _) = run(&mut q, "a1b2c3!", 0);
    let (n, (a, rest)) = r.unwrap();
    assert_eq!((n, a), (7, 'a'));
    let (one, rest) = rest;
    let (b, rest) = rest;
    assert_eq!((one, b), ('1', 'b'));
    assert_eq!(rest, ('2', ('c', '3')));
    let mut e = ('<', '0'..='9', ',', '0'..='9', ',', '0'..='9', ',', '>');
    let (r, _) = run(&mut e, "<1,2,3,>", 0);
    assert_eq!(r, Some((8, ('1', ('2', '3')))));
    let mut t = ('0'..='9', '0'..='9', '0'..='9', '0'..='9', '0'..='9', '-', '-', '-', '!');
    let (r, _) = run(&mut t, "12345---!", 0);
    assert_eq!(r, Some((9, ('1', ('2', ('3', ('4', '5')))))));
    let mut u = ('0'..='9', '0'..='9', '0'..='9', '-', '-', '-', '-', '-', '-', '!');
    let (r, _) = run(&mut u, "123------!", 0);
    assert_eq!(r, Some((10, ('1', ('2', '3')))));
}

#[test]
fn pair_is_then() {
    let (r1, _) = run(&mut ('a'..='z', '0'..='9'), "q5", 0);
    let (r2, _) = run(&mut Parser::<Pe, ()>::then('a'..='z', '0'..='9'), "q5", 0);
    assert_eq!(r1, r2);
}

#[test]
fn or_takes_the_left_where_it_matches() {
    let mut p = Parser::<Pe, ()>::or('a'..='f', 'a'..='z');
    let (r, e) = run(&mut p, "c", 0);
    assert_eq!(r, Some((1, 'c')));
    assert!(e.is_none());
    let (r, e) = run(&mut p, "x", 0);
    assert_eq!(r, Some((1, 'x')));
    assert!(e.is_none());
}

#[test]
fn or_reports_only_the_last_error() {
    let mut p = Parser::<Pe, ()>::or('a', 'b');
    let (r, e) = run(&mut p, "c", 0);
    assert_eq!(r, None);
    let ErrorLocation(err, _) = e.unwrap();
    assert_eq!(err, ParseError::ExpectedChar('b'));
}

#[test]
fn map_applies_the_function() {
    let mut p = Parser::<Pe, ()>::map('0'..='9', |c: char| c as u32 - '0' as u32);
    let (r, _) = run(&mut p, "7", 0);
    assert_eq!(r, Some((1, 7u32)));
}

#[test]
fn try_map_reports_the_failure_over_the_match() {
    let mut p = Parser::<Pe, ()>::try_map(
        Parser::<Pe, ()>::slice(Parser::<Pe, ()>::rep('0'..='9', Ignore)),
        |s: &str| if s.len() <= 2 { Ok(s.len()) } else { Err(ParseError::UnexpectedToken) },
    );
    let (r, e) = run(&mut p, "12x", 0);
    assert_eq!(r, Some((2, 2usize)));
    let ErrorLocation(err, range) = e.unwrap();
    assert_eq!(err, ParseError::ExpectedRange('0'..='9'));
    assert_eq!(range, 2..2);
    let (r, e) = run(&mut p, "x1234", 1);
    assert_eq!(r, None);
    let ErrorLocation(err, range) = e.unwrap();
    assert_eq!(err, ParseError::UnexpectedToken);
    assert_eq!(range, 1..5);
}

#[test]
fn opt_always_matches() {
    let mut p = Parser::<Pe, ()>::opt('a'..='z');
    let (r, _) = run(&mut p, "x", 0);
    assert_eq!(r, Some((1, Some('x'))));
    let (r, _) = run(&mut p, "1", 0);
    assert_eq!(r, Some((0, None)));
    let mut q = Parser::<Pe, ()>::opt('-');
    let (r, _) = run(&mut q, "5", 0);
    assert_eq!(r, Some((0, ())));
}

#[test]
fn opt_default_gives_the_default() {
    let mut p = Parser::<Pe, ()>::opt_default(Parser::<Pe, ()>::map('0'..='9', |c: char| {
        c as u32 - '0' as u32
    }));
    let (r, _) = run(&mut p, "4", 0);
    assert_eq!(r, Some((1, 4u32)));
    let (r, _) = run(&mut p, "x", 0);
    assert_eq!(r, Some((0, 0u32)));
}

#[test]
fn drop_and_keep_change_only_the_value() {
    let mut d = Parser::<Pe, ()>::drop('a'..='z');
    let (r, _) = run(&mut d, "k", 0);
    assert_eq!(r, Some((1, ())));
    let mut k = Parser::<Pe, ()>::then(Parser::<Pe, ()>::keep('a'), Parser::<Pe, ()>::keep('b'));
    let (r, _) = run(&mut k, "ab", 0);
    assert_eq!(r, Some((2, ((), ()))));
}

#[test]
fn slice_gives_the_consumed_text() {
    let mut p = Parser::<Pe, ()>::slice(Parser::<Pe, ()>::rep(|c: char| c.is_alphabetic(), Ignore));
    let (r, _) = run(&mut p, "1héllo2", 1);
    assert_eq!(r, Some((6, "héllo")));
    let mut q = Parser::<Pe, ()>::slice(Parser::<Pe, ()>::rep('a'..='z', Ignore));
    let (r, _) = run(&mut q, "1héllo2", 1);
    assert_eq!(r, Some((1, "h")));
}

#[test]
fn rep_collects_the_matches_after_the_first() {
    let mut p = Parser::<Pe, ()>::rep('a'..='z', ToVec);
    let (r, _) = run(&mut p, "abc1", 0);
    assert_eq!(r, Some((3, vec!['b', 'c'])));
    let mut q = Parser::<Pe, ()>::rep('a'..='z', collect::<Vec<char>>());
    let (r, _) = run(&mut q, "xy", 0);
    assert_eq!(r, Some((2, vec!['y'])));
}

#[test]
fn rep_fails_where_the_first_match_fails() {
    let mut p = Parser::<Pe, ()>::rep('a'..='z', ToVec);
    let (r, e) = run(&mut p, "1abc", 0);
    assert_eq!(r, None);
    assert_eq!(e.unwrap().0, ParseError::ExpectedRange('a'..='z'));
}

#[test]
fn rep_stops_at_a_match_of_nothing() {
    let mut p = Parser::<Pe, ()>::rep(Parser::<Pe, ()>::opt('a'), Ignore);
    let (r, _) = run(&mut p, "aab", 0);
    assert_eq!(r, Some((2, ())));
}

#[test]
fn delim_by_collects_every_element() {
    let mut p = Parser::<Pe, ()>::delim_by('0'..='9', ',', ToVec);
    let (r, _) = run(&mut p, "1,2,3x", 0);
    assert_eq!(r, Some((5, vec!['1', '2', '3'])));
}

#[test]
fn delim_by_leaves_a_trailing_delimiter() {
    let mut p = Parser::<Pe, ()>::delim_by('0'..='9', ',', collect::<Vec<char>>());
    let (r, _) = run(&mut p, "1,2,", 0);
    assert_eq!(r, Some((3, vec!['1', '2'])));
}

#[test]
fn delim_by_folds_from_the_left() {
    let digit = Parser::<Pe, ()>::map('0'..='9', |c: char| c as i64 - '0' as i64);
    let mut p = Parser::<Pe, ()>::delim_by(
        digit,
        '-'..='-',
        lfold(|a: i64, _d: char, b: i64| a - b),
    );
    let (r, _) = run(&mut p, "9-2-3", 0);
    assert_eq!(r, Some((5, 4i64)));
}

#[test]
fn with_context_carries_its_own_context() {
    let mut p = Parser::<Pe, u8>::with_context("ab", 7u8);
    let (r, _) = run(&mut p, "abc", 0);
    assert_eq!(r, Some((2, ())));
    assert_eq!(p.c, 7u8);
}

#[test]
fn wrapped_matches_between_the_literals() {
    let mut p = Parser::<Pe, ()>::wrapped('a'..='z', "(", ")");
    let (r, _) = run(&mut p, "(q)", 0);
    assert_eq!(r, Some((3, 'q')));
    let (r, e) = run(&mut p, "(q]", 0);
    assert_eq!(r, None);
    let ErrorLocation(err, range) = e.unwrap();
    assert_eq!(err, ParseError::ExpectedLiteral(")", ")"));
    assert_eq!(range, 2..2);
}

#[test]
fn lookahead_consumes_nothing() {
    let mut p = Parser::<Pe, ()>::lookahead('a'..='z');
    let (r, _) = run(&mut p, "m", 0);
    assert_eq!(r, Some((0, 'm')));
    let (r, _) = run(&mut p, "M", 0);
    assert_eq!(r, None);
}

#[test]
fn not_matches_where_the_parser_fails() {
    let mut p = Parser::<Pe, ()>::not('a');
    let (r, e) = run(&mut p, "b", 0);
    assert_eq!(r, Some((0, ())));
    assert_eq!(e.unwrap().0, ParseError::ExpectedChar('a'));
    let (r, e) = run(&mut p, "xa", 1);
    assert_eq!(r, None);
    let ErrorLocation(err, range) = e.unwrap();
    assert_eq!(err, ParseError::UnexpectedToken);
    assert_eq!(range, 1..1);
}

#[test]
fn pad_surrounds_with_padding() {
    let mut p = Parser::<Pe, ()>::pad('a'..='z', sep);
    let (r, _) = run(&mut p, "  x \t!", 0);
    assert_eq!(r, Some((5, 'x')));
    let (r, _) = run(&mut p, "y", 0);
    assert_eq!(r, Some((1, 'y')));
}

#[test]
fn lookbehind_checks_the_previous_bytes() {
    let mut p = FixedLengthParser::<Pe, ()>::lookbehind('a');
    let (r, _) = run(&mut p, "ab", 1);
    assert_eq!(r, Some((0, ())));
    let (r, _) = run(&mut p, "bb", 1);
    assert_eq!(r, None);
    let (r, e) = run(&mut p, "ab", 0);
    assert_eq!(r, None);
    assert!(e.is_none());
}

#[test]
fn lookbehind_over_multibyte_text() {
    let mut p = FixedLengthParser::<Pe, ()>::lookbehind("é");
    let (r, _) = run(&mut p, "éa", 2);
    assert_eq!(r, Some((0, ())));
    let mut q = FixedLengthParser::<Pe, ()>::lookbehind('a');
    let (r, _) = run(&mut q, "éa", 2);
    assert_eq!(r, None);
}

#[test]
fn negative_lookbehind_is_the_complement() {
    let mut p = FixedLengthParser::<Pe, ()>::negative_lookbehind('a');
    let (r, _) = run(&mut p, "bb", 1);
    assert_eq!(r, Some((0, ())));
    let (r, e) = run(&mut p, "ab", 1);
    assert_eq!(r, None);
    let ErrorLocation(err, range) = e.unwrap();
    assert_eq!(err, ParseError::UnexpectedToken);
    assert_eq!(range, 1..1);
    let (r, _) = run(&mut p, "ab", 0);
    assert_eq!(r, Some((0, ())));
}

#[test]
fn try_match_gives_the_value() {
    let mut p = Parser::<Pe, ()>::then('a'..='z', '0'..='9');
    let r = Parser::<Pe, ()>::try_match(&mut p, "k9");
    assert_eq!(r.unwrap(), ('k', '9'));
}

#[test]
fn try_match_gives_the_last_error() {
    let mut p = Parser::<Pe, ()>::then('a'..='z', '0'..='9');
    let r = Parser::<Pe, ()>::try_match(&mut p, "kk");
    let ErrorLocation(err, range) = r.unwrap_err().unwrap();
    assert_eq!(err, ParseError::ExpectedRange('0'..='9'));
    assert_eq!(range, 1..1);
}

#[test]
fn try_match_without_an_error() {
    let mut p = Parser::<Pe, ()>::drop(..);
    let r = Parser::<Pe, ()>::try_match(&mut p, "");
    assert!(r.unwrap_err().is_none());
}

#[test]
fn delim_by_collects_pairs_into_a_map() {
    let entry = ('a'..='z', '=', '0'..='9');
    let mut p = Parser::<Pe, ()>::delim_by(entry, ',', collect::<HashMap<char, char>>());
    let (r, _) = run(&mut p, "a=1,b=2,a=3;", 0);
    let (n, map) = r.unwrap();
    assert_eq!(n, 11);
    assert_eq!(map.len(), 2);
    assert_eq!(map.get(&'a'), Some(&'3'));
    assert_eq!(map.get(&'b'), Some(&'2'));
}

#[test]
fn try_match_rejects_text_left_over() {
    let mut p = 'a';
    let r = Parser::<Pe, ()>::try_match(&mut p, "ab");
    let ErrorLocation(err, range) = r.unwrap_err().unwrap();
    assert_eq!(err, ParseError::UnexpectedToken);
    assert_eq!(range, 1..2);
    let r = Parser::<Pe, ()>::try_match(&mut p, "a");
    assert!(r.is_ok());
}

#[test]
fn try_match_rejects_multibyte_text_left_over() {
    let mut p = Parser::<Pe, ()>::rep('a'..='z', Ignore);
    let r = Parser::<Pe, ()>::try_match(&mut p, "abc→");
    let ErrorLocation(err, range) = r.unwrap_err().unwrap();
    assert_eq!(err, ParseError::UnexpectedToken);
    assert_eq!(range, 3..6);
}
