//! The parsers that everything else is built from: a literal string, one
//! character, any character, a character from a set or a range, a character
//! that satisfies a predicate, and optional whitespace.
use core::ops::{Range, RangeFull, RangeInclusive};
use vstd::prelude::*;
use vstd::std_specs::range::RangeInclusiveView;
use vstd::string::*;
use vstd::utf8::*;

use crate::error::{error_at, report_all, ErrorFrom, ErrorHandler, ErrorLocation, ParseError};
use crate::func::{lemma_pred_holds, pred_det, pred_holds};
use crate::output::{Ignore, Keep};
use crate::parser_trait::{FixedLengthParser, Outcome, Parser};
use crate::repetition::Repeat;
use crate::combinators::Optional;
use crate::laws::{law_char_consumes_its_encoding, law_literal_matches_its_bytes};
use crate::text::{
    common_prefix_len, len_fits, lemma_common_prefix, lemma_common_prefix_at, lemma_literal_match, lemma_str_decodes, next_char,
    rest_bytes, spec_next_char, utf8_width,
};
use crate::{Input, ParserResult};

verus! {

broadcast use vstd::string::group_string_axioms;

/// The full range `..`, which as a parser matches any one character.
#[verifier::external_type_specification]
#[verifier::external_body]
pub struct ExRangeFull(RangeFull);

/// An outcome that reports nothing and leaves the context as it was.
pub open spec fn quiet<V, E, C>(res: Option<(nat, V)>, ctx: C) -> Outcome<V, E, C> {
    Outcome { res, errs: Seq::<ErrorLocation<E>>::empty(), ctx }
}

/// An outcome that fails, reporting `e` at `cur`, and leaves the context as it was.
pub open spec fn fail_at<V, E, C>(e: E, cur: nat, ctx: C) -> Outcome<V, E, C> {
    Outcome { res: None, errs: seq![error_at(e, cur)], ctx }
}

/// The next character, where there is one that satisfies `ok`.
pub open spec fn next_char_if(s: Seq<u8>, cur: nat, ok: spec_fn(char) -> bool) -> Option<(nat, char)> {
    match spec_next_char(s, cur) {
        Some((c, w)) => if ok(c) {
            Some((w, c))
        } else {
            None
        },
        None => None,
    }
}

/// Reporting one error is receiving it.
pub proof fn lemma_report_one<E, H: ErrorHandler<E>>(h: H, e: ErrorLocation<E>)
    ensures
        report_all(h, seq![e]) == h.spec_error(e),
{
    assert(seq![e].drop_last() =~= Seq::<ErrorLocation<E>>::empty());
    assert(report_all(h, Seq::<ErrorLocation<E>>::empty()) == h);
}

impl<'a, E> Parser<'a, E, ()> for RangeFull where E: ErrorFrom<ParseError> {
    type Output = char;
    type Kind = Keep;

    open spec fn wf(&self) -> bool {
        true
    }

    open spec fn spec_parse(&self, s: Seq<u8>, cur: nat, ctx: ()) -> Outcome<char, E, ()> {
        quiet(next_char_if(s, cur, |c: char| true), ctx)
    }

    open spec fn spec_next(&self, s: Seq<u8>, cur: nat, ctx: ()) -> Self {
        *self
    }

    fn parse<H: ErrorHandler<E>>(&mut self, input: Input<'a>, errs: &mut H, ctx: &mut ()) -> (r:
        ParserResult<char>) {
        match next_char(&input) {
            Some((c, w)) => {
                assert(c.deep_view() == c);
                Some((w, c))
            },
            None => None,
        }
    }
}

/// Whether `set` holds `c`.
fn contains_char(set: &[char], c: char) -> (b: bool)
    ensures
        b == set@.contains(c),
{
    let mut i: usize = 0;
    while i < set.len()
        invariant
            i <= set@.len(),
            forall|j: int| 0 <= j < i ==> set@[j] != c,
        decreases set@.len() - i,
    {
        if set[i] == c {
            assert(set@[i as int] == c);
            return true;
        }
        i += 1;
    }
    false
}

impl<'a, E> Parser<'a, E, ()> for &'static [char] where E: ErrorFrom<ParseError> {
    type Output = char;
    type Kind = Keep;

    open spec fn wf(&self) -> bool {
        true
    }

    open spec fn spec_parse(&self, s: Seq<u8>, cur: nat, ctx: ()) -> Outcome<char, E, ()> {
        match next_char_if(s, cur, |c: char| self@.contains(c)) {
            Some(r) => quiet(Some(r), ctx),
            None => fail_at(E::spec_error_from(ParseError::ExpectedSymbol(*self)), cur, ctx),
        }
    }

    open spec fn spec_next(&self, s: Seq<u8>, cur: nat, ctx: ()) -> Self {
        *self
    }

    fn parse<H: ErrorHandler<E>>(&mut self, input: Input<'a>, errs: &mut H, ctx: &mut ()) -> (r:
        ParserResult<char>) {
        if let Some((c, w)) = next_char(&input) {
            if contains_char(*self, c) {
                assert(c.deep_view() == c);
                return Some((w, c));
            }
        }
        let ghost h0 = *errs;
        errs.error(E::error_from(ParseError::ExpectedSymbol(*self)), input.cur..input.cur);
        proof {
            lemma_report_one(
                h0,
                error_at(E::spec_error_from(ParseError::ExpectedSymbol(*self)), input.cur as nat),
            );
        }
        None
    }
}

/// What matching the literal `lit` at `cur` does: it consumes `lit` where the
/// text goes on with it, and otherwise reports `ExpectedLiteral` over the
/// bytes that did match.
pub open spec fn lit_outcome<E: ErrorFrom<ParseError>, C>(
    lit: &'static str,
    parser_name: &'static str,
    s: Seq<u8>,
    cur: nat,
    ctx: C,
) -> Outcome<(), E, C> {
    let k = common_prefix_len(rest_bytes(s, cur), lit.spec_bytes());
    if k == lit.spec_bytes().len() {
        quiet(Some((k, ())), ctx)
    } else {
        Outcome {
            res: None,
            errs: seq![
                ErrorLocation(
                    E::spec_error_from(ParseError::ExpectedLiteral(lit, parser_name)),
                    Range { start: cur as usize, end: (cur + k) as usize },
                ),
            ],
            ctx,
        }
    }
}

/// The length of the common prefix of `a` and `b`.
fn matching_len(a: &[u8], b: &[u8]) -> (i: usize)
    ensures
        i == common_prefix_len(a@, b@),
{
    let mut i: usize = 0;
    while i < a.len() && i < b.len() && a[i] == b[i]
        invariant
            i <= a@.len(),
            i <= b@.len(),
            forall|j: int| 0 <= j < i ==> a@[j] == b@[j],
        decreases a@.len() - i,
    {
        i += 1;
    }
    proof {
        lemma_common_prefix_at(a@, b@, i as int);
    }
    i
}

/// Matches the literal `lit`; errors name the parser `parser_name`.
pub struct LitParser {
    pub lit: &'static str,
    pub parser_name: &'static str,
}

/// The parser of the literal `lit`, named `parser_name` in errors.
pub fn lit(literal: &'static str, parser_name: &'static str) -> (r: LitParser)
    ensures
        r.lit == literal,
        r.parser_name == parser_name,
{
    LitParser { lit: literal, parser_name }
}

impl<'a, E, C> Parser<'a, E, C> for LitParser where E: ErrorFrom<ParseError> {
    type Output = ();
    type Kind = Ignore;

    open spec fn wf(&self) -> bool {
        true
    }

    open spec fn spec_parse(&self, s: Seq<u8>, cur: nat, ctx: C) -> Outcome<(), E, C> {
        lit_outcome(self.lit, self.parser_name, s, cur, ctx)
    }

    open spec fn spec_next(&self, s: Seq<u8>, cur: nat, ctx: C) -> Self {
        *self
    }

    fn parse<H: ErrorHandler<E>>(&mut self, input: Input<'a>, errs: &mut H, _ctx: &mut C) -> (r:
        ParserResult<()>) {
        proof {
            let (s, cur) = (input.bytes(), input.cur as nat);
            assert(<LitParser as Parser<'a, E, C>>::spec_parse(self, s, cur, *_ctx) == lit_outcome::<
                E,
                C,
            >(self.lit, self.parser_name, s, cur, *_ctx));
            assert(<LitParser as Parser<'a, E, C>>::spec_next(self, s, cur, *_ctx) == *self);
        }
        let rest = input.slice();
        let b = self.lit.as_bytes();
        let i = matching_len(rest.as_bytes(), b);
        proof {
            lemma_common_prefix(rest.spec_bytes(), b@);
            lemma_str_decodes(input.src);
            lemma_str_decodes(self.lit);
        }
        if i == b.len() {
            proof {
                lemma_literal_match(input.bytes(), input.cur as int, self.lit.spec_bytes());
            }
            Some((b.len(), ()))
        } else {
            let ghost h0 = *errs;
            errs.error(
                E::error_from(ParseError::ExpectedLiteral(self.lit, self.parser_name)),
                input.cur..input.cur + i,
            );
            proof {
                lemma_report_one(
                    h0,
                    ErrorLocation(
                        E::spec_error_from(ParseError::ExpectedLiteral(self.lit, self.parser_name)),
                        Range { start: input.cur, end: (input.cur + i) as usize },
                    ),
                );
            }
            None
        }
    }
}

impl<'a, E, C> FixedLengthParser<'a, E, C> for LitParser where E: ErrorFrom<ParseError> {
    open spec fn spec_parsed_len(&self) -> nat {
        self.lit.spec_bytes().len()
    }

    fn parsed_len(&self) -> (r: usize) {
        len_fits(self.lit);
        self.lit.len()
    }

    proof fn lemma_match_len(&self, s: Seq<u8>, cur: nat, ctx: C) {
        law_literal_matches_its_bytes::<E, C>(self.lit, self.parser_name, s, cur, ctx);
    }
}

impl<'a, E, C> Parser<'a, E, C> for &'static str where E: ErrorFrom<ParseError> {
    type Output = ();
    type Kind = Ignore;

    open spec fn wf(&self) -> bool {
        true
    }

    open spec fn spec_parse(&self, s: Seq<u8>, cur: nat, ctx: C) -> Outcome<(), E, C> {
        lit_outcome(*self, *self, s, cur, ctx)
    }

    open spec fn spec_next(&self, s: Seq<u8>, cur: nat, ctx: C) -> Self {
        *self
    }

    fn parse<H: ErrorHandler<E>>(&mut self, input: Input<'a>, errs: &mut H, ctx: &mut C) -> (r:
        ParserResult<()>) {
        let mut p = lit(*self, *self);
        p.parse(input, errs, ctx)
    }
}

impl<'a, E, C> FixedLengthParser<'a, E, C> for &'static str where E: ErrorFrom<ParseError> {
    open spec fn spec_parsed_len(&self) -> nat {
        self.spec_bytes().len()
    }

    fn parsed_len(&self) -> (r: usize) {
        len_fits(self);
        str::len(self)
    }

    proof fn lemma_match_len(&self, s: Seq<u8>, cur: nat, ctx: C) {
        law_literal_matches_its_bytes::<E, C>(*self, *self, s, cur, ctx);
    }
}

impl<'a, F> Parser<'a, ParseError, ()> for F where F: Fn(char) -> bool {
    type Output = char;
    type Kind = Keep;

    open spec fn wf(&self) -> bool {
        pred_det(*self)
    }

    open spec fn spec_parse(&self, s: Seq<u8>, cur: nat, ctx: ()) -> Outcome<char, ParseError, ()> {
        quiet(next_char_if(s, cur, |c: char| pred_holds(*self, c)), ctx)
    }

    open spec fn spec_next(&self, s: Seq<u8>, cur: nat, ctx: ()) -> Self {
        *self
    }

    fn parse<H: ErrorHandler<ParseError>>(
        &mut self,
        input: Input<'a>,
        errs: &mut H,
        ctx: &mut (),
    ) -> (r: ParserResult<char>) {
        let (c, w) = next_char(&input)?;
        let ok = self(c);
        proof {
            lemma_pred_holds(*self, c, ok);
        }
        if ok {
            assert(c.deep_view() == c);
            Some((w, c))
        } else {
            None
        }
    }
}

impl<'a, E, C> Parser<'a, E, C> for char where E: ErrorFrom<ParseError> {
    type Output = ();
    type Kind = Ignore;

    open spec fn wf(&self) -> bool {
        true
    }

    open spec fn spec_parse(&self, s: Seq<u8>, cur: nat, ctx: C) -> Outcome<(), E, C> {
        match next_char_if(s, cur, |c: char| c == *self) {
            Some((w, _)) => quiet(Some((w, ())), ctx),
            None => fail_at(E::spec_error_from(ParseError::ExpectedChar(*self)), cur, ctx),
        }
    }

    open spec fn spec_next(&self, s: Seq<u8>, cur: nat, ctx: C) -> Self {
        *self
    }

    fn parse<H: ErrorHandler<E>>(&mut self, input: Input<'a>, errs: &mut H, _ctx: &mut C) -> (r:
        ParserResult<()>) {
        if let Some((c, w)) = next_char(&input) {
            if c == *self {
                return Some((w, ()));
            }
        }
        let ghost h0 = *errs;
        errs.error(E::error_from(ParseError::ExpectedChar(*self)), input.cur..input.cur);
        proof {
            lemma_report_one(
                h0,
                error_at(E::spec_error_from(ParseError::ExpectedChar(*self)), input.cur as nat),
            );
        }
        None
    }
}

impl<'a, E, C> FixedLengthParser<'a, E, C> for char where E: ErrorFrom<ParseError> {
    open spec fn spec_parsed_len(&self) -> nat {
        encode_scalar(*self as u32).len()
    }

    fn parsed_len(&self) -> (r: usize) {
        utf8_width(*self)
    }

    proof fn lemma_match_len(&self, s: Seq<u8>, cur: nat, ctx: C) {
        law_char_consumes_its_encoding::<E, C>(*self, s, cur, ctx);
    }
}

/// `c` lies in the range `r` (a range that has been iterated to its end
/// excludes its end).
pub open spec fn char_in_range(r: RangeInclusiveView<char>, c: char) -> bool {
    r.start <= c && if r.exhausted {
        c < r.end
    } else {
        c <= r.end
    }
}

/// `RangeInclusive::contains` for characters: whether `c` lies in `r`.
#[verifier::external_body]
fn range_contains(r: &RangeInclusive<char>, c: char) -> (b: bool)
    ensures
        b == char_in_range(r@, c),
{
    r.contains(&c)
}

/// `Clone::clone` for a range of characters: a copy of `r`.
#[verifier::external_body]
fn range_clone(r: &RangeInclusive<char>) -> (c: RangeInclusive<char>)
    ensures
        c == *r,
{
    r.clone()
}

impl<'a, E> Parser<'a, E, ()> for RangeInclusive<char> where E: ErrorFrom<ParseError> {
    type Output = char;
    type Kind = Keep;

    open spec fn wf(&self) -> bool {
        true
    }

    open spec fn spec_parse(&self, s: Seq<u8>, cur: nat, ctx: ()) -> Outcome<char, E, ()> {
        match next_char_if(s, cur, |c: char| char_in_range(self@, c)) {
            Some(r) => quiet(Some(r), ctx),
            None => fail_at(E::spec_error_from(ParseError::ExpectedRange(*self)), cur, ctx),
        }
    }

    open spec fn spec_next(&self, s: Seq<u8>, cur: nat, ctx: ()) -> Self {
        *self
    }

    fn parse<H: ErrorHandler<E>>(&mut self, input: Input<'a>, errs: &mut H, ctx: &mut ()) -> (r:
        ParserResult<char>) {
        if let Some((c, w)) = next_char(&input) {
            if range_contains(self, c) {
                assert(c.deep_view() == c);
                return Some((w, c));
            }
        }
        let ghost h0 = *errs;
        let r = range_clone(self);
        errs.error(E::error_from(ParseError::ExpectedRange(r)), input.cur..input.cur);
        proof {
            lemma_report_one(
                h0,
                error_at(E::spec_error_from(ParseError::ExpectedRange(*self)), input.cur as nat),
            );
        }
        None
    }
}

/// Matches one character that satisfies `f`; errors name the parser `parser_name`.
pub struct Filter<F> {
    pub f: F,
    pub parser_name: &'static str,
}

/// The parser of one character that satisfies `filter`, named `parser_name` in errors.
pub fn char_filter<F>(filter: F, parser_name: &'static str) -> (r: Filter<F>) where
    F: Fn(char) -> bool,
    ensures
        r == (Filter { f: filter, parser_name }),
{
    Filter { f: filter, parser_name }
}

impl<'a, E, F, C> Parser<'a, E, C> for Filter<F> where F: Fn(char) -> bool, E: ErrorFrom<ParseError> {
    type Output = char;
    type Kind = Keep;

    open spec fn wf(&self) -> bool {
        pred_det(self.f)
    }

    open spec fn spec_parse(&self, s: Seq<u8>, cur: nat, ctx: C) -> Outcome<char, E, C> {
        match next_char_if(s, cur, |c: char| pred_holds(self.f, c)) {
            Some(r) => quiet(Some(r), ctx),
            None => fail_at(E::spec_error_from(ParseError::ExpectedToken(self.parser_name)), cur, ctx),
        }
    }

    open spec fn spec_next(&self, s: Seq<u8>, cur: nat, ctx: C) -> Self {
        *self
    }

    fn parse<H: ErrorHandler<E>>(&mut self, input: Input<'a>, errs: &mut H, _ctx: &mut C) -> (r:
        ParserResult<char>) {
        if let Some((c, w)) = next_char(&input) {
            let ok = (self.f)(c);
            proof {
                lemma_pred_holds(self.f, c, ok);
            }
            if ok {
                assert(c.deep_view() == c);
                return Some((w, c));
            }
        }
        let ghost h0 = *errs;
        errs.error(E::error_from(ParseError::ExpectedToken(self.parser_name)), input.cur..input.cur);
        proof {
            lemma_report_one(
                h0,
                error_at(E::spec_error_from(ParseError::ExpectedToken(self.parser_name)), input.cur as nat),
            );
        }
        None
    }
}

/// The characters with the Unicode `White_Space` property.
pub open spec fn is_white_space(c: char) -> bool {
    ||| '\u{9}' <= c <= '\u{d}'
    ||| c == ' '
    ||| c == '\u{85}'
    ||| c == '\u{a0}'
    ||| c == '\u{1680}'
    ||| '\u{2000}' <= c <= '\u{200a}'
    ||| c == '\u{2028}'
    ||| c == '\u{2029}'
    ||| c == '\u{202f}'
    ||| c == '\u{205f}'
    ||| c == '\u{3000}'
}

/// Whether `c` has the Unicode `White_Space` property.
fn char_is_whitespace(c: char) -> (b: bool)
    ensures
        b == is_white_space(c),
{
    ('\u{9}' <= c && c <= '\u{d}') || c == ' ' || c == '\u{85}' || c == '\u{a0}' || c
        == '\u{1680}' || ('\u{2000}' <= c && c <= '\u{200a}') || c == '\u{2028}' || c
        == '\u{2029}' || c == '\u{202f}' || c == '\u{205f}' || c == '\u{3000}'
}

/// Matches one whitespace character, reporting nothing where there is none.
pub struct Whitespace;

impl<'a, E, C> Parser<'a, E, C> for Whitespace {
    type Output = char;
    type Kind = Keep;

    open spec fn wf(&self) -> bool {
        true
    }

    open spec fn spec_parse(&self, s: Seq<u8>, cur: nat, ctx: C) -> Outcome<char, E, C> {
        quiet(next_char_if(s, cur, |c: char| is_white_space(c)), ctx)
    }

    open spec fn spec_next(&self, s: Seq<u8>, cur: nat, ctx: C) -> Self {
        *self
    }

    fn parse<H: ErrorHandler<E>>(&mut self, input: Input<'a>, errs: &mut H, ctx: &mut C) -> (r:
        ParserResult<char>) {
        proof {
            let (s, cur) = (input.bytes(), input.cur as nat);
            assert(<Whitespace as Parser<'a, E, C>>::spec_parse(self, s, cur, *ctx) == quiet::<
                char,
                E,
                C,
            >(next_char_if(s, cur, |c: char| is_white_space(c)), *ctx));
            assert(<Whitespace as Parser<'a, E, C>>::spec_next(self, s, cur, *ctx) == *self);
        }
        let (c, w) = next_char(&input)?;
        if char_is_whitespace(c) {
            assert(c.deep_view() == c);
            Some((w, c))
        } else {
            None
        }
    }
}

/// The whitespace parser that [`sep`] is: any run of whitespace, possibly empty.
pub open spec fn sep_parser() -> Optional<Repeat<Whitespace, Ignore>> {
    Optional { p: Repeat { p: Whitespace, coll: Ignore } }
}

/// Optional whitespace: consumes a run of whitespace characters, or nothing.
#[allow(non_camel_case_types)]
pub struct sep;

impl<'a, E> Parser<'a, E, ()> for sep where E: ErrorFrom<ParseError> {
    type Output = ();
    type Kind = Ignore;

    open spec fn wf(&self) -> bool {
        true
    }

    open spec fn spec_parse(&self, s: Seq<u8>, cur: nat, ctx: ()) -> Outcome<(), E, ()> {
        <Optional<Repeat<Whitespace, Ignore>> as Parser<'a, E, ()>>::spec_parse(
            &sep_parser(),
            s,
            cur,
            ctx,
        )
    }

    open spec fn spec_next(&self, s: Seq<u8>, cur: nat, ctx: ()) -> Self {
        *self
    }

    fn parse<H: ErrorHandler<E>>(&mut self, input: Input<'a>, errs: &mut H, ctx: &mut ()) -> (r:
        ParserResult<()>) {
        let mut p = Optional { p: Repeat { p: Whitespace, coll: Ignore } };
        let (len, val) = p.parse(input, errs, ctx)?;
        Some((len, val))
    }
}

} // verus!
