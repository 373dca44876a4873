//! The parser trait: what a parser means in specifications, how it runs, and
//! the methods that build larger parsers from it.
use core::ops::Range;
use vstd::prelude::*;
use vstd::string::*;
use vstd::utf8::*;

use crate::combinators::{
    Dropped, KeepP, Lookahead, Lookbehind, Mapped, NegativeLookbehind, Not, OptDefault, Optional,
    Or, Pad, Slice, Then, TryMap, WithContext, Wrapped,
};
use crate::error::{
    last_error, report_all, ErrorCell, ErrorFrom, ErrorHandler, ErrorLocation, ParseError,
};
use crate::output::OptionalOutput;
use crate::repetition::{DelimBy, Repeat};
use crate::text::{len_fits, lemma_str_decodes, valid_pos};
use crate::{Input, MatchResult, ParserResult};

verus! {

/// What one run of a parser does: the bytes consumed and the view of the value
/// (or failure), the errors it reports in order, and the context it leaves.
pub struct Outcome<V, E, C> {
    pub res: Option<(nat, V)>,
    pub errs: Seq<ErrorLocation<E>>,
    pub ctx: C,
}

/// The error for text left over after a match that stopped at byte `n` of a
/// text of `len` bytes: an unexpected token over the bytes left over.
pub open spec fn leftover_error<E: ErrorFrom<ParseError>>(n: nat, len: nat) -> ErrorLocation<E> {
    ErrorLocation(
        E::spec_error_from(ParseError::UnexpectedToken),
        Range { start: n as usize, end: len as usize },
    )
}

/// A parser over UTF-8 text with error type `E` and context type `C`.
///
/// `spec_parse` states what a run from byte position `cur` of the text `s`
/// does, and `spec_next` the parser's own state afterwards (a parser that
/// carries a context keeps the context it was left with).
pub trait Parser<'a, E, C>: Sized {
    type Output: DeepView;
    type Kind;

    /// What the parser needs of itself, such as closures that denote functions.
    spec fn wf(&self) -> bool;

    spec fn spec_parse(&self, s: Seq<u8>, cur: nat, ctx: C) -> Outcome<
        <Self::Output as DeepView>::V,
        E,
        C,
    >;

    spec fn spec_next(&self, s: Seq<u8>, cur: nat, ctx: C) -> Self;

    /// Parses at the current position of `input`, reporting errors to `errs`.
    fn parse<H: ErrorHandler<E>>(&mut self, input: Input<'a>, errs: &mut H, ctx: &mut C) -> (r:
        ParserResult<Self::Output>)
        requires
            old(self).wf(),
            input.wf(),
        ensures
            ({
                let o = old(self).spec_parse(input.bytes(), input.cur as nat, *old(ctx));
                &&& match r {
                    Some((n, v)) => {
                        &&& o.res == Some((n as nat, v.deep_view()))
                        &&& input.cur + n <= input.bytes().len()
                        &&& is_char_boundary(input.bytes(), input.cur + n)
                    },
                    None => o.res is None,
                }
                &&& *final(ctx) == o.ctx
                &&& *final(errs) == report_all(*old(errs), o.errs)
            }),
            *final(self) == old(self).spec_next(input.bytes(), input.cur as nat, *old(ctx)),
            final(self).wf(),
    ;

    /// Parses all of `input` from its start with a fresh context: the value
    /// where the parser consumes the whole text; where it stops before the
    /// end, an `UnexpectedToken` over the bytes left over; where it fails, the
    /// last error it reported, if any.
    fn try_match(&mut self, input: &'a str) -> (r: MatchResult<Self::Output, E>) where
        C: Default,
        E: ErrorFrom<ParseError>,
        requires
            old(self).wf(),
        ensures
            exists|c0: C|
                #![trigger call_ensures(C::default, (), c0)]
                {
                    let o = old(self).spec_parse(input.spec_bytes(), 0, c0);
                    &&& call_ensures(C::default, (), c0)
                    &&& match o.res {
                        None => r matches Err(e) && e == last_error(o.errs),
                        Some((n, w)) => if n == input.spec_bytes().len() {
                            r matches Ok(v) && v.deep_view() == w
                        } else {
                            r matches Err(e) && e == Some(
                                leftover_error::<E>(n, input.spec_bytes().len()),
                            )
                        },
                    }
                    &&& *final(self) == old(self).spec_next(input.spec_bytes(), 0, c0)
                },
    {
        len_fits(input);
        let len = input.len();
        let input = Input { src: input, cur: 0 };
        proof {
            lemma_str_decodes(input.src);
            is_char_boundary_start_end_of_seq(input.bytes());
        }
        let mut ctx = C::default();
        let ghost c0 = ctx;
        let mut errs = ErrorCell::<E>::new();
        let ghost e0 = errs;
        let res = self.parse(input, &mut errs, &mut ctx);
        proof {
            e0.lemma_keeps_last(old(self).spec_parse(input.bytes(), 0, c0).errs);
        }
        match res {
            Some((n, e)) => {
                if n == len {
                    Ok(e)
                } else {
                    Err(Some(ErrorLocation(E::error_from(ParseError::UnexpectedToken), n..len)))
                }
            },
            None => Err(errs.into_inner()),
        }
    }

    /// Matches this parser again and again; see [`Repeat`].
    fn rep<Coll>(self, coll: Coll) -> (r: Repeat<Self, Coll>)
        ensures
            r == (Repeat { p: self, coll }),
    {
        Repeat { p: self, coll }
    }

    /// Tries this parser, and `other` where it fails; see [`Or`].
    fn or<P>(self, other: P) -> (r: Or<Self, P>)
        ensures
            r == (Or { l: self, r: other }),
    {
        Or { l: self, r: other }
    }

    /// Applies `f` to the value; see [`Mapped`].
    fn map<F, V>(self, f: F) -> (r: Mapped<Self, F>) where F: Fn(Self::Output) -> V
        ensures
            r == (Mapped { p: self, f }),
    {
        Mapped { p: self, f }
    }

    /// Applies `f` to the value, failing where `f` fails; see [`TryMap`].
    fn try_map<F, V, E2>(self, f: F) -> (r: TryMap<Self, F>) where
        F: Fn(Self::Output) -> Result<V, E2>,
        ensures
            r == (TryMap { p: self, f }),
    {
        TryMap { p: self, f }
    }

    /// Makes this parser optional; see [`Optional`].
    fn opt(self) -> (r: Optional<Self>) where Self::Kind: OptionalOutput<Option<Self::Output>>
        ensures
            r == (Optional { p: self }),
    {
        Optional { p: self }
    }

    /// Makes this parser optional, with the default value where it fails; see [`OptDefault`].
    fn opt_default(self) -> (r: OptDefault<Self>) where Self::Output: Default
        ensures
            r == (OptDefault { p: self }),
    {
        OptDefault { p: self }
    }

    /// Drops the value; see [`Dropped`].
    fn drop(self) -> (r: Dropped<Self>)
        ensures
            r == (Dropped { p: self }),
    {
        Dropped { p: self }
    }

    /// Keeps the value when chained; see [`KeepP`].
    fn keep(self) -> (r: KeepP<Self>)
        ensures
            r == (KeepP { p: self }),
    {
        KeepP { p: self }
    }

    /// Gives the text consumed instead of the value; see [`Slice`].
    fn slice(self) -> (r: Slice<Self>)
        ensures
            r == (Slice { p: self }),
    {
        Slice { p: self }
    }

    /// A list of this parser's matches separated by `delim`; see [`DelimBy`].
    fn delim_by<P, Coll>(self, delim: P, collect: Coll) -> (r: DelimBy<Self, P, Coll>)
        ensures
            r == (DelimBy { elem: self, delim, coll: collect }),
    {
        DelimBy { elem: self, delim, coll: collect }
    }

    /// This parser followed by `other`; see [`Then`].
    fn then<P>(self, other: P) -> (r: Then<Self, P>)
        ensures
            r == (Then { l: self, r: other }),
    {
        Then { l: self, r: other }
    }

    /// This parser with a context of its own; see [`WithContext`].
    fn with_context(self, ctx: C) -> (r: WithContext<Self, C>)
        ensures
            r == (WithContext { p: self, c: ctx }),
    {
        WithContext { p: self, c: ctx }
    }

    /// This parser between the literals `before` and `after`; see [`Wrapped`].
    fn wrapped(self, before: &'static str, after: &'static str) -> (r: Wrapped<Self>)
        ensures
            r == (Wrapped { p: self, before, after }),
    {
        Wrapped { p: self, before, after }
    }

    /// This parser's value without consuming anything; see [`Lookahead`].
    fn lookahead(self) -> (r: Lookahead<Self>)
        ensures
            r == (Lookahead { p: self }),
    {
        Lookahead { p: self }
    }

    /// Matches where this parser does not; see [`Not`].
    fn not(self) -> (r: Not<Self>)
        ensures
            r == (Not { p: self }),
    {
        Not { p: self }
    }

    /// This parser with `padding` before and after it; see [`Pad`].
    fn pad<P>(self, padding: P) -> (r: Pad<Self, P>)
        ensures
            r == (Pad { elem: self, pad: padding }),
    {
        Pad { elem: self, pad: padding }
    }
}


/// A parser that always consumes the same number of bytes when it matches.
pub trait FixedLengthParser<'a, E, C>: Parser<'a, E, C> {
    spec fn spec_parsed_len(&self) -> nat;

    fn parsed_len(&self) -> (r: usize)
        ensures
            r == self.spec_parsed_len(),
    ;

    /// A match at a position of a UTF-8 text consumes exactly
    /// `spec_parsed_len()` bytes.
    proof fn lemma_match_len(&self, s: Seq<u8>, cur: nat, ctx: C)
        requires
            valid_utf8(s),
            valid_pos(s, cur as int),
        ensures
            self.spec_parse(s, cur, ctx).res matches Some((n, _)) ==> n == self.spec_parsed_len(),
    ;

    /// Matches where this parser matches just before the position; see [`Lookbehind`].
    fn lookbehind(self) -> (r: Lookbehind<Self>)
        ensures
            r == (Lookbehind { p: self }),
    {
        Lookbehind { p: self }
    }

    /// Matches where this parser does not match just before the position; see
    /// [`NegativeLookbehind`].
    fn negative_lookbehind(self) -> (r: NegativeLookbehind<Self>)
        ensures
            r == (NegativeLookbehind { p: self }),
    {
        NegativeLookbehind { p: self }
    }
}

} // verus!
