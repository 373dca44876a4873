//! The parsers that the methods of [`Parser`] build from other parsers.
use vstd::prelude::*;
use vstd::string::*;
use vstd::utf8::*;

use core::ops::Range;

use crate::error::{
    error_at, last_error, lemma_report_all_concat, report_all, ErrorCell, ErrorFrom, ErrorHandler,
    ErrorLocation, ParseError,
};
use crate::func::{fn1_det, fn1_try_det, fn1_try_view, fn1_view, lemma_fn1_try_view, lemma_fn1_view};
use crate::output::{Chain, ChainImpl, ChainKind, Ignore, Keep, OptionalOutput};
use crate::text::{lemma_boundary_in_rest, lemma_str_decodes, text_of};
use crate::parser_prims::{lit, lit_outcome, LitParser};
use crate::parser_trait::{FixedLengthParser, Outcome, Parser};
use crate::{Input, ParserResult};

verus! {

/// Runs `l`, then `r` where `l` stopped; the values combine by the kinds of the two parsers.
pub struct Then<P1, P2> {
    pub l: P1,
    pub r: P2,
}

impl<'a, E, C, P1, P2> Parser<'a, E, C> for Then<P1, P2> where
    P1: Parser<'a, E, C>,
    P2: Parser<'a, E, C>,
    ChainImpl<P1::Kind, P2::Kind>: Chain<P1::Output, P2::Output>,
 {
    type Output = <ChainImpl<P1::Kind, P2::Kind> as Chain<P1::Output, P2::Output>>::Output;
    type Kind = <ChainImpl<P1::Kind, P2::Kind> as ChainKind>::NextKind;

    open spec fn wf(&self) -> bool {
        self.l.wf() && self.r.wf()
    }

    open spec fn spec_parse(&self, s: Seq<u8>, cur: nat, ctx: C) -> Outcome<
        <Self::Output as DeepView>::V,
        E,
        C,
    > {
        let o1 = self.l.spec_parse(s, cur, ctx);
        match o1.res {
            None => o1_fail(o1),
            Some((n1, v1)) => {
                let o2 = self.r.spec_parse(s, cur + n1, o1.ctx);
                Outcome {
                    res: match o2.res {
                        Some((n2, v2)) => Some(
                            (
                                n1 + n2,
                                <ChainImpl<P1::Kind, P2::Kind> as Chain<
                                    P1::Output,
                                    P2::Output,
                                >>::spec_chain(v1, v2),
                            ),
                        ),
                        None => None,
                    },
                    errs: o1.errs + o2.errs,
                    ctx: o2.ctx,
                }
            },
        }
    }

    open spec fn spec_next(&self, s: Seq<u8>, cur: nat, ctx: C) -> Self {
        let o1 = self.l.spec_parse(s, cur, ctx);
        Then {
            l: self.l.spec_next(s, cur, ctx),
            r: match o1.res {
                Some((n1, _)) => self.r.spec_next(s, cur + n1, o1.ctx),
                None => self.r,
            },
        }
    }

    fn parse<H: ErrorHandler<E>>(&mut self, input: Input<'a>, errs: &mut H, ctx: &mut C) -> (r:
        ParserResult<Self::Output>) {
        let ghost (s, c0, h0) = (input.bytes(), *ctx, *errs);
        let ghost o1 = self.l.spec_parse(s, input.cur as nat, c0);
        let (l_len, l_val) = self.l.parse(input, errs, ctx)?;
        let ghost h1 = *errs;
        let r_in = input.skip(l_len);
        let ghost o2 = self.r.spec_parse(s, r_in.cur as nat, o1.ctx);
        let res = self.r.parse(r_in, errs, ctx);
        proof {
            lemma_report_all_concat(h0, o1.errs, o2.errs);
        }
        let (r_len, r_val) = res?;
        let output = ChainImpl::<P1::Kind, P2::Kind>::chain(l_val, r_val);
        Some((l_len + r_len, output))
    }
}

/// A failed outcome that keeps the errors and context of `o`.
pub open spec fn o1_fail<V, W, E, C>(o: Outcome<V, E, C>) -> Outcome<W, E, C> {
    Outcome { res: None, errs: o.errs, ctx: o.ctx }
}

} // verus!

verus! {

/// Runs `l`; where it fails, runs `r` from the same position. Errors of the two
/// alternatives are held back, and only the last of them is reported, when both fail.
pub struct Or<P1, P2> {
    pub l: P1,
    pub r: P2,
}

/// The errors an alternative reports: the last of those its branches reported, if both failed.
pub open spec fn held_back<E>(es: Seq<ErrorLocation<E>>) -> Seq<ErrorLocation<E>> {
    match last_error(es) {
        Some(e) => seq![e],
        None => Seq::<ErrorLocation<E>>::empty(),
    }
}


/// A value of the same type as `T`, seen as a `T`.
pub trait SameAs<T: DeepView>: DeepView + Sized {
    spec fn spec_same(v: Self::V) -> T::V;

    fn same(self) -> (r: T)
        ensures
            r.deep_view() == Self::spec_same(self.deep_view()),
    ;
}

impl<T: DeepView> SameAs<T> for T {
    open spec fn spec_same(v: T::V) -> T::V {
        v
    }

    fn same(self) -> (r: T) {
        self
    }
}

impl<'a, E, C, P1, P2> Parser<'a, E, C> for Or<P1, P2> where
    P1: Parser<'a, E, C>,
    P2: Parser<'a, E, C>,
    P2::Output: SameAs<P1::Output>,
 {
    type Output = P1::Output;
    type Kind = P1::Kind;

    open spec fn wf(&self) -> bool {
        self.l.wf() && self.r.wf()
    }

    open spec fn spec_parse(&self, s: Seq<u8>, cur: nat, ctx: C) -> Outcome<
        <Self::Output as DeepView>::V,
        E,
        C,
    > {
        let o1 = self.l.spec_parse(s, cur, ctx);
        if o1.res is Some {
            Outcome { res: o1.res, errs: Seq::<ErrorLocation<E>>::empty(), ctx: o1.ctx }
        } else {
            let o2 = self.r.spec_parse(s, cur, o1.ctx);
            match o2.res {
                Some((n, v)) => Outcome {
                    res: Some((n, <P2::Output as SameAs<P1::Output>>::spec_same(v))),
                    errs: Seq::<ErrorLocation<E>>::empty(),
                    ctx: o2.ctx,
                },
                None => Outcome { res: None, errs: held_back(o1.errs + o2.errs), ctx: o2.ctx },
            }
        }
    }

    open spec fn spec_next(&self, s: Seq<u8>, cur: nat, ctx: C) -> Self {
        let o1 = self.l.spec_parse(s, cur, ctx);
        Or {
            l: self.l.spec_next(s, cur, ctx),
            r: if o1.res is Some {
                self.r
            } else {
                self.r.spec_next(s, cur, o1.ctx)
            },
        }
    }

    fn parse<H: ErrorHandler<E>>(&mut self, input: Input<'a>, errs: &mut H, ctx: &mut C) -> (r:
        ParserResult<Self::Output>) {
        let ghost (s, c0) = (input.bytes(), *ctx);
        let ghost o1 = self.l.spec_parse(s, input.cur as nat, c0);
        let mut err: ErrorCell<E> = ErrorCell::new();
        let ghost cell0 = err;
        let parsed = self.l.parse(input, &mut err, ctx);
        if parsed.is_some() {
            return parsed;
        }
        let ghost o2 = self.r.spec_parse(s, input.cur as nat, o1.ctx);
        match self.r.parse(input, &mut err, ctx) {
            Some((len, val)) => Some((len, val.same())),
            None => {
                proof {
                    lemma_report_all_concat(cell0, o1.errs, o2.errs);
                    cell0.lemma_keeps_last(o1.errs + o2.errs);
                }
                let ghost h0 = *errs;
                let last = err.into_inner();
                if let Some(ErrorLocation(e, pos)) = last {
                    errs.error(e, pos);
                    proof {
                        let es = held_back(o1.errs + o2.errs);
                        assert(es.drop_last() =~= Seq::<ErrorLocation<E>>::empty());
                        assert(report_all(h0, es.drop_last()) == h0);
                    }
                } else {
                    assert(held_back(o1.errs + o2.errs) =~= Seq::<ErrorLocation<E>>::empty());
                }
                None
            },
        }
    }
}

/// Runs `p` and applies `f` to its value.
pub struct Mapped<P, F> {
    pub p: P,
    pub f: F,
}

impl<'a, E, C, P, F, V> Parser<'a, E, C> for Mapped<P, F> where
    P: Parser<'a, E, C>,
    F: Fn(P::Output) -> V,
    V: DeepView,
 {
    type Output = V;
    type Kind = Keep;

    open spec fn wf(&self) -> bool {
        self.p.wf() && fn1_det(self.f)
    }

    open spec fn spec_parse(&self, s: Seq<u8>, cur: nat, ctx: C) -> Outcome<V::V, E, C> {
        let o = self.p.spec_parse(s, cur, ctx);
        Outcome {
            res: match o.res {
                Some((n, x)) => Some((n, fn1_view::<P::Output, V, F>(self.f, x))),
                None => None,
            },
            errs: o.errs,
            ctx: o.ctx,
        }
    }

    open spec fn spec_next(&self, s: Seq<u8>, cur: nat, ctx: C) -> Self {
        Mapped { p: self.p.spec_next(s, cur, ctx), f: self.f }
    }

    fn parse<H: ErrorHandler<E>>(&mut self, input: Input<'a>, errs: &mut H, ctx: &mut C) -> (r:
        ParserResult<V>) {
        let (len, val) = self.p.parse(input, errs, ctx)?;
        let ghost x = val;
        let y = (self.f)(val);
        proof {
            lemma_fn1_view(self.f, x, y);
        }
        Some((len, y))
    }
}

/// Runs `p` and applies `f` to its value; where `f` fails, reports its error over
/// the bytes that `p` consumed, and fails.
pub struct TryMap<P, F> {
    pub p: P,
    pub f: F,
}

impl<'a, E, C, P, F, V, E2> Parser<'a, E, C> for TryMap<P, F> where
    P: Parser<'a, E, C>,
    F: Fn(P::Output) -> Result<V, E2>,
    V: DeepView,
    E: ErrorFrom<E2>,
 {
    type Output = V;
    type Kind = P::Kind;

    open spec fn wf(&self) -> bool {
        self.p.wf() && fn1_try_det(self.f)
    }

    open spec fn spec_parse(&self, s: Seq<u8>, cur: nat, ctx: C) -> Outcome<V::V, E, C> {
        let o = self.p.spec_parse(s, cur, ctx);
        match o.res {
            Some((n, x)) => match fn1_try_view::<P::Output, V, E2, F>(self.f, x) {
                Ok(v) => Outcome { res: Some((n, v)), errs: o.errs, ctx: o.ctx },
                Err(e) => Outcome {
                    res: None,
                    errs: o.errs.push(
                        ErrorLocation(
                            E::spec_error_from(e),
                            Range { start: cur as usize, end: (cur + n) as usize },
                        ),
                    ),
                    ctx: o.ctx,
                },
            },
            None => o1_fail(o),
        }
    }

    open spec fn spec_next(&self, s: Seq<u8>, cur: nat, ctx: C) -> Self {
        TryMap { p: self.p.spec_next(s, cur, ctx), f: self.f }
    }

    fn parse<H: ErrorHandler<E>>(&mut self, input: Input<'a>, errs: &mut H, ctx: &mut C) -> (r:
        ParserResult<V>) {
        let ghost o = self.p.spec_parse(input.bytes(), input.cur as nat, *ctx);
        let (len, result) = self.p.parse(input, errs, ctx)?;
        let ghost x = result;
        let result = (self.f)(result);
        proof {
            lemma_fn1_try_view(self.f, x, result);
        }
        match result {
            Ok(v) => Some((len, v)),
            Err(e) => {
                let ghost e0 = e;
                let e = E::error_from(e);
                errs.error(e, input.cur..input.cur + len);
                proof {
                    let es = o.errs.push(
                        ErrorLocation(
                            E::spec_error_from(e0),
                            Range { start: input.cur, end: (input.cur + len) as usize },
                        ),
                    );
                    assert(es.drop_last() =~= o.errs);
                }
                None
            },
        }
    }
}

/// Runs `p`; where it fails, succeeds without consuming anything.
pub struct Optional<P> {
    pub p: P,
}

impl<'a, E, C, P> Parser<'a, E, C> for Optional<P> where
    P: Parser<'a, E, C>,
    P::Kind: OptionalOutput<Option<P::Output>>,
 {
    type Output = <P::Kind as OptionalOutput<Option<P::Output>>>::Output;
    type Kind = P::Kind;

    open spec fn wf(&self) -> bool {
        self.p.wf()
    }

    open spec fn spec_parse(&self, s: Seq<u8>, cur: nat, ctx: C) -> Outcome<
        <Self::Output as DeepView>::V,
        E,
        C,
    > {
        let o = self.p.spec_parse(s, cur, ctx);
        Outcome {
            res: match o.res {
                Some((n, x)) => Some(
                    (n, <P::Kind as OptionalOutput<Option<P::Output>>>::spec_convert(Some(x))),
                ),
                None => Some((0, <P::Kind as OptionalOutput<Option<P::Output>>>::spec_convert(None))),
            },
            errs: o.errs,
            ctx: o.ctx,
        }
    }

    open spec fn spec_next(&self, s: Seq<u8>, cur: nat, ctx: C) -> Self {
        Optional { p: self.p.spec_next(s, cur, ctx) }
    }

    fn parse<H: ErrorHandler<E>>(&mut self, input: Input<'a>, errs: &mut H, ctx: &mut C) -> (r:
        ParserResult<Self::Output>) {
        match self.p.parse(input, errs, ctx) {
            Some((len, elem)) => Some((len, P::Kind::convert(Some(elem)))),
            None => Some((0, P::Kind::convert(None))),
        }
    }
}

/// The default value of `O` is the same, up to views, every time.
pub open spec fn default_det<O: Default + DeepView>() -> bool {
    forall|d1: O, d2: O|
        #[trigger] call_ensures(O::default, (), d1) && #[trigger] call_ensures(O::default, (), d2)
            ==> d1.deep_view() == d2.deep_view()
}

/// The view of the default value of `O`.
pub open spec fn default_view<O: Default + DeepView>() -> O::V {
    (choose|d: O| #[trigger] call_ensures(O::default, (), d)).deep_view()
}

/// Runs `p`; where it fails, succeeds with the default value without consuming anything.
pub struct OptDefault<P> {
    pub p: P,
}

impl<'a, E, C, P> Parser<'a, E, C> for OptDefault<P> where
    P: Parser<'a, E, C>,
    P::Output: Default,
 {
    type Output = P::Output;
    type Kind = P::Kind;

    open spec fn wf(&self) -> bool {
        self.p.wf() && default_det::<P::Output>()
    }

    open spec fn spec_parse(&self, s: Seq<u8>, cur: nat, ctx: C) -> Outcome<
        <Self::Output as DeepView>::V,
        E,
        C,
    > {
        let o = self.p.spec_parse(s, cur, ctx);
        Outcome {
            res: match o.res {
                Some(r) => Some(r),
                None => Some((0, default_view::<P::Output>())),
            },
            errs: o.errs,
            ctx: o.ctx,
        }
    }

    open spec fn spec_next(&self, s: Seq<u8>, cur: nat, ctx: C) -> Self {
        OptDefault { p: self.p.spec_next(s, cur, ctx) }
    }

    fn parse<H: ErrorHandler<E>>(&mut self, input: Input<'a>, errs: &mut H, ctx: &mut C) -> (r:
        ParserResult<Self::Output>) {
        match self.p.parse(input, errs, ctx) {
            Some((len, elem)) => Some((len, elem)),
            None => {
                let d = P::Output::default();
                Some((0, d))
            },
        }
    }
}

/// Runs `p` and drops its value.
pub struct Dropped<P> {
    pub p: P,
}

impl<'a, E, C, P> Parser<'a, E, C> for Dropped<P> where P: Parser<'a, E, C> {
    type Output = ();
    type Kind = Ignore;

    open spec fn wf(&self) -> bool {
        self.p.wf()
    }

    open spec fn spec_parse(&self, s: Seq<u8>, cur: nat, ctx: C) -> Outcome<(), E, C> {
        let o = self.p.spec_parse(s, cur, ctx);
        Outcome {
            res: match o.res {
                Some((n, _)) => Some((n, ())),
                None => None,
            },
            errs: o.errs,
            ctx: o.ctx,
        }
    }

    open spec fn spec_next(&self, s: Seq<u8>, cur: nat, ctx: C) -> Self {
        Dropped { p: self.p.spec_next(s, cur, ctx) }
    }

    fn parse<H: ErrorHandler<E>>(&mut self, input: Input<'a>, errs: &mut H, ctx: &mut C) -> (r:
        ParserResult<()>) {
        let (len, _) = self.p.parse(input, errs, ctx)?;
        Some((len, ()))
    }
}

/// Runs `p` and keeps its value when it is chained.
pub struct KeepP<P> {
    pub p: P,
}

impl<'a, E, C, P> Parser<'a, E, C> for KeepP<P> where P: Parser<'a, E, C> {
    type Output = P::Output;
    type Kind = Keep;

    open spec fn wf(&self) -> bool {
        self.p.wf()
    }

    open spec fn spec_parse(&self, s: Seq<u8>, cur: nat, ctx: C) -> Outcome<
        <Self::Output as DeepView>::V,
        E,
        C,
    > {
        self.p.spec_parse(s, cur, ctx)
    }

    open spec fn spec_next(&self, s: Seq<u8>, cur: nat, ctx: C) -> Self {
        KeepP { p: self.p.spec_next(s, cur, ctx) }
    }

    fn parse<H: ErrorHandler<E>>(&mut self, input: Input<'a>, errs: &mut H, ctx: &mut C) -> (r:
        ParserResult<Self::Output>) {
        let (len, val) = self.p.parse(input, errs, ctx)?;
        Some((len, val))
    }
}

/// Runs `p` and gives the text it consumed.
pub struct Slice<P> {
    pub p: P,
}

impl<'a, E, C, P> Parser<'a, E, C> for Slice<P> where P: Parser<'a, E, C> {
    type Output = &'a str;
    type Kind = Keep;

    open spec fn wf(&self) -> bool {
        self.p.wf()
    }

    open spec fn spec_parse(&self, s: Seq<u8>, cur: nat, ctx: C) -> Outcome<Seq<char>, E, C> {
        let o = self.p.spec_parse(s, cur, ctx);
        Outcome {
            res: match o.res {
                Some((n, _)) => Some((n, text_of(s, cur as int, (cur + n) as int))),
                None => None,
            },
            errs: o.errs,
            ctx: o.ctx,
        }
    }

    open spec fn spec_next(&self, s: Seq<u8>, cur: nat, ctx: C) -> Self {
        Slice { p: self.p.spec_next(s, cur, ctx) }
    }

    fn parse<H: ErrorHandler<E>>(&mut self, input: Input<'a>, errs: &mut H, ctx: &mut C) -> (r:
        ParserResult<&'a str>) {
        let (len, _) = self.p.parse(input, errs, ctx)?;
        let rest = input.slice();
        proof {
            lemma_str_decodes(input.src);
            lemma_boundary_in_rest(input.bytes(), input.cur as int, len as int);
        }
        let (slice, _) = rest.split_at(len);
        proof {
            lemma_str_decodes(slice);
            assert(slice.spec_bytes() =~= input.bytes().subrange(
                input.cur as int,
                input.cur + len,
            ));
            assert(DeepView::deep_view(&slice) == text_of(
                input.bytes(),
                input.cur as int,
                (input.cur + len) as int,
            ));
        }
        Some((len, slice))
    }
}

/// Runs `p` and gives its value without consuming anything.
pub struct Lookahead<P> {
    pub p: P,
}

impl<'a, E, C, P> Parser<'a, E, C> for Lookahead<P> where P: Parser<'a, E, C> {
    type Output = P::Output;
    type Kind = Ignore;

    open spec fn wf(&self) -> bool {
        self.p.wf()
    }

    open spec fn spec_parse(&self, s: Seq<u8>, cur: nat, ctx: C) -> Outcome<
        <Self::Output as DeepView>::V,
        E,
        C,
    > {
        let o = self.p.spec_parse(s, cur, ctx);
        Outcome {
            res: match o.res {
                Some((_, v)) => Some((0, v)),
                None => None,
            },
            errs: o.errs,
            ctx: o.ctx,
        }
    }

    open spec fn spec_next(&self, s: Seq<u8>, cur: nat, ctx: C) -> Self {
        Lookahead { p: self.p.spec_next(s, cur, ctx) }
    }

    fn parse<H: ErrorHandler<E>>(&mut self, input: Input<'a>, errs: &mut H, ctx: &mut C) -> (r:
        ParserResult<Self::Output>) {
        let (_len, val) = self.p.parse(input, errs, ctx)?;
        Some((0, val))
    }
}

/// Succeeds without consuming anything where `p` fails; where `p` matches,
/// reports an unexpected token and fails.
pub struct Not<P> {
    pub p: P,
}

impl<'a, E, C, P> Parser<'a, E, C> for Not<P> where
    P: Parser<'a, E, C>,
    E: ErrorFrom<ParseError>,
 {
    type Output = ();
    type Kind = Ignore;

    open spec fn wf(&self) -> bool {
        self.p.wf()
    }

    open spec fn spec_parse(&self, s: Seq<u8>, cur: nat, ctx: C) -> Outcome<(), E, C> {
        let o = self.p.spec_parse(s, cur, ctx);
        if o.res is Some {
            Outcome {
                res: None,
                errs: o.errs.push(error_at(E::spec_error_from(ParseError::UnexpectedToken), cur)),
                ctx: o.ctx,
            }
        } else {
            Outcome { res: Some((0, ())), errs: o.errs, ctx: o.ctx }
        }
    }

    open spec fn spec_next(&self, s: Seq<u8>, cur: nat, ctx: C) -> Self {
        Not { p: self.p.spec_next(s, cur, ctx) }
    }

    fn parse<H: ErrorHandler<E>>(&mut self, input: Input<'a>, errs: &mut H, ctx: &mut C) -> (r:
        ParserResult<()>) {
        let ghost o = self.p.spec_parse(input.bytes(), input.cur as nat, *ctx);
        let result = self.p.parse(input, errs, ctx);
        if result.is_some() {
            errs.error(E::error_from(ParseError::UnexpectedToken), input.cur..input.cur);
            proof {
                let es = o.errs.push(
                    error_at(E::spec_error_from(ParseError::UnexpectedToken), input.cur as nat),
                );
                assert(es.drop_last() =~= o.errs);
            }
            None
        } else {
            Some((0, ()))
        }
    }
}

/// Runs `pad`, then `elem`, then `pad` again, and gives the value of `elem`.
pub struct Pad<P1, P2> {
    pub elem: P1,
    pub pad: P2,
}

impl<'a, E, C, P1, P2> Parser<'a, E, C> for Pad<P1, P2> where
    P1: Parser<'a, E, C>,
    P2: Parser<'a, E, C>,
 {
    type Output = P1::Output;
    type Kind = P1::Kind;

    open spec fn wf(&self) -> bool {
        self.elem.wf() && self.pad.wf()
    }

    open spec fn spec_parse(&self, s: Seq<u8>, cur: nat, ctx: C) -> Outcome<
        <Self::Output as DeepView>::V,
        E,
        C,
    > {
        let o1 = self.pad.spec_parse(s, cur, ctx);
        match o1.res {
            None => o1_fail(o1),
            Some((n1, _)) => {
                let o2 = self.elem.spec_parse(s, cur + n1, o1.ctx);
                match o2.res {
                    None => Outcome { res: None, errs: o1.errs + o2.errs, ctx: o2.ctx },
                    Some((n2, v)) => {
                        let pad2 = self.pad.spec_next(s, cur, ctx);
                        let o3 = pad2.spec_parse(s, cur + n1 + n2, o2.ctx);
                        Outcome {
                            res: match o3.res {
                                Some((n3, _)) => Some((n1 + n2 + n3, v)),
                                None => None,
                            },
                            errs: o1.errs + o2.errs + o3.errs,
                            ctx: o3.ctx,
                        }
                    },
                }
            },
        }
    }

    open spec fn spec_next(&self, s: Seq<u8>, cur: nat, ctx: C) -> Self {
        let o1 = self.pad.spec_parse(s, cur, ctx);
        let pad2 = self.pad.spec_next(s, cur, ctx);
        match o1.res {
            None => Pad { elem: self.elem, pad: pad2 },
            Some((n1, _)) => {
                let o2 = self.elem.spec_parse(s, cur + n1, o1.ctx);
                let elem2 = self.elem.spec_next(s, cur + n1, o1.ctx);
                match o2.res {
                    None => Pad { elem: elem2, pad: pad2 },
                    Some((n2, _)) => Pad {
                        elem: elem2,
                        pad: pad2.spec_next(s, cur + n1 + n2, o2.ctx),
                    },
                }
            },
        }
    }

    fn parse<H: ErrorHandler<E>>(&mut self, input: Input<'a>, errs: &mut H, ctx: &mut C) -> (r:
        ParserResult<Self::Output>) {
        let ghost (s, c0, h0) = (input.bytes(), *ctx, *errs);
        let ghost o1 = self.pad.spec_parse(s, input.cur as nat, c0);
        let (len, _) = self.pad.parse(input, errs, ctx)?;
        let mut offset = len;
        let ghost o2 = self.elem.spec_parse(s, (input.cur + offset) as nat, o1.ctx);
        let res = self.elem.parse(input.skip(offset), errs, ctx);
        proof {
            lemma_report_all_concat(h0, o1.errs, o2.errs);
        }
        let (len, val) = res?;
        offset += len;
        let ghost o3 = self.pad.spec_parse(s, (input.cur + offset) as nat, o2.ctx);
        let res = self.pad.parse(input.skip(offset), errs, ctx);
        proof {
            lemma_report_all_concat(h0, o1.errs + o2.errs, o3.errs);
        }
        let (len, _) = res?;
        offset += len;
        Some((offset, val))
    }
}

/// Runs `p` with a context of its own, kept from one run to the next.
pub struct WithContext<P, C> {
    pub p: P,
    pub c: C,
}

impl<'a, E, P, C> Parser<'a, E, ()> for WithContext<P, C> where P: Parser<'a, E, C> {
    type Output = P::Output;
    type Kind = P::Kind;

    open spec fn wf(&self) -> bool {
        self.p.wf()
    }

    open spec fn spec_parse(&self, s: Seq<u8>, cur: nat, ctx: ()) -> Outcome<
        <Self::Output as DeepView>::V,
        E,
        (),
    > {
        let o = self.p.spec_parse(s, cur, self.c);
        Outcome { res: o.res, errs: o.errs, ctx: () }
    }

    open spec fn spec_next(&self, s: Seq<u8>, cur: nat, ctx: ()) -> Self {
        WithContext {
            p: self.p.spec_next(s, cur, self.c),
            c: self.p.spec_parse(s, cur, self.c).ctx,
        }
    }

    fn parse<H: ErrorHandler<E>>(&mut self, input: Input<'a>, errs: &mut H, _ctx: &mut ()) -> (r:
        ParserResult<Self::Output>) {
        self.p.parse(input, errs, &mut self.c)
    }
}

/// Matches the literal `before`, then `p`, then the literal `after`, and gives the value of `p`.
pub struct Wrapped<P> {
    pub p: P,
    pub before: &'static str,
    pub after: &'static str,
}

impl<'a, E, C, P> Parser<'a, E, C> for Wrapped<P> where
    P: Parser<'a, E, C>,
    E: ErrorFrom<ParseError>,
 {
    type Output = P::Output;
    type Kind = P::Kind;

    open spec fn wf(&self) -> bool {
        self.p.wf()
    }

    open spec fn spec_parse(&self, s: Seq<u8>, cur: nat, ctx: C) -> Outcome<
        <Self::Output as DeepView>::V,
        E,
        C,
    > {
        let ob = lit_outcome::<E, ()>(self.before, self.before, s, cur, ());
        match ob.res {
            None => Outcome { res: None, errs: ob.errs, ctx },
            Some((nb, _)) => {
                let o = self.p.spec_parse(s, cur + nb, ctx);
                match o.res {
                    None => Outcome { res: None, errs: ob.errs + o.errs, ctx: o.ctx },
                    Some((n, v)) => {
                        let oa = lit_outcome::<E, ()>(self.after, self.after, s, cur + nb + n, ());
                        Outcome {
                            res: match oa.res {
                                Some((na, _)) => Some((nb + na + n, v)),
                                None => None,
                            },
                            errs: ob.errs + o.errs + oa.errs,
                            ctx: o.ctx,
                        }
                    },
                }
            },
        }
    }

    open spec fn spec_next(&self, s: Seq<u8>, cur: nat, ctx: C) -> Self {
        let ob = lit_outcome::<E, ()>(self.before, self.before, s, cur, ());
        match ob.res {
            None => *self,
            Some((nb, _)) => Wrapped {
                p: self.p.spec_next(s, cur + nb, ctx),
                before: self.before,
                after: self.after,
            },
        }
    }

    fn parse<H: ErrorHandler<E>>(&mut self, input: Input<'a>, errs: &mut H, ctx: &mut C) -> (r:
        ParserResult<Self::Output>) {
        let ghost (s, c0, h0) = (input.bytes(), *ctx, *errs);
        let ghost ob = lit_outcome::<E, ()>(self.before, self.before, s, input.cur as nat, ());
        let mut unit = ();
        let mut before = lit(self.before, self.before);
        let (before_len, _) = <LitParser as Parser<'a, E, ()>>::parse(
            &mut before,
            input,
            errs,
            &mut unit,
        )?;
        let ghost o = self.p.spec_parse(s, (input.cur + before_len) as nat, c0);
        let res = self.p.parse(input.skip(before_len), errs, ctx);
        proof {
            lemma_report_all_concat(h0, ob.errs, o.errs);
        }
        let (len, val) = res?;
        let ghost oa = lit_outcome::<E, ()>(
            self.after,
            self.after,
            s,
            (input.cur + before_len + len) as nat,
            (),
        );
        let mut after = lit(self.after, self.after);
        let res = <LitParser as Parser<'a, E, ()>>::parse(
            &mut after,
            input.skip(before_len + len),
            errs,
            &mut unit,
        );
        proof {
            lemma_report_all_concat(h0, ob.errs + o.errs, oa.errs);
        }
        let (after_len, _) = res?;
        Some((before_len + after_len + len, val))
    }
}

/// Whether a window of `k` bytes ends at `cur` and starts at a text position.
pub open spec fn window_ok(s: Seq<u8>, cur: nat, k: nat) -> bool {
    k <= cur && is_char_boundary(s, cur - k)
}

/// Matches without consuming anything where `p` matches the bytes just before
/// the current position (a window that starts before the text, or inside a
/// character, does not match).
pub struct Lookbehind<P> {
    pub p: P,
}

impl<'a, E, C, P> Parser<'a, E, C> for Lookbehind<P> where P: FixedLengthParser<'a, E, C> {
    type Output = ();
    type Kind = Ignore;

    open spec fn wf(&self) -> bool {
        self.p.wf()
    }

    open spec fn spec_parse(&self, s: Seq<u8>, cur: nat, ctx: C) -> Outcome<(), E, C> {
        let k = self.p.spec_parsed_len();
        if window_ok(s, cur, k) {
            let o = self.p.spec_parse(s, (cur - k) as nat, ctx);
            Outcome {
                res: if o.res is Some {
                    Some((0, ()))
                } else {
                    None
                },
                errs: o.errs,
                ctx: o.ctx,
            }
        } else {
            Outcome { res: None, errs: Seq::<ErrorLocation<E>>::empty(), ctx }
        }
    }

    open spec fn spec_next(&self, s: Seq<u8>, cur: nat, ctx: C) -> Self {
        let k = self.p.spec_parsed_len();
        if window_ok(s, cur, k) {
            Lookbehind { p: self.p.spec_next(s, (cur - k) as nat, ctx) }
        } else {
            *self
        }
    }

    fn parse<H: ErrorHandler<E>>(&mut self, input: Input<'a>, errs: &mut H, ctx: &mut C) -> (r:
        ParserResult<()>) {
        let k = self.p.parsed_len();
        if k <= input.cur && input.src.is_char_boundary(input.cur - k) {
            let new_input = Input { src: input.src, cur: input.cur - k };
            let _ = self.p.parse(new_input, errs, ctx)?;
            Some((0, ()))
        } else {
            None
        }
    }
}

/// Matches without consuming anything where `p` does not match the bytes just
/// before the current position; where it does, reports an unexpected token.
pub struct NegativeLookbehind<P> {
    pub p: P,
}

impl<'a, E, C, P> Parser<'a, E, C> for NegativeLookbehind<P> where
    P: FixedLengthParser<'a, E, C>,
    E: ErrorFrom<ParseError>,
 {
    type Output = ();
    type Kind = Ignore;

    open spec fn wf(&self) -> bool {
        self.p.wf()
    }

    open spec fn spec_parse(&self, s: Seq<u8>, cur: nat, ctx: C) -> Outcome<(), E, C> {
        let k = self.p.spec_parsed_len();
        if window_ok(s, cur, k) {
            let o = self.p.spec_parse(s, (cur - k) as nat, ctx);
            if o.res is Some {
                Outcome {
                    res: None,
                    errs: o.errs.push(error_at(E::spec_error_from(ParseError::UnexpectedToken), cur)),
                    ctx: o.ctx,
                }
            } else {
                Outcome { res: Some((0, ())), errs: o.errs, ctx: o.ctx }
            }
        } else {
            Outcome { res: Some((0, ())), errs: Seq::<ErrorLocation<E>>::empty(), ctx }
        }
    }

    open spec fn spec_next(&self, s: Seq<u8>, cur: nat, ctx: C) -> Self {
        let k = self.p.spec_parsed_len();
        if window_ok(s, cur, k) {
            NegativeLookbehind { p: self.p.spec_next(s, (cur - k) as nat, ctx) }
        } else {
            *self
        }
    }

    fn parse<H: ErrorHandler<E>>(&mut self, input: Input<'a>, errs: &mut H, ctx: &mut C) -> (r:
        ParserResult<()>) {
        let k = self.p.parsed_len();
        if k <= input.cur && input.src.is_char_boundary(input.cur - k) {
            let new_input = Input { src: input.src, cur: input.cur - k };
            let ghost o = self.p.spec_parse(input.bytes(), new_input.cur as nat, *ctx);
            let result = self.p.parse(new_input, errs, ctx);
            if result.is_some() {
                errs.error(E::error_from(ParseError::UnexpectedToken), input.cur..input.cur);
                proof {
                    let es = o.errs.push(
                        error_at(E::spec_error_from(ParseError::UnexpectedToken), input.cur as nat),
                    );
                    assert(es.drop_last() =~= o.errs);
                }
                None
            } else {
                Some((0, ()))
            }
        } else {
            Some((0, ()))
        }
    }
}

} // verus!
