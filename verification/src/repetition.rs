//! Repetition: a parser matched again and again, and a list of elements
//! separated by delimiters.
//!
//! A repetition stops where the repeated parser (or a delimiter and the element
//! after it) fails, or where it matches without consuming anything: a match of
//! nothing would match again at the same place forever, so it ends the
//! repetition and its value is not collected.
use vstd::prelude::*;
use vstd::utf8::*;

use crate::combinators::o1_fail;
use crate::error::{lemma_report_all_concat, report_all, ErrorHandler, ErrorLocation};
use crate::output::{Collector, DelimitedCollector};
use crate::parser_trait::{Outcome, Parser};
use crate::{Input, ParserResult};

verus! {

/// Matches `p` once, then again as long as it matches, collecting with `coll`
/// the values of the matches after the first.
pub struct Repeat<P, Coll> {
    pub p: P,
    pub coll: Coll,
}

/// The rest of a repetition that has reached `off` (having started at `start`)
/// with parser state `p`, context `ctx`, collected `acc` and reported `errs`:
/// its outcome, and the parser's state at its end.
pub open spec fn rep_loop<'a, E, C, P, Coll>(
    p: P,
    coll: Coll,
    s: Seq<u8>,
    start: nat,
    off: nat,
    ctx: C,
    acc: <Coll::Container as DeepView>::V,
    errs: Seq<ErrorLocation<E>>,
) -> (Outcome<<Coll::Container as DeepView>::V, E, C>, P) where
    P: Parser<'a, E, C>,
    Coll: Collector<P::Output>,

    decreases s.len() - off,
{
    let o = p.spec_parse(s, off, ctx);
    let p2 = p.spec_next(s, off, ctx);
    match o.res {
        Some((n, v)) => if 0 < n && off + n <= s.len() {
            rep_loop(p2, coll, s, start, off + n, o.ctx, coll.spec_consume(acc, v), errs + o.errs)
        } else {
            (Outcome { res: Some(((off - start) as nat, acc)), errs: errs + o.errs, ctx: o.ctx }, p2)
        },
        None => (
            Outcome { res: Some(((off - start) as nat, acc)), errs: errs + o.errs, ctx: o.ctx },
            p2,
        ),
    }
}

impl<'a, E, C, P, Coll> Parser<'a, E, C> for Repeat<P, Coll> where
    P: Parser<'a, E, C>,
    Coll: Collector<P::Output>,
 {
    type Output = Coll::Container;
    type Kind = Coll::Kind;

    open spec fn wf(&self) -> bool {
        self.p.wf() && self.coll.wf()
    }

    open spec fn spec_parse(&self, s: Seq<u8>, cur: nat, ctx: C) -> Outcome<
        <Self::Output as DeepView>::V,
        E,
        C,
    > {
        let o1 = self.p.spec_parse(s, cur, ctx);
        match o1.res {
            None => o1_fail(o1),
            Some((n1, _)) => rep_loop(
                self.p.spec_next(s, cur, ctx),
                self.coll,
                s,
                cur,
                cur + n1,
                o1.ctx,
                self.coll.spec_init(),
                o1.errs,
            ).0,
        }
    }

    open spec fn spec_next(&self, s: Seq<u8>, cur: nat, ctx: C) -> Self {
        let o1 = self.p.spec_parse(s, cur, ctx);
        match o1.res {
            None => Repeat { p: self.p.spec_next(s, cur, ctx), coll: self.coll },
            Some((n1, _)) => Repeat {
                p: rep_loop(
                    self.p.spec_next(s, cur, ctx),
                    self.coll,
                    s,
                    cur,
                    cur + n1,
                    o1.ctx,
                    self.coll.spec_init(),
                    o1.errs,
                ).1,
                coll: self.coll,
            },
        }
    }

    fn parse<H: ErrorHandler<E>>(&mut self, input: Input<'a>, errs: &mut H, ctx: &mut C) -> (r:
        ParserResult<Self::Output>) {
        let ghost (s, c0, h0) = (input.bytes(), *ctx, *errs);
        let ghost start = input.cur as nat;
        let ghost o1 = self.p.spec_parse(s, start, c0);
        let ghost coll0 = self.coll;
        let (mut offset, _first) = self.p.parse(input, errs, ctx)?;
        let mut elems = self.coll.init();
        let ghost target = rep_loop(
            self.p,
            self.coll,
            s,
            start,
            (input.cur + offset) as nat,
            *ctx,
            elems.deep_view(),
            o1.errs,
        );
        let ghost mut acc_errs = o1.errs;
        loop
            invariant_except_break
                rep_loop(
                    self.p,
                    coll0,
                    s,
                    start,
                    (input.cur + offset) as nat,
                    *ctx,
                    elems.deep_view(),
                    acc_errs,
                ) == target,
            invariant
                input.wf(),
                s == input.bytes(),
                start == input.cur,
                input.cur + offset <= s.len(),
                is_char_boundary(s, input.cur + offset),
                self.p.wf(),
                self.coll.wf(),
                self.coll == coll0,
                *errs == report_all(h0, acc_errs),
            ensures
                target.0 == (Outcome {
                    res: Some((offset as nat, elems.deep_view())),
                    errs: acc_errs,
                    ctx: *ctx,
                }),
                target.1 == self.p,
            decreases s.len() - (input.cur + offset),
        {
            let ghost off = (input.cur + offset) as nat;
            let ghost o = self.p.spec_parse(s, off, *ctx);
            let ghost h1 = *errs;
            let res = self.p.parse(input.skip(offset), errs, ctx);
            proof {
                lemma_report_all_concat(h0, acc_errs, o.errs);
                acc_errs = acc_errs + o.errs;
            }
            match res {
                Some((len, elem)) => {
                    if len == 0 {
                        break ;
                    }
                    offset += len;
                    self.coll.consume(&mut elems, elem);
                },
                None => {
                    break ;
                },
            }
        }
        Some((offset, elems))
    }
}

/// Matches `elem`, then a `delim` and an `elem` as long as both match,
/// combining the values with `coll`.
pub struct DelimBy<P1, P2, Coll> {
    pub elem: P1,
    pub delim: P2,
    pub coll: Coll,
}

/// The end of a delimited list at `off`: its outcome and the parsers' states.
pub open spec fn delim_done<V, E, C, P1, P2>(
    start: nat,
    off: nat,
    ctx: C,
    acc: V,
    errs: Seq<ErrorLocation<E>>,
    elem: P1,
    delim: P2,
) -> (Outcome<V, E, C>, P1, P2) {
    (Outcome { res: Some(((off - start) as nat, acc)), errs, ctx }, elem, delim)
}

/// The rest of a delimited list that has reached `off` (having started at
/// `start`) with parser states `elem` and `delim`, context `ctx`, collected
/// `acc` and reported `errs`: its outcome, and the parsers' states at its end.
pub open spec fn delim_loop<'a, E, C, P1, P2, Coll>(
    elem: P1,
    delim: P2,
    coll: Coll,
    s: Seq<u8>,
    start: nat,
    off: nat,
    ctx: C,
    acc: <Coll::Container as DeepView>::V,
    errs: Seq<ErrorLocation<E>>,
) -> (Outcome<<Coll::Container as DeepView>::V, E, C>, P1, P2) where
    P1: Parser<'a, E, C>,
    P2: Parser<'a, E, C>,
    Coll: DelimitedCollector<P1::Output, P2::Output>,

    decreases s.len() - off,
{
    let od = delim.spec_parse(s, off, ctx);
    let delim2 = delim.spec_next(s, off, ctx);
    match od.res {
        None => delim_done(start, off, od.ctx, acc, errs + od.errs, elem, delim2),
        Some((dl, dv)) => {
            let oe = elem.spec_parse(s, off + dl, od.ctx);
            let elem2 = elem.spec_next(s, off + dl, od.ctx);
            match oe.res {
                None => delim_done(start, off, oe.ctx, acc, errs + od.errs + oe.errs, elem2, delim2),
                Some((el, ev)) => if 0 < dl + el && off + dl + el <= s.len() {
                    delim_loop(
                        elem2,
                        delim2,
                        coll,
                        s,
                        start,
                        off + dl + el,
                        oe.ctx,
                        coll.spec_consume(acc, dv, ev),
                        errs + od.errs + oe.errs,
                    )
                } else {
                    delim_done(start, off, oe.ctx, acc, errs + od.errs + oe.errs, elem2, delim2)
                },
            }
        },
    }
}

impl<'a, E, C, P1, P2, Coll> Parser<'a, E, C> for DelimBy<P1, P2, Coll> where
    P1: Parser<'a, E, C>,
    P2: Parser<'a, E, C>,
    Coll: DelimitedCollector<P1::Output, P2::Output>,
 {
    type Output = Coll::Container;
    type Kind = Coll::Kind;

    open spec fn wf(&self) -> bool {
        self.elem.wf() && self.delim.wf() && self.coll.wf()
    }

    open spec fn spec_parse(&self, s: Seq<u8>, cur: nat, ctx: C) -> Outcome<
        <Self::Output as DeepView>::V,
        E,
        C,
    > {
        let o1 = self.elem.spec_parse(s, cur, ctx);
        match o1.res {
            None => o1_fail(o1),
            Some((n1, v1)) => delim_loop(
                self.elem.spec_next(s, cur, ctx),
                self.delim,
                self.coll,
                s,
                cur,
                cur + n1,
                o1.ctx,
                self.coll.spec_from(v1),
                o1.errs,
            ).0,
        }
    }

    open spec fn spec_next(&self, s: Seq<u8>, cur: nat, ctx: C) -> Self {
        let o1 = self.elem.spec_parse(s, cur, ctx);
        match o1.res {
            None => DelimBy { elem: self.elem.spec_next(s, cur, ctx), delim: self.delim, coll: self.coll },
            Some((n1, v1)) => {
                let r = delim_loop(
                    self.elem.spec_next(s, cur, ctx),
                    self.delim,
                    self.coll,
                    s,
                    cur,
                    cur + n1,
                    o1.ctx,
                    self.coll.spec_from(v1),
                    o1.errs,
                );
                DelimBy { elem: r.1, delim: r.2, coll: self.coll }
            },
        }
    }

    fn parse<H: ErrorHandler<E>>(&mut self, input: Input<'a>, errs: &mut H, ctx: &mut C) -> (r:
        ParserResult<Self::Output>) {
        let ghost (s, c0, h0) = (input.bytes(), *ctx, *errs);
        let ghost start = input.cur as nat;
        let ghost o1 = self.elem.spec_parse(s, start, c0);
        let ghost coll0 = self.coll;
        let (mut offset, first) = self.elem.parse(input, errs, ctx)?;
        let mut container = self.coll.from(first);
        let ghost target = delim_loop(
            self.elem,
            self.delim,
            self.coll,
            s,
            start,
            (input.cur + offset) as nat,
            *ctx,
            container.deep_view(),
            o1.errs,
        );
        let ghost mut acc_errs = o1.errs;
        loop
            invariant_except_break
                delim_loop(
                    self.elem,
                    self.delim,
                    coll0,
                    s,
                    start,
                    (input.cur + offset) as nat,
                    *ctx,
                    container.deep_view(),
                    acc_errs,
                ) == target,
            invariant
                input.wf(),
                s == input.bytes(),
                start == input.cur,
                input.cur + offset <= s.len(),
                is_char_boundary(s, input.cur + offset),
                self.elem.wf(),
                self.delim.wf(),
                self.coll.wf(),
                self.coll == coll0,
                *errs == report_all(h0, acc_errs),
            ensures
                target.0 == (Outcome {
                    res: Some((offset as nat, container.deep_view())),
                    errs: acc_errs,
                    ctx: *ctx,
                }),
                target.1 == self.elem,
                target.2 == self.delim,
            decreases s.len() - (input.cur + offset),
        {
            let ghost off = (input.cur + offset) as nat;
            let ghost od = self.delim.spec_parse(s, off, *ctx);
            let res = self.delim.parse(input.skip(offset), errs, ctx);
            proof {
                lemma_report_all_concat(h0, acc_errs, od.errs);
                acc_errs = acc_errs + od.errs;
            }
            match res {
                Some((delim_len, delim)) => {
                    let ghost oe = self.elem.spec_parse(s, (off + delim_len) as nat, *ctx);
                    let res = self.elem.parse(input.skip(offset + delim_len), errs, ctx);
                    proof {
                        lemma_report_all_concat(h0, acc_errs, oe.errs);
                        acc_errs = acc_errs + oe.errs;
                    }
                    match res {
                        Some((elem_len, next)) => {
                            if delim_len + elem_len == 0 {
                                break ;
                            }
                            offset += delim_len + elem_len;
                            container = self.coll.consume(container, delim, next);
                        },
                        None => break ,
                    }
                },
                None => break ,
            }
        }
        Some((offset, container))
    }
}

} // verus!
