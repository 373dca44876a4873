//! Tuples of parsers: `(a, b, c)` matches `a`, then `b`, then `c`, as
//! `a.then(b.then(c))` does, with up to ten parsers.
use vstd::prelude::*;
use vstd::utf8::*;

use crate::combinators::Then;
use crate::error::{lemma_report_all_concat, report_all, ErrorHandler};
use crate::output::{Chain, ChainImpl, ChainKind};
use crate::parser_trait::{Outcome, Parser};
use crate::{Input, ParserResult};

verus! {

/// Runs the parsers `q0` to `q1` in turn, as `q0.then(q1.then(...))` does.
fn parse_chain2<'a, E, C, H: ErrorHandler<E>, Q0, Q1>(
    q0: &mut Q0,
    q1: &mut Q1,
    input: Input<'a>,
    errs: &mut H,
    ctx: &mut C,
) -> (r: ParserResult<<ChainImpl<Q0::Kind, Q1::Kind> as Chain<Q0::Output, Q1::Output>>::Output>) where
    Q0: Parser<'a, E, C>,
    Q1: Parser<'a, E, C>,
    ChainImpl<Q0::Kind, Q1::Kind>: Chain<Q0::Output, Q1::Output>,

    requires
        old(q0).wf(),
        old(q1).wf(),
        input.wf(),
    ensures
        ({
            let t = Then { l: *old(q0), r: *old(q1) };
            let o = t.spec_parse(input.bytes(), input.cur as nat, *old(ctx));
            &&& match r {
                Some((n, v)) => {
                    &&& o.res == Some((n as nat, v.deep_view()))
                    &&& input.cur + n <= input.bytes().len()
                    &&& is_char_boundary(input.bytes(), input.cur + n)
                },
                None => o.res is None,
            }
            &&& *final(ctx) == o.ctx
            &&& *final(errs) == report_all(*old(errs), o.errs)
            &&& Then { l: *final(q0), r: *final(q1) } == t.spec_next(input.bytes(), input.cur as nat, *old(ctx))
        }),
        final(q0).wf(),
        final(q1).wf(),
{
    let ghost (s, c0, h0) = (input.bytes(), *ctx, *errs);
    let ghost o0 = q0.spec_parse(s, input.cur as nat, c0);
    let (n0, v0) = q0.parse(input, errs, ctx)?;
    let ghost rest = *q1;
    let ghost o1 = rest.spec_parse(s, (input.cur + n0) as nat, o0.ctx);
    let res = q1.parse(input.skip(n0), errs, ctx);
    proof {
        lemma_report_all_concat(h0, o0.errs, o1.errs);
    }
    let (n1, v1) = res?;
    let v = ChainImpl::<Q0::Kind, Q1::Kind>::chain(v0, v1);
    Some((n0 + n1, v))
}

/// Runs the parsers `q0` to `q2` in turn, as `q0.then(q1.then(...))` does.
fn parse_chain3<'a, E, C, H: ErrorHandler<E>, Q0, Q1, Q2>(
    q0: &mut Q0,
    q1: &mut Q1,
    q2: &mut Q2,
    input: Input<'a>,
    errs: &mut H,
    ctx: &mut C,
) -> (r: ParserResult<<ChainImpl<Q0::Kind, <ChainImpl<Q1::Kind, Q2::Kind> as ChainKind>::NextKind> as Chain<Q0::Output, <ChainImpl<Q1::Kind, Q2::Kind> as Chain<Q1::Output, Q2::Output>>::Output>>::Output>) where
    Q0: Parser<'a, E, C>,
    Q1: Parser<'a, E, C>,
    Q2: Parser<'a, E, C>,
    ChainImpl<Q0::Kind, <ChainImpl<Q1::Kind, Q2::Kind> as ChainKind>::NextKind>: Chain<Q0::Output, <ChainImpl<Q1::Kind, Q2::Kind> as Chain<Q1::Output, Q2::Output>>::Output>,
    ChainImpl<Q1::Kind, Q2::Kind>: Chain<Q1::Output, Q2::Output>,

    requires
        old(q0).wf(),
        old(q1).wf(),
        old(q2).wf(),
        input.wf(),
    ensures
        ({
            let t = Then { l: *old(q0), r: Then { l: *old(q1), r: *old(q2) } };
            let o = t.spec_parse(input.bytes(), input.cur as nat, *old(ctx));
            &&& match r {
                Some((n, v)) => {
                    &&& o.res == Some((n as nat, v.deep_view()))
                    &&& input.cur + n <= input.bytes().len()
                    &&& is_char_boundary(input.bytes(), input.cur + n)
                },
                None => o.res is None,
            }
            &&& *final(ctx) == o.ctx
            &&& *final(errs) == report_all(*old(errs), o.errs)
            &&& Then { l: *final(q0), r: Then { l: *final(q1), r: *final(q2) } } == t.spec_next(input.bytes(), input.cur as nat, *old(ctx))
        }),
        final(q0).wf(),
        final(q1).wf(),
        final(q2).wf(),
{
    let ghost (s, c0, h0) = (input.bytes(), *ctx, *errs);
    let ghost o0 = q0.spec_parse(s, input.cur as nat, c0);
    let (n0, v0) = q0.parse(input, errs, ctx)?;
    let ghost rest = Then { l: *q1, r: *q2 };
    let ghost o1 = rest.spec_parse(s, (input.cur + n0) as nat, o0.ctx);
    let res = parse_chain2(q1, q2, input.skip(n0), errs, ctx);
    proof {
        lemma_report_all_concat(h0, o0.errs, o1.errs);
    }
    let (n1, v1) = res?;
    let v = ChainImpl::<Q0::Kind, <ChainImpl<Q1::Kind, Q2::Kind> as ChainKind>::NextKind>::chain(v0, v1);
    Some((n0 + n1, v))
}

/// Runs the parsers `q0` to `q3` in turn, as `q0.then(q1.then(...))` does.
fn parse_chain4<'a, E, C, H: ErrorHandler<E>, Q0, Q1, Q2, Q3>(
    q0: &mut Q0,
    q1: &mut Q1,
    q2: &mut Q2,
    q3: &mut Q3,
    input: Input<'a>,
    errs: &mut H,
    ctx: &mut C,
) -> (r: ParserResult<<ChainImpl<Q0::Kind, <ChainImpl<Q1::Kind, <ChainImpl<Q2::Kind, Q3::Kind> as ChainKind>::NextKind> as ChainKind>::NextKind> as Chain<Q0::Output, <ChainImpl<Q1::Kind, <ChainImpl<Q2::Kind, Q3::Kind> as ChainKind>::NextKind> as Chain<Q1::Output, <ChainImpl<Q2::Kind, Q3::Kind> as Chain<Q2::Output, Q3::Output>>::Output>>::Output>>::Output>) where
    Q0: Parser<'a, E, C>,
    Q1: Parser<'a, E, C>,
    Q2: Parser<'a, E, C>,
    Q3: Parser<'a, E, C>,
    ChainImpl<Q0::Kind, <ChainImpl<Q1::Kind, <ChainImpl<Q2::Kind, Q3::Kind> as ChainKind>::NextKind> as ChainKind>::NextKind>: Chain<Q0::Output, <ChainImpl<Q1::Kind, <ChainImpl<Q2::Kind, Q3::Kind> as ChainKind>::NextKind> as Chain<Q1::Output, <ChainImpl<Q2::Kind, Q3::Kind> as Chain<Q2::Output, Q3::Output>>::Output>>::Output>,
    ChainImpl<Q1::Kind, <ChainImpl<Q2::Kind, Q3::Kind> as ChainKind>::NextKind>: Chain<Q1::Output, <ChainImpl<Q2::Kind, Q3::Kind> as Chain<Q2::Output, Q3::Output>>::Output>,
    ChainImpl<Q2::Kind, Q3::Kind>: Chain<Q2::Output, Q3::Output>,

    requires
        old(q0).wf(),
        old(q1).wf(),
        old(q2).wf(),
        old(q3).wf(),
        input.wf(),
    ensures
        ({
            let t = Then { l: *old(q0), r: Then { l: *old(q1), r: Then { l: *old(q2), r: *old(q3) } } };
            let o = t.spec_parse(input.bytes(), input.cur as nat, *old(ctx));
            &&& match r {
                Some((n, v)) => {
                    &&& o.res == Some((n as nat, v.deep_view()))
                    &&& input.cur + n <= input.bytes().len()
                    &&& is_char_boundary(input.bytes(), input.cur + n)
                },
                None => o.res is None,
            }
            &&& *final(ctx) == o.ctx
            &&& *final(errs) == report_all(*old(errs), o.errs)
            &&& Then { l: *final(q0), r: Then { l: *final(q1), r: Then { l: *final(q2), r: *final(q3) } } } == t.spec_next(input.bytes(), input.cur as nat, *old(ctx))
        }),
        final(q0).wf(),
        final(q1).wf(),
        final(q2).wf(),
        final(q3).wf(),
{
    let ghost (s, c0, h0) = (input.bytes(), *ctx, *errs);
    let ghost o0 = q0.spec_parse(s, input.cur as nat, c0);
    let (n0, v0) = q0.parse(input, errs, ctx)?;
    let ghost rest = Then { l: *q1, r: Then { l: *q2, r: *q3 } };
    let ghost o1 = rest.spec_parse(s, (input.cur + n0) as nat, o0.ctx);
    let res = parse_chain3(q1, q2, q3, input.skip(n0), errs, ctx);
    proof {
        lemma_report_all_concat(h0, o0.errs, o1.errs);
    }
    let (n1, v1) = res?;
    let v = ChainImpl::<Q0::Kind, <ChainImpl<Q1::Kind, <ChainImpl<Q2::Kind, Q3::Kind> as ChainKind>::NextKind> as ChainKind>::NextKind>::chain(v0, v1);
    Some((n0 + n1, v))
}

/// Runs the parsers `q0` to `q4` in turn, as `q0.then(q1.then(...))` does.
fn parse_chain5<'a, E, C, H: ErrorHandler<E>, Q0, Q1, Q2, Q3, Q4>(
    q0: &mut Q0,
    q1: &mut Q1,
    q2: &mut Q2,
    q3: &mut Q3,
    q4: &mut Q4,
    input: Input<'a>,
    errs: &mut H,
    ctx: &mut C,
) -> (r: ParserResult<<ChainImpl<Q0::Kind, <ChainImpl<Q1::Kind, <ChainImpl<Q2::Kind, <ChainImpl<Q3::Kind, Q4::Kind> as ChainKind>::NextKind> as ChainKind>::NextKind> as ChainKind>::NextKind> as Chain<Q0::Output, <ChainImpl<Q1::Kind, <ChainImpl<Q2::Kind, <ChainImpl<Q3::Kind, Q4::Kind> as ChainKind>::NextKind> as ChainKind>::NextKind> as Chain<Q1::Output, <ChainImpl<Q2::Kind, <ChainImpl<Q3::Kind, Q4::Kind> as ChainKind>::NextKind> as Chain<Q2::Output, <ChainImpl<Q3::Kind, Q4::Kind> as Chain<Q3::Output, Q4::Output>>::Output>>::Output>>::Output>>::Output>) where
    Q0: Parser<'a, E, C>,
    Q1: Parser<'a, E, C>,
    Q2: Parser<'a, E, C>,
    Q3: Parser<'a, E, C>,
    Q4: Parser<'a, E, C>,
    ChainImpl<Q0::Kind, <ChainImpl<Q1::Kind, <ChainImpl<Q2::Kind, <ChainImpl<Q3::Kind, Q4::Kind> as ChainKind>::NextKind> as ChainKind>::NextKind> as ChainKind>::NextKind>: Chain<Q0::Output, <ChainImpl<Q1::Kind, <ChainImpl<Q2::Kind, <ChainImpl<Q3::Kind, Q4::Kind> as ChainKind>::NextKind> as ChainKind>::NextKind> as Chain<Q1::Output, <ChainImpl<Q2::Kind, <ChainImpl<Q3::Kind, Q4::Kind> as ChainKind>::NextKind> as Chain<Q2::Output, <ChainImpl<Q3::Kind, Q4::Kind> as Chain<Q3::Output, Q4::Output>>::Output>>::Output>>::Output>,
    ChainImpl<Q1::Kind, <ChainImpl<Q2::Kind, <ChainImpl<Q3::Kind, Q4::Kind> as ChainKind>::NextKind> as ChainKind>::NextKind>: Chain<Q1::Output, <ChainImpl<Q2::Kind, <ChainImpl<Q3::Kind, Q4::Kind> as ChainKind>::NextKind> as Chain<Q2::Output, <ChainImpl<Q3::Kind, Q4::Kind> as Chain<Q3::Output, Q4::Output>>::Output>>::Output>,
    ChainImpl<Q2::Kind, <ChainImpl<Q3::Kind, Q4::Kind> as ChainKind>::NextKind>: Chain<Q2::Output, <ChainImpl<Q3::Kind, Q4::Kind> as Chain<Q3::Output, Q4::Output>>::Output>,
    ChainImpl<Q3::Kind, Q4::Kind>: Chain<Q3::Output, Q4::Output>,

    requires
        old(q0).wf(),
        old(q1).wf(),
        old(q2).wf(),
        old(q3).wf(),
        old(q4).wf(),
        input.wf(),
    ensures
        ({
            let t = Then { l: *old(q0), r: Then { l: *old(q1), r: Then { l: *old(q2), r: Then { l: *old(q3), r: *old(q4) } } } };
            let o = t.spec_parse(input.bytes(), input.cur as nat, *old(ctx));
            &&& match r {
                Some((n, v)) => {
                    &&& o.res == Some((n as nat, v.deep_view()))
                    &&& input.cur + n <= input.bytes().len()
                    &&& is_char_boundary(input.bytes(), input.cur + n)
                },
                None => o.res is None,
            }
            &&& *final(ctx) == o.ctx
            &&& *final(errs) == report_all(*old(errs), o.errs)
            &&& Then { l: *final(q0), r: Then { l: *final(q1), r: Then { l: *final(q2), r: Then { l: *final(q3), r: *final(q4) } } } } == t.spec_next(input.bytes(), input.cur as nat, *old(ctx))
        }),
        final(q0).wf(),
        final(q1).wf(),
        final(q2).wf(),
        final(q3).wf(),
        final(q4).wf(),
{
    let ghost (s, c0, h0) = (input.bytes(), *ctx, *errs);
    let ghost o0 = q0.spec_parse(s, input.cur as nat, c0);
    let (n0, v0) = q0.parse(input, errs, ctx)?;
    let ghost rest = Then { l: *q1, r: Then { l: *q2, r: Then { l: *q3, r: *q4 } } };
    let ghost o1 = rest.spec_parse(s, (input.cur + n0) as nat, o0.ctx);
    let res = parse_chain4(q1, q2, q3, q4, input.skip(n0), errs, ctx);
    proof {
        lemma_report_all_concat(h0, o0.errs, o1.errs);
    }
    let (n1, v1) = res?;
    let v = ChainImpl::<Q0::Kind, <ChainImpl<Q1::Kind, <ChainImpl<Q2::Kind, <ChainImpl<Q3::Kind, Q4::Kind> as ChainKind>::NextKind> as ChainKind>::NextKind> as ChainKind>::NextKind>::chain(v0, v1);
    Some((n0 + n1, v))
}

/// Runs the parsers `q0` to `q5` in turn, as `q0.then(q1.then(...))` does.
fn parse_chain6<'a, E, C, H: ErrorHandler<E>, Q0, Q1, Q2, Q3, Q4, Q5>(
    q0: &mut Q0,
    q1: &mut Q1,
    q2: &mut Q2,
    q3: &mut Q3,
    q4: &mut Q4,
    q5: &mut Q5,
    input: Input<'a>,
    errs: &mut H,
    ctx: &mut C,
) -> (r: ParserResult<<ChainImpl<Q0::Kind, <ChainImpl<Q1::Kind, <ChainImpl<Q2::Kind, <ChainImpl<Q3::Kind, <ChainImpl<Q4::Kind, Q5::Kind> as ChainKind>::NextKind> as ChainKind>::NextKind> as ChainKind>::NextKind> as ChainKind>::NextKind> as Chain<Q0::Output, <ChainImpl<Q1::Kind, <ChainImpl<Q2::Kind, <ChainImpl<Q3::Kind, <ChainImpl<Q4::Kind, Q5::Kind> as ChainKind>::NextKind> as ChainKind>::NextKind> as ChainKind>::NextKind> as Chain<Q1::Output, <ChainImpl<Q2::Kind, <ChainImpl<Q3::Kind, <ChainImpl<Q4::Kind, Q5::Kind> as ChainKind>::NextKind> as ChainKind>::NextKind> as Chain<Q2::Output, <ChainImpl<Q3::Kind, <ChainImpl<Q4::Kind, Q5::Kind> as ChainKind>::NextKind> as Chain<Q3::Output, <ChainImpl<Q4::Kind, Q5::Kind> as Chain<Q4::Output, Q5::Output>>::Output>>::Output>>::Output>>::Output>>::Output>) where
    Q0: Parser<'a, E, C>,
    Q1: Parser<'a, E, C>,
    Q2: Parser<'a, E, C>,
    Q3: Parser<'a, E, C>,
    Q4: Parser<'a, E, C>,
    Q5: Parser<'a, E, C>,
    ChainImpl<Q0::Kind, <ChainImpl<Q1::Kind, <ChainImpl<Q2::Kind, <ChainImpl<Q3::Kind, <ChainImpl<Q4::Kind, Q5::Kind> as ChainKind>::NextKind> as ChainKind>::NextKind> as ChainKind>::NextKind> as ChainKind>::NextKind>: Chain<Q0::Output, <ChainImpl<Q1::Kind, <ChainImpl<Q2::Kind, <ChainImpl<Q3::Kind, <ChainImpl<Q4::Kind, Q5::Kind> as ChainKind>::NextKind> as ChainKind>::NextKind> as ChainKind>::NextKind> as Chain<Q1::Output, <ChainImpl<Q2::Kind, <ChainImpl<Q3::Kind, <ChainImpl<Q4::Kind, Q5::Kind> as ChainKind>::NextKind> as ChainKind>::NextKind> as Chain<Q2::Output, <ChainImpl<Q3::Kind, <ChainImpl<Q4::Kind, Q5::Kind> as ChainKind>::NextKind> as Chain<Q3::Output, <ChainImpl<Q4::Kind, Q5::Kind> as Chain<Q4::Output, Q5::Output>>::Output>>::Output>>::Output>>::Output>,
    ChainImpl<Q1::Kind, <ChainImpl<Q2::Kind, <ChainImpl<Q3::Kind, <ChainImpl<Q4::Kind, Q5::Kind> as ChainKind>::NextKind> as ChainKind>::NextKind> as ChainKind>::NextKind>: Chain<Q1::Output, <ChainImpl<Q2::Kind, <ChainImpl<Q3::Kind, <ChainImpl<Q4::Kind, Q5::Kind> as ChainKind>::NextKind> as ChainKind>::NextKind> as Chain<Q2::Output, <ChainImpl<Q3::Kind, <ChainImpl<Q4::Kind, Q5::Kind> as ChainKind>::NextKind> as Chain<Q3::Output, <ChainImpl<Q4::Kind, Q5::Kind> as Chain<Q4::Output, Q5::Output>>::Output>>::Output>>::Output>,
    ChainImpl<Q2::Kind, <ChainImpl<Q3::Kind, <ChainImpl<Q4::Kind, Q5::Kind> as ChainKind>::NextKind> as ChainKind>::NextKind>: Chain<Q2::Output, <ChainImpl<Q3::Kind, <ChainImpl<Q4::Kind, Q5::Kind> as ChainKind>::NextKind> as Chain<Q3::Output, <ChainImpl<Q4::Kind, Q5::Kind> as Chain<Q4::Output, Q5::Output>>::Output>>::Output>,
    ChainImpl<Q3::Kind, <ChainImpl<Q4::Kind, Q5::Kind> as ChainKind>::NextKind>: Chain<Q3::Output, <ChainImpl<Q4::Kind, Q5::Kind> as Chain<Q4::Output, Q5::Output>>::Output>,
    ChainImpl<Q4::Kind, Q5::Kind>: Chain<Q4::Output, Q5::Output>,

    requires
        old(q0).wf(),
        old(q1).wf(),
        old(q2).wf(),
        old(q3).wf(),
        old(q4).wf(),
        old(q5).wf(),
        input.wf(),
    ensures
        ({
            let t = Then { l: *old(q0), r: Then { l: *old(q1), r: Then { l: *old(q2), r: Then { l: *old(q3), r: Then { l: *old(q4), r: *old(q5) } } } } };
            let o = t.spec_parse(input.bytes(), input.cur as nat, *old(ctx));
            &&& match r {
                Some((n, v)) => {
                    &&& o.res == Some((n as nat, v.deep_view()))
                    &&& input.cur + n <= input.bytes().len()
                    &&& is_char_boundary(input.bytes(), input.cur + n)
                },
                None => o.res is None,
            }
            &&& *final(ctx) == o.ctx
            &&& *final(errs) == report_all(*old(errs), o.errs)
            &&& Then { l: *final(q0), r: Then { l: *final(q1), r: Then { l: *final(q2), r: Then { l: *final(q3), r: Then { l: *final(q4), r: *final(q5) } } } } } == t.spec_next(input.bytes(), input.cur as nat, *old(ctx))
        }),
        final(q0).wf(),
        final(q1).wf(),
        final(q2).wf(),
        final(q3).wf(),
        final(q4).wf(),
        final(q5).wf(),
{
    let ghost (s, c0, h0) = (input.bytes(), *ctx, *errs);
    let ghost o0 = q0.spec_parse(s, input.cur as nat, c0);
    let (n0, v0) = q0.parse(input, errs, ctx)?;
    let ghost rest = Then { l: *q1, r: Then { l: *q2, r: Then { l: *q3, r: Then { l: *q4, r: *q5 } } } };
    let ghost o1 = rest.spec_parse(s, (input.cur + n0) as nat, o0.ctx);
    let res = parse_chain5(q1, q2, q3, q4, q5, input.skip(n0), errs, ctx);
    proof {
        lemma_report_all_concat(h0, o0.errs, o1.errs);
    }
    let (n1, v1) = res?;
    let v = ChainImpl::<Q0::Kind, <ChainImpl<Q1::Kind, <ChainImpl<Q2::Kind, <ChainImpl<Q3::Kind, <ChainImpl<Q4::Kind, Q5::Kind> as ChainKind>::NextKind> as ChainKind>::NextKind> as ChainKind>::NextKind> as ChainKind>::NextKind>::chain(v0, v1);
    Some((n0 + n1, v))
}

/// Runs the parsers `q0` to `q6` in turn, as `q0.then(q1.then(...))` does.
fn parse_chain7<'a, E, C, H: ErrorHandler<E>, Q0, Q1, Q2, Q3, Q4, Q5, Q6>(
    q0: &mut Q0,
    q1: &mut Q1,
    q2: &mut Q2,
    q3: &mut Q3,
    q4: &mut Q4,
    q5: &mut Q5,
    q6: &mut Q6,
    input: Input<'a>,
    errs: &mut H,
    ctx: &mut C,
) -> (r: ParserResult<<ChainImpl<Q0::Kind, <ChainImpl<Q1::Kind, <ChainImpl<Q2::Kind, <ChainImpl<Q3::Kind, <ChainImpl<Q4::Kind, <ChainImpl<Q5::Kind, Q6::Kind> as ChainKind>::NextKind> as ChainKind>::NextKind> as ChainKind>::NextKind> as ChainKind>::NextKind> as ChainKind>::NextKind> as Chain<Q0::Output, <ChainImpl<Q1::Kind, <ChainImpl<Q2::Kind, <ChainImpl<Q3::Kind, <ChainImpl<Q4::Kind, <ChainImpl<Q5::Kind, Q6::Kind> as ChainKind>::NextKind> as ChainKind>::NextKind> as ChainKind>::NextKind> as ChainKind>::NextKind> as Chain<Q1::Output, <ChainImpl<Q2::Kind, <ChainImpl<Q3::Kind, <ChainImpl<Q4::Kind, <ChainImpl<Q5::Kind, Q6::Kind> as ChainKind>::NextKind> as ChainKind>::NextKind> as ChainKind>::NextKind> as Chain<Q2::Output, <ChainImpl<Q3::Kind, <ChainImpl<Q4::Kind, <ChainImpl<Q5::Kind, Q6::Kind> as ChainKind>::NextKind> as ChainKind>::NextKind> as Chain<Q3::Output, <ChainImpl<Q4::Kind, <ChainImpl<Q5::Kind, Q6::Kind> as ChainKind>::NextKind> as Chain<Q4::Output, <ChainImpl<Q5::Kind, Q6::Kind> as Chain<Q5::Output, Q6::Output>>::Output>>::Output>>::Output>>::Output>>::Output>>::Output>) where
    Q0: Parser<'a, E, C>,
    Q1: Parser<'a, E, C>,
    Q2: Parser<'a, E, C>,
    Q3: Parser<'a, E, C>,
    Q4: Parser<'a, E, C>,
    Q5: Parser<'a, E, C>,
    Q6: Parser<'a, E, C>,
    ChainImpl<Q0::Kind, <ChainImpl<Q1::Kind, <ChainImpl<Q2::Kind, <ChainImpl<Q3::Kind, <ChainImpl<Q4::Kind, <ChainImpl<Q5::Kind, Q6::Kind> as ChainKind>::NextKind> as ChainKind>::NextKind> as ChainKind>::NextKind> as ChainKind>::NextKind> as ChainKind>::NextKind>: Chain<Q0::Output, <ChainImpl<Q1::Kind, <ChainImpl<Q2::Kind, <ChainImpl<Q3::Kind, <ChainImpl<Q4::Kind, <ChainImpl<Q5::Kind, Q6::Kind> as ChainKind>::NextKind> as ChainKind>::NextKind> as ChainKind>::NextKind> as ChainKind>::NextKind> as Chain<Q1::Output, <ChainImpl<Q2::Kind, <ChainImpl<Q3::Kind, <ChainImpl<Q4::Kind, <ChainImpl<Q5::Kind, Q6::Kind> as ChainKind>::NextKind> as ChainKind>::NextKind> as ChainKind>::NextKind> as Chain<Q2::Output, <ChainImpl<Q3::Kind, <ChainImpl<Q4::Kind, <ChainImpl<Q5::Kind, Q6::Kind> as ChainKind>::NextKind> as ChainKind>::NextKind> as Chain<Q3::Output, <ChainImpl<Q4::Kind, <ChainImpl<Q5::Kind, Q6::Kind> as ChainKind>::NextKind> as Chain<Q4::Output, <ChainImpl<Q5::Kind, Q6::Kind> as Chain<Q5::Output, Q6::Output>>::Output>>::Output>>::Output>>::Output>>::Output>,
    ChainImpl<Q1::Kind, <ChainImpl<Q2::Kind, <ChainImpl<Q3::Kind, <ChainImpl<Q4::Kind, <ChainImpl<Q5::Kind, Q6::Kind> as ChainKind>::NextKind> as ChainKind>::NextKind> as ChainKind>::NextKind> as ChainKind>::NextKind>: Chain<Q1::Output, <ChainImpl<Q2::Kind, <ChainImpl<Q3::Kind, <ChainImpl<Q4::Kind, <ChainImpl<Q5::Kind, Q6::Kind> as ChainKind>::NextKind> as ChainKind>::NextKind> as ChainKind>::NextKind> as Chain<Q2::Output, <ChainImpl<Q3::Kind, <ChainImpl<Q4::Kind, <ChainImpl<Q5::Kind, Q6::Kind> as ChainKind>::NextKind> as ChainKind>::NextKind> as Chain<Q3::Output, <ChainImpl<Q4::Kind, <ChainImpl<Q5::Kind, Q6::Kind> as ChainKind>::NextKind> as Chain<Q4::Output, <ChainImpl<Q5::Kind, Q6::Kind> as Chain<Q5::Output, Q6::Output>>::Output>>::Output>>::Output>>::Output>,
    ChainImpl<Q2::Kind, <ChainImpl<Q3::Kind, <ChainImpl<Q4::Kind, <ChainImpl<Q5::Kind, Q6::Kind> as ChainKind>::NextKind> as ChainKind>::NextKind> as ChainKind>::NextKind>: Chain<Q2::Output, <ChainImpl<Q3::Kind, <ChainImpl<Q4::Kind, <ChainImpl<Q5::Kind, Q6::Kind> as ChainKind>::NextKind> as ChainKind>::NextKind> as Chain<Q3::Output, <ChainImpl<Q4::Kind, <ChainImpl<Q5::Kind, Q6::Kind> as ChainKind>::NextKind> as Chain<Q4::Output, <ChainImpl<Q5::Kind, Q6::Kind> as Chain<Q5::Output, Q6::Output>>::Output>>::Output>>::Output>,
    ChainImpl<Q3::Kind, <ChainImpl<Q4::Kind, <ChainImpl<Q5::Kind, Q6::Kind> as ChainKind>::NextKind> as ChainKind>::NextKind>: Chain<Q3::Output, <ChainImpl<Q4::Kind, <ChainImpl<Q5::Kind, Q6::Kind> as ChainKind>::NextKind> as Chain<Q4::Output, <ChainImpl<Q5::Kind, Q6::Kind> as Chain<Q5::Output, Q6::Output>>::Output>>::Output>,
    ChainImpl<Q4::Kind, <ChainImpl<Q5::Kind, Q6::Kind> as ChainKind>::NextKind>: Chain<Q4::Output, <ChainImpl<Q5::Kind, Q6::Kind> as Chain<Q5::Output, Q6::Output>>::Output>,
    ChainImpl<Q5::Kind, Q6::Kind>: Chain<Q5::Output, Q6::Output>,

    requires
        old(q0).wf(),
        old(q1).wf(),
        old(q2).wf(),
        old(q3).wf(),
        old(q4).wf(),
        old(q5).wf(),
        old(q6).wf(),
        input.wf(),
    ensures
        ({
            let t = Then { l: *old(q0), r: Then { l: *old(q1), r: Then { l: *old(q2), r: Then { l: *old(q3), r: Then { l: *old(q4), r: Then { l: *old(q5), r: *old(q6) } } } } } };
            let o = t.spec_parse(input.bytes(), input.cur as nat, *old(ctx));
            &&& match r {
                Some((n, v)) => {
                    &&& o.res == Some((n as nat, v.deep_view()))
                    &&& input.cur + n <= input.bytes().len()
                    &&& is_char_boundary(input.bytes(), input.cur + n)
                },
                None => o.res is None,
            }
            &&& *final(ctx) == o.ctx
            &&& *final(errs) == report_all(*old(errs), o.errs)
            &&& Then { l: *final(q0), r: Then { l: *final(q1), r: Then { l: *final(q2), r: Then { l: *final(q3), r: Then { l: *final(q4), r: Then { l: *final(q5), r: *final(q6) } } } } } } == t.spec_next(input.bytes(), input.cur as nat, *old(ctx))
        }),
        final(q0).wf(),
        final(q1).wf(),
        final(q2).wf(),
        final(q3).wf(),
        final(q4).wf(),
        final(q5).wf(),
        final(q6).wf(),
{
    let ghost (s, c0, h0) = (input.bytes(), *ctx, *errs);
    let ghost o0 = q0.spec_parse(s, input.cur as nat, c0);
    let (n0, v0) = q0.parse(input, errs, ctx)?;
    let ghost rest = Then { l: *q1, r: Then { l: *q2, r: Then { l: *q3, r: Then { l: *q4, r: Then { l: *q5, r: *q6 } } } } };
    let ghost o1 = rest.spec_parse(s, (input.cur + n0) as nat, o0.ctx);
    let res = parse_chain6(q1, q2, q3, q4, q5, q6, input.skip(n0), errs, ctx);
    proof {
        lemma_report_all_concat(h0, o0.errs, o1.errs);
    }
    let (n1, v1) = res?;
    let v = ChainImpl::<Q0::Kind, <ChainImpl<Q1::Kind, <ChainImpl<Q2::Kind, <ChainImpl<Q3::Kind, <ChainImpl<Q4::Kind, <ChainImpl<Q5::Kind, Q6::Kind> as ChainKind>::NextKind> as ChainKind>::NextKind> as ChainKind>::NextKind> as ChainKind>::NextKind> as ChainKind>::NextKind>::chain(v0, v1);
    Some((n0 + n1, v))
}

/// Runs the parsers `q0` to `q7` in turn, as `q0.then(q1.then(...))` does.
fn parse_chain8<'a, E, C, H: ErrorHandler<E>, Q0, Q1, Q2, Q3, Q4, Q5, Q6, Q7>(
    q0: &mut Q0,
    q1: &mut Q1,
    q2: &mut Q2,
    q3: &mut Q3,
    q4: &mut Q4,
    q5: &mut Q5,
    q6: &mut Q6,
    q7: &mut Q7,
    input: Input<'a>,
    errs: &mut H,
    ctx: &mut C,
) -> (r: ParserResult<<ChainImpl<Q0::Kind, <ChainImpl<Q1::Kind, <ChainImpl<Q2::Kind, <ChainImpl<Q3::Kind, <ChainImpl<Q4::Kind, <ChainImpl<Q5::Kind, <ChainImpl<Q6::Kind, Q7::Kind> as ChainKind>::NextKind> as ChainKind>::NextKind> as ChainKind>::NextKind> as ChainKind>::NextKind> as ChainKind>::NextKind> as ChainKind>::NextKind> as Chain<Q0::Output, <ChainImpl<Q1::Kind, <ChainImpl<Q2::Kind, <ChainImpl<Q3::Kind, <ChainImpl<Q4::Kind, <ChainImpl<Q5::Kind, <ChainImpl<Q6::Kind, Q7::Kind> as ChainKind>::NextKind> as ChainKind>::NextKind> as ChainKind>::NextKind> as ChainKind>::NextKind> as ChainKind>::NextKind> as Chain<Q1::Output, <ChainImpl<Q2::Kind, <ChainImpl<Q3::Kind, <ChainImpl<Q4::Kind, <ChainImpl<Q5::Kind, <ChainImpl<Q6::Kind, Q7::Kind> as ChainKind>::NextKind> as ChainKind>::NextKind> as ChainKind>::NextKind> as ChainKind>::NextKind> as Chain<Q2::Output, <ChainImpl<Q3::Kind, <ChainImpl<Q4::Kind, <ChainImpl<Q5::Kind, <ChainImpl<Q6::Kind, Q7::Kind> as ChainKind>::NextKind> as ChainKind>::NextKind> as ChainKind>::NextKind> as Chain<Q3::Output, <ChainImpl<Q4::Kind, <ChainImpl<Q5::Kind, <ChainImpl<Q6::Kind, Q7::Kind> as ChainKind>::NextKind> as ChainKind>::NextKind> as Chain<Q4::Output, <ChainImpl<Q5::Kind, <ChainImpl<Q6::Kind, Q7::Kind> as ChainKind>::NextKind> as Chain<Q5::Output, <ChainImpl<Q6::Kind, Q7::Kind> as Chain<Q6::Output, Q7::Output>>::Output>>::Output>>::Output>>::Output>>::Output>>::Output>>::Output>) where
    Q0: Parser<'a, E, C>,
    Q1: Parser<'a, E, C>,
    Q2: Parser<'a, E, C>,
    Q3: Parser<'a, E, C>,
    Q4: Parser<'a, E, C>,
    Q5: Parser<'a, E, C>,
    Q6: Parser<'a, E, C>,
    Q7: Parser<'a, E, C>,
    ChainImpl<Q0::Kind, <ChainImpl<Q1::Kind, <ChainImpl<Q2::Kind, <ChainImpl<Q3::Kind, <ChainImpl<Q4::Kind, <ChainImpl<Q5::Kind, <ChainImpl<Q6::Kind, Q7::Kind> as ChainKind>::NextKind> as ChainKind>::NextKind> as ChainKind>::NextKind> as ChainKind>::NextKind> as ChainKind>::NextKind> as ChainKind>::NextKind>: Chain<Q0::Output, <ChainImpl<Q1::Kind, <ChainImpl<Q2::Kind, <ChainImpl<Q3::Kind, <ChainImpl<Q4::Kind, <ChainImpl<Q5::Kind, <ChainImpl<Q6::Kind, Q7::Kind> as ChainKind>::NextKind> as ChainKind>::NextKind> as ChainKind>::NextKind> as ChainKind>::NextKind> as ChainKind>::NextKind> as Chain<Q1::Output, <ChainImpl<Q2::Kind, <ChainImpl<Q3::Kind, <ChainImpl<Q4::Kind, <ChainImpl<Q5::Kind, <ChainImpl<Q6::Kind, Q7::Kind> as ChainKind>::NextKind> as ChainKind>::NextKind> as ChainKind>::NextKind> as ChainKind>::NextKind> as Chain<Q2::Output, <ChainImpl<Q3::Kind, <ChainImpl<Q4::Kind, <ChainImpl<Q5::Kind, <ChainImpl<Q6::Kind, Q7::Kind> as ChainKind>::NextKind> as ChainKind>::NextKind> as ChainKind>::NextKind> as Chain<Q3::Output, <ChainImpl<Q4::Kind, <ChainImpl<Q5::Kind, <ChainImpl<Q6::Kind, Q7::Kind> as ChainKind>::NextKind> as ChainKind>::NextKind> as Chain<Q4::Output, <ChainImpl<Q5::Kind, <ChainImpl<Q6::Kind, Q7::Kind> as ChainKind>::NextKind> as Chain<Q5::Output, <ChainImpl<Q6::Kind, Q7::Kind> as Chain<Q6::Output, Q7::Output>>::Output>>::Output>>::Output>>::Output>>::Output>>::Output>,
    ChainImpl<Q1::Kind, <ChainImpl<Q2::Kind, <ChainImpl<Q3::Kind, <ChainImpl<Q4::Kind, <ChainImpl<Q5::Kind, <ChainImpl<Q6::Kind, Q7::Kind> as ChainKind>::NextKind> as ChainKind>::NextKind> as ChainKind>::NextKind> as ChainKind>::NextKind> as ChainKind>::NextKind>: Chain<Q1::Output, <ChainImpl<Q2::Kind, <ChainImpl<Q3::Kind, <ChainImpl<Q4::Kind, <ChainImpl<Q5::Kind, <ChainImpl<Q6::Kind, Q7::Kind> as ChainKind>::NextKind> as ChainKind>::NextKind> as ChainKind>::NextKind> as ChainKind>::NextKind> as Chain<Q2::Output, <ChainImpl<Q3::Kind, <ChainImpl<Q4::Kind, <ChainImpl<Q5::Kind, <ChainImpl<Q6::Kind, Q7::Kind> as ChainKind>::NextKind> as ChainKind>::NextKind> as ChainKind>::NextKind> as Chain<Q3::Output, <ChainImpl<Q4::Kind, <ChainImpl<Q5::Kind, <ChainImpl<Q6::Kind, Q7::Kind> as ChainKind>::NextKind> as ChainKind>::NextKind> as Chain<Q4::Output, <ChainImpl<Q5::Kind, <ChainImpl<Q6::Kind, Q7::Kind> as ChainKind>::NextKind> as Chain<Q5::Output, <ChainImpl<Q6::Kind, Q7::Kind> as Chain<Q6::Output, Q7::Output>>::Output>>::Output>>::Output>>::Output>>::Output>,
    ChainImpl<Q2::Kind, <ChainImpl<Q3::Kind, <ChainImpl<Q4::Kind, <ChainImpl<Q5::Kind, <ChainImpl<Q6::Kind, Q7::Kind> as ChainKind>::NextKind> as ChainKind>::NextKind> as ChainKind>::NextKind> as ChainKind>::NextKind>: Chain<Q2::Output, <ChainImpl<Q3::Kind, <ChainImpl<Q4::Kind, <ChainImpl<Q5::Kind, <ChainImpl<Q6::Kind, Q7::Kind> as ChainKind>::NextKind> as ChainKind>::NextKind> as ChainKind>::NextKind> as Chain<Q3::Output, <ChainImpl<Q4::Kind, <ChainImpl<Q5::Kind, <ChainImpl<Q6::Kind, Q7::Kind> as ChainKind>::NextKind> as ChainKind>::NextKind> as Chain<Q4::Output, <ChainImpl<Q5::Kind, <ChainImpl<Q6::Kind, Q7::Kind> as ChainKind>::NextKind> as Chain<Q5::Output, <ChainImpl<Q6::Kind, Q7::Kind> as Chain<Q6::Output, Q7::Output>>::Output>>::Output>>::Output>>::Output>,
    ChainImpl<Q3::Kind, <ChainImpl<Q4::Kind, <ChainImpl<Q5::Kind, <ChainImpl<Q6::Kind, Q7::Kind> as ChainKind>::NextKind> as ChainKind>::NextKind> as ChainKind>::NextKind>: Chain<Q3::Output, <ChainImpl<Q4::Kind, <ChainImpl<Q5::Kind, <ChainImpl<Q6::Kind, Q7::Kind> as ChainKind>::NextKind> as ChainKind>::NextKind> as Chain<Q4::Output, <ChainImpl<Q5::Kind, <ChainImpl<Q6::Kind, Q7::Kind> as ChainKind>::NextKind> as Chain<Q5::Output, <ChainImpl<Q6::Kind, Q7::Kind> as Chain<Q6::Output, Q7::Output>>::Output>>::Output>>::Output>,
    ChainImpl<Q4::Kind, <ChainImpl<Q5::Kind, <ChainImpl<Q6::Kind, Q7::Kind> as ChainKind>::NextKind> as ChainKind>::NextKind>: Chain<Q4::Output, <ChainImpl<Q5::Kind, <ChainImpl<Q6::Kind, Q7::Kind> as ChainKind>::NextKind> as Chain<Q5::Output, <ChainImpl<Q6::Kind, Q7::Kind> as Chain<Q6::Output, Q7::Output>>::Output>>::Output>,
    ChainImpl<Q5::Kind, <ChainImpl<Q6::Kind, Q7::Kind> as ChainKind>::NextKind>: Chain<Q5::Output, <ChainImpl<Q6::Kind, Q7::Kind> as Chain<Q6::Output, Q7::Output>>::Output>,
    ChainImpl<Q6::Kind, Q7::Kind>: Chain<Q6::Output, Q7::Output>,

    requires
        old(q0).wf(),
        old(q1).wf(),
        old(q2).wf(),
        old(q3).wf(),
        old(q4).wf(),
        old(q5).wf(),
        old(q6).wf(),
        old(q7).wf(),
        input.wf(),
    ensures
        ({
            let t = Then { l: *old(q0), r: Then { l: *old(q1), r: Then { l: *old(q2), r: Then { l: *old(q3), r: Then { l: *old(q4), r: Then { l: *old(q5), r: Then { l: *old(q6), r: *old(q7) } } } } } } };
            let o = t.spec_parse(input.bytes(), input.cur as nat, *old(ctx));
            &&& match r {
                Some((n, v)) => {
                    &&& o.res == Some((n as nat, v.deep_view()))
                    &&& input.cur + n <= input.bytes().len()
                    &&& is_char_boundary(input.bytes(), input.cur + n)
                },
                None => o.res is None,
            }
            &&& *final(ctx) == o.ctx
            &&& *final(errs) == report_all(*old(errs), o.errs)
            &&& Then { l: *final(q0), r: Then { l: *final(q1), r: Then { l: *final(q2), r: Then { l: *final(q3), r: Then { l: *final(q4), r: Then { l: *final(q5), r: Then { l: *final(q6), r: *final(q7) } } } } } } } == t.spec_next(input.bytes(), input.cur as nat, *old(ctx))
        }),
        final(q0).wf(),
        final(q1).wf(),
        final(q2).wf(),
        final(q3).wf(),
        final(q4).wf(),
        final(q5).wf(),
        final(q6).wf(),
        final(q7).wf(),
{
    let ghost (s, c0, h0) = (input.bytes(), *ctx, *errs);
    let ghost o0 = q0.spec_parse(s, input.cur as nat, c0);
    let (n0, v0) = q0.parse(input, errs, ctx)?;
    let ghost rest = Then { l: *q1, r: Then { l: *q2, r: Then { l: *q3, r: Then { l: *q4, r: Then { l: *q5, r: Then { l: *q6, r: *q7 } } } } } };
    let ghost o1 = rest.spec_parse(s, (input.cur + n0) as nat, o0.ctx);
    let res = parse_chain7(q1, q2, q3, q4, q5, q6, q7, input.skip(n0), errs, ctx);
    proof {
        lemma_report_all_concat(h0, o0.errs, o1.errs);
    }
    let (n1, v1) = res?;
    let v = ChainImpl::<Q0::Kind, <ChainImpl<Q1::Kind, <ChainImpl<Q2::Kind, <ChainImpl<Q3::Kind, <ChainImpl<Q4::Kind, <ChainImpl<Q5::Kind, <ChainImpl<Q6::Kind, Q7::Kind> as ChainKind>::NextKind> as ChainKind>::NextKind> as ChainKind>::NextKind> as ChainKind>::NextKind> as ChainKind>::NextKind> as ChainKind>::NextKind>::chain(v0, v1);
    Some((n0 + n1, v))
}

/// Runs the parsers `q0` to `q8` in turn, as `q0.then(q1.then(...))` does.
fn parse_chain9<'a, E, C, H: ErrorHandler<E>, Q0, Q1, Q2, Q3, Q4, Q5, Q6, Q7, Q8>(
    q0: &mut Q0,
    q1: &mut Q1,
    q2: &mut Q2,
    q3: &mut Q3,
    q4: &mut Q4,
    q5: &mut Q5,
    q6: &mut Q6,
    q7: &mut Q7,
    q8: &mut Q8,
    input: Input<'a>,
    errs: &mut H,
    ctx: &mut C,
) -> (r: ParserResult<<ChainImpl<Q0::Kind, <ChainImpl<Q1::Kind, <ChainImpl<Q2::Kind, <ChainImpl<Q3::Kind, <ChainImpl<Q4::Kind, <ChainImpl<Q5::Kind, <ChainImpl<Q6::Kind, <ChainImpl<Q7::Kind, Q8::Kind> as ChainKind>::NextKind> as ChainKind>::NextKind> as ChainKind>::NextKind> as ChainKind>::NextKind> as ChainKind>::NextKind> as ChainKind>::NextKind> as ChainKind>::NextKind> as Chain<Q0::Output, <ChainImpl<Q1::Kind, <ChainImpl<Q2::Kind, <ChainImpl<Q3::Kind, <ChainImpl<Q4::Kind, <ChainImpl<Q5::Kind, <ChainImpl<Q6::Kind, <ChainImpl<Q7::Kind, Q8::Kind> as ChainKind>::NextKind> as ChainKind>::NextKind> as ChainKind>::NextKind> as ChainKind>::NextKind> as ChainKind>::NextKind> as ChainKind>::NextKind> as Chain<Q1::Output, <ChainImpl<Q2::Kind, <ChainImpl<Q3::Kind, <ChainImpl<Q4::Kind, <ChainImpl<Q5::Kind, <ChainImpl<Q6::Kind, <ChainImpl<Q7::Kind, Q8::Kind> as ChainKind>::NextKind> as ChainKind>::NextKind> as ChainKind>::NextKind> as ChainKind>::NextKind> as ChainKind>::NextKind> as Chain<Q2::Output, <ChainImpl<Q3::Kind, <ChainImpl<Q4::Kind, <ChainImpl<Q5::Kind, <ChainImpl<Q6::Kind, <ChainImpl<Q7::Kind, Q8::Kind> as ChainKind>::NextKind> as ChainKind>::NextKind> as ChainKind>::NextKind> as ChainKind>::NextKind> as Chain<Q3::Output, <ChainImpl<Q4::Kind, <ChainImpl<Q5::Kind, <ChainImpl<Q6::Kind, <ChainImpl<Q7::Kind, Q8::Kind> as ChainKind>::NextKind> as ChainKind>::NextKind> as ChainKind>::NextKind> as Chain<Q4::Output, <ChainImpl<Q5::Kind, <ChainImpl<Q6::Kind, <ChainImpl<Q7::Kind, Q8::Kind> as ChainKind>::NextKind> as ChainKind>::NextKind> as Chain<Q5::Output, <ChainImpl<Q6::Kind, <ChainImpl<Q7::Kind, Q8::Kind> as ChainKind>::NextKind> as Chain<Q6::Output, <ChainImpl<Q7::Kind, Q8::Kind> as Chain<Q7::Output, Q8::Output>>::Output>>::Output>>::Output>>::Output>>::Output>>::Output>>::Output>>::Output>) where
    Q0: Parser<'a, E, C>,
    Q1: Parser<'a, E, C>,
    Q2: Parser<'a, E, C>,
    Q3: Parser<'a, E, C>,
    Q4: Parser<'a, E, C>,
    Q5: Parser<'a, E, C>,
    Q6: Parser<'a, E, C>,
    Q7: Parser<'a, E, C>,
    Q8: Parser<'a, E, C>,
    ChainImpl<Q0::Kind, <ChainImpl<Q1::Kind, <ChainImpl<Q2::Kind, <ChainImpl<Q3::Kind, <ChainImpl<Q4::Kind, <ChainImpl<Q5::Kind, <ChainImpl<Q6::Kind, <ChainImpl<Q7::Kind, Q8::Kind> as ChainKind>::NextKind> as ChainKind>::NextKind> as ChainKind>::NextKind> as ChainKind>::NextKind> as ChainKind>::NextKind> as ChainKind>::NextKind> as ChainKind>::NextKind>: Chain<Q0::Output, <ChainImpl<Q1::Kind, <ChainImpl<Q2::Kind, <ChainImpl<Q3::Kind, <ChainImpl<Q4::Kind, <ChainImpl<Q5::Kind, <ChainImpl<Q6::Kind, <ChainImpl<Q7::Kind, Q8::Kind> as ChainKind>::NextKind> as ChainKind>::NextKind> as ChainKind>::NextKind> as ChainKind>::NextKind> as ChainKind>::NextKind> as ChainKind>::NextKind> as Chain<Q1::Output, <ChainImpl<Q2::Kind, <ChainImpl<Q3::Kind, <ChainImpl<Q4::Kind, <ChainImpl<Q5::Kind, <ChainImpl<Q6::Kind, <ChainImpl<Q7::Kind, Q8::Kind> as ChainKind>::NextKind> as ChainKind>::NextKind> as ChainKind>::NextKind> as ChainKind>::NextKind> as ChainKind>::NextKind> as Chain<Q2::Output, <ChainImpl<Q3::Kind, <ChainImpl<Q4::Kind, <ChainImpl<Q5::Kind, <ChainImpl<Q6::Kind, <ChainImpl<Q7::Kind, Q8::Kind> as ChainKind>::NextKind> as ChainKind>::NextKind> as ChainKind>::NextKind> as ChainKind>::NextKind> as Chain<Q3::Output, <ChainImpl<Q4::Kind, <ChainImpl<Q5::Kind, <ChainImpl<Q6::Kind, <ChainImpl<Q7::Kind, Q8::Kind> as ChainKind>::NextKind> as ChainKind>::NextKind> as ChainKind>::NextKind> as Chain<Q4::Output, <ChainImpl<Q5::Kind, <ChainImpl<Q6::Kind, <ChainImpl<Q7::Kind, Q8::Kind> as ChainKind>::NextKind> as ChainKind>::NextKind> as Chain<Q5::Output, <ChainImpl<Q6::Kind, <ChainImpl<Q7::Kind, Q8::Kind> as ChainKind>::NextKind> as Chain<Q6::Output, <ChainImpl<Q7::Kind, Q8::Kind> as Chain<Q7::Output, Q8::Output>>::Output>>::Output>>::Output>>::Output>>::Output>>::Output>>::Output>,
    ChainImpl<Q1::Kind, <ChainImpl<Q2::Kind, <ChainImpl<Q3::Kind, <ChainImpl<Q4::Kind, <ChainImpl<Q5::Kind, <ChainImpl<Q6::Kind, <ChainImpl<Q7::Kind, Q8::Kind> as ChainKind>::NextKind> as ChainKind>::NextKind> as ChainKind>::NextKind> as ChainKind>::NextKind> as ChainKind>::NextKind> as ChainKind>::NextKind>: Chain<Q1::Output, <ChainImpl<Q2::Kind, <ChainImpl<Q3::Kind, <ChainImpl<Q4::Kind, <ChainImpl<Q5::Kind, <ChainImpl<Q6::Kind, <ChainImpl<Q7::Kind, Q8::Kind> as ChainKind>::NextKind> as ChainKind>::NextKind> as ChainKind>::NextKind> as ChainKind>::NextKind> as ChainKind>::NextKind> as Chain<Q2::Output, <ChainImpl<Q3::Kind, <ChainImpl<Q4::Kind, <ChainImpl<Q5::Kind, <ChainImpl<Q6::Kind, <ChainImpl<Q7::Kind, Q8::Kind> as ChainKind>::NextKind> as ChainKind>::NextKind> as ChainKind>::NextKind> as ChainKind>::NextKind> as Chain<Q3::Output, <ChainImpl<Q4::Kind, <ChainImpl<Q5::Kind, <ChainImpl<Q6::Kind, <ChainImpl<Q7::Kind, Q8::Kind> as ChainKind>::NextKind> as ChainKind>::NextKind> as ChainKind>::NextKind> as Chain<Q4::Output, <ChainImpl<Q5::Kind, <ChainImpl<Q6::Kind, <ChainImpl<Q7::Kind, Q8::Kind> as ChainKind>::NextKind> as ChainKind>::NextKind> as Chain<Q5::Output, <ChainImpl<Q6::Kind, <ChainImpl<Q7::Kind, Q8::Kind> as ChainKind>::NextKind> as Chain<Q6::Output, <ChainImpl<Q7::Kind, Q8::Kind> as Chain<Q7::Output, Q8::Output>>::Output>>::Output>>::Output>>::Output>>::Output>>::Output>,
    ChainImpl<Q2::Kind, <ChainImpl<Q3::Kind, <ChainImpl<Q4::Kind, <ChainImpl<Q5::Kind, <ChainImpl<Q6::Kind, <ChainImpl<Q7::Kind, Q8::Kind> as ChainKind>::NextKind> as ChainKind>::NextKind> as ChainKind>::NextKind> as ChainKind>::NextKind> as ChainKind>::NextKind>: Chain<Q2::Output, <ChainImpl<Q3::Kind, <ChainImpl<Q4::Kind, <ChainImpl<Q5::Kind, <ChainImpl<Q6::Kind, <ChainImpl<Q7::Kind, Q8::Kind> as ChainKind>::NextKind> as ChainKind>::NextKind> as ChainKind>::NextKind> as ChainKind>::NextKind> as Chain<Q3::Output, <ChainImpl<Q4::Kind, <ChainImpl<Q5::Kind, <ChainImpl<Q6::Kind, <ChainImpl<Q7::Kind, Q8::Kind> as ChainKind>::NextKind> as ChainKind>::NextKind> as ChainKind>::NextKind> as Chain<Q4::Output, <ChainImpl<Q5::Kind, <ChainImpl<Q6::Kind, <ChainImpl<Q7::Kind, Q8::Kind> as ChainKind>::NextKind> as ChainKind>::NextKind> as Chain<Q5::Output, <ChainImpl<Q6::Kind, <ChainImpl<Q7::Kind, Q8::Kind> as ChainKind>::NextKind> as Chain<Q6::Output, <ChainImpl<Q7::Kind, Q8::Kind> as Chain<Q7::Output, Q8::Output>>::Output>>::Output>>::Output>>::Output>>::Output>,
    ChainImpl<Q3::Kind, <ChainImpl<Q4::Kind, <ChainImpl<Q5::Kind, <ChainImpl<Q6::Kind, <ChainImpl<Q7::Kind, Q8::Kind> as ChainKind>::NextKind> as ChainKind>::NextKind> as ChainKind>::NextKind> as ChainKind>::NextKind>: Chain<Q3::Output, <ChainImpl<Q4::Kind, <ChainImpl<Q5::Kind, <ChainImpl<Q6::Kind, <ChainImpl<Q7::Kind, Q8::Kind> as ChainKind>::NextKind> as ChainKind>::NextKind> as ChainKind>::NextKind> as Chain<Q4::Output, <ChainImpl<Q5::Kind, <ChainImpl<Q6::Kind, <ChainImpl<Q7::Kind, Q8::Kind> as ChainKind>::NextKind> as ChainKind>::NextKind> as Chain<Q5::Output, <ChainImpl<Q6::Kind, <ChainImpl<Q7::Kind, Q8::Kind> as ChainKind>::NextKind> as Chain<Q6::Output, <ChainImpl<Q7::Kind, Q8::Kind> as Chain<Q7::Output, Q8::Output>>::Output>>::Output>>::Output>>::Output>,
    ChainImpl<Q4::Kind, <ChainImpl<Q5::Kind, <ChainImpl<Q6::Kind, <ChainImpl<Q7::Kind, Q8::Kind> as ChainKind>::NextKind> as ChainKind>::NextKind> as ChainKind>::NextKind>: Chain<Q4::Output, <ChainImpl<Q5::Kind, <ChainImpl<Q6::Kind, <ChainImpl<Q7::Kind, Q8::Kind> as ChainKind>::NextKind> as ChainKind>::NextKind> as Chain<Q5::Output, <ChainImpl<Q6::Kind, <ChainImpl<Q7::Kind, Q8::Kind> as ChainKind>::NextKind> as Chain<Q6::Output, <ChainImpl<Q7::Kind, Q8::Kind> as Chain<Q7::Output, Q8::Output>>::Output>>::Output>>::Output>,
    ChainImpl<Q5::Kind, <ChainImpl<Q6::Kind, <ChainImpl<Q7::Kind, Q8::Kind> as ChainKind>::NextKind> as ChainKind>::NextKind>: Chain<Q5::Output, <ChainImpl<Q6::Kind, <ChainImpl<Q7::Kind, Q8::Kind> as ChainKind>::NextKind> as Chain<Q6::Output, <ChainImpl<Q7::Kind, Q8::Kind> as Chain<Q7::Output, Q8::Output>>::Output>>::Output>,
    ChainImpl<Q6::Kind, <ChainImpl<Q7::Kind, Q8::Kind> as ChainKind>::NextKind>: Chain<Q6::Output, <ChainImpl<Q7::Kind, Q8::Kind> as Chain<Q7::Output, Q8::Output>>::Output>,
    ChainImpl<Q7::Kind, Q8::Kind>: Chain<Q7::Output, Q8::Output>,

    requires
        old(q0).wf(),
        old(q1).wf(),
        old(q2).wf(),
        old(q3).wf(),
        old(q4).wf(),
        old(q5).wf(),
        old(q6).wf(),
        old(q7).wf(),
        old(q8).wf(),
        input.wf(),
    ensures
        ({
            let t = Then { l: *old(q0), r: Then { l: *old(q1), r: Then { l: *old(q2), r: Then { l: *old(q3), r: Then { l: *old(q4), r: Then { l: *old(q5), r: Then { l: *old(q6), r: Then { l: *old(q7), r: *old(q8) } } } } } } } };
            let o = t.spec_parse(input.bytes(), input.cur as nat, *old(ctx));
            &&& match r {
                Some((n, v)) => {
                    &&& o.res == Some((n as nat, v.deep_view()))
                    &&& input.cur + n <= input.bytes().len()
                    &&& is_char_boundary(input.bytes(), input.cur + n)
                },
                None => o.res is None,
            }
            &&& *final(ctx) == o.ctx
            &&& *final(errs) == report_all(*old(errs), o.errs)
            &&& Then { l: *final(q0), r: Then { l: *final(q1), r: Then { l: *final(q2), r: Then { l: *final(q3), r: Then { l: *final(q4), r: Then { l: *final(q5), r: Then { l: *final(q6), r: Then { l: *final(q7), r: *final(q8) } } } } } } } } == t.spec_next(input.bytes(), input.cur as nat, *old(ctx))
        }),
        final(q0).wf(),
        final(q1).wf(),
        final(q2).wf(),
        final(q3).wf(),
        final(q4).wf(),
        final(q5).wf(),
        final(q6).wf(),
        final(q7).wf(),
        final(q8).wf(),
{
    let ghost (s, c0, h0) = (input.bytes(), *ctx, *errs);
    let ghost o0 = q0.spec_parse(s, input.cur as nat, c0);
    let (n0, v0) = q0.parse(input, errs, ctx)?;
    let ghost rest = Then { l: *q1, r: Then { l: *q2, r: Then { l: *q3, r: Then { l: *q4, r: Then { l: *q5, r: Then { l: *q6, r: Then { l: *q7, r: *q8 } } } } } } };
    let ghost o1 = rest.spec_parse(s, (input.cur + n0) as nat, o0.ctx);
    let res = parse_chain8(q1, q2, q3, q4, q5, q6, q7, q8, input.skip(n0), errs, ctx);
    proof {
        lemma_report_all_concat(h0, o0.errs, o1.errs);
    }
    let (n1, v1) = res?;
    let v = ChainImpl::<Q0::Kind, <ChainImpl<Q1::Kind, <ChainImpl<Q2::Kind, <ChainImpl<Q3::Kind, <ChainImpl<Q4::Kind, <ChainImpl<Q5::Kind, <ChainImpl<Q6::Kind, <ChainImpl<Q7::Kind, Q8::Kind> as ChainKind>::NextKind> as ChainKind>::NextKind> as ChainKind>::NextKind> as ChainKind>::NextKind> as ChainKind>::NextKind> as ChainKind>::NextKind> as ChainKind>::NextKind>::chain(v0, v1);
    Some((n0 + n1, v))
}

/// Runs the parsers `q0` to `q9` in turn, as `q0.then(q1.then(...))` does.
fn parse_chain10<'a, E, C, H: ErrorHandler<E>, Q0, Q1, Q2, Q3, Q4, Q5, Q6, Q7, Q8, Q9>(
    q0: &mut Q0,
    q1: &mut Q1,
    q2: &mut Q2,
    q3: &mut Q3,
    q4: &mut Q4,
    q5: &mut Q5,
    q6: &mut Q6,
    q7: &mut Q7,
    q8: &mut Q8,
    q9: &mut Q9,
    input: Input<'a>,
    errs: &mut H,
    ctx: &mut C,
) -> (r: ParserResult<<ChainImpl<Q0::Kind, <ChainImpl<Q1::Kind, <ChainImpl<Q2::Kind, <ChainImpl<Q3::Kind, <ChainImpl<Q4::Kind, <ChainImpl<Q5::Kind, <ChainImpl<Q6::Kind, <ChainImpl<Q7::Kind, <ChainImpl<Q8::Kind, Q9::Kind> as ChainKind>::NextKind> as ChainKind>::NextKind> as ChainKind>::NextKind> as ChainKind>::NextKind> as ChainKind>::NextKind> as ChainKind>::NextKind> as ChainKind>::NextKind> as ChainKind>::NextKind> as Chain<Q0::Output, <ChainImpl<Q1::Kind, <ChainImpl<Q2::Kind, <ChainImpl<Q3::Kind, <ChainImpl<Q4::Kind, <ChainImpl<Q5::Kind, <ChainImpl<Q6::Kind, <ChainImpl<Q7::Kind, <ChainImpl<Q8::Kind, Q9::Kind> as ChainKind>::NextKind> as ChainKind>::NextKind> as ChainKind>::NextKind> as ChainKind>::NextKind> as ChainKind>::NextKind> as ChainKind>::NextKind> as ChainKind>::NextKind> as Chain<Q1::Output, <ChainImpl<Q2::Kind, <ChainImpl<Q3::Kind, <ChainImpl<Q4::Kind, <ChainImpl<Q5::Kind, <ChainImpl<Q6::Kind, <ChainImpl<Q7::Kind, <ChainImpl<Q8::Kind, Q9::Kind> as ChainKind>::NextKind> as ChainKind>::NextKind> as ChainKind>::NextKind> as ChainKind>::NextKind> as ChainKind>::NextKind> as ChainKind>::NextKind> as Chain<Q2::Output, <ChainImpl<Q3::Kind, <ChainImpl<Q4::Kind, <ChainImpl<Q5::Kind, <ChainImpl<Q6::Kind, <ChainImpl<Q7::Kind, <ChainImpl<Q8::Kind, Q9::Kind> as ChainKind>::NextKind> as ChainKind>::NextKind> as ChainKind>::NextKind> as ChainKind>::NextKind> as ChainKind>::NextKind> as Chain<Q3::Output, <ChainImpl<Q4::Kind, <ChainImpl<Q5::Kind, <ChainImpl<Q6::Kind, <ChainImpl<Q7::Kind, <ChainImpl<Q8::Kind, Q9::Kind> as ChainKind>::NextKind> as ChainKind>::NextKind> as ChainKind>::NextKind> as ChainKind>::NextKind> as Chain<Q4::Output, <ChainImpl<Q5::Kind, <ChainImpl<Q6::Kind, <ChainImpl<Q7::Kind, <ChainImpl<Q8::Kind, Q9::Kind> as ChainKind>::NextKind> as ChainKind>::NextKind> as ChainKind>::NextKind> as Chain<Q5::Output, <ChainImpl<Q6::Kind, <ChainImpl<Q7::Kind, <ChainImpl<Q8::Kind, Q9::Kind> as ChainKind>::NextKind> as ChainKind>::NextKind> as Chain<Q6::Output, <ChainImpl<Q7::Kind, <ChainImpl<Q8::Kind, Q9::Kind> as ChainKind>::NextKind> as Chain<Q7::Output, <ChainImpl<Q8::Kind, Q9::Kind> as Chain<Q8::Output, Q9::Output>>::Output>>::Output>>::Output>>::Output>>::Output>>::Output>>::Output>>::Output>>::Output>) where
    Q0: Parser<'a, E, C>,
    Q1: Parser<'a, E, C>,
    Q2: Parser<'a, E, C>,
    Q3: Parser<'a, E, C>,
    Q4: Parser<'a, E, C>,
    Q5: Parser<'a, E, C>,
    Q6: Parser<'a, E, C>,
    Q7: Parser<'a, E, C>,
    Q8: Parser<'a, E, C>,
    Q9: Parser<'a, E, C>,
    ChainImpl<Q0::Kind, <ChainImpl<Q1::Kind, <ChainImpl<Q2::Kind, <ChainImpl<Q3::Kind, <ChainImpl<Q4::Kind, <ChainImpl<Q5::Kind, <ChainImpl<Q6::Kind, <ChainImpl<Q7::Kind, <ChainImpl<Q8::Kind, Q9::Kind> as ChainKind>::NextKind> as ChainKind>::NextKind> as ChainKind>::NextKind> as ChainKind>::NextKind> as ChainKind>::NextKind> as ChainKind>::NextKind> as ChainKind>::NextKind> as ChainKind>::NextKind>: Chain<Q0::Output, <ChainImpl<Q1::Kind, <ChainImpl<Q2::Kind, <ChainImpl<Q3::Kind, <ChainImpl<Q4::Kind, <ChainImpl<Q5::Kind, <ChainImpl<Q6::Kind, <ChainImpl<Q7::Kind, <ChainImpl<Q8::Kind, Q9::Kind> as ChainKind>::NextKind> as ChainKind>::NextKind> as ChainKind>::NextKind> as ChainKind>::NextKind> as ChainKind>::NextKind> as ChainKind>::NextKind> as ChainKind>::NextKind> as Chain<Q1::Output, <ChainImpl<Q2::Kind, <ChainImpl<Q3::Kind, <ChainImpl<Q4::Kind, <ChainImpl<Q5::Kind, <ChainImpl<Q6::Kind, <ChainImpl<Q7::Kind, <ChainImpl<Q8::Kind, Q9::Kind> as ChainKind>::NextKind> as ChainKind>::NextKind> as ChainKind>::NextKind> as ChainKind>::NextKind> as ChainKind>::NextKind> as ChainKind>::NextKind> as Chain<Q2::Output, <ChainImpl<Q3::Kind, <ChainImpl<Q4::Kind, <ChainImpl<Q5::Kind, <ChainImpl<Q6::Kind, <ChainImpl<Q7::Kind, <ChainImpl<Q8::Kind, Q9::Kind> as ChainKind>::NextKind> as ChainKind>::NextKind> as ChainKind>::NextKind> as ChainKind>::NextKind> as ChainKind>::NextKind> as Chain<Q3::Output, <ChainImpl<Q4::Kind, <ChainImpl<Q5::Kind, <ChainImpl<Q6::Kind, <ChainImpl<Q7::Kind, <ChainImpl<Q8::Kind, Q9::Kind> as ChainKind>::NextKind> as ChainKind>::NextKind> as ChainKind>::NextKind> as ChainKind>::NextKind> as Chain<Q4::Output, <ChainImpl<Q5::Kind, <ChainImpl<Q6::Kind, <ChainImpl<Q7::Kind, <ChainImpl<Q8::Kind, Q9::Kind> as ChainKind>::NextKind> as ChainKind>::NextKind> as ChainKind>::NextKind> as Chain<Q5::Output, <ChainImpl<Q6::Kind, <ChainImpl<Q7::Kind, <ChainImpl<Q8::Kind, Q9::Kind> as ChainKind>::NextKind> as ChainKind>::NextKind> as Chain<Q6::Output, <ChainImpl<Q7::Kind, <ChainImpl<Q8::Kind, Q9::Kind> as ChainKind>::NextKind> as Chain<Q7::Output, <ChainImpl<Q8::Kind, Q9::Kind> as Chain<Q8::Output, Q9::Output>>::Output>>::Output>>::Output>>::Output>>::Output>>::Output>>::Output>>::Output>,
    ChainImpl<Q1::Kind, <ChainImpl<Q2::Kind, <ChainImpl<Q3::Kind, <ChainImpl<Q4::Kind, <ChainImpl<Q5::Kind, <ChainImpl<Q6::Kind, <ChainImpl<Q7::Kind, <ChainImpl<Q8::Kind, Q9::Kind> as ChainKind>::NextKind> as ChainKind>::NextKind> as ChainKind>::NextKind> as ChainKind>::NextKind> as ChainKind>::NextKind> as ChainKind>::NextKind> as ChainKind>::NextKind>: Chain<Q1::Output, <ChainImpl<Q2::Kind, <ChainImpl<Q3::Kind, <ChainImpl<Q4::Kind, <ChainImpl<Q5::Kind, <ChainImpl<Q6::Kind, <ChainImpl<Q7::Kind, <ChainImpl<Q8::Kind, Q9::Kind> as ChainKind>::NextKind> as ChainKind>::NextKind> as ChainKind>::NextKind> as ChainKind>::NextKind> as ChainKind>::NextKind> as ChainKind>::NextKind> as Chain<Q2::Output, <ChainImpl<Q3::Kind, <ChainImpl<Q4::Kind, <ChainImpl<Q5::Kind, <ChainImpl<Q6::Kind, <ChainImpl<Q7::Kind, <ChainImpl<Q8::Kind, Q9::Kind> as ChainKind>::NextKind> as ChainKind>::NextKind> as ChainKind>::NextKind> as ChainKind>::NextKind> as ChainKind>::NextKind> as Chain<Q3::Output, <ChainImpl<Q4::Kind, <ChainImpl<Q5::Kind, <ChainImpl<Q6::Kind, <ChainImpl<Q7::Kind, <ChainImpl<Q8::Kind, Q9::Kind> as ChainKind>::NextKind> as ChainKind>::NextKind> as ChainKind>::NextKind> as ChainKind>::NextKind> as Chain<Q4::Output, <ChainImpl<Q5::Kind, <ChainImpl<Q6::Kind, <ChainImpl<Q7::Kind, <ChainImpl<Q8::Kind, Q9::Kind> as ChainKind>::NextKind> as ChainKind>::NextKind> as ChainKind>::NextKind> as Chain<Q5::Output, <ChainImpl<Q6::Kind, <ChainImpl<Q7::Kind, <ChainImpl<Q8::Kind, Q9::Kind> as ChainKind>::NextKind> as ChainKind>::NextKind> as Chain<Q6::Output, <ChainImpl<Q7::Kind, <ChainImpl<Q8::Kind, Q9::Kind> as ChainKind>::NextKind> as Chain<Q7::Output, <ChainImpl<Q8::Kind, Q9::Kind> as Chain<Q8::Output, Q9::Output>>::Output>>::Output>>::Output>>::Output>>::Output>>::Output>>::Output>,
    ChainImpl<Q2::Kind, <ChainImpl<Q3::Kind, <ChainImpl<Q4::Kind, <ChainImpl<Q5::Kind, <ChainImpl<Q6::Kind, <ChainImpl<Q7::Kind, <ChainImpl<Q8::Kind, Q9::Kind> as ChainKind>::NextKind> as ChainKind>::NextKind> as ChainKind>::NextKind> as ChainKind>::NextKind> as ChainKind>::NextKind> as ChainKind>::NextKind>: Chain<Q2::Output, <ChainImpl<Q3::Kind, <ChainImpl<Q4::Kind, <ChainImpl<Q5::Kind, <ChainImpl<Q6::Kind, <ChainImpl<Q7::Kind, <ChainImpl<Q8::Kind, Q9::Kind> as ChainKind>::NextKind> as ChainKind>::NextKind> as ChainKind>::NextKind> as ChainKind>::NextKind> as ChainKind>::NextKind> as Chain<Q3::Output, <ChainImpl<Q4::Kind, <ChainImpl<Q5::Kind, <ChainImpl<Q6::Kind, <ChainImpl<Q7::Kind, <ChainImpl<Q8::Kind, Q9::Kind> as ChainKind>::NextKind> as ChainKind>::NextKind> as ChainKind>::NextKind> as ChainKind>::NextKind> as Chain<Q4::Output, <ChainImpl<Q5::Kind, <ChainImpl<Q6::Kind, <ChainImpl<Q7::Kind, <ChainImpl<Q8::Kind, Q9::Kind> as ChainKind>::NextKind> as ChainKind>::NextKind> as ChainKind>::NextKind> as Chain<Q5::Output, <ChainImpl<Q6::Kind, <ChainImpl<Q7::Kind, <ChainImpl<Q8::Kind, Q9::Kind> as ChainKind>::NextKind> as ChainKind>::NextKind> as Chain<Q6::Output, <ChainImpl<Q7::Kind, <ChainImpl<Q8::Kind, Q9::Kind> as ChainKind>::NextKind> as Chain<Q7::Output, <ChainImpl<Q8::Kind, Q9::Kind> as Chain<Q8::Output, Q9::Output>>::Output>>::Output>>::Output>>::Output>>::Output>>::Output>,
    ChainImpl<Q3::Kind, <ChainImpl<Q4::Kind, <ChainImpl<Q5::Kind, <ChainImpl<Q6::Kind, <ChainImpl<Q7::Kind, <ChainImpl<Q8::Kind, Q9::Kind> as ChainKind>::NextKind> as ChainKind>::NextKind> as ChainKind>::NextKind> as ChainKind>::NextKind> as ChainKind>::NextKind>: Chain<Q3::Output, <ChainImpl<Q4::Kind, <ChainImpl<Q5::Kind, <ChainImpl<Q6::Kind, <ChainImpl<Q7::Kind, <ChainImpl<Q8::Kind, Q9::Kind> as ChainKind>::NextKind> as ChainKind>::NextKind> as ChainKind>::NextKind> as ChainKind>::NextKind> as Chain<Q4::Output, <ChainImpl<Q5::Kind, <ChainImpl<Q6::Kind, <ChainImpl<Q7::Kind, <ChainImpl<Q8::Kind, Q9::Kind> as ChainKind>::NextKind> as ChainKind>::NextKind> as ChainKind>::NextKind> as Chain<Q5::Output, <ChainImpl<Q6::Kind, <ChainImpl<Q7::Kind, <ChainImpl<Q8::Kind, Q9::Kind> as ChainKind>::NextKind> as ChainKind>::NextKind> as Chain<Q6::Output, <ChainImpl<Q7::Kind, <ChainImpl<Q8::Kind, Q9::Kind> as ChainKind>::NextKind> as Chain<Q7::Output, <ChainImpl<Q8::Kind, Q9::Kind> as Chain<Q8::Output, Q9::Output>>::Output>>::Output>>::Output>>::Output>>::Output>,
    ChainImpl<Q4::Kind, <ChainImpl<Q5::Kind, <ChainImpl<Q6::Kind, <ChainImpl<Q7::Kind, <ChainImpl<Q8::Kind, Q9::Kind> as ChainKind>::NextKind> as ChainKind>::NextKind> as ChainKind>::NextKind> as ChainKind>::NextKind>: Chain<Q4::Output, <ChainImpl<Q5::Kind, <ChainImpl<Q6::Kind, <ChainImpl<Q7::Kind, <ChainImpl<Q8::Kind, Q9::Kind> as ChainKind>::NextKind> as ChainKind>::NextKind> as ChainKind>::NextKind> as Chain<Q5::Output, <ChainImpl<Q6::Kind, <ChainImpl<Q7::Kind, <ChainImpl<Q8::Kind, Q9::Kind> as ChainKind>::NextKind> as ChainKind>::NextKind> as Chain<Q6::Output, <ChainImpl<Q7::Kind, <ChainImpl<Q8::Kind, Q9::Kind> as ChainKind>::NextKind> as Chain<Q7::Output, <ChainImpl<Q8::Kind, Q9::Kind> as Chain<Q8::Output, Q9::Output>>::Output>>::Output>>::Output>>::Output>,
    ChainImpl<Q5::Kind, <ChainImpl<Q6::Kind, <ChainImpl<Q7::Kind, <ChainImpl<Q8::Kind, Q9::Kind> as ChainKind>::NextKind> as ChainKind>::NextKind> as ChainKind>::NextKind>: Chain<Q5::Output, <ChainImpl<Q6::Kind, <ChainImpl<Q7::Kind, <ChainImpl<Q8::Kind, Q9::Kind> as ChainKind>::NextKind> as ChainKind>::NextKind> as Chain<Q6::Output, <ChainImpl<Q7::Kind, <ChainImpl<Q8::Kind, Q9::Kind> as ChainKind>::NextKind> as Chain<Q7::Output, <ChainImpl<Q8::Kind, Q9::Kind> as Chain<Q8::Output, Q9::Output>>::Output>>::Output>>::Output>,
    ChainImpl<Q6::Kind, <ChainImpl<Q7::Kind, <ChainImpl<Q8::Kind, Q9::Kind> as ChainKind>::NextKind> as ChainKind>::NextKind>: Chain<Q6::Output, <ChainImpl<Q7::Kind, <ChainImpl<Q8::Kind, Q9::Kind> as ChainKind>::NextKind> as Chain<Q7::Output, <ChainImpl<Q8::Kind, Q9::Kind> as Chain<Q8::Output, Q9::Output>>::Output>>::Output>,
    ChainImpl<Q7::Kind, <ChainImpl<Q8::Kind, Q9::Kind> as ChainKind>::NextKind>: Chain<Q7::Output, <ChainImpl<Q8::Kind, Q9::Kind> as Chain<Q8::Output, Q9::Output>>::Output>,
    ChainImpl<Q8::Kind, Q9::Kind>: Chain<Q8::Output, Q9::Output>,

    requires
        old(q0).wf(),
        old(q1).wf(),
        old(q2).wf(),
        old(q3).wf(),
        old(q4).wf(),
        old(q5).wf(),
        old(q6).wf(),
        old(q7).wf(),
        old(q8).wf(),
        old(q9).wf(),
        input.wf(),
    ensures
        ({
            let t = Then { l: *old(q0), r: Then { l: *old(q1), r: Then { l: *old(q2), r: Then { l: *old(q3), r: Then { l: *old(q4), r: Then { l: *old(q5), r: Then { l: *old(q6), r: Then { l: *old(q7), r: Then { l: *old(q8), r: *old(q9) } } } } } } } } };
            let o = t.spec_parse(input.bytes(), input.cur as nat, *old(ctx));
            &&& match r {
                Some((n, v)) => {
                    &&& o.res == Some((n as nat, v.deep_view()))
                    &&& input.cur + n <= input.bytes().len()
                    &&& is_char_boundary(input.bytes(), input.cur + n)
                },
                None => o.res is None,
            }
            &&& *final(ctx) == o.ctx
            &&& *final(errs) == report_all(*old(errs), o.errs)
            &&& Then { l: *final(q0), r: Then { l: *final(q1), r: Then { l: *final(q2), r: Then { l: *final(q3), r: Then { l: *final(q4), r: Then { l: *final(q5), r: Then { l: *final(q6), r: Then { l: *final(q7), r: Then { l: *final(q8), r: *final(q9) } } } } } } } } } == t.spec_next(input.bytes(), input.cur as nat, *old(ctx))
        }),
        final(q0).wf(),
        final(q1).wf(),
        final(q2).wf(),
        final(q3).wf(),
        final(q4).wf(),
        final(q5).wf(),
        final(q6).wf(),
        final(q7).wf(),
        final(q8).wf(),
        final(q9).wf(),
{
    let ghost (s, c0, h0) = (input.bytes(), *ctx, *errs);
    let ghost o0 = q0.spec_parse(s, input.cur as nat, c0);
    let (n0, v0) = q0.parse(input, errs, ctx)?;
    let ghost rest = Then { l: *q1, r: Then { l: *q2, r: Then { l: *q3, r: Then { l: *q4, r: Then { l: *q5, r: Then { l: *q6, r: Then { l: *q7, r: Then { l: *q8, r: *q9 } } } } } } } };
    let ghost o1 = rest.spec_parse(s, (input.cur + n0) as nat, o0.ctx);
    let res = parse_chain9(q1, q2, q3, q4, q5, q6, q7, q8, q9, input.skip(n0), errs, ctx);
    proof {
        lemma_report_all_concat(h0, o0.errs, o1.errs);
    }
    let (n1, v1) = res?;
    let v = ChainImpl::<Q0::Kind, <ChainImpl<Q1::Kind, <ChainImpl<Q2::Kind, <ChainImpl<Q3::Kind, <ChainImpl<Q4::Kind, <ChainImpl<Q5::Kind, <ChainImpl<Q6::Kind, <ChainImpl<Q7::Kind, <ChainImpl<Q8::Kind, Q9::Kind> as ChainKind>::NextKind> as ChainKind>::NextKind> as ChainKind>::NextKind> as ChainKind>::NextKind> as ChainKind>::NextKind> as ChainKind>::NextKind> as ChainKind>::NextKind> as ChainKind>::NextKind>::chain(v0, v1);
    Some((n0 + n1, v))
}

impl<'a, E, C, P0, P1> Parser<'a, E, C> for (P0, P1) where
    P0: Parser<'a, E, C>,
    P1: Parser<'a, E, C>,
    ChainImpl<P0::Kind, P1::Kind>: Chain<P0::Output, P1::Output>,
 {
    type Output = <ChainImpl<P0::Kind, P1::Kind> as Chain<P0::Output, P1::Output>>::Output;
    type Kind = <ChainImpl<P0::Kind, P1::Kind> as ChainKind>::NextKind;

    open spec fn wf(&self) -> bool {
        self.0.wf() && self.1.wf()
    }

    open spec fn spec_parse(&self, s: Seq<u8>, cur: nat, ctx: C) -> Outcome<
        <Self::Output as DeepView>::V,
        E,
        C,
    > {
        Then { l: self.0, r: self.1 }.spec_parse(s, cur, ctx)
    }

    open spec fn spec_next(&self, s: Seq<u8>, cur: nat, ctx: C) -> Self {
        let t = Then { l: self.0, r: self.1 }.spec_next(s, cur, ctx);
        (t.l, t.r)
    }

    fn parse<H: ErrorHandler<E>>(&mut self, input: Input<'a>, errs: &mut H, ctx: &mut C) -> (r:
        ParserResult<Self::Output>) {
        parse_chain2(&mut self.0, &mut self.1, input, errs, ctx)
    }
}

impl<'a, E, C, P0, P1, P2> Parser<'a, E, C> for (P0, P1, P2) where
    P0: Parser<'a, E, C>,
    P1: Parser<'a, E, C>,
    P2: Parser<'a, E, C>,
    ChainImpl<P0::Kind, <ChainImpl<P1::Kind, P2::Kind> as ChainKind>::NextKind>: Chain<P0::Output, <ChainImpl<P1::Kind, P2::Kind> as Chain<P1::Output, P2::Output>>::Output>,
    ChainImpl<P1::Kind, P2::Kind>: Chain<P1::Output, P2::Output>,
 {
    type Output = <ChainImpl<P0::Kind, <ChainImpl<P1::Kind, P2::Kind> as ChainKind>::NextKind> as Chain<P0::Output, <ChainImpl<P1::Kind, P2::Kind> as Chain<P1::Output, P2::Output>>::Output>>::Output;
    type Kind = <ChainImpl<P0::Kind, <ChainImpl<P1::Kind, P2::Kind> as ChainKind>::NextKind> as ChainKind>::NextKind;

    open spec fn wf(&self) -> bool {
        self.0.wf() && self.1.wf() && self.2.wf()
    }

    open spec fn spec_parse(&self, s: Seq<u8>, cur: nat, ctx: C) -> Outcome<
        <Self::Output as DeepView>::V,
        E,
        C,
    > {
        Then { l: self.0, r: Then { l: self.1, r: self.2 } }.spec_parse(s, cur, ctx)
    }

    open spec fn spec_next(&self, s: Seq<u8>, cur: nat, ctx: C) -> Self {
        let t = Then { l: self.0, r: Then { l: self.1, r: self.2 } }.spec_next(s, cur, ctx);
        (t.l, t.r.l, t.r.r)
    }

    fn parse<H: ErrorHandler<E>>(&mut self, input: Input<'a>, errs: &mut H, ctx: &mut C) -> (r:
        ParserResult<Self::Output>) {
        parse_chain3(&mut self.0, &mut self.1, &mut self.2, input, errs, ctx)
    }
}

impl<'a, E, C, P0, P1, P2, P3> Parser<'a, E, C> for (P0, P1, P2, P3) where
    P0: Parser<'a, E, C>,
    P1: Parser<'a, E, C>,
    P2: Parser<'a, E, C>,
    P3: Parser<'a, E, C>,
    ChainImpl<P0::Kind, <ChainImpl<P1::Kind, <ChainImpl<P2::Kind, P3::Kind> as ChainKind>::NextKind> as ChainKind>::NextKind>: Chain<P0::Output, <ChainImpl<P1::Kind, <ChainImpl<P2::Kind, P3::Kind> as ChainKind>::NextKind> as Chain<P1::Output, <ChainImpl<P2::Kind, P3::Kind> as Chain<P2::Output, P3::Output>>::Output>>::Output>,
    ChainImpl<P1::Kind, <ChainImpl<P2::Kind, P3::Kind> as ChainKind>::NextKind>: Chain<P1::Output, <ChainImpl<P2::Kind, P3::Kind> as Chain<P2::Output, P3::Output>>::Output>,
    ChainImpl<P2::Kind, P3::Kind>: Chain<P2::Output, P3::Output>,
 {
    type Output = <ChainImpl<P0::Kind, <ChainImpl<P1::Kind, <ChainImpl<P2::Kind, P3::Kind> as ChainKind>::NextKind> as ChainKind>::NextKind> as Chain<P0::Output, <ChainImpl<P1::Kind, <ChainImpl<P2::Kind, P3::Kind> as ChainKind>::NextKind> as Chain<P1::Output, <ChainImpl<P2::Kind, P3::Kind> as Chain<P2::Output, P3::Output>>::Output>>::Output>>::Output;
    type Kind = <ChainImpl<P0::Kind, <ChainImpl<P1::Kind, <ChainImpl<P2::Kind, P3::Kind> as ChainKind>::NextKind> as ChainKind>::NextKind> as ChainKind>::NextKind;

    open spec fn wf(&self) -> bool {
        self.0.wf() && self.1.wf() && self.2.wf() && self.3.wf()
    }

    open spec fn spec_parse(&self, s: Seq<u8>, cur: nat, ctx: C) -> Outcome<
        <Self::Output as DeepView>::V,
        E,
        C,
    > {
        Then { l: self.0, r: Then { l: self.1, r: Then { l: self.2, r: self.3 } } }.spec_parse(s, cur, ctx)
    }

    open spec fn spec_next(&self, s: Seq<u8>, cur: nat, ctx: C) -> Self {
        let t = Then { l: self.0, r: Then { l: self.1, r: Then { l: self.2, r: self.3 } } }.spec_next(s, cur, ctx);
        (t.l, t.r.l, t.r.r.l, t.r.r.r)
    }

    fn parse<H: ErrorHandler<E>>(&mut self, input: Input<'a>, errs: &mut H, ctx: &mut C) -> (r:
        ParserResult<Self::Output>) {
        parse_chain4(&mut self.0, &mut self.1, &mut self.2, &mut self.3, input, errs, ctx)
    }
}

impl<'a, E, C, P0, P1, P2, P3, P4> Parser<'a, E, C> for (P0, P1, P2, P3, P4) where
    P0: Parser<'a, E, C>,
    P1: Parser<'a, E, C>,
    P2: Parser<'a, E, C>,
    P3: Parser<'a, E, C>,
    P4: Parser<'a, E, C>,
    ChainImpl<P0::Kind, <ChainImpl<P1::Kind, <ChainImpl<P2::Kind, <ChainImpl<P3::Kind, P4::Kind> as ChainKind>::NextKind> as ChainKind>::NextKind> as ChainKind>::NextKind>: Chain<P0::Output, <ChainImpl<P1::Kind, <ChainImpl<P2::Kind, <ChainImpl<P3::Kind, P4::Kind> as ChainKind>::NextKind> as ChainKind>::NextKind> as Chain<P1::Output, <ChainImpl<P2::Kind, <ChainImpl<P3::Kind, P4::Kind> as ChainKind>::NextKind> as Chain<P2::Output, <ChainImpl<P3::Kind, P4::Kind> as Chain<P3::Output, P4::Output>>::Output>>::Output>>::Output>,
    ChainImpl<P1::Kind, <ChainImpl<P2::Kind, <ChainImpl<P3::Kind, P4::Kind> as ChainKind>::NextKind> as ChainKind>::NextKind>: Chain<P1::Output, <ChainImpl<P2::Kind, <ChainImpl<P3::Kind, P4::Kind> as ChainKind>::NextKind> as Chain<P2::Output, <ChainImpl<P3::Kind, P4::Kind> as Chain<P3::Output, P4::Output>>::Output>>::Output>,
    ChainImpl<P2::Kind, <ChainImpl<P3::Kind, P4::Kind> as ChainKind>::NextKind>: Chain<P2::Output, <ChainImpl<P3::Kind, P4::Kind> as Chain<P3::Output, P4::Output>>::Output>,
    ChainImpl<P3::Kind, P4::Kind>: Chain<P3::Output, P4::Output>,
 {
    type Output = <ChainImpl<P0::Kind, <ChainImpl<P1::Kind, <ChainImpl<P2::Kind, <ChainImpl<P3::Kind, P4::Kind> as ChainKind>::NextKind> as ChainKind>::NextKind> as ChainKind>::NextKind> as Chain<P0::Output, <ChainImpl<P1::Kind, <ChainImpl<P2::Kind, <ChainImpl<P3::Kind, P4::Kind> as ChainKind>::NextKind> as ChainKind>::NextKind> as Chain<P1::Output, <ChainImpl<P2::Kind, <ChainImpl<P3::Kind, P4::Kind> as ChainKind>::NextKind> as Chain<P2::Output, <ChainImpl<P3::Kind, P4::Kind> as Chain<P3::Output, P4::Output>>::Output>>::Output>>::Output>>::Output;
    type Kind = <ChainImpl<P0::Kind, <ChainImpl<P1::Kind, <ChainImpl<P2::Kind, <ChainImpl<P3::Kind, P4::Kind> as ChainKind>::NextKind> as ChainKind>::NextKind> as ChainKind>::NextKind> as ChainKind>::NextKind;

    open spec fn wf(&self) -> bool {
        self.0.wf() && self.1.wf() && self.2.wf() && self.3.wf() && self.4.wf()
    }

    open spec fn spec_parse(&self, s: Seq<u8>, cur: nat, ctx: C) -> Outcome<
        <Self::Output as DeepView>::V,
        E,
        C,
    > {
        Then { l: self.0, r: Then { l: self.1, r: Then { l: self.2, r: Then { l: self.3, r: self.4 } } } }.spec_parse(s, cur, ctx)
    }

    open spec fn spec_next(&self, s: Seq<u8>, cur: nat, ctx: C) -> Self {
        let t = Then { l: self.0, r: Then { l: self.1, r: Then { l: self.2, r: Then { l: self.3, r: self.4 } } } }.spec_next(s, cur, ctx);
        (t.l, t.r.l, t.r.r.l, t.r.r.r.l, t.r.r.r.r)
    }

    fn parse<H: ErrorHandler<E>>(&mut self, input: Input<'a>, errs: &mut H, ctx: &mut C) -> (r:
        ParserResult<Self::Output>) {
        parse_chain5(&mut self.0, &mut self.1, &mut self.2, &mut self.3, &mut self.4, input, errs, ctx)
    }
}

impl<'a, E, C, P0, P1, P2, P3, P4, P5> Parser<'a, E, C> for (P0, P1, P2, P3, P4, P5) where
    P0: Parser<'a, E, C>,
    P1: Parser<'a, E, C>,
    P2: Parser<'a, E, C>,
    P3: Parser<'a, E, C>,
    P4: Parser<'a, E, C>,
    P5: Parser<'a, E, C>,
    ChainImpl<P0::Kind, <ChainImpl<P1::Kind, <ChainImpl<P2::Kind, <ChainImpl<P3::Kind, <ChainImpl<P4::Kind, P5::Kind> as ChainKind>::NextKind> as ChainKind>::NextKind> as ChainKind>::NextKind> as ChainKind>::NextKind>: Chain<P0::Output, <ChainImpl<P1::Kind, <ChainImpl<P2::Kind, <ChainImpl<P3::Kind, <ChainImpl<P4::Kind, P5::Kind> as ChainKind>::NextKind> as ChainKind>::NextKind> as ChainKind>::NextKind> as Chain<P1::Output, <ChainImpl<P2::Kind, <ChainImpl<P3::Kind, <ChainImpl<P4::Kind, P5::Kind> as ChainKind>::NextKind> as ChainKind>::NextKind> as Chain<P2::Output, <ChainImpl<P3::Kind, <ChainImpl<P4::Kind, P5::Kind> as ChainKind>::NextKind> as Chain<P3::Output, <ChainImpl<P4::Kind, P5::Kind> as Chain<P4::Output, P5::Output>>::Output>>::Output>>::Output>>::Output>,
    ChainImpl<P1::Kind, <ChainImpl<P2::Kind, <ChainImpl<P3::Kind, <ChainImpl<P4::Kind, P5::Kind> as ChainKind>::NextKind> as ChainKind>::NextKind> as ChainKind>::NextKind>: Chain<P1::Output, <ChainImpl<P2::Kind, <ChainImpl<P3::Kind, <ChainImpl<P4::Kind, P5::Kind> as ChainKind>::NextKind> as ChainKind>::NextKind> as Chain<P2::Output, <ChainImpl<P3::Kind, <ChainImpl<P4::Kind, P5::Kind> as ChainKind>::NextKind> as Chain<P3::Output, <ChainImpl<P4::Kind, P5::Kind> as Chain<P4::Output, P5::Output>>::Output>>::Output>>::Output>,
    ChainImpl<P2::Kind, <ChainImpl<P3::Kind, <ChainImpl<P4::Kind, P5::Kind> as ChainKind>::NextKind> as ChainKind>::NextKind>: Chain<P2::Output, <ChainImpl<P3::Kind, <ChainImpl<P4::Kind, P5::Kind> as ChainKind>::NextKind> as Chain<P3::Output, <ChainImpl<P4::Kind, P5::Kind> as Chain<P4::Output, P5::Output>>::Output>>::Output>,
    ChainImpl<P3::Kind, <ChainImpl<P4::Kind, P5::Kind> as ChainKind>::NextKind>: Chain<P3::Output, <ChainImpl<P4::Kind, P5::Kind> as Chain<P4::Output, P5::Output>>::Output>,
    ChainImpl<P4::Kind, P5::Kind>: Chain<P4::Output, P5::Output>,
 {
    type Output = <ChainImpl<P0::Kind, <ChainImpl<P1::Kind, <ChainImpl<P2::Kind, <ChainImpl<P3::Kind, <ChainImpl<P4::Kind, P5::Kind> as ChainKind>::NextKind> as ChainKind>::NextKind> as ChainKind>::NextKind> as ChainKind>::NextKind> as Chain<P0::Output, <ChainImpl<P1::Kind, <ChainImpl<P2::Kind, <ChainImpl<P3::Kind, <ChainImpl<P4::Kind, P5::Kind> as ChainKind>::NextKind> as ChainKind>::NextKind> as ChainKind>::NextKind> as Chain<P1::Output, <ChainImpl<P2::Kind, <ChainImpl<P3::Kind, <ChainImpl<P4::Kind, P5::Kind> as ChainKind>::NextKind> as ChainKind>::NextKind> as Chain<P2::Output, <ChainImpl<P3::Kind, <ChainImpl<P4::Kind, P5::Kind> as ChainKind>::NextKind> as Chain<P3::Output, <ChainImpl<P4::Kind, P5::Kind> as Chain<P4::Output, P5::Output>>::Output>>::Output>>::Output>>::Output>>::Output;
    type Kind = <ChainImpl<P0::Kind, <ChainImpl<P1::Kind, <ChainImpl<P2::Kind, <ChainImpl<P3::Kind, <ChainImpl<P4::Kind, P5::Kind> as ChainKind>::NextKind> as ChainKind>::NextKind> as ChainKind>::NextKind> as ChainKind>::NextKind> as ChainKind>::NextKind;

    open spec fn wf(&self) -> bool {
        self.0.wf() && self.1.wf() && self.2.wf() && self.3.wf() && self.4.wf() && self.5.wf()
    }

    open spec fn spec_parse(&self, s: Seq<u8>, cur: nat, ctx: C) -> Outcome<
        <Self::Output as DeepView>::V,
        E,
        C,
    > {
        Then { l: self.0, r: Then { l: self.1, r: Then { l: self.2, r: Then { l: self.3, r: Then { l: self.4, r: self.5 } } } } }.spec_parse(s, cur, ctx)
    }

    open spec fn spec_next(&self, s: Seq<u8>, cur: nat, ctx: C) -> Self {
        let t = Then { l: self.0, r: Then { l: self.1, r: Then { l: self.2, r: Then { l: self.3, r: Then { l: self.4, r: self.5 } } } } }.spec_next(s, cur, ctx);
        (t.l, t.r.l, t.r.r.l, t.r.r.r.l, t.r.r.r.r.l, t.r.r.r.r.r)
    }

    fn parse<H: ErrorHandler<E>>(&mut self, input: Input<'a>, errs: &mut H, ctx: &mut C) -> (r:
        ParserResult<Self::Output>) {
        parse_chain6(&mut self.0, &mut self.1, &mut self.2, &mut self.3, &mut self.4, &mut self.5, input, errs, ctx)
    }
}

impl<'a, E, C, P0, P1, P2, P3, P4, P5, P6> Parser<'a, E, C> for (P0, P1, P2, P3, P4, P5, P6) where
    P0: Parser<'a, E, C>,
    P1: Parser<'a, E, C>,
    P2: Parser<'a, E, C>,
    P3: Parser<'a, E, C>,
    P4: Parser<'a, E, C>,
    P5: Parser<'a, E, C>,
    P6: Parser<'a, E, C>,
    ChainImpl<P0::Kind, <ChainImpl<P1::Kind, <ChainImpl<P2::Kind, <ChainImpl<P3::Kind, <ChainImpl<P4::Kind, <ChainImpl<P5::Kind, P6::Kind> as ChainKind>::NextKind> as ChainKind>::NextKind> as ChainKind>::NextKind> as ChainKind>::NextKind> as ChainKind>::NextKind>: Chain<P0::Output, <ChainImpl<P1::Kind, <ChainImpl<P2::Kind, <ChainImpl<P3::Kind, <ChainImpl<P4::Kind, <ChainImpl<P5::Kind, P6::Kind> as ChainKind>::NextKind> as ChainKind>::NextKind> as ChainKind>::NextKind> as ChainKind>::NextKind> as Chain<P1::Output, <ChainImpl<P2::Kind, <ChainImpl<P3::Kind, <ChainImpl<P4::Kind, <ChainImpl<P5::Kind, P6::Kind> as ChainKind>::NextKind> as ChainKind>::NextKind> as ChainKind>::NextKind> as Chain<P2::Output, <ChainImpl<P3::Kind, <ChainImpl<P4::Kind, <ChainImpl<P5::Kind, P6::Kind> as ChainKind>::NextKind> as ChainKind>::NextKind> as Chain<P3::Output, <ChainImpl<P4::Kind, <ChainImpl<P5::Kind, P6::Kind> as ChainKind>::NextKind> as Chain<P4::Output, <ChainImpl<P5::Kind, P6::Kind> as Chain<P5::Output, P6::Output>>::Output>>::Output>>::Output>>::Output>>::Output>,
    ChainImpl<P1::Kind, <ChainImpl<P2::Kind, <ChainImpl<P3::Kind, <ChainImpl<P4::Kind, <ChainImpl<P5::Kind, P6::Kind> as ChainKind>::NextKind> as ChainKind>::NextKind> as ChainKind>::NextKind> as ChainKind>::NextKind>: Chain<P1::Output, <ChainImpl<P2::Kind, <ChainImpl<P3::Kind, <ChainImpl<P4::Kind, <ChainImpl<P5::Kind, P6::Kind> as ChainKind>::NextKind> as ChainKind>::NextKind> as ChainKind>::NextKind> as Chain<P2::Output, <ChainImpl<P3::Kind, <ChainImpl<P4::Kind, <ChainImpl<P5::Kind, P6::Kind> as ChainKind>::NextKind> as ChainKind>::NextKind> as Chain<P3::Output, <ChainImpl<P4::Kind, <ChainImpl<P5::Kind, P6::Kind> as ChainKind>::NextKind> as Chain<P4::Output, <ChainImpl<P5::Kind, P6::Kind> as Chain<P5::Output, P6::Output>>::Output>>::Output>>::Output>>::Output>,
    ChainImpl<P2::Kind, <ChainImpl<P3::Kind, <ChainImpl<P4::Kind, <ChainImpl<P5::Kind, P6::Kind> as ChainKind>::NextKind> as ChainKind>::NextKind> as ChainKind>::NextKind>: Chain<P2::Output, <ChainImpl<P3::Kind, <ChainImpl<P4::Kind, <ChainImpl<P5::Kind, P6::Kind> as ChainKind>::NextKind> as ChainKind>::NextKind> as Chain<P3::Output, <ChainImpl<P4::Kind, <ChainImpl<P5::Kind, P6::Kind> as ChainKind>::NextKind> as Chain<P4::Output, <ChainImpl<P5::Kind, P6::Kind> as Chain<P5::Output, P6::Output>>::Output>>::Output>>::Output>,
    ChainImpl<P3::Kind, <ChainImpl<P4::Kind, <ChainImpl<P5::Kind, P6::Kind> as ChainKind>::NextKind> as ChainKind>::NextKind>: Chain<P3::Output, <ChainImpl<P4::Kind, <ChainImpl<P5::Kind, P6::Kind> as ChainKind>::NextKind> as Chain<P4::Output, <ChainImpl<P5::Kind, P6::Kind> as Chain<P5::Output, P6::Output>>::Output>>::Output>,
    ChainImpl<P4::Kind, <ChainImpl<P5::Kind, P6::Kind> as ChainKind>::NextKind>: Chain<P4::Output, <ChainImpl<P5::Kind, P6::Kind> as Chain<P5::Output, P6::Output>>::Output>,
    ChainImpl<P5::Kind, P6::Kind>: Chain<P5::Output, P6::Output>,
 {
    type Output = <ChainImpl<P0::Kind, <ChainImpl<P1::Kind, <ChainImpl<P2::Kind, <ChainImpl<P3::Kind, <ChainImpl<P4::Kind, <ChainImpl<P5::Kind, P6::Kind> as ChainKind>::NextKind> as ChainKind>::NextKind> as ChainKind>::NextKind> as ChainKind>::NextKind> as ChainKind>::NextKind> as Chain<P0::Output, <ChainImpl<P1::Kind, <ChainImpl<P2::Kind, <ChainImpl<P3::Kind, <ChainImpl<P4::Kind, <ChainImpl<P5::Kind, P6::Kind> as ChainKind>::NextKind> as ChainKind>::NextKind> as ChainKind>::NextKind> as ChainKind>::NextKind> as Chain<P1::Output, <ChainImpl<P2::Kind, <ChainImpl<P3::Kind, <ChainImpl<P4::Kind, <ChainImpl<P5::Kind, P6::Kind> as ChainKind>::NextKind> as ChainKind>::NextKind> as ChainKind>::NextKind> as Chain<P2::Output, <ChainImpl<P3::Kind, <ChainImpl<P4::Kind, <ChainImpl<P5::Kind, P6::Kind> as ChainKind>::NextKind> as ChainKind>::NextKind> as Chain<P3::Output, <ChainImpl<P4::Kind, <ChainImpl<P5::Kind, P6::Kind> as ChainKind>::NextKind> as Chain<P4::Output, <ChainImpl<P5::Kind, P6::Kind> as Chain<P5::Output, P6::Output>>::Output>>::Output>>::Output>>::Output>>::Output>>::Output;
    type Kind = <ChainImpl<P0::Kind, <ChainImpl<P1::Kind, <ChainImpl<P2::Kind, <ChainImpl<P3::Kind, <ChainImpl<P4::Kind, <ChainImpl<P5::Kind, P6::Kind> as ChainKind>::NextKind> as ChainKind>::NextKind> as ChainKind>::NextKind> as ChainKind>::NextKind> as ChainKind>::NextKind> as ChainKind>::NextKind;

    open spec fn wf(&self) -> bool {
        self.0.wf() && self.1.wf() && self.2.wf() && self.3.wf() && self.4.wf() && self.5.wf() && self.6.wf()
    }

    open spec fn spec_parse(&self, s: Seq<u8>, cur: nat, ctx: C) -> Outcome<
        <Self::Output as DeepView>::V,
        E,
        C,
    > {
        Then { l: self.0, r: Then { l: self.1, r: Then { l: self.2, r: Then { l: self.3, r: Then { l: self.4, r: Then { l: self.5, r: self.6 } } } } } }.spec_parse(s, cur, ctx)
    }

    open spec fn spec_next(&self, s: Seq<u8>, cur: nat, ctx: C) -> Self {
        let t = Then { l: self.0, r: Then { l: self.1, r: Then { l: self.2, r: Then { l: self.3, r: Then { l: self.4, r: Then { l: self.5, r: self.6 } } } } } }.spec_next(s, cur, ctx);
        (t.l, t.r.l, t.r.r.l, t.r.r.r.l, t.r.r.r.r.l, t.r.r.r.r.r.l, t.r.r.r.r.r.r)
    }

    fn parse<H: ErrorHandler<E>>(&mut self, input: Input<'a>, errs: &mut H, ctx: &mut C) -> (r:
        ParserResult<Self::Output>) {
        parse_chain7(&mut self.0, &mut self.1, &mut self.2, &mut self.3, &mut self.4, &mut self.5, &mut self.6, input, errs, ctx)
    }
}

impl<'a, E, C, P0, P1, P2, P3, P4, P5, P6, P7> Parser<'a, E, C> for (P0, P1, P2, P3, P4, P5, P6, P7) where
    P0: Parser<'a, E, C>,
    P1: Parser<'a, E, C>,
    P2: Parser<'a, E, C>,
    P3: Parser<'a, E, C>,
    P4: Parser<'a, E, C>,
    P5: Parser<'a, E, C>,
    P6: Parser<'a, E, C>,
    P7: Parser<'a, E, C>,
    ChainImpl<P0::Kind, <ChainImpl<P1::Kind, <ChainImpl<P2::Kind, <ChainImpl<P3::Kind, <ChainImpl<P4::Kind, <ChainImpl<P5::Kind, <ChainImpl<P6::Kind, P7::Kind> as ChainKind>::NextKind> as ChainKind>::NextKind> as ChainKind>::NextKind> as ChainKind>::NextKind> as ChainKind>::NextKind> as ChainKind>::NextKind>: Chain<P0::Output, <ChainImpl<P1::Kind, <ChainImpl<P2::Kind, <ChainImpl<P3::Kind, <ChainImpl<P4::Kind, <ChainImpl<P5::Kind, <ChainImpl<P6::Kind, P7::Kind> as ChainKind>::NextKind> as ChainKind>::NextKind> as ChainKind>::NextKind> as ChainKind>::NextKind> as ChainKind>::NextKind> as Chain<P1::Output, <ChainImpl<P2::Kind, <ChainImpl<P3::Kind, <ChainImpl<P4::Kind, <ChainImpl<P5::Kind, <ChainImpl<P6::Kind, P7::Kind> as ChainKind>::NextKind> as ChainKind>::NextKind> as ChainKind>::NextKind> as ChainKind>::NextKind> as Chain<P2::Output, <ChainImpl<P3::Kind, <ChainImpl<P4::Kind, <ChainImpl<P5::Kind, <ChainImpl<P6::Kind, P7::Kind> as ChainKind>::NextKind> as ChainKind>::NextKind> as ChainKind>::NextKind> as Chain<P3::Output, <ChainImpl<P4::Kind, <ChainImpl<P5::Kind, <ChainImpl<P6::Kind, P7::Kind> as ChainKind>::NextKind> as ChainKind>::NextKind> as Chain<P4::Output, <ChainImpl<P5::Kind, <ChainImpl<P6::Kind, P7::Kind> as ChainKind>::NextKind> as Chain<P5::Output, <ChainImpl<P6::Kind, P7::Kind> as Chain<P6::Output, P7::Output>>::Output>>::Output>>::Output>>::Output>>::Output>>::Output>,
    ChainImpl<P1::Kind, <ChainImpl<P2::Kind, <ChainImpl<P3::Kind, <ChainImpl<P4::Kind, <ChainImpl<P5::Kind, <ChainImpl<P6::Kind, P7::Kind> as ChainKind>::NextKind> as ChainKind>::NextKind> as ChainKind>::NextKind> as ChainKind>::NextKind> as ChainKind>::NextKind>: Chain<P1::Output, <ChainImpl<P2::Kind, <ChainImpl<P3::Kind, <ChainImpl<P4::Kind, <ChainImpl<P5::Kind, <ChainImpl<P6::Kind, P7::Kind> as ChainKind>::NextKind> as ChainKind>::NextKind> as ChainKind>::NextKind> as ChainKind>::NextKind> as Chain<P2::Output, <ChainImpl<P3::Kind, <ChainImpl<P4::Kind, <ChainImpl<P5::Kind, <ChainImpl<P6::Kind, P7::Kind> as ChainKind>::NextKind> as ChainKind>::NextKind> as ChainKind>::NextKind> as Chain<P3::Output, <ChainImpl<P4::Kind, <ChainImpl<P5::Kind, <ChainImpl<P6::Kind, P7::Kind> as ChainKind>::NextKind> as ChainKind>::NextKind> as Chain<P4::Output, <ChainImpl<P5::Kind, <ChainImpl<P6::Kind, P7::Kind> as ChainKind>::NextKind> as Chain<P5::Output, <ChainImpl<P6::Kind, P7::Kind> as Chain<P6::Output, P7::Output>>::Output>>::Output>>::Output>>::Output>>::Output>,
    ChainImpl<P2::Kind, <ChainImpl<P3::Kind, <ChainImpl<P4::Kind, <ChainImpl<P5::Kind, <ChainImpl<P6::Kind, P7::Kind> as ChainKind>::NextKind> as ChainKind>::NextKind> as ChainKind>::NextKind> as ChainKind>::NextKind>: Chain<P2::Output, <ChainImpl<P3::Kind, <ChainImpl<P4::Kind, <ChainImpl<P5::Kind, <ChainImpl<P6::Kind, P7::Kind> as ChainKind>::NextKind> as ChainKind>::NextKind> as ChainKind>::NextKind> as Chain<P3::Output, <ChainImpl<P4::Kind, <ChainImpl<P5::Kind, <ChainImpl<P6::Kind, P7::Kind> as ChainKind>::NextKind> as ChainKind>::NextKind> as Chain<P4::Output, <ChainImpl<P5::Kind, <ChainImpl<P6::Kind, P7::Kind> as ChainKind>::NextKind> as Chain<P5::Output, <ChainImpl<P6::Kind, P7::Kind> as Chain<P6::Output, P7::Output>>::Output>>::Output>>::Output>>::Output>,
    ChainImpl<P3::Kind, <ChainImpl<P4::Kind, <ChainImpl<P5::Kind, <ChainImpl<P6::Kind, P7::Kind> as ChainKind>::NextKind> as ChainKind>::NextKind> as ChainKind>::NextKind>: Chain<P3::Output, <ChainImpl<P4::Kind, <ChainImpl<P5::Kind, <ChainImpl<P6::Kind, P7::Kind> as ChainKind>::NextKind> as ChainKind>::NextKind> as Chain<P4::Output, <ChainImpl<P5::Kind, <ChainImpl<P6::Kind, P7::Kind> as ChainKind>::NextKind> as Chain<P5::Output, <ChainImpl<P6::Kind, P7::Kind> as Chain<P6::Output, P7::Output>>::Output>>::Output>>::Output>,
    ChainImpl<P4::Kind, <ChainImpl<P5::Kind, <ChainImpl<P6::Kind, P7::Kind> as ChainKind>::NextKind> as ChainKind>::NextKind>: Chain<P4::Output, <ChainImpl<P5::Kind, <ChainImpl<P6::Kind, P7::Kind> as ChainKind>::NextKind> as Chain<P5::Output, <ChainImpl<P6::Kind, P7::Kind> as Chain<P6::Output, P7::Output>>::Output>>::Output>,
    ChainImpl<P5::Kind, <ChainImpl<P6::Kind, P7::Kind> as ChainKind>::NextKind>: Chain<P5::Output, <ChainImpl<P6::Kind, P7::Kind> as Chain<P6::Output, P7::Output>>::Output>,
    ChainImpl<P6::Kind, P7::Kind>: Chain<P6::Output, P7::Output>,
 {
    type Output = <ChainImpl<P0::Kind, <ChainImpl<P1::Kind, <ChainImpl<P2::Kind, <ChainImpl<P3::Kind, <ChainImpl<P4::Kind, <ChainImpl<P5::Kind, <ChainImpl<P6::Kind, P7::Kind> as ChainKind>::NextKind> as ChainKind>::NextKind> as ChainKind>::NextKind> as ChainKind>::NextKind> as ChainKind>::NextKind> as ChainKind>::NextKind> as Chain<P0::Output, <ChainImpl<P1::Kind, <ChainImpl<P2::Kind, <ChainImpl<P3::Kind, <ChainImpl<P4::Kind, <ChainImpl<P5::Kind, <ChainImpl<P6::Kind, P7::Kind> as ChainKind>::NextKind> as ChainKind>::NextKind> as ChainKind>::NextKind> as ChainKind>::NextKind> as ChainKind>::NextKind> as Chain<P1::Output, <ChainImpl<P2::Kind, <ChainImpl<P3::Kind, <ChainImpl<P4::Kind, <ChainImpl<P5::Kind, <ChainImpl<P6::Kind, P7::Kind> as ChainKind>::NextKind> as ChainKind>::NextKind> as ChainKind>::NextKind> as ChainKind>::NextKind> as Chain<P2::Output, <ChainImpl<P3::Kind, <ChainImpl<P4::Kind, <ChainImpl<P5::Kind, <ChainImpl<P6::Kind, P7::Kind> as ChainKind>::NextKind> as ChainKind>::NextKind> as ChainKind>::NextKind> as Chain<P3::Output, <ChainImpl<P4::Kind, <ChainImpl<P5::Kind, <ChainImpl<P6::Kind, P7::Kind> as ChainKind>::NextKind> as ChainKind>::NextKind> as Chain<P4::Output, <ChainImpl<P5::Kind, <ChainImpl<P6::Kind, P7::Kind> as ChainKind>::NextKind> as Chain<P5::Output, <ChainImpl<P6::Kind, P7::Kind> as Chain<P6::Output, P7::Output>>::Output>>::Output>>::Output>>::Output>>::Output>>::Output>>::Output;
    type Kind = <ChainImpl<P0::Kind, <ChainImpl<P1::Kind, <ChainImpl<P2::Kind, <ChainImpl<P3::Kind, <ChainImpl<P4::Kind, <ChainImpl<P5::Kind, <ChainImpl<P6::Kind, P7::Kind> as ChainKind>::NextKind> as ChainKind>::NextKind> as ChainKind>::NextKind> as ChainKind>::NextKind> as ChainKind>::NextKind> as ChainKind>::NextKind> as ChainKind>::NextKind;

    open spec fn wf(&self) -> bool {
        self.0.wf() && self.1.wf() && self.2.wf() && self.3.wf() && self.4.wf() && self.5.wf() && self.6.wf() && self.7.wf()
    }

    open spec fn spec_parse(&self, s: Seq<u8>, cur: nat, ctx: C) -> Outcome<
        <Self::Output as DeepView>::V,
        E,
        C,
    > {
        Then { l: self.0, r: Then { l: self.1, r: Then { l: self.2, r: Then { l: self.3, r: Then { l: self.4, r: Then { l: self.5, r: Then { l: self.6, r: self.7 } } } } } } }.spec_parse(s, cur, ctx)
    }

    open spec fn spec_next(&self, s: Seq<u8>, cur: nat, ctx: C) -> Self {
        let t = Then { l: self.0, r: Then { l: self.1, r: Then { l: self.2, r: Then { l: self.3, r: Then { l: self.4, r: Then { l: self.5, r: Then { l: self.6, r: self.7 } } } } } } }.spec_next(s, cur, ctx);
        (t.l, t.r.l, t.r.r.l, t.r.r.r.l, t.r.r.r.r.l, t.r.r.r.r.r.l, t.r.r.r.r.r.r.l, t.r.r.r.r.r.r.r)
    }

    fn parse<H: ErrorHandler<E>>(&mut self, input: Input<'a>, errs: &mut H, ctx: &mut C) -> (r:
        ParserResult<Self::Output>) {
        parse_chain8(&mut self.0, &mut self.1, &mut self.2, &mut self.3, &mut self.4, &mut self.5, &mut self.6, &mut self.7, input, errs, ctx)
    }
}

impl<'a, E, C, P0, P1, P2, P3, P4, P5, P6, P7, P8> Parser<'a, E, C> for (P0, P1, P2, P3, P4, P5, P6, P7, P8) where
    P0: Parser<'a, E, C>,
    P1: Parser<'a, E, C>,
    P2: Parser<'a, E, C>,
    P3: Parser<'a, E, C>,
    P4: Parser<'a, E, C>,
    P5: Parser<'a, E, C>,
    P6: Parser<'a, E, C>,
    P7: Parser<'a, E, C>,
    P8: Parser<'a, E, C>,
    ChainImpl<P0::Kind, <ChainImpl<P1::Kind, <ChainImpl<P2::Kind, <ChainImpl<P3::Kind, <ChainImpl<P4::Kind, <ChainImpl<P5::Kind, <ChainImpl<P6::Kind, <ChainImpl<P7::Kind, P8::Kind> as ChainKind>::NextKind> as ChainKind>::NextKind> as ChainKind>::NextKind> as ChainKind>::NextKind> as ChainKind>::NextKind> as ChainKind>::NextKind> as ChainKind>::NextKind>: Chain<P0::Output, <ChainImpl<P1::Kind, <ChainImpl<P2::Kind, <ChainImpl<P3::Kind, <ChainImpl<P4::Kind, <ChainImpl<P5::Kind, <ChainImpl<P6::Kind, <ChainImpl<P7::Kind, P8::Kind> as ChainKind>::NextKind> as ChainKind>::NextKind> as ChainKind>::NextKind> as ChainKind>::NextKind> as ChainKind>::NextKind> as ChainKind>::NextKind> as Chain<P1::Output, <ChainImpl<P2::Kind, <ChainImpl<P3::Kind, <ChainImpl<P4::Kind, <ChainImpl<P5::Kind, <ChainImpl<P6::Kind, <ChainImpl<P7::Kind, P8::Kind> as ChainKind>::NextKind> as ChainKind>::NextKind> as ChainKind>::NextKind> as ChainKind>::NextKind> as ChainKind>::NextKind> as Chain<P2::Output, <ChainImpl<P3::Kind, <ChainImpl<P4::Kind, <ChainImpl<P5::Kind, <ChainImpl<P6::Kind, <ChainImpl<P7::Kind, P8::Kind> as ChainKind>::NextKind> as ChainKind>::NextKind> as ChainKind>::NextKind> as ChainKind>::NextKind> as Chain<P3::Output, <ChainImpl<P4::Kind, <ChainImpl<P5::Kind, <ChainImpl<P6::Kind, <ChainImpl<P7::Kind, P8::Kind> as ChainKind>::NextKind> as ChainKind>::NextKind> as ChainKind>::NextKind> as Chain<P4::Output, <ChainImpl<P5::Kind, <ChainImpl<P6::Kind, <ChainImpl<P7::Kind, P8::Kind> as ChainKind>::NextKind> as ChainKind>::NextKind> as Chain<P5::Output, <ChainImpl<P6::Kind, <ChainImpl<P7::Kind, P8::Kind> as ChainKind>::NextKind> as Chain<P6::Output, <ChainImpl<P7::Kind, P8::Kind> as Chain<P7::Output, P8::Output>>::Output>>::Output>>::Output>>::Output>>::Output>>::Output>>::Output>,
    ChainImpl<P1::Kind, <ChainImpl<P2::Kind, <ChainImpl<P3::Kind, <ChainImpl<P4::Kind, <ChainImpl<P5::Kind, <ChainImpl<P6::Kind, <ChainImpl<P7::Kind, P8::Kind> as ChainKind>::NextKind> as ChainKind>::NextKind> as ChainKind>::NextKind> as ChainKind>::NextKind> as ChainKind>::NextKind> as ChainKind>::NextKind>: Chain<P1::Output, <ChainImpl<P2::Kind, <ChainImpl<P3::Kind, <ChainImpl<P4::Kind, <ChainImpl<P5::Kind, <ChainImpl<P6::Kind, <ChainImpl<P7::Kind, P8::Kind> as ChainKind>::NextKind> as ChainKind>::NextKind> as ChainKind>::NextKind> as ChainKind>::NextKind> as ChainKind>::NextKind> as Chain<P2::Output, <ChainImpl<P3::Kind, <ChainImpl<P4::Kind, <ChainImpl<P5::Kind, <ChainImpl<P6::Kind, <ChainImpl<P7::Kind, P8::Kind> as ChainKind>::NextKind> as ChainKind>::NextKind> as ChainKind>::NextKind> as ChainKind>::NextKind> as Chain<P3::Output, <ChainImpl<P4::Kind, <ChainImpl<P5::Kind, <ChainImpl<P6::Kind, <ChainImpl<P7::Kind, P8::Kind> as ChainKind>::NextKind> as ChainKind>::NextKind> as ChainKind>::NextKind> as Chain<P4::Output, <ChainImpl<P5::Kind, <ChainImpl<P6::Kind, <ChainImpl<P7::Kind, P8::Kind> as ChainKind>::NextKind> as ChainKind>::NextKind> as Chain<P5::Output, <ChainImpl<P6::Kind, <ChainImpl<P7::Kind, P8::Kind> as ChainKind>::NextKind> as Chain<P6::Output, <ChainImpl<P7::Kind, P8::Kind> as Chain<P7::Output, P8::Output>>::Output>>::Output>>::Output>>::Output>>::Output>>::Output>,
    ChainImpl<P2::Kind, <ChainImpl<P3::Kind, <ChainImpl<P4::Kind, <ChainImpl<P5::Kind, <ChainImpl<P6::Kind, <ChainImpl<P7::Kind, P8::Kind> as ChainKind>::NextKind> as ChainKind>::NextKind> as ChainKind>::NextKind> as ChainKind>::NextKind> as ChainKind>::NextKind>: Chain<P2::Output, <ChainImpl<P3::Kind, <ChainImpl<P4::Kind, <ChainImpl<P5::Kind, <ChainImpl<P6::Kind, <ChainImpl<P7::Kind, P8::Kind> as ChainKind>::NextKind> as ChainKind>::NextKind> as ChainKind>::NextKind> as ChainKind>::NextKind> as Chain<P3::Output, <ChainImpl<P4::Kind, <ChainImpl<P5::Kind, <ChainImpl<P6::Kind, <ChainImpl<P7::Kind, P8::Kind> as ChainKind>::NextKind> as ChainKind>::NextKind> as ChainKind>::NextKind> as Chain<P4::Output, <ChainImpl<P5::Kind, <ChainImpl<P6::Kind, <ChainImpl<P7::Kind, P8::Kind> as ChainKind>::NextKind> as ChainKind>::NextKind> as Chain<P5::Output, <ChainImpl<P6::Kind, <ChainImpl<P7::Kind, P8::Kind> as ChainKind>::NextKind> as Chain<P6::Output, <ChainImpl<P7::Kind, P8::Kind> as Chain<P7::Output, P8::Output>>::Output>>::Output>>::Output>>::Output>>::Output>,
    ChainImpl<P3::Kind, <ChainImpl<P4::Kind, <ChainImpl<P5::Kind, <ChainImpl<P6::Kind, <ChainImpl<P7::Kind, P8::Kind> as ChainKind>::NextKind> as ChainKind>::NextKind> as ChainKind>::NextKind> as ChainKind>::NextKind>: Chain<P3::Output, <ChainImpl<P4::Kind, <ChainImpl<P5::Kind, <ChainImpl<P6::Kind, <ChainImpl<P7::Kind, P8::Kind> as ChainKind>::NextKind> as ChainKind>::NextKind> as ChainKind>::NextKind> as Chain<P4::Output, <ChainImpl<P5::Kind, <ChainImpl<P6::Kind, <ChainImpl<P7::Kind, P8::Kind> as ChainKind>::NextKind> as ChainKind>::NextKind> as Chain<P5::Output, <ChainImpl<P6::Kind, <ChainImpl<P7::Kind, P8::Kind> as ChainKind>::NextKind> as Chain<P6::Output, <ChainImpl<P7::Kind, P8::Kind> as Chain<P7::Output, P8::Output>>::Output>>::Output>>::Output>>::Output>,
    ChainImpl<P4::Kind, <ChainImpl<P5::Kind, <ChainImpl<P6::Kind, <ChainImpl<P7::Kind, P8::Kind> as ChainKind>::NextKind> as ChainKind>::NextKind> as ChainKind>::NextKind>: Chain<P4::Output, <ChainImpl<P5::Kind, <ChainImpl<P6::Kind, <ChainImpl<P7::Kind, P8::Kind> as ChainKind>::NextKind> as ChainKind>::NextKind> as Chain<P5::Output, <ChainImpl<P6::Kind, <ChainImpl<P7::Kind, P8::Kind> as ChainKind>::NextKind> as Chain<P6::Output, <ChainImpl<P7::Kind, P8::Kind> as Chain<P7::Output, P8::Output>>::Output>>::Output>>::Output>,
    ChainImpl<P5::Kind, <ChainImpl<P6::Kind, <ChainImpl<P7::Kind, P8::Kind> as ChainKind>::NextKind> as ChainKind>::NextKind>: Chain<P5::Output, <ChainImpl<P6::Kind, <ChainImpl<P7::Kind, P8::Kind> as ChainKind>::NextKind> as Chain<P6::Output, <ChainImpl<P7::Kind, P8::Kind> as Chain<P7::Output, P8::Output>>::Output>>::Output>,
    ChainImpl<P6::Kind, <ChainImpl<P7::Kind, P8::Kind> as ChainKind>::NextKind>: Chain<P6::Output, <ChainImpl<P7::Kind, P8::Kind> as Chain<P7::Output, P8::Output>>::Output>,
    ChainImpl<P7::Kind, P8::Kind>: Chain<P7::Output, P8::Output>,
 {
    type Output = <ChainImpl<P0::Kind, <ChainImpl<P1::Kind, <ChainImpl<P2::Kind, <ChainImpl<P3::Kind, <ChainImpl<P4::Kind, <ChainImpl<P5::Kind, <ChainImpl<P6::Kind, <ChainImpl<P7::Kind, P8::Kind> as ChainKind>::NextKind> as ChainKind>::NextKind> as ChainKind>::NextKind> as ChainKind>::NextKind> as ChainKind>::NextKind> as ChainKind>::NextKind> as ChainKind>::NextKind> as Chain<P0::Output, <ChainImpl<P1::Kind, <ChainImpl<P2::Kind, <ChainImpl<P3::Kind, <ChainImpl<P4::Kind, <ChainImpl<P5::Kind, <ChainImpl<P6::Kind, <ChainImpl<P7::Kind, P8::Kind> as ChainKind>::NextKind> as ChainKind>::NextKind> as ChainKind>::NextKind> as ChainKind>::NextKind> as ChainKind>::NextKind> as ChainKind>::NextKind> as Chain<P1::Output, <ChainImpl<P2::Kind, <ChainImpl<P3::Kind, <ChainImpl<P4::Kind, <ChainImpl<P5::Kind, <ChainImpl<P6::Kind, <ChainImpl<P7::Kind, P8::Kind> as ChainKind>::NextKind> as ChainKind>::NextKind> as ChainKind>::NextKind> as ChainKind>::NextKind> as ChainKind>::NextKind> as Chain<P2::Output, <ChainImpl<P3::Kind, <ChainImpl<P4::Kind, <ChainImpl<P5::Kind, <ChainImpl<P6::Kind, <ChainImpl<P7::Kind, P8::Kind> as ChainKind>::NextKind> as ChainKind>::NextKind> as ChainKind>::NextKind> as ChainKind>::NextKind> as Chain<P3::Output, <ChainImpl<P4::Kind, <ChainImpl<P5::Kind, <ChainImpl<P6::Kind, <ChainImpl<P7::Kind, P8::Kind> as ChainKind>::NextKind> as ChainKind>::NextKind> as ChainKind>::NextKind> as Chain<P4::Output, <ChainImpl<P5::Kind, <ChainImpl<P6::Kind, <ChainImpl<P7::Kind, P8::Kind> as ChainKind>::NextKind> as ChainKind>::NextKind> as Chain<P5::Output, <ChainImpl<P6::Kind, <ChainImpl<P7::Kind, P8::Kind> as ChainKind>::NextKind> as Chain<P6::Output, <ChainImpl<P7::Kind, P8::Kind> as Chain<P7::Output, P8::Output>>::Output>>::Output>>::Output>>::Output>>::Output>>::Output>>::Output>>::Output;
    type Kind = <ChainImpl<P0::Kind, <ChainImpl<P1::Kind, <ChainImpl<P2::Kind, <ChainImpl<P3::Kind, <ChainImpl<P4::Kind, <ChainImpl<P5::Kind, <ChainImpl<P6::Kind, <ChainImpl<P7::Kind, P8::Kind> as ChainKind>::NextKind> as ChainKind>::NextKind> as ChainKind>::NextKind> as ChainKind>::NextKind> as ChainKind>::NextKind> as ChainKind>::NextKind> as ChainKind>::NextKind> as ChainKind>::NextKind;

    open spec fn wf(&self) -> bool {
        self.0.wf() && self.1.wf() && self.2.wf() && self.3.wf() && self.4.wf() && self.5.wf() && self.6.wf() && self.7.wf() && self.8.wf()
    }

    open spec fn spec_parse(&self, s: Seq<u8>, cur: nat, ctx: C) -> Outcome<
        <Self::Output as DeepView>::V,
        E,
        C,
    > {
        Then { l: self.0, r: Then { l: self.1, r: Then { l: self.2, r: Then { l: self.3, r: Then { l: self.4, r: Then { l: self.5, r: Then { l: self.6, r: Then { l: self.7, r: self.8 } } } } } } } }.spec_parse(s, cur, ctx)
    }

    open spec fn spec_next(&self, s: Seq<u8>, cur: nat, ctx: C) -> Self {
        let t = Then { l: self.0, r: Then { l: self.1, r: Then { l: self.2, r: Then { l: self.3, r: Then { l: self.4, r: Then { l: self.5, r: Then { l: self.6, r: Then { l: self.7, r: self.8 } } } } } } } }.spec_next(s, cur, ctx);
        (t.l, t.r.l, t.r.r.l, t.r.r.r.l, t.r.r.r.r.l, t.r.r.r.r.r.l, t.r.r.r.r.r.r.l, t.r.r.r.r.r.r.r.l, t.r.r.r.r.r.r.r.r)
    }

    fn parse<H: ErrorHandler<E>>(&mut self, input: Input<'a>, errs: &mut H, ctx: &mut C) -> (r:
        ParserResult<Self::Output>) {
        parse_chain9(&mut self.0, &mut self.1, &mut self.2, &mut self.3, &mut self.4, &mut self.5, &mut self.6, &mut self.7, &mut self.8, input, errs, ctx)
    }
}

impl<'a, E, C, P0, P1, P2, P3, P4, P5, P6, P7, P8, P9> Parser<'a, E, C> for (P0, P1, P2, P3, P4, P5, P6, P7, P8, P9) where
    P0: Parser<'a, E, C>,
    P1: Parser<'a, E, C>,
    P2: Parser<'a, E, C>,
    P3: Parser<'a, E, C>,
    P4: Parser<'a, E, C>,
    P5: Parser<'a, E, C>,
    P6: Parser<'a, E, C>,
    P7: Parser<'a, E, C>,
    P8: Parser<'a, E, C>,
    P9: Parser<'a, E, C>,
    ChainImpl<P0::Kind, <ChainImpl<P1::Kind, <ChainImpl<P2::Kind, <ChainImpl<P3::Kind, <ChainImpl<P4::Kind, <ChainImpl<P5::Kind, <ChainImpl<P6::Kind, <ChainImpl<P7::Kind, <ChainImpl<P8::Kind, P9::Kind> as ChainKind>::NextKind> as ChainKind>::NextKind> as ChainKind>::NextKind> as ChainKind>::NextKind> as ChainKind>::NextKind> as ChainKind>::NextKind> as ChainKind>::NextKind> as ChainKind>::NextKind>: Chain<P0::Output, <ChainImpl<P1::Kind, <ChainImpl<P2::Kind, <ChainImpl<P3::Kind, <ChainImpl<P4::Kind, <ChainImpl<P5::Kind, <ChainImpl<P6::Kind, <ChainImpl<P7::Kind, <ChainImpl<P8::Kind, P9::Kind> as ChainKind>::NextKind> as ChainKind>::NextKind> as ChainKind>::NextKind> as ChainKind>::NextKind> as ChainKind>::NextKind> as ChainKind>::NextKind> as ChainKind>::NextKind> as Chain<P1::Output, <ChainImpl<P2::Kind, <ChainImpl<P3::Kind, <ChainImpl<P4::Kind, <ChainImpl<P5::Kind, <ChainImpl<P6::Kind, <ChainImpl<P7::Kind, <ChainImpl<P8::Kind, P9::Kind> as ChainKind>::NextKind> as ChainKind>::NextKind> as ChainKind>::NextKind> as ChainKind>::NextKind> as ChainKind>::NextKind> as ChainKind>::NextKind> as Chain<P2::Output, <ChainImpl<P3::Kind, <ChainImpl<P4::Kind, <ChainImpl<P5::Kind, <ChainImpl<P6::Kind, <ChainImpl<P7::Kind, <ChainImpl<P8::Kind, P9::Kind> as ChainKind>::NextKind> as ChainKind>::NextKind> as ChainKind>::NextKind> as ChainKind>::NextKind> as ChainKind>::NextKind> as Chain<P3::Output, <ChainImpl<P4::Kind, <ChainImpl<P5::Kind, <ChainImpl<P6::Kind, <ChainImpl<P7::Kind, <ChainImpl<P8::Kind, P9::Kind> as ChainKind>::NextKind> as ChainKind>::NextKind> as ChainKind>::NextKind> as ChainKind>::NextKind> as Chain<P4::Output, <ChainImpl<P5::Kind, <ChainImpl<P6::Kind, <ChainImpl<P7::Kind, <ChainImpl<P8::Kind, P9::Kind> as ChainKind>::NextKind> as ChainKind>::NextKind> as ChainKind>::NextKind> as Chain<P5::Output, <ChainImpl<P6::Kind, <ChainImpl<P7::Kind, <ChainImpl<P8::Kind, P9::Kind> as ChainKind>::NextKind> as ChainKind>::NextKind> as Chain<P6::Output, <ChainImpl<P7::Kind, <ChainImpl<P8::Kind, P9::Kind> as ChainKind>::NextKind> as Chain<P7::Output, <ChainImpl<P8::Kind, P9::Kind> as Chain<P8::Output, P9::Output>>::Output>>::Output>>::Output>>::Output>>::Output>>::Output>>::Output>>::Output>,
    ChainImpl<P1::Kind, <ChainImpl<P2::Kind, <ChainImpl<P3::Kind, <ChainImpl<P4::Kind, <ChainImpl<P5::Kind, <ChainImpl<P6::Kind, <ChainImpl<P7::Kind, <ChainImpl<P8::Kind, P9::Kind> as ChainKind>::NextKind> as ChainKind>::NextKind> as ChainKind>::NextKind> as ChainKind>::NextKind> as ChainKind>::NextKind> as ChainKind>::NextKind> as ChainKind>::NextKind>: Chain<P1::Output, <ChainImpl<P2::Kind, <ChainImpl<P3::Kind, <ChainImpl<P4::Kind, <ChainImpl<P5::Kind, <ChainImpl<P6::Kind, <ChainImpl<P7::Kind, <ChainImpl<P8::Kind, P9::Kind> as ChainKind>::NextKind> as ChainKind>::NextKind> as ChainKind>::NextKind> as ChainKind>::NextKind> as ChainKind>::NextKind> as ChainKind>::NextKind> as Chain<P2::Output, <ChainImpl<P3::Kind, <ChainImpl<P4::Kind, <ChainImpl<P5::Kind, <ChainImpl<P6::Kind, <ChainImpl<P7::Kind, <ChainImpl<P8::Kind, P9::Kind> as ChainKind>::NextKind> as ChainKind>::NextKind> as ChainKind>::NextKind> as ChainKind>::NextKind> as ChainKind>::NextKind> as Chain<P3::Output, <ChainImpl<P4::Kind, <ChainImpl<P5::Kind, <ChainImpl<P6::Kind, <ChainImpl<P7::Kind, <ChainImpl<P8::Kind, P9::Kind> as ChainKind>::NextKind> as ChainKind>::NextKind> as ChainKind>::NextKind> as ChainKind>::NextKind> as Chain<P4::Output, <ChainImpl<P5::Kind, <ChainImpl<P6::Kind, <ChainImpl<P7::Kind, <ChainImpl<P8::Kind, P9::Kind> as ChainKind>::NextKind> as ChainKind>::NextKind> as ChainKind>::NextKind> as Chain<P5::Output, <ChainImpl<P6::Kind, <ChainImpl<P7::Kind, <ChainImpl<P8::Kind, P9::Kind> as ChainKind>::NextKind> as ChainKind>::NextKind> as Chain<P6::Output, <ChainImpl<P7::Kind, <ChainImpl<P8::Kind, P9::Kind> as ChainKind>::NextKind> as Chain<P7::Output, <ChainImpl<P8::Kind, P9::Kind> as Chain<P8::Output, P9::Output>>::Output>>::Output>>::Output>>::Output>>::Output>>::Output>>::Output>,
    ChainImpl<P2::Kind, <ChainImpl<P3::Kind, <ChainImpl<P4::Kind, <ChainImpl<P5::Kind, <ChainImpl<P6::Kind, <ChainImpl<P7::Kind, <ChainImpl<P8::Kind, P9::Kind> as ChainKind>::NextKind> as ChainKind>::NextKind> as ChainKind>::NextKind> as ChainKind>::NextKind> as ChainKind>::NextKind> as ChainKind>::NextKind>: Chain<P2::Output, <ChainImpl<P3::Kind, <ChainImpl<P4::Kind, <ChainImpl<P5::Kind, <ChainImpl<P6::Kind, <ChainImpl<P7::Kind, <ChainImpl<P8::Kind, P9::Kind> as ChainKind>::NextKind> as ChainKind>::NextKind> as ChainKind>::NextKind> as ChainKind>::NextKind> as ChainKind>::NextKind> as Chain<P3::Output, <ChainImpl<P4::Kind, <ChainImpl<P5::Kind, <ChainImpl<P6::Kind, <ChainImpl<P7::Kind, <ChainImpl<P8::Kind, P9::Kind> as ChainKind>::NextKind> as ChainKind>::NextKind> as ChainKind>::NextKind> as ChainKind>::NextKind> as Chain<P4::Output, <ChainImpl<P5::Kind, <ChainImpl<P6::Kind, <ChainImpl<P7::Kind, <ChainImpl<P8::Kind, P9::Kind> as ChainKind>::NextKind> as ChainKind>::NextKind> as ChainKind>::NextKind> as Chain<P5::Output, <ChainImpl<P6::Kind, <ChainImpl<P7::Kind, <ChainImpl<P8::Kind, P9::Kind> as ChainKind>::NextKind> as ChainKind>::NextKind> as Chain<P6::Output, <ChainImpl<P7::Kind, <ChainImpl<P8::Kind, P9::Kind> as ChainKind>::NextKind> as Chain<P7::Output, <ChainImpl<P8::Kind, P9::Kind> as Chain<P8::Output, P9::Output>>::Output>>::Output>>::Output>>::Output>>::Output>>::Output>,
    ChainImpl<P3::Kind, <ChainImpl<P4::Kind, <ChainImpl<P5::Kind, <ChainImpl<P6::Kind, <ChainImpl<P7::Kind, <ChainImpl<P8::Kind, P9::Kind> as ChainKind>::NextKind> as ChainKind>::NextKind> as ChainKind>::NextKind> as ChainKind>::NextKind> as ChainKind>::NextKind>: Chain<P3::Output, <ChainImpl<P4::Kind, <ChainImpl<P5::Kind, <ChainImpl<P6::Kind, <ChainImpl<P7::Kind, <ChainImpl<P8::Kind, P9::Kind> as ChainKind>::NextKind> as ChainKind>::NextKind> as ChainKind>::NextKind> as ChainKind>::NextKind> as Chain<P4::Output, <ChainImpl<P5::Kind, <ChainImpl<P6::Kind, <ChainImpl<P7::Kind, <ChainImpl<P8::Kind, P9::Kind> as ChainKind>::NextKind> as ChainKind>::NextKind> as ChainKind>::NextKind> as Chain<P5::Output, <ChainImpl<P6::Kind, <ChainImpl<P7::Kind, <ChainImpl<P8::Kind, P9::Kind> as ChainKind>::NextKind> as ChainKind>::NextKind> as Chain<P6::Output, <ChainImpl<P7::Kind, <ChainImpl<P8::Kind, P9::Kind> as ChainKind>::NextKind> as Chain<P7::Output, <ChainImpl<P8::Kind, P9::Kind> as Chain<P8::Output, P9::Output>>::Output>>::Output>>::Output>>::Output>>::Output>,
    ChainImpl<P4::Kind, <ChainImpl<P5::Kind, <ChainImpl<P6::Kind, <ChainImpl<P7::Kind, <ChainImpl<P8::Kind, P9::Kind> as ChainKind>::NextKind> as ChainKind>::NextKind> as ChainKind>::NextKind> as ChainKind>::NextKind>: Chain<P4::Output, <ChainImpl<P5::Kind, <ChainImpl<P6::Kind, <ChainImpl<P7::Kind, <ChainImpl<P8::Kind, P9::Kind> as ChainKind>::NextKind> as ChainKind>::NextKind> as ChainKind>::NextKind> as Chain<P5::Output, <ChainImpl<P6::Kind, <ChainImpl<P7::Kind, <ChainImpl<P8::Kind, P9::Kind> as ChainKind>::NextKind> as ChainKind>::NextKind> as Chain<P6::Output, <ChainImpl<P7::Kind, <ChainImpl<P8::Kind, P9::Kind> as ChainKind>::NextKind> as Chain<P7::Output, <ChainImpl<P8::Kind, P9::Kind> as Chain<P8::Output, P9::Output>>::Output>>::Output>>::Output>>::Output>,
    ChainImpl<P5::Kind, <ChainImpl<P6::Kind, <ChainImpl<P7::Kind, <ChainImpl<P8::Kind, P9::Kind> as ChainKind>::NextKind> as ChainKind>::NextKind> as ChainKind>::NextKind>: Chain<P5::Output, <ChainImpl<P6::Kind, <ChainImpl<P7::Kind, <ChainImpl<P8::Kind, P9::Kind> as ChainKind>::NextKind> as ChainKind>::NextKind> as Chain<P6::Output, <ChainImpl<P7::Kind, <ChainImpl<P8::Kind, P9::Kind> as ChainKind>::NextKind> as Chain<P7::Output, <ChainImpl<P8::Kind, P9::Kind> as Chain<P8::Output, P9::Output>>::Output>>::Output>>::Output>,
    ChainImpl<P6::Kind, <ChainImpl<P7::Kind, <ChainImpl<P8::Kind, P9::Kind> as ChainKind>::NextKind> as ChainKind>::NextKind>: Chain<P6::Output, <ChainImpl<P7::Kind, <ChainImpl<P8::Kind, P9::Kind> as ChainKind>::NextKind> as Chain<P7::Output, <ChainImpl<P8::Kind, P9::Kind> as Chain<P8::Output, P9::Output>>::Output>>::Output>,
    ChainImpl<P7::Kind, <ChainImpl<P8::Kind, P9::Kind> as ChainKind>::NextKind>: Chain<P7::Output, <ChainImpl<P8::Kind, P9::Kind> as Chain<P8::Output, P9::Output>>::Output>,
    ChainImpl<P8::Kind, P9::Kind>: Chain<P8::Output, P9::Output>,
 {
    type Output = <ChainImpl<P0::Kind, <ChainImpl<P1::Kind, <ChainImpl<P2::Kind, <ChainImpl<P3::Kind, <ChainImpl<P4::Kind, <ChainImpl<P5::Kind, <ChainImpl<P6::Kind, <ChainImpl<P7::Kind, <ChainImpl<P8::Kind, P9::Kind> as ChainKind>::NextKind> as ChainKind>::NextKind> as ChainKind>::NextKind> as ChainKind>::NextKind> as ChainKind>::NextKind> as ChainKind>::NextKind> as ChainKind>::NextKind> as ChainKind>::NextKind> as Chain<P0::Output, <ChainImpl<P1::Kind, <ChainImpl<P2::Kind, <ChainImpl<P3::Kind, <ChainImpl<P4::Kind, <ChainImpl<P5::Kind, <ChainImpl<P6::Kind, <ChainImpl<P7::Kind, <ChainImpl<P8::Kind, P9::Kind> as ChainKind>::NextKind> as ChainKind>::NextKind> as ChainKind>::NextKind> as ChainKind>::NextKind> as ChainKind>::NextKind> as ChainKind>::NextKind> as ChainKind>::NextKind> as Chain<P1::Output, <ChainImpl<P2::Kind, <ChainImpl<P3::Kind, <ChainImpl<P4::Kind, <ChainImpl<P5::Kind, <ChainImpl<P6::Kind, <ChainImpl<P7::Kind, <ChainImpl<P8::Kind, P9::Kind> as ChainKind>::NextKind> as ChainKind>::NextKind> as ChainKind>::NextKind> as ChainKind>::NextKind> as ChainKind>::NextKind> as ChainKind>::NextKind> as Chain<P2::Output, <ChainImpl<P3::Kind, <ChainImpl<P4::Kind, <ChainImpl<P5::Kind, <ChainImpl<P6::Kind, <ChainImpl<P7::Kind, <ChainImpl<P8::Kind, P9::Kind> as ChainKind>::NextKind> as ChainKind>::NextKind> as ChainKind>::NextKind> as ChainKind>::NextKind> as ChainKind>::NextKind> as Chain<P3::Output, <ChainImpl<P4::Kind, <ChainImpl<P5::Kind, <ChainImpl<P6::Kind, <ChainImpl<P7::Kind, <ChainImpl<P8::Kind, P9::Kind> as ChainKind>::NextKind> as ChainKind>::NextKind> as ChainKind>::NextKind> as ChainKind>::NextKind> as Chain<P4::Output, <ChainImpl<P5::Kind, <ChainImpl<P6::Kind, <ChainImpl<P7::Kind, <ChainImpl<P8::Kind, P9::Kind> as ChainKind>::NextKind> as ChainKind>::NextKind> as ChainKind>::NextKind> as Chain<P5::Output, <ChainImpl<P6::Kind, <ChainImpl<P7::Kind, <ChainImpl<P8::Kind, P9::Kind> as ChainKind>::NextKind> as ChainKind>::NextKind> as Chain<P6::Output, <ChainImpl<P7::Kind, <ChainImpl<P8::Kind, P9::Kind> as ChainKind>::NextKind> as Chain<P7::Output, <ChainImpl<P8::Kind, P9::Kind> as Chain<P8::Output, P9::Output>>::Output>>::Output>>::Output>>::Output>>::Output>>::Output>>::Output>>::Output>>::Output;
    type Kind = <ChainImpl<P0::Kind, <ChainImpl<P1::Kind, <ChainImpl<P2::Kind, <ChainImpl<P3::Kind, <ChainImpl<P4::Kind, <ChainImpl<P5::Kind, <ChainImpl<P6::Kind, <ChainImpl<P7::Kind, <ChainImpl<P8::Kind, P9::Kind> as ChainKind>::NextKind> as ChainKind>::NextKind> as ChainKind>::NextKind> as ChainKind>::NextKind> as ChainKind>::NextKind> as ChainKind>::NextKind> as ChainKind>::NextKind> as ChainKind>::NextKind> as ChainKind>::NextKind;

    open spec fn wf(&self) -> bool {
        self.0.wf() && self.1.wf() && self.2.wf() && self.3.wf() && self.4.wf() && self.5.wf() && self.6.wf() && self.7.wf() && self.8.wf() && self.9.wf()
    }

    open spec fn spec_parse(&self, s: Seq<u8>, cur: nat, ctx: C) -> Outcome<
        <Self::Output as DeepView>::V,
        E,
        C,
    > {
        Then { l: self.0, r: Then { l: self.1, r: Then { l: self.2, r: Then { l: self.3, r: Then { l: self.4, r: Then { l: self.5, r: Then { l: self.6, r: Then { l: self.7, r: Then { l: self.8, r: self.9 } } } } } } } } }.spec_parse(s, cur, ctx)
    }

    open spec fn spec_next(&self, s: Seq<u8>, cur: nat, ctx: C) -> Self {
        let t = Then { l: self.0, r: Then { l: self.1, r: Then { l: self.2, r: Then { l: self.3, r: Then { l: self.4, r: Then { l: self.5, r: Then { l: self.6, r: Then { l: self.7, r: Then { l: self.8, r: self.9 } } } } } } } } }.spec_next(s, cur, ctx);
        (t.l, t.r.l, t.r.r.l, t.r.r.r.l, t.r.r.r.r.l, t.r.r.r.r.r.l, t.r.r.r.r.r.r.l, t.r.r.r.r.r.r.r.l, t.r.r.r.r.r.r.r.r.l, t.r.r.r.r.r.r.r.r.r)
    }

    fn parse<H: ErrorHandler<E>>(&mut self, input: Input<'a>, errs: &mut H, ctx: &mut C) -> (r:
        ParserResult<Self::Output>) {
        parse_chain10(&mut self.0, &mut self.1, &mut self.2, &mut self.3, &mut self.4, &mut self.5, &mut self.6, &mut self.7, &mut self.8, &mut self.9, input, errs, ctx)
    }
}

} // verus!
