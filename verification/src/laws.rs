//! Laws of the combinators: what holds of every parser built with them, for
//! every input text, position and context.
use core::ops::{Range, RangeFull, RangeInclusive};
use vstd::prelude::*;
use vstd::string::*;
use vstd::utf8::*;

use crate::combinators::{
    default_view, held_back, Dropped, KeepP, Lookahead, Lookbehind, Mapped, NegativeLookbehind, Not, OptDefault,
    Optional, Or, Pad, SameAs, Slice, Then, TryMap, WithContext, Wrapped,
};
use crate::error::{error_at, ErrorFrom, ErrorLocation, ParseError};
use crate::func::{fn1_try_view, fn1_view, pred_holds};
use crate::output::{
    Chain, ChainImpl, ChainKind, Collector, DelimitedCollector, Ignore, Keep, OptionalOutput,
};
use crate::parser_prims::{is_white_space, lit_outcome, sep, Filter, LitParser, Whitespace};
use crate::parser_trait::{FixedLengthParser, Parser};
use crate::repetition::{delim_loop, rep_loop, DelimBy, Repeat};
use crate::text::{
    common_prefix_len, lemma_common_prefix, lemma_common_prefix_at,
    lemma_next_char_boundary, rest_bytes, spec_next_char, text_of, valid_pos,
};

verus! {

/// An optional parser always matches: it consumes what `p` consumes where `p`
/// matches, and nothing where `p` fails; it reports what `p` reports.
pub proof fn law_opt_always_matches<'a, E, C, P>(p: P, s: Seq<u8>, cur: nat, ctx: C) where
    P: Parser<'a, E, C>,
    P::Kind: OptionalOutput<Option<P::Output>>,

    ensures
        ({
            let o = p.spec_parse(s, cur, ctx);
            let q = <Optional<P> as Parser<'a, E, C>>::spec_parse(&Optional { p }, s, cur, ctx);
            &&& q.res is Some
            &&& q.res.unwrap().0 == (match o.res {
                Some((n, _)) => n,
                None => 0,
            })
            &&& q.errs == o.errs
        }),
{
}

/// `opt_default` always matches: with the value of `p` where `p` matches, and
/// otherwise with the default value, consuming nothing.
pub proof fn law_opt_default_always_matches<'a, E, C, P>(p: P, s: Seq<u8>, cur: nat, ctx: C) where
    P: Parser<'a, E, C>,
    P::Output: Default,

    ensures
        ({
            let o = p.spec_parse(s, cur, ctx);
            let q = <OptDefault<P> as Parser<'a, E, C>>::spec_parse(&OptDefault { p }, s, cur, ctx);
            &&& q.res is Some
            &&& o.res is Some ==> q.res == o.res
            &&& o.res is None ==> q.res == Some((0nat, default_view::<P::Output>()))
        }),
{
}

/// A lookahead matches exactly where `p` does, with the value of `p`, and
/// consumes nothing.
pub proof fn law_lookahead_consumes_nothing<'a, E, C, P>(p: P, s: Seq<u8>, cur: nat, ctx: C) where
    P: Parser<'a, E, C>,

    ensures
        ({
            let o = p.spec_parse(s, cur, ctx);
            let q = <Lookahead<P> as Parser<'a, E, C>>::spec_parse(&Lookahead { p }, s, cur, ctx);
            &&& (q.res is Some <==> o.res is Some)
            &&& q.res matches Some((n, v)) ==> n == 0 && v == o.res.unwrap().1
        }),
{
}

/// `not` matches exactly where `p` fails, consuming nothing; where `p`
/// matches, it reports one `UnexpectedToken` at the position, after what `p` reported.
pub proof fn law_not_is_complement<'a, E, C, P>(p: P, s: Seq<u8>, cur: nat, ctx: C) where
    P: Parser<'a, E, C>,
    E: ErrorFrom<ParseError>,

    ensures
        ({
            let o = p.spec_parse(s, cur, ctx);
            let q = <Not<P> as Parser<'a, E, C>>::spec_parse(&Not { p }, s, cur, ctx);
            &&& (q.res is Some <==> o.res is None)
            &&& q.res is Some ==> q.res == Some((0nat, ()))
            &&& o.res is Some ==> q.errs.len() == o.errs.len() + 1 && q.errs.last().0
                == E::spec_error_from(ParseError::UnexpectedToken)
        }),
{
}

/// Lookbehinds never consume anything.
pub proof fn law_lookbehinds_consume_nothing<'a, E, C, P>(p: P, s: Seq<u8>, cur: nat, ctx: C) where
    P: FixedLengthParser<'a, E, C>,
    E: ErrorFrom<ParseError>,

    ensures
        <Lookbehind<P> as Parser<'a, E, C>>::spec_parse(&Lookbehind { p }, s, cur, ctx).res matches Some(
            (n, _),
        ) ==> n == 0,
        <NegativeLookbehind<P> as Parser<'a, E, C>>::spec_parse(
            &NegativeLookbehind { p },
            s,
            cur,
            ctx,
        ).res matches Some((n, _)) ==> n == 0,
{
}

/// Where the window just before the position is within the text, a negative
/// lookbehind matches exactly where the lookbehind does not.
pub proof fn law_negative_lookbehind_is_complement<'a, E, C, P>(
    p: P,
    s: Seq<u8>,
    cur: nat,
    ctx: C,
) where P: FixedLengthParser<'a, E, C>, E: ErrorFrom<ParseError>
    requires
        p.spec_parsed_len() <= cur,
        is_char_boundary(s, cur - p.spec_parsed_len()),
    ensures
        (<NegativeLookbehind<P> as Parser<'a, E, C>>::spec_parse(
            &NegativeLookbehind { p },
            s,
            cur,
            ctx,
        ).res is Some) <==> (<Lookbehind<P> as Parser<'a, E, C>>::spec_parse(
            &Lookbehind { p },
            s,
            cur,
            ctx,
        ).res is None),
{
}

/// `l.then(r)` matches exactly where `l` matches and `r` matches where `l`
/// stopped; it consumes the sum of what they consume, gives their values
/// chained by the kinds of the two parsers, and reports what `l` reported
/// followed by what `r` reported.
pub proof fn law_then_sequences<'a, E, C, P1, P2>(l: P1, r: P2, s: Seq<u8>, cur: nat, ctx: C) where
    P1: Parser<'a, E, C>,
    P2: Parser<'a, E, C>,
    ChainImpl<P1::Kind, P2::Kind>: Chain<P1::Output, P2::Output>,

    ensures
        ({
            let o1 = l.spec_parse(s, cur, ctx);
            let t = <Then<P1, P2> as Parser<'a, E, C>>::spec_parse(&Then { l, r }, s, cur, ctx);
            match o1.res {
                None => t.res is None && t.errs == o1.errs && t.ctx == o1.ctx,
                Some((n1, v1)) => {
                    let o2 = r.spec_parse(s, cur + n1, o1.ctx);
                    &&& t.res == match o2.res {
                        Some((n2, v2)) => Some(
                            (
                                n1 + n2,
                                <ChainImpl<P1::Kind, P2::Kind> as Chain<
                                    P1::Output,
                                    P2::Output,
                                >>::spec_chain(v1, v2),
                            ),
                        ),
                        None => None,
                    }
                    &&& t.errs == o1.errs + o2.errs
                    &&& t.ctx == o2.ctx
                },
            }
        }),
{
}

/// A pair of parsers is the first followed by the second.
pub proof fn law_pair_is_then<'a, E, C, P1, P2>(l: P1, r: P2, s: Seq<u8>, cur: nat, ctx: C) where
    P1: Parser<'a, E, C>,
    P2: Parser<'a, E, C>,
    ChainImpl<P1::Kind, P2::Kind>: Chain<P1::Output, P2::Output>,

    ensures
        <(P1, P2) as Parser<'a, E, C>>::spec_parse(&(l, r), s, cur, ctx)
            == <Then<P1, P2> as Parser<'a, E, C>>::spec_parse(&Then { l, r }, s, cur, ctx),
{
}

/// `l.or(r)` gives the result of `l` where `l` matches, and then does not run
/// `r`; otherwise it runs `r` from the same position and consumes what `r`
/// consumes. It reports nothing where either matches, and where both fail only
/// the last error reported: the last of `r`'s, else the last of `l`'s, else none.
pub proof fn law_or_is_left_biased<'a, E, C, P1, P2>(l: P1, r: P2, s: Seq<u8>, cur: nat, ctx: C) where
    P1: Parser<'a, E, C>,
    P2: Parser<'a, E, C>,
    P2::Output: SameAs<P1::Output>,

    ensures
        ({
            let o1 = l.spec_parse(s, cur, ctx);
            let o2 = r.spec_parse(s, cur, o1.ctx);
            let q = <Or<P1, P2> as Parser<'a, E, C>>::spec_parse(&Or { l, r }, s, cur, ctx);
            let next = <Or<P1, P2> as Parser<'a, E, C>>::spec_next(&Or { l, r }, s, cur, ctx);
            &&& o1.res is Some ==> q.res == o1.res && next.r == r
            &&& o1.res is None ==> match o2.res {
                Some((n, v)) => q.res == Some(
                    (n, <P2::Output as SameAs<P1::Output>>::spec_same(v)),
                ),
                None => q.res is None,
            }
            &&& q.res is Some ==> q.errs.len() == 0
            &&& q.res is None ==> q.errs == (if o2.errs.len() > 0 {
                seq![o2.errs.last()]
            } else if o1.errs.len() > 0 {
                seq![o1.errs.last()]
            } else {
                Seq::<ErrorLocation<E>>::empty()
            })
            &&& q.errs.len() <= 1
        }),
{
    let o1 = l.spec_parse(s, cur, ctx);
    let o2 = r.spec_parse(s, cur, o1.ctx);
    let es = o1.errs + o2.errs;
    assert(held_back(es).len() <= 1);
    if o2.errs.len() > 0 {
        assert(es.last() == o2.errs.last());
    } else {
        assert(es =~= o1.errs);
    }
}

/// `drop`, `keep` and `map` match exactly where `p` does and consume what it
/// consumes, reporting what it reports; `drop` gives `()`, `keep` the value
/// of `p`, and `map` what `f` gives for the value of `p`.
pub proof fn law_value_changes_keep_length<'a, E, C, P, F, V>(
    p: P,
    f: F,
    s: Seq<u8>,
    cur: nat,
    ctx: C,
) where P: Parser<'a, E, C>, F: Fn(P::Output) -> V, V: DeepView
    ensures
        ({
            let o = p.spec_parse(s, cur, ctx);
            let d = <Dropped<P> as Parser<'a, E, C>>::spec_parse(&Dropped { p }, s, cur, ctx);
            let k = <KeepP<P> as Parser<'a, E, C>>::spec_parse(&KeepP { p }, s, cur, ctx);
            let m = <Mapped<P, F> as Parser<'a, E, C>>::spec_parse(&Mapped { p, f }, s, cur, ctx);
            &&& (d.res is Some <==> o.res is Some) && (k.res is Some <==> o.res is Some) && (m.res is Some
                <==> o.res is Some)
            &&& o.res matches Some((n, _)) ==> d.res.unwrap().0 == n && k.res.unwrap().0 == n
                && m.res.unwrap().0 == n
            &&& d.errs == o.errs && k.errs == o.errs && m.errs == o.errs
            &&& o.res matches Some((n, x)) ==> d.res == Some((n, ())) && k.res == Some((n, x))
                && m.res == Some((n, fn1_view::<P::Output, V, F>(f, x)))
        }),
{
}

/// `slice` gives the text that `p` consumed.
pub proof fn law_slice_gives_consumed_text<'a, E, C, P>(p: P, s: Seq<u8>, cur: nat, ctx: C) where
    P: Parser<'a, E, C>,

    ensures
        ({
            let o = p.spec_parse(s, cur, ctx);
            let q = <Slice<P> as Parser<'a, E, C>>::spec_parse(&Slice { p }, s, cur, ctx);
            match o.res {
                Some((n, _)) => q.res == Some((n, text_of(s, cur as int, (cur + n) as int))),
                None => q.res is None,
            }
        }),
{
}

/// Matching a literal at a position within the text: it matches exactly where
/// the text goes on with the literal's bytes, and then consumes the literal.
proof fn lemma_lit_outcome<'a, E: ErrorFrom<ParseError>, C>(
    literal: &'static str,
    name: &'static str,
    s: Seq<u8>,
    cur: nat,
    ctx: C,
)
    requires
        cur <= s.len(),
    ensures
        ({
            let q = lit_outcome::<E, C>(literal, name, s, cur, ctx);
            let l = literal.spec_bytes();
            &&& (q.res is Some <==> (cur + l.len() <= s.len() && s.subrange(
                cur as int,
                (cur + l.len()) as int,
            ) == l))
            &&& q.res is Some ==> q.res == Some((l.len(), ()))
        }),
{
    let l = literal.spec_bytes();
    let rest = rest_bytes(s, cur);
    lemma_common_prefix(rest, l);
    if common_prefix_len(rest, l) == l.len() {
        assert(s.subrange(cur as int, (cur + l.len()) as int) =~= l) by {
            assert forall|j: int| 0 <= j < l.len() implies s.subrange(
                cur as int,
                (cur + l.len()) as int,
            )[j] == l[j] by {
                assert(rest[j] == l[j]);
            }
        }
    } else if cur + l.len() <= s.len() && s.subrange(cur as int, (cur + l.len()) as int) == l {
        assert forall|j: int| 0 <= j < l.len() implies rest[j] == l[j] by {
            assert(s.subrange(cur as int, (cur + l.len()) as int)[j] == l[j]);
        }
        lemma_common_prefix_at(rest, l, l.len() as int);
    }
}

/// A literal parser, and a string literal used as a parser, match exactly
/// where the text goes on with the literal's bytes, and then consume the
/// literal: the length they state as fixed-length parsers.
pub proof fn law_literal_matches_its_bytes<'a, E, C>(
    literal: &'static str,
    name: &'static str,
    s: Seq<u8>,
    cur: nat,
    ctx: C,
) where E: ErrorFrom<ParseError>
    requires
        cur <= s.len(),
    ensures
        ({
            let p = LitParser { lit: literal, parser_name: name };
            let q = <LitParser as Parser<'a, E, C>>::spec_parse(&p, s, cur, ctx);
            let l = literal.spec_bytes();
            &&& (q.res is Some <==> (cur + l.len() <= s.len() && s.subrange(
                cur as int,
                (cur + l.len()) as int,
            ) == l))
            &&& q.res is Some ==> q.res == Some(
                (<LitParser as FixedLengthParser<'a, E, C>>::spec_parsed_len(&p), ()),
            )
            &&& <&'static str as Parser<'a, E, C>>::spec_parse(&literal, s, cur, ctx).res == q.res
            &&& <&'static str as FixedLengthParser<'a, E, C>>::spec_parsed_len(&literal)
                == l.len()
        }),
{
    lemma_lit_outcome::<E, C>(literal, name, s, cur, ctx);
    lemma_lit_outcome::<E, C>(literal, literal, s, cur, ctx);
}

/// `p.wrapped(before, after)` matches exactly where the literal `before`, then
/// `p`, then the literal `after` match in turn; it consumes all three and gives
/// the value of `p` (where `p`, as every parser does when it runs, stays within
/// the text).
pub proof fn law_wrapped_is_sequence<'a, E, C, P>(
    p: P,
    before: &'static str,
    after: &'static str,
    s: Seq<u8>,
    cur: nat,
    ctx: C,
) where P: Parser<'a, E, C>, E: ErrorFrom<ParseError>
    requires
        cur <= s.len(),
        p.spec_parse(s, cur + before.spec_bytes().len(), ctx).res matches Some((n, _)) ==> cur
            + before.spec_bytes().len() + n <= s.len(),
    ensures
        ({
            let w = <Wrapped<P> as Parser<'a, E, C>>::spec_parse(
                &Wrapped { p, before, after },
                s,
                cur,
                ctx,
            );
            let b = before.spec_bytes();
            let a = after.spec_bytes();
            let o = p.spec_parse(s, cur + b.len(), ctx);
            (w.res is Some) <==> ({
                &&& cur + b.len() <= s.len()
                &&& s.subrange(cur as int, (cur + b.len()) as int) == b
                &&& o.res matches Some((n, v)) && cur + b.len() + n + a.len() <= s.len()
                    && s.subrange((cur + b.len() + n) as int, (cur + b.len() + n + a.len()) as int)
                    == a && w.res == Some((b.len() + n + a.len(), v))
            })
        }),
{
    lemma_lit_outcome::<E, ()>(before, before, s, cur, ());
    let b = before.spec_bytes();
    if cur + b.len() <= s.len() && s.subrange(cur as int, (cur + b.len()) as int) == b {
        let o = p.spec_parse(s, cur + b.len(), ctx);
        if let Some((n, v)) = o.res {
            lemma_lit_outcome::<E, ()>(after, after, s, cur + b.len() + n, ());
        }
    }
}

/// `elem.pad(q)` matches exactly where `q`, then `elem`, then `q` again match
/// in turn; it consumes all three and gives the value of `elem`.
pub proof fn law_pad_is_sequence<'a, E, C, P1, P2>(
    elem: P1,
    pad: P2,
    s: Seq<u8>,
    cur: nat,
    ctx: C,
) where P1: Parser<'a, E, C>, P2: Parser<'a, E, C>
    ensures
        ({
            let q = <Pad<P1, P2> as Parser<'a, E, C>>::spec_parse(&Pad { elem, pad }, s, cur, ctx);
            let o1 = pad.spec_parse(s, cur, ctx);
            (q.res is Some) <==> ({
                &&& o1.res matches Some((n1, _))
                &&& elem.spec_parse(s, cur + n1, o1.ctx).res matches Some((n2, v))
                &&& pad.spec_next(s, cur, ctx).spec_parse(
                    s,
                    cur + n1 + n2,
                    elem.spec_parse(s, cur + n1, o1.ctx).ctx,
                ).res matches Some((n3, _))
                &&& q.res == Some((n1 + n2 + n3, v))
            })
        }),
{
}

/// A parser with a context of its own runs `p` with that context, and keeps the
/// context that `p` leaves for its next run.
pub proof fn law_with_context_keeps_its_context<'a, E, C, P>(
    p: P,
    c: C,
    s: Seq<u8>,
    cur: nat,
) where P: Parser<'a, E, C>
    ensures
        ({
            let w = WithContext { p, c };
            let o = p.spec_parse(s, cur, c);
            &&& <WithContext<P, C> as Parser<'a, E, ()>>::spec_parse(&w, s, cur, ()).res == o.res
            &&& <WithContext<P, C> as Parser<'a, E, ()>>::spec_next(&w, s, cur, ()).c == o.ctx
        }),
{
}

/// The rest of a repetition from `off` matches, and consumes at least up to `off`.
proof fn lemma_rep_loop_matches<'a, E, C, P, Coll>(
    p: P,
    coll: Coll,
    s: Seq<u8>,
    start: nat,
    off: nat,
    ctx: C,
    acc: <Coll::Container as DeepView>::V,
    errs: Seq<ErrorLocation<E>>,
) where P: Parser<'a, E, C>, Coll: Collector<P::Output>
    requires
        start <= off,
    ensures
        rep_loop(p, coll, s, start, off, ctx, acc, errs).0.res matches Some((m, _)) && off - start <= m,
    decreases s.len() - off,
{
    let o = p.spec_parse(s, off, ctx);
    if let Some((n, v)) = o.res {
        if 0 < n && off + n <= s.len() {
            lemma_rep_loop_matches(
                p.spec_next(s, off, ctx),
                coll,
                s,
                start,
                off + n,
                o.ctx,
                coll.spec_consume(acc, v),
                errs + o.errs,
            );
        }
    }
}

/// `p.rep(coll)` matches exactly where `p` matches, and consumes at least what
/// that first match of `p` consumed.
pub proof fn law_rep_matches_where_first_matches<'a, E, C, P, Coll>(
    p: P,
    coll: Coll,
    s: Seq<u8>,
    cur: nat,
    ctx: C,
) where P: Parser<'a, E, C>, Coll: Collector<P::Output>
    ensures
        ({
            let o = p.spec_parse(s, cur, ctx);
            let q = <Repeat<P, Coll> as Parser<'a, E, C>>::spec_parse(&Repeat { p, coll }, s, cur, ctx);
            &&& (q.res is Some <==> o.res is Some)
            &&& q.res matches Some((m, _)) ==> o.res.unwrap().0 <= m
        }),
{
    let o = p.spec_parse(s, cur, ctx);
    if let Some((n1, _)) = o.res {
        lemma_rep_loop_matches(
            p.spec_next(s, cur, ctx),
            coll,
            s,
            cur,
            cur + n1,
            o.ctx,
            coll.spec_init(),
            o.errs,
        );
    }
}

/// Whether `p` is left as it was by every run, and leaves every context as it was.
pub open spec fn keeps_state<'a, E, C, P: Parser<'a, E, C>>(p: P) -> bool {
    forall|s: Seq<u8>, cur: nat, ctx: C|
        #![trigger p.spec_parse(s, cur, ctx)]
        p.spec_next(s, cur, ctx) == p && p.spec_parse(s, cur, ctx).ctx == ctx
}

/// Whether a repetition of `p` stops at `pos`: there `p` fails, matches
/// nothing, or claims to run past the end of the text.
pub open spec fn rep_stops_at<'a, E, C, P: Parser<'a, E, C>>(p: P, s: Seq<u8>, pos: nat, ctx: C) -> bool {
    match p.spec_parse(s, pos, ctx).res {
        None => true,
        Some((n, _)) => n == 0 || pos + n > s.len(),
    }
}

/// The rest of a repetition of a parser that keeps its state ends where the
/// parser stops matching.
proof fn lemma_rep_loop_greedy<'a, E, C, P, Coll>(
    p: P,
    coll: Coll,
    s: Seq<u8>,
    start: nat,
    off: nat,
    ctx: C,
    acc: <Coll::Container as DeepView>::V,
    errs: Seq<ErrorLocation<E>>,
) where P: Parser<'a, E, C>, Coll: Collector<P::Output>
    requires
        start <= off,
        keeps_state(p),
    ensures
        ({
            let r = rep_loop(p, coll, s, start, off, ctx, acc, errs);
            &&& r.0.ctx == ctx
            &&& r.0.res matches Some((m, _)) && rep_stops_at(p, s, start + m, ctx)
        }),
    decreases s.len() - off,
{
    let o = p.spec_parse(s, off, ctx);
    assert(p.spec_next(s, off, ctx) == p);
    if let Some((n, v)) = o.res {
        if 0 < n && off + n <= s.len() {
            lemma_rep_loop_greedy(
                p,
                coll,
                s,
                start,
                off + n,
                o.ctx,
                coll.spec_consume(acc, v),
                errs + o.errs,
            );
        }
    }
}

/// A repetition of a parser that keeps its state and context is greedy: where
/// it matches, it stops only where one more match of `p` fails, matches
/// nothing, or would run past the end of the text.
pub proof fn law_rep_is_greedy<'a, E, C, P, Coll>(p: P, coll: Coll, s: Seq<u8>, cur: nat, ctx: C) where
    P: Parser<'a, E, C>,
    Coll: Collector<P::Output>,

    requires
        keeps_state(p),
    ensures
        ({
            let q = <Repeat<P, Coll> as Parser<'a, E, C>>::spec_parse(&Repeat { p, coll }, s, cur, ctx);
            q.res matches Some((m, _)) ==> rep_stops_at(p, s, cur + m, ctx)
        }),
{
    let o = p.spec_parse(s, cur, ctx);
    if let Some((n1, _)) = o.res {
        assert(p.spec_next(s, cur, ctx) == p);
        lemma_rep_loop_greedy(p, coll, s, cur, cur + n1, o.ctx, coll.spec_init(), o.errs);
    }
}

/// The rest of a delimited list from `off` matches, and consumes at least up to `off`.
proof fn lemma_delim_loop_matches<'a, E, C, P1, P2, Coll>(
    elem: P1,
    delim: P2,
    coll: Coll,
    s: Seq<u8>,
    start: nat,
    off: nat,
    ctx: C,
    acc: <Coll::Container as DeepView>::V,
    errs: Seq<ErrorLocation<E>>,
) where
    P1: Parser<'a, E, C>,
    P2: Parser<'a, E, C>,
    Coll: DelimitedCollector<P1::Output, P2::Output>,

    requires
        start <= off,
    ensures
        delim_loop(elem, delim, coll, s, start, off, ctx, acc, errs).0.res matches Some((m, _)) && off
            - start <= m,
    decreases s.len() - off,
{
    let od = delim.spec_parse(s, off, ctx);
    if let Some((dl, dv)) = od.res {
        let oe = elem.spec_parse(s, off + dl, od.ctx);
        if let Some((el, ev)) = oe.res {
            if 0 < dl + el && off + dl + el <= s.len() {
                lemma_delim_loop_matches(
                    elem.spec_next(s, off + dl, od.ctx),
                    delim.spec_next(s, off, ctx),
                    coll,
                    s,
                    start,
                    off + dl + el,
                    oe.ctx,
                    coll.spec_consume(acc, dv, ev),
                    errs + od.errs + oe.errs,
                );
            }
        }
    }
}

/// `elem.delim_by(delim, coll)` matches exactly where `elem` matches, and
/// consumes at least what that first element consumed.
pub proof fn law_delim_by_matches_where_first_matches<'a, E, C, P1, P2, Coll>(
    elem: P1,
    delim: P2,
    coll: Coll,
    s: Seq<u8>,
    cur: nat,
    ctx: C,
) where
    P1: Parser<'a, E, C>,
    P2: Parser<'a, E, C>,
    Coll: DelimitedCollector<P1::Output, P2::Output>,

    ensures
        ({
            let o = elem.spec_parse(s, cur, ctx);
            let q = <DelimBy<P1, P2, Coll> as Parser<'a, E, C>>::spec_parse(
                &DelimBy { elem, delim, coll },
                s,
                cur,
                ctx,
            );
            &&& (q.res is Some <==> o.res is Some)
            &&& q.res matches Some((m, _)) ==> o.res.unwrap().0 <= m
        }),
{
    let o = elem.spec_parse(s, cur, ctx);
    if let Some((n1, v1)) = o.res {
        lemma_delim_loop_matches(
            elem.spec_next(s, cur, ctx),
            delim,
            coll,
            s,
            cur,
            cur + n1,
            o.ctx,
            coll.spec_from(v1),
            o.errs,
        );
    }
}

/// Whether the character at `pos` of `s` is whitespace.
pub open spec fn whitespace_at(s: Seq<u8>, pos: nat) -> bool {
    spec_next_char(s, pos) matches Some((c, _)) && is_white_space(c)
}

/// A run of whitespace from `off` ends at a text position where no whitespace follows.
proof fn lemma_whitespace_run<'a, E>(
    s: Seq<u8>,
    start: nat,
    off: nat,
    errs: Seq<ErrorLocation<E>>,
)
    requires
        valid_utf8(s),
        valid_pos(s, off as int),
        start <= off,
    ensures
        ({
            let r = rep_loop::<'a, E, (), Whitespace, Ignore>(
                Whitespace,
                Ignore,
                s,
                start,
                off,
                (),
                (),
                errs,
            ).0;
            r.res matches Some((m, _)) && off <= start + m && valid_pos(s, (start + m) as int)
                && !whitespace_at(s, start + m)
        }),
    decreases s.len() - off,
{
    let o = <Whitespace as Parser<'a, E, ()>>::spec_parse(&Whitespace, s, off, ());
    if whitespace_at(s, off) {
        lemma_next_char_boundary(s, off as int);
        let w = length_of_first_scalar(rest_bytes(s, off)) as nat;
        assert(o.res == Some((w, decode_first_scalar(rest_bytes(s, off)) as char)));
        lemma_whitespace_run(s, start, off + w, errs + o.errs);
    }
}

/// `sep` always matches, and consumes every whitespace character from the
/// position on: where it stops, the text ends or a character that is not
/// whitespace follows.
pub proof fn law_sep_skips_all_whitespace<'a, E>(s: Seq<u8>, cur: nat) where
    E: ErrorFrom<ParseError>,

    requires
        valid_utf8(s),
        valid_pos(s, cur as int),
    ensures
        ({
            let q = <sep as Parser<'a, E, ()>>::spec_parse(&sep, s, cur, ());
            q.res matches Some((n, _)) && valid_pos(s, (cur + n) as int) && !whitespace_at(s, cur + n)
        }),
{
    if whitespace_at(s, cur) {
        lemma_next_char_boundary(s, cur as int);
        let w = length_of_first_scalar(rest_bytes(s, cur)) as nat;
        lemma_whitespace_run(s, cur, cur + w, Seq::<ErrorLocation<E>>::empty());
    }
}

/// A character parser matches exactly where the text goes on with that
/// character, and then consumes its UTF-8 encoding: the length it states as a
/// fixed-length parser.
pub proof fn law_char_consumes_its_encoding<'a, E, C>(c: char, s: Seq<u8>, cur: nat, ctx: C) where
    E: ErrorFrom<ParseError>,

    requires
        valid_utf8(s),
        valid_pos(s, cur as int),
    ensures
        ({
            let q = <char as Parser<'a, E, C>>::spec_parse(&c, s, cur, ctx);
            &&& (q.res is Some <==> (spec_next_char(s, cur) matches Some((d, _)) && d == c))
            &&& q.res is Some ==> q.res == Some(
                (<char as FixedLengthParser<'a, E, C>>::spec_parsed_len(&c), ()),
            )
        }),
{
    if spec_next_char(s, cur) is Some {
        let rest = rest_bytes(s, cur);
        valid_utf8_split(s, cur as int);
        decode_utf8_first_scalar(rest);
    }
}

/// Chaining is associative in what it consumes and reports: `(a.then(b)).then(c)`
/// and `a.then(b.then(c))` match on the same inputs, consume the same bytes,
/// report the same errors and leave the same context.
pub proof fn law_then_is_associative<'a, E, C, P1, P2, P3>(
    a: P1,
    b: P2,
    c: P3,
    s: Seq<u8>,
    cur: nat,
    ctx: C,
) where
    P1: Parser<'a, E, C>,
    P2: Parser<'a, E, C>,
    P3: Parser<'a, E, C>,
    ChainImpl<P1::Kind, P2::Kind>: Chain<P1::Output, P2::Output>,
    ChainImpl<P2::Kind, P3::Kind>: Chain<P2::Output, P3::Output>,
    ChainImpl<<ChainImpl<P1::Kind, P2::Kind> as ChainKind>::NextKind, P3::Kind>: Chain<
        <ChainImpl<P1::Kind, P2::Kind> as Chain<P1::Output, P2::Output>>::Output,
        P3::Output,
    >,
    ChainImpl<P1::Kind, <ChainImpl<P2::Kind, P3::Kind> as ChainKind>::NextKind>: Chain<
        P1::Output,
        <ChainImpl<P2::Kind, P3::Kind> as Chain<P2::Output, P3::Output>>::Output,
    >,

    ensures
        ({
            let left = <Then<Then<P1, P2>, P3> as Parser<'a, E, C>>::spec_parse(
                &Then { l: Then { l: a, r: b }, r: c },
                s,
                cur,
                ctx,
            );
            let right = <Then<P1, Then<P2, P3>> as Parser<'a, E, C>>::spec_parse(
                &Then { l: a, r: Then { l: b, r: c } },
                s,
                cur,
                ctx,
            );
            &&& (left.res is Some <==> right.res is Some)
            &&& left.res is Some ==> left.res.unwrap().0 == right.res.unwrap().0
            &&& left.errs == right.errs
            &&& left.ctx == right.ctx
        }),
{
    let o1 = a.spec_parse(s, cur, ctx);
    if let Some((n1, _)) = o1.res {
        let o2 = b.spec_parse(s, cur + n1, o1.ctx);
        if let Some((n2, _)) = o2.res {
            let o3 = c.spec_parse(s, cur + n1 + n2, o2.ctx);
            assert(o1.errs + o2.errs + o3.errs =~= o1.errs + (o2.errs + o3.errs));
        }
    }
}

/// Alternation is associative in what it consumes and reports:
/// `(a.or(b)).or(c)` and `a.or(b.or(c))` match on the same inputs, consume the
/// same bytes, report the same error (the last one of all three, where all
/// fail) and leave the same context.
pub proof fn law_or_is_associative<'a, E, C, P1, P2, P3>(
    a: P1,
    b: P2,
    c: P3,
    s: Seq<u8>,
    cur: nat,
    ctx: C,
) where
    P1: Parser<'a, E, C>,
    P2: Parser<'a, E, C>,
    P3: Parser<'a, E, C>,
    P2::Output: SameAs<P1::Output>,
    P3::Output: SameAs<P1::Output>,
    P3::Output: SameAs<P2::Output>,

    ensures
        ({
            let left = <Or<Or<P1, P2>, P3> as Parser<'a, E, C>>::spec_parse(
                &Or { l: Or { l: a, r: b }, r: c },
                s,
                cur,
                ctx,
            );
            let right = <Or<P1, Or<P2, P3>> as Parser<'a, E, C>>::spec_parse(
                &Or { l: a, r: Or { l: b, r: c } },
                s,
                cur,
                ctx,
            );
            &&& (left.res is Some <==> right.res is Some)
            &&& left.res is Some ==> left.res.unwrap().0 == right.res.unwrap().0
            &&& left.errs == right.errs
            &&& left.ctx == right.ctx
        }),
{
    let o1 = a.spec_parse(s, cur, ctx);
    if o1.res is None {
        let o2 = b.spec_parse(s, cur, o1.ctx);
        if o2.res is None {
            let o3 = c.spec_parse(s, cur, o2.ctx);
            let l1 = held_back(o1.errs + o2.errs);
            let r1 = held_back(o2.errs + o3.errs);
            if o3.errs.len() > 0 {
                assert((l1 + o3.errs).last() == o3.errs.last());
                assert((o1.errs + r1).last() == o3.errs.last());
            } else {
                assert(l1 + o3.errs =~= l1);
                assert(o2.errs + o3.errs =~= o2.errs);
                if o2.errs.len() > 0 {
                    assert((o1.errs + r1).last() == o2.errs.last());
                    assert((o1.errs + o2.errs).last() == o2.errs.last());
                } else {
                    assert(o1.errs + o2.errs =~= o1.errs);
                    assert(o1.errs + r1 =~= o1.errs);
                }
            }
        }
    }
}

/// Whether a delimited list of `elem`s separated by `delim`s stops at `pos`:
/// there the delimiter fails, or the element after it fails, or the two
/// together match nothing or claim to run past the end of the text.
pub open spec fn delim_stops_at<'a, E, C, P1: Parser<'a, E, C>, P2: Parser<'a, E, C>>(
    elem: P1,
    delim: P2,
    s: Seq<u8>,
    pos: nat,
    ctx: C,
) -> bool {
    match delim.spec_parse(s, pos, ctx).res {
        None => true,
        Some((dl, _)) => match elem.spec_parse(s, pos + dl, ctx).res {
            None => true,
            Some((el, _)) => dl + el == 0 || pos + dl + el > s.len(),
        },
    }
}

/// The rest of a delimited list whose parsers keep their state ends where a
/// delimiter and an element no longer match.
proof fn lemma_delim_loop_greedy<'a, E, C, P1, P2, Coll>(
    elem: P1,
    delim: P2,
    coll: Coll,
    s: Seq<u8>,
    start: nat,
    off: nat,
    ctx: C,
    acc: <Coll::Container as DeepView>::V,
    errs: Seq<ErrorLocation<E>>,
) where
    P1: Parser<'a, E, C>,
    P2: Parser<'a, E, C>,
    Coll: DelimitedCollector<P1::Output, P2::Output>,

    requires
        start <= off,
        keeps_state(elem),
        keeps_state(delim),
    ensures
        ({
            let r = delim_loop(elem, delim, coll, s, start, off, ctx, acc, errs);
            &&& r.0.ctx == ctx
            &&& r.0.res matches Some((m, _)) && delim_stops_at(elem, delim, s, start + m, ctx)
        }),
    decreases s.len() - off,
{
    let od = delim.spec_parse(s, off, ctx);
    assert(delim.spec_next(s, off, ctx) == delim);
    if let Some((dl, dv)) = od.res {
        let oe = elem.spec_parse(s, off + dl, od.ctx);
        assert(elem.spec_next(s, off + dl, od.ctx) == elem);
        if let Some((el, ev)) = oe.res {
            if 0 < dl + el && off + dl + el <= s.len() {
                lemma_delim_loop_greedy(
                    elem,
                    delim,
                    coll,
                    s,
                    start,
                    off + dl + el,
                    oe.ctx,
                    coll.spec_consume(acc, dv, ev),
                    errs + od.errs + oe.errs,
                );
            }
        }
    }
}

/// A delimited list whose parsers keep their state and context is greedy:
/// where it matches, it stops only where one more delimiter fails, or the
/// element after it fails, or the two match nothing or would run past the end
/// of the text.
pub proof fn law_delim_by_is_greedy<'a, E, C, P1, P2, Coll>(
    elem: P1,
    delim: P2,
    coll: Coll,
    s: Seq<u8>,
    cur: nat,
    ctx: C,
) where
    P1: Parser<'a, E, C>,
    P2: Parser<'a, E, C>,
    Coll: DelimitedCollector<P1::Output, P2::Output>,

    requires
        keeps_state(elem),
        keeps_state(delim),
    ensures
        ({
            let q = <DelimBy<P1, P2, Coll> as Parser<'a, E, C>>::spec_parse(
                &DelimBy { elem, delim, coll },
                s,
                cur,
                ctx,
            );
            q.res matches Some((m, _)) ==> delim_stops_at(elem, delim, s, cur + m, ctx)
        }),
{
    let o = elem.spec_parse(s, cur, ctx);
    if let Some((n1, v1)) = o.res {
        assert(elem.spec_next(s, cur, ctx) == elem);
        lemma_delim_loop_greedy(elem, delim, coll, s, cur, cur + n1, o.ctx, coll.spec_from(v1), o.errs);
    }
}

/// The successive matches of `p` from `off`: the length and value of each,
/// each run from where the one before stopped with the state and context it
/// left, for as long as `p` matches, consumes something and stays within the
/// text.
pub open spec fn successive_matches<'a, E, C, P: Parser<'a, E, C>>(
    p: P,
    s: Seq<u8>,
    off: nat,
    ctx: C,
) -> Seq<(nat, <P::Output as DeepView>::V)>
    decreases s.len() - off,
{
    let o = p.spec_parse(s, off, ctx);
    match o.res {
        Some((n, v)) => if 0 < n && off + n <= s.len() {
            seq![(n, v)] + successive_matches(p.spec_next(s, off, ctx), s, off + n, o.ctx)
        } else {
            Seq::empty()
        },
        None => Seq::empty(),
    }
}

/// The sum of the lengths of `ms`.
pub open spec fn total_length<V>(ms: Seq<(nat, V)>) -> nat
    decreases ms.len(),
{
    if ms.len() == 0 {
        0
    } else {
        ms[0].0 + total_length(ms.drop_first())
    }
}

/// `acc` with the value of every match of `ms` added by `coll`, in order.
pub open spec fn collect_values<T: DeepView, Coll: Collector<T>>(
    coll: Coll,
    acc: <Coll::Container as DeepView>::V,
    ms: Seq<(nat, T::V)>,
) -> <Coll::Container as DeepView>::V
    decreases ms.len(),
{
    if ms.len() == 0 {
        acc
    } else {
        collect_values(coll, coll.spec_consume(acc, ms[0].1), ms.drop_first())
    }
}

/// The rest of a repetition from `off` consumes every later successive match
/// and collects the value of each.
proof fn lemma_rep_loop_collects<'a, E, C, P, Coll>(
    p: P,
    coll: Coll,
    s: Seq<u8>,
    start: nat,
    off: nat,
    ctx: C,
    acc: <Coll::Container as DeepView>::V,
    errs: Seq<ErrorLocation<E>>,
) where P: Parser<'a, E, C>, Coll: Collector<P::Output>
    requires
        start <= off,
    ensures
        ({
            let ms = successive_matches(p, s, off, ctx);
            rep_loop(p, coll, s, start, off, ctx, acc, errs).0.res == Some(
                (((off - start) + total_length(ms)) as nat, collect_values(coll, acc, ms)),
            )
        }),
    decreases s.len() - off,
{
    let o = p.spec_parse(s, off, ctx);
    if let Some((n, v)) = o.res {
        if 0 < n && off + n <= s.len() {
            let p2 = p.spec_next(s, off, ctx);
            let rest = successive_matches(p2, s, off + n, o.ctx);
            let ms = seq![(n, v)] + rest;
            assert(ms.drop_first() =~= rest);
            assert(ms[0] == (n, v));
            lemma_rep_loop_collects(
                p2,
                coll,
                s,
                start,
                off + n,
                o.ctx,
                coll.spec_consume(acc, v),
                errs + o.errs,
            );
        }
    }
}

/// Where `p.rep(coll)` matches, it consumes the first match of `p` and then
/// every successive match, and its value is `coll`'s empty container with the
/// value of each match after the first added in order, whatever its length.
pub proof fn law_rep_collects_every_later_match<'a, E, C, P, Coll>(
    p: P,
    coll: Coll,
    s: Seq<u8>,
    cur: nat,
    ctx: C,
) where P: Parser<'a, E, C>, Coll: Collector<P::Output>
    ensures
        ({
            let o = p.spec_parse(s, cur, ctx);
            let q = <Repeat<P, Coll> as Parser<'a, E, C>>::spec_parse(&Repeat { p, coll }, s, cur, ctx);
            match o.res {
                None => q.res is None,
                Some((n1, _)) => {
                    let ms = successive_matches(p.spec_next(s, cur, ctx), s, cur + n1, o.ctx);
                    q.res == Some(
                        (n1 + total_length(ms), collect_values(coll, coll.spec_init(), ms)),
                    )
                },
            }
        }),
{
    let o = p.spec_parse(s, cur, ctx);
    if let Some((n1, _)) = o.res {
        lemma_rep_loop_collects(
            p.spec_next(s, cur, ctx),
            coll,
            s,
            cur,
            cur + n1,
            o.ctx,
            coll.spec_init(),
            o.errs,
        );
    }
}

/// `..` matches wherever a character follows the position, consuming it and
/// giving it; it fails only at the end of the text, reporting nothing.
pub proof fn law_any_char_takes_the_next_char<'a, E>(any: RangeFull, s: Seq<u8>, cur: nat) where
    E: ErrorFrom<ParseError>,

    ensures
        ({
            let q = <RangeFull as Parser<'a, E, ()>>::spec_parse(&any, s, cur, ());
            &&& q.res == match spec_next_char(s, cur) {
                Some((c, w)) => Some((w, c)),
                None => None,
            }
            &&& q.errs.len() == 0
        }),
{
}

/// A set of characters matches exactly where the next character is a member
/// of the set, consuming it and giving it; elsewhere it reports that one of
/// the set was expected, at the position.
pub proof fn law_char_set_matches_its_members<'a, E>(set: &'static [char], s: Seq<u8>, cur: nat) where
    E: ErrorFrom<ParseError>,

    ensures
        ({
            let q = <&'static [char] as Parser<'a, E, ()>>::spec_parse(&set, s, cur, ());
            match spec_next_char(s, cur) {
                Some((c, w)) if set@.contains(c) => q.res == Some((w, c)) && q.errs.len() == 0,
                _ => q.res is None && q.errs == seq![
                    error_at(E::spec_error_from(ParseError::ExpectedSymbol(set)), cur),
                ],
            }
        }),
{
}

/// A range of characters matches exactly where the next character lies in it
/// (from its start to its end, the end left out once the range is exhausted),
/// consuming it and giving it; elsewhere it reports the range, at the position.
pub proof fn law_char_range_matches_inside<'a, E>(r: RangeInclusive<char>, s: Seq<u8>, cur: nat) where
    E: ErrorFrom<ParseError>,

    ensures
        ({
            let q = <RangeInclusive<char> as Parser<'a, E, ()>>::spec_parse(&r, s, cur, ());
            match spec_next_char(s, cur) {
                Some((c, w)) if r@.start <= c && (c < r@.end || (c == r@.end && !r@.exhausted)) => q.res
                    == Some((w, c)) && q.errs.len() == 0,
                _ => q.res is None && q.errs == seq![
                    error_at(E::spec_error_from(ParseError::ExpectedRange(r)), cur),
                ],
            }
        }),
{
}

/// `char_filter(f, name)` matches exactly where `f` holds of the next
/// character, whatever character it is, consuming it and giving it; elsewhere
/// it reports `ExpectedToken(name)` at the position.
pub proof fn law_char_filter_matches_where_f_holds<'a, E, C, F>(
    f: F,
    name: &'static str,
    s: Seq<u8>,
    cur: nat,
    ctx: C,
) where F: Fn(char) -> bool, E: ErrorFrom<ParseError>
    ensures
        ({
            let q = <Filter<F> as Parser<'a, E, C>>::spec_parse(
                &Filter { f, parser_name: name },
                s,
                cur,
                ctx,
            );
            match spec_next_char(s, cur) {
                Some((c, w)) if pred_holds(f, c) => q.res == Some((w, c)) && q.errs.len() == 0,
                _ => q.res is None && q.errs == seq![
                    error_at(E::spec_error_from(ParseError::ExpectedToken(name)), cur),
                ],
            }
        }),
{
}

/// A predicate used as a parser matches exactly where it holds of the next
/// character, consuming it and giving it, and reports nothing.
pub proof fn law_predicate_matches_where_it_holds<'a, F>(f: F, s: Seq<u8>, cur: nat) where
    F: Fn(char) -> bool,

    ensures
        ({
            let q = <F as Parser<'a, ParseError, ()>>::spec_parse(&f, s, cur, ());
            &&& q.res == match spec_next_char(s, cur) {
                Some((c, w)) => if pred_holds(f, c) {
                    Some((w, c))
                } else {
                    None
                },
                None => None,
            }
            &&& q.errs.len() == 0
        }),
{
}

/// For a parser whose value is kept, `p.opt()` gives `Some` of the value of
/// `p`, consuming what `p` consumes, where `p` matches, and `None`, consuming
/// nothing, where it fails.
pub proof fn law_opt_keeps_the_value<'a, E, C, P>(p: P, s: Seq<u8>, cur: nat, ctx: C) where
    P: Parser<'a, E, C, Kind = Keep>,

    ensures
        ({
            let o = p.spec_parse(s, cur, ctx);
            let q = <Optional<P> as Parser<'a, E, C>>::spec_parse(&Optional { p }, s, cur, ctx);
            q.res == match o.res {
                Some((n, x)) => Some((n, Some(x))),
                None => Some((0nat, None::<<P::Output as DeepView>::V>)),
            }
        }),
{
}

/// For a parser whose value is dropped, `p.opt()` gives `()`, consuming what
/// `p` consumes where `p` matches and nothing where it fails.
pub proof fn law_opt_of_a_dropped_parser<'a, E, C, P>(p: P, s: Seq<u8>, cur: nat, ctx: C) where
    P: Parser<'a, E, C, Kind = Ignore>,

    ensures
        ({
            let o = p.spec_parse(s, cur, ctx);
            let q = <Optional<P> as Parser<'a, E, C>>::spec_parse(&Optional { p }, s, cur, ctx);
            q.res == match o.res {
                Some((n, _)) => Some((n, ())),
                None => Some((0nat, ())),
            }
        }),
{
}

/// `p.try_map(f)` fails where `p` fails; where `p` matches, it gives what `f`
/// gives for the value of `p`, consuming what `p` consumed, and where `f`
/// fails it reports `f`'s error over exactly the bytes `p` consumed.
pub proof fn law_try_map_applies_f<'a, E, C, P, F, V, E2>(
    p: P,
    f: F,
    s: Seq<u8>,
    cur: nat,
    ctx: C,
) where
    P: Parser<'a, E, C>,
    F: Fn(P::Output) -> Result<V, E2>,
    V: DeepView,
    E: ErrorFrom<E2>,

    ensures
        ({
            let o = p.spec_parse(s, cur, ctx);
            let q = <TryMap<P, F> as Parser<'a, E, C>>::spec_parse(&TryMap { p, f }, s, cur, ctx);
            match o.res {
                None => q.res is None && q.errs == o.errs,
                Some((n, x)) => match fn1_try_view::<P::Output, V, E2, F>(f, x) {
                    Ok(v) => q.res == Some((n, v)) && q.errs == o.errs,
                    Err(e) => q.res is None && q.errs == o.errs.push(
                        ErrorLocation(
                            E::spec_error_from(e),
                            Range { start: cur as usize, end: (cur + n) as usize },
                        ),
                    ),
                },
            }
        }),
{
}

/// The successive rounds of a delimited list from `off`: the bytes each round
/// consumes and the values of its delimiter and element, each round run where
/// the one before stopped with the states and context it left, for as long as
/// a delimiter and then an element match, consume something and stay within
/// the text.
pub open spec fn successive_rounds<'a, E, C, P1: Parser<'a, E, C>, P2: Parser<'a, E, C>>(
    elem: P1,
    delim: P2,
    s: Seq<u8>,
    off: nat,
    ctx: C,
) -> Seq<(nat, <P2::Output as DeepView>::V, <P1::Output as DeepView>::V)>
    decreases s.len() - off,
{
    let od = delim.spec_parse(s, off, ctx);
    match od.res {
        None => Seq::empty(),
        Some((dl, dv)) => {
            let oe = elem.spec_parse(s, off + dl, od.ctx);
            match oe.res {
                None => Seq::empty(),
                Some((el, ev)) => if 0 < dl + el && off + dl + el <= s.len() {
                    seq![(dl + el, dv, ev)] + successive_rounds(
                        elem.spec_next(s, off + dl, od.ctx),
                        delim.spec_next(s, off, ctx),
                        s,
                        off + dl + el,
                        oe.ctx,
                    )
                } else {
                    Seq::empty()
                },
            }
        },
    }
}

/// The sum of the lengths of the rounds `rs`.
pub open spec fn rounds_length<D, T>(rs: Seq<(nat, D, T)>) -> nat
    decreases rs.len(),
{
    if rs.len() == 0 {
        0
    } else {
        rs[0].0 + rounds_length(rs.drop_first())
    }
}

/// `acc` with the delimiter and element of every round of `rs` added by
/// `coll`, in order.
pub open spec fn collect_rounds<T: DeepView, D: DeepView, Coll: DelimitedCollector<T, D>>(
    coll: Coll,
    acc: <Coll::Container as DeepView>::V,
    rs: Seq<(nat, D::V, T::V)>,
) -> <Coll::Container as DeepView>::V
    decreases rs.len(),
{
    if rs.len() == 0 {
        acc
    } else {
        collect_rounds(coll, coll.spec_consume(acc, rs[0].1, rs[0].2), rs.drop_first())
    }
}

/// The rest of a delimited list from `off` consumes every later successive
/// round and collects the delimiter and element of each.
proof fn lemma_delim_loop_collects<'a, E, C, P1, P2, Coll>(
    elem: P1,
    delim: P2,
    coll: Coll,
    s: Seq<u8>,
    start: nat,
    off: nat,
    ctx: C,
    acc: <Coll::Container as DeepView>::V,
    errs: Seq<ErrorLocation<E>>,
) where
    P1: Parser<'a, E, C>,
    P2: Parser<'a, E, C>,
    Coll: DelimitedCollector<P1::Output, P2::Output>,

    requires
        start <= off,
    ensures
        ({
            let rs = successive_rounds(elem, delim, s, off, ctx);
            delim_loop(elem, delim, coll, s, start, off, ctx, acc, errs).0.res == Some(
                (((off - start) + rounds_length(rs)) as nat, collect_rounds(coll, acc, rs)),
            )
        }),
    decreases s.len() - off,
{
    let od = delim.spec_parse(s, off, ctx);
    if let Some((dl, dv)) = od.res {
        let oe = elem.spec_parse(s, off + dl, od.ctx);
        if let Some((el, ev)) = oe.res {
            if 0 < dl + el && off + dl + el <= s.len() {
                let elem2 = elem.spec_next(s, off + dl, od.ctx);
                let delim2 = delim.spec_next(s, off, ctx);
                let rest = successive_rounds(elem2, delim2, s, off + dl + el, oe.ctx);
                let rs = seq![(dl + el, dv, ev)] + rest;
                assert(rs.drop_first() =~= rest);
                assert(rs[0] == (dl + el, dv, ev));
                lemma_delim_loop_collects(
                    elem2,
                    delim2,
                    coll,
                    s,
                    start,
                    off + dl + el,
                    oe.ctx,
                    coll.spec_consume(acc, dv, ev),
                    errs + od.errs + oe.errs,
                );
            }
        }
    }
}

/// Where `elem.delim_by(delim, coll)` matches, it consumes the first element
/// and then every successive round of a delimiter and an element, and its
/// value is `coll`'s container of the first element with the delimiter and
/// element of each later round added in order; a delimiter whose element
/// fails is neither consumed nor collected.
pub proof fn law_delim_by_collects_every_round<'a, E, C, P1, P2, Coll>(
    elem: P1,
    delim: P2,
    coll: Coll,
    s: Seq<u8>,
    cur: nat,
    ctx: C,
) where
    P1: Parser<'a, E, C>,
    P2: Parser<'a, E, C>,
    Coll: DelimitedCollector<P1::Output, P2::Output>,

    ensures
        ({
            let o = elem.spec_parse(s, cur, ctx);
            let q = <DelimBy<P1, P2, Coll> as Parser<'a, E, C>>::spec_parse(
                &DelimBy { elem, delim, coll },
                s,
                cur,
                ctx,
            );
            match o.res {
                None => q.res is None,
                Some((n1, v1)) => {
                    let rs = successive_rounds(elem.spec_next(s, cur, ctx), delim, s, cur + n1, o.ctx);
                    q.res == Some((n1 + rounds_length(rs), collect_rounds(coll, coll.spec_from(v1), rs)))
                },
            }
        }),
{
    let o = elem.spec_parse(s, cur, ctx);
    if let Some((n1, v1)) = o.res {
        lemma_delim_loop_collects(
            elem.spec_next(s, cur, ctx),
            delim,
            coll,
            s,
            cur,
            cur + n1,
            o.ctx,
            coll.spec_from(v1),
            o.errs,
        );
    }
}

/// The number of bytes of the run of whitespace characters from `pos`.
pub open spec fn whitespace_run(s: Seq<u8>, pos: nat) -> nat
    decreases s.len() - pos,
{
    match spec_next_char(s, pos) {
        Some((c, w)) => if is_white_space(c) && 0 < w && pos + w <= s.len() {
            w + whitespace_run(s, pos + w)
        } else {
            0
        },
        None => 0,
    }
}

/// The rest of a run of whitespace from `off` consumes the whole run.
proof fn lemma_whitespace_loop_length<'a, E>(
    s: Seq<u8>,
    start: nat,
    off: nat,
    errs: Seq<ErrorLocation<E>>,
)
    requires
        start <= off,
    ensures
        rep_loop::<'a, E, (), Whitespace, Ignore>(Whitespace, Ignore, s, start, off, (), (), errs).0.res
            == Some((((off - start) + whitespace_run(s, off)) as nat, ())),
    decreases s.len() - off,
{
    let o = <Whitespace as Parser<'a, E, ()>>::spec_parse(&Whitespace, s, off, ());
    if let Some((c, w)) = spec_next_char(s, off) {
        if is_white_space(c) && 0 < w && off + w <= s.len() {
            assert(o.res == Some((w, c)));
            lemma_whitespace_loop_length(s, start, off + w, errs + o.errs);
        }
    }
}

/// `sep` consumes exactly the run of whitespace characters from a position of
/// a UTF-8 text, and always matches.
pub proof fn law_sep_consumes_the_whitespace_run<'a, E>(s: Seq<u8>, cur: nat) where
    E: ErrorFrom<ParseError>,

    requires
        valid_utf8(s),
        valid_pos(s, cur as int),
    ensures
        <sep as Parser<'a, E, ()>>::spec_parse(&sep, s, cur, ()).res == Some(
            (whitespace_run(s, cur), ()),
        ),
{
    if let Some((c, w)) = spec_next_char(s, cur) {
        if is_white_space(c) {
            lemma_next_char_boundary(s, cur as int);
            lemma_whitespace_loop_length(s, cur, cur + w, Seq::<ErrorLocation<E>>::empty());
        }
    }
}

/// `p.lookbehind()` matches, consuming nothing, exactly where the
/// `parsed_len()` bytes just before the position start at a character
/// boundary and `p` matches there.
pub proof fn law_lookbehind_checks_the_bytes_before<'a, E, C, P>(p: P, s: Seq<u8>, cur: nat, ctx: C) where
    P: FixedLengthParser<'a, E, C>,

    ensures
        ({
            let k = p.spec_parsed_len();
            let q = <Lookbehind<P> as Parser<'a, E, C>>::spec_parse(&Lookbehind { p }, s, cur, ctx);
            &&& (q.res is Some <==> (k <= cur && is_char_boundary(s, cur - k) && p.spec_parse(
                s,
                (cur - k) as nat,
                ctx,
            ).res is Some))
            &&& q.res is Some ==> q.res == Some((0nat, ()))
        }),
{
}

} // verus!
