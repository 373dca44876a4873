# parsall

A parser-combinator library over UTF-8 text whose combinators are verified
with Verus.

A parser implements `parser_trait::Parser<'a, E, C>`: it runs at a byte
position of a text, reports errors of type `E` to an error handler, threads a
context of type `C`, and either fails or consumes some bytes and gives a
value. Every parser also states, as spec functions, what a run does
(`spec_parse`: bytes consumed, value, errors reported in order, context left)
and its own state afterwards (`spec_next`); its `parse` is proved to do
exactly that, and to stop on a character boundary inside the text.

## Layout

- `src/lib.rs`: `Input`, a position in a text.
- `src/text.rs`: UTF-8 facts (next character, boundaries, common prefixes).
- `src/error.rs`: `ParseError` and its message, error handlers (`ErrorCell`
  keeps the last error, `DebugErrorHandler` writes each to standard error).
- `src/func.rs`: what a closure means in specifications.
- `src/output.rs`: how values are kept, dropped, chained and collected
  (`Vec`, `HashMap`, left folds).
- `src/parser_prims.rs`: literals, characters, character sets and ranges,
  predicates, whitespace (`sep`).
- `src/combinators.rs`: `then`, `or`, `map`, `try_map`, `opt`, `opt_default`,
  `drop`, `keep`, `slice`, `with_context`, `wrapped`, `lookahead`, `not`,
  `pad`, lookbehinds.
- `src/repetition.rs`: `rep` and `delim_by`.
- `src/tuple.rs`: tuples of parsers, run in turn.
- `src/laws.rs`: laws of the combinators, proved for every parser, text,
  position and context.
- `src/prelude.rs`: the names most programs need.
- `app/lib.rs`: an interactive loop over standard input, macros that write
  parsers from the combinators, and an error type that displays messages.

## Behaviour worth knowing

- `p.rep(coll)` collects the values of the matches after the first one.
- A repetition (`rep`, `delim_by`) ends where its parser matches without
  consuming anything, since such a match would repeat forever.
- A lookbehind whose window would start before the text or inside a
  character does not match (a negative lookbehind then matches).
- `try_match` succeeds only where the parser consumes the whole text; where
  text is left over it fails with `UnexpectedToken` over the rest.
- `or` holds back the errors of its alternatives and reports only the last
  one, and only where both fail.
