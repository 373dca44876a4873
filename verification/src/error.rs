//! Errors, where they were found, and the handlers that receive them.
use core::marker::PhantomData;
use core::ops::{Range, RangeInclusive};
use std::io::Write;
use vstd::prelude::*;
use vstd::std_specs::iter::IteratorSpec;
use vstd::std_specs::range::RangeInclusiveView;
use vstd::string::*;

verus! {

/// Why a parser failed.
#[derive(Debug, PartialEq, Eq)]
pub enum ParseError {
    /// A literal substring was expected; the second field names the parser.
    ExpectedLiteral(&'static str, &'static str),
    /// A literal character was expected.
    ExpectedChar(char),
    /// The named parser did not match.
    ExpectedToken(&'static str),
    /// One of a set of characters was expected.
    ExpectedSymbol(&'static [char]),
    /// A character in a range was expected.
    ExpectedRange(RangeInclusive<char>),
    /// A parser matched where it must not, or input was left over.
    UnexpectedToken,
}

/// How a message shows a character of a literal (`literal`) or of a parser's
/// name: in a literal, a newline as `<newline>` and a tab as `<tab>`; in a
/// name, an underscore as a space; any other character as itself.
pub open spec fn shown_char(literal: bool, c: char) -> Seq<char> {
    if literal && c == '\n' {
        "<newline>"@
    } else if literal && c == '\t' {
        "<tab>"@
    } else if !literal && c == '_' {
        " "@
    } else {
        seq![c]
    }
}

/// How a message shows the text `s` of a literal (`literal`) or of a parser's name.
pub open spec fn shown(literal: bool, s: Seq<char>) -> Seq<char>
    decreases s.len(),
{
    if s.len() == 0 {
        Seq::empty()
    } else {
        shown(literal, s.drop_last()) + shown_char(literal, s.last())
    }
}

/// What `Debug` writes for a slice of characters.
pub uninterp spec fn debug_chars(items: Seq<char>) -> Seq<char>;

/// What `Debug` writes for a range of characters.
pub uninterp spec fn debug_char_range(r: RangeInclusiveView<char>) -> Seq<char>;

/// The message that describes an error.
pub open spec fn spec_message(e: ParseError) -> Seq<char> {
    match e {
        ParseError::ExpectedLiteral(lit, name) => "Expected '"@ + shown(true, lit@)
            + "' while parsing "@ + shown(false, name@),
        ParseError::ExpectedToken(token) => "Expected "@ + shown(false, token@),
        ParseError::UnexpectedToken => "Unexpected token"@,
        ParseError::ExpectedSymbol(items) => "Expected one of "@ + debug_chars(items@),
        ParseError::ExpectedChar(c) => "Expected '"@ + seq![c] + "'"@,
        ParseError::ExpectedRange(r) => "Expected symbol in "@ + debug_char_range(r@),
    }
}

/// `String::push`: `s` with `c` added at its end.
#[verifier::external_body]
fn push_char(s: &mut String, c: char)
    ensures
        final(s)@ == old(s)@.push(c),
{
    s.push(c)
}

/// `Debug` formatting of a slice of characters, such as `['a', 'b']`.
#[verifier::external_body]
fn debug_char_slice(items: &[char]) -> (r: String)
    ensures
        r@ == debug_chars(items@),
{
    format!("{:?}", items)
}

/// `Debug` formatting of a range of characters, such as `'a'..='z'`.
#[verifier::external_body]
fn debug_range(r: &RangeInclusive<char>) -> (d: String)
    ensures
        d@ == debug_char_range(r@),
{
    format!("{:?}", r)
}

/// Appends `s` to `out`, each character shown as a literal shows it
/// (`literal`) or as a parser's name shows it.
fn push_shown(out: &mut String, s: &str, literal: bool)
    ensures
        final(out)@ == old(out)@ + shown(literal, s@),
{
    let ghost start = out@;
    let mut it = s.chars();
    let ghost mut done: Seq<char> = Seq::empty();
    loop
        invariant
            it.obeys_prophetic_iter_laws(),
            done + it.remaining() == s@,
            out@ == start + shown(literal, done),
            it.decrease() is Some,
        ensures
            out@ == start + shown(literal, s@),
        decreases it.decrease()->0,
    {
        let ghost before = it.remaining();
        match it.next() {
            Some(c) => {
                proof {
                    assert(before[0] == c);
                    assert(done.push(c) + it.remaining() =~= done + before);
                    assert(done.push(c).drop_last() =~= done);
                }
                if literal && c == '\n' {
                    out.append("<newline>");
                } else if literal && c == '\t' {
                    out.append("<tab>");
                } else if !literal && c == '_' {
                    out.append(" ");
                } else {
                    push_char(out, c);
                }
                proof {
                    done = done.push(c);
                    assert(out@ =~= start + shown(literal, done));
                }
            },
            None => {
                assert(done =~= s@);
                break;
            },
        }
    }
}

impl ParseError {
    /// The message that describes this error, such as
    /// `Expected 'true' while parsing true`.
    pub fn message(&self) -> (r: String)
        ensures
            r@ == spec_message(*self),
    {
        match self {
            ParseError::ExpectedLiteral(lit, name) => {
                let mut out = String::from_str("Expected '");
                push_shown(&mut out, lit, true);
                out.append("' while parsing ");
                push_shown(&mut out, name, false);
                out
            },
            ParseError::ExpectedToken(token) => {
                let mut out = String::from_str("Expected ");
                push_shown(&mut out, token, false);
                out
            },
            ParseError::UnexpectedToken => String::from_str("Unexpected token"),
            ParseError::ExpectedSymbol(items) => {
                let d = debug_char_slice(items);
                String::from_str("Expected one of ").concat(d.as_str())
            },
            ParseError::ExpectedChar(c) => {
                let mut out = String::from_str("Expected '");
                push_char(&mut out, *c);
                out.append("'");
                out
            },
            ParseError::ExpectedRange(r) => {
                let d = debug_range(r);
                String::from_str("Expected symbol in ").concat(d.as_str())
            },
        }
    }
}

/// Conversion of an error into the error type of a parser.
pub trait ErrorFrom<T>: Sized {
    spec fn spec_error_from(t: T) -> Self;

    fn error_from(t: T) -> (r: Self)
        ensures
            r == Self::spec_error_from(t),
    ;
}

impl<T> ErrorFrom<T> for T {
    open spec fn spec_error_from(t: T) -> T {
        t
    }

    fn error_from(t: T) -> (r: T) {
        t
    }
}

/// An error together with the byte range of the input it concerns.
#[derive(Debug)]
pub struct ErrorLocation<E>(pub E, pub Range<usize>);

/// The error `e` at the empty range at `pos`.
pub open spec fn error_at<E>(e: E, pos: nat) -> ErrorLocation<E> {
    ErrorLocation(e, Range { start: pos as usize, end: pos as usize })
}

/// Receives the errors that parsers report, in the order they are reported.
pub trait ErrorHandler<E>: Sized {
    /// The handler after receiving `e`.
    spec fn spec_error(self, e: ErrorLocation<E>) -> Self;

    fn error(&mut self, err: E, loc: Range<usize>)
        ensures
            *final(self) == old(self).spec_error(ErrorLocation(err, loc)),
    ;
}

/// The handler after receiving each of `es` in turn.
pub open spec fn report_all<E, H: ErrorHandler<E>>(h: H, es: Seq<ErrorLocation<E>>) -> H
    decreases es.len(),
{
    if es.len() == 0 {
        h
    } else {
        report_all(h, es.drop_last()).spec_error(es.last())
    }
}

/// Receiving two runs of errors is receiving their concatenation.
pub proof fn lemma_report_all_concat<E, H: ErrorHandler<E>>(
    h: H,
    a: Seq<ErrorLocation<E>>,
    b: Seq<ErrorLocation<E>>,
)
    ensures
        report_all(report_all(h, a), b) == report_all(h, a + b),
    decreases b.len(),
{
    if b.len() == 0 {
        assert(a + b =~= a);
    } else {
        lemma_report_all_concat(h, a, b.drop_last());
        assert((a + b).drop_last() =~= a + b.drop_last());
        assert((a + b).last() == b.last());
    }
}

/// An error handler that writes each error it receives, with its location,
/// to standard error.
pub struct DebugErrorHandler<E>(PhantomData<E>);

impl<E> Clone for DebugErrorHandler<E> {
    fn clone(&self) -> (r: Self)
        ensures
            r == *self,
    {
        DebugErrorHandler(PhantomData)
    }
}

impl<E> Default for DebugErrorHandler<E> {
    fn default() -> (r: Self) {
        DebugErrorHandler(PhantomData)
    }
}

/// Writes `Error at {loc:?}: {err:?}` and a newline to standard error.
#[verifier::external_body]
fn write_error<E: core::fmt::Debug>(err: &E, loc: &Range<usize>) {
    let _ = writeln!(std::io::stderr(), "Error at {:?}: {:?}", loc, err);
}

impl<E: core::fmt::Debug> ErrorHandler<E> for DebugErrorHandler<E> {
    /// Writing an error leaves the handler as it was.
    open spec fn spec_error(self, e: ErrorLocation<E>) -> Self {
        self
    }

    fn error(&mut self, err: E, loc: Range<usize>) {
        write_error(&err, &loc);
    }
}

/// An error handler that keeps the last error it received.
pub struct ErrorCell<E> {
    inner: Option<ErrorLocation<E>>,
}

impl<E> View for ErrorCell<E> {
    type V = Option<ErrorLocation<E>>;

    closed spec fn view(&self) -> Option<ErrorLocation<E>> {
        self.inner
    }
}

/// The last of a run of errors, if there is one.
pub open spec fn last_error<E>(es: Seq<ErrorLocation<E>>) -> Option<ErrorLocation<E>> {
    if es.len() == 0 {
        None
    } else {
        Some(es.last())
    }
}

impl<E> ErrorCell<E> {
    /// An empty cell.
    pub fn new() -> (r: Self)
        ensures
            r@ is None,
    {
        ErrorCell { inner: None }
    }

    /// The last error received, if any.
    pub fn into_inner(self) -> (r: Option<ErrorLocation<E>>)
        ensures
            r == self@,
    {
        self.inner
    }

    /// A cell keeps the last of the errors it received, or what it held before.
    pub proof fn lemma_keeps_last(self, es: Seq<ErrorLocation<E>>)
        ensures
            report_all(self, es)@ == (if es.len() == 0 {
                self@
            } else {
                Some(es.last())
            }),
        decreases es.len(),
    {
        if es.len() > 0 {
            self.lemma_keeps_last(es.drop_last());
        }
    }
}

impl<E> Default for ErrorCell<E> {
    fn default() -> (r: Self)
        ensures
            r@ is None,
    {
        ErrorCell { inner: None }
    }
}

impl<E> ErrorHandler<E> for ErrorCell<E> {
    closed spec fn spec_error(self, e: ErrorLocation<E>) -> Self {
        ErrorCell { inner: Some(e) }
    }

    fn error(&mut self, err: E, loc: Range<usize>) {
        self.inner = Some(ErrorLocation(err, loc));
    }
}

} // verus!
