//! A parser-combinator library over UTF-8 text, with every combinator's
//! behaviour stated as a Verus contract.
//!
//! Positions and lengths are byte offsets into the source text, and every
//! successful parse ends on a character boundary.
use vstd::prelude::*;
use vstd::string::*;
use vstd::utf8::*;

pub mod combinators;
pub mod error;
pub mod func;
pub mod laws;
pub mod output;
pub mod parser_prims;
pub mod parser_trait;
pub mod prelude;
pub mod repetition;
pub mod text;
pub mod tuple;

use crate::text::{lemma_str_decodes, rest_bytes};

verus! {

broadcast use vstd::string::group_string_axioms;

/// What a parser returns on success: the number of bytes consumed and the value.
pub type ParserResult<T> = Option<(usize, T)>;

/// The context handed down to parsers.
pub type Context<'a, T> = &'a mut T;

/// What [`parser_trait::Parser::try_match`] returns: the value, or the error that ended the match.
pub type MatchResult<T, E> = Result<T, Option<error::ErrorLocation<E>>>;

/// A position in a source text: `cur` is a byte offset into `src`.
#[derive(Clone, Copy)]
pub struct Input<'a> {
    pub src: &'a str,
    pub cur: usize,
}

impl<'a> Input<'a> {
    /// The UTF-8 bytes of the source text.
    pub open spec fn bytes(&self) -> Seq<u8> {
        self.src.spec_bytes()
    }

    /// The position lies within the text, on a character boundary (and the
    /// text's length fits in `usize`, as the length of a text in memory does).
    pub open spec fn wf(&self) -> bool {
        &&& self.bytes().len() <= usize::MAX
        &&& self.cur <= self.bytes().len()
        &&& is_char_boundary(self.bytes(), self.cur as int)
    }

    /// The rest of the text from the current position.
    pub fn slice(&self) -> (r: &'a str)
        requires
            self.wf(),
        ensures
            r.spec_bytes() == rest_bytes(self.bytes(), self.cur as nat),
            r@ == decode_utf8(rest_bytes(self.bytes(), self.cur as nat)),
    {
        let (_, rest) = self.src.split_at(self.cur);
        proof {
            lemma_str_decodes(rest);
        }
        rest
    }

    /// The same text, `len` bytes further on.
    pub fn skip(self, len: usize) -> (r: Self)
        requires
            self.cur + len <= usize::MAX,
        ensures
            r.src == self.src,
            r.cur == self.cur + len,
    {
        Input { cur: self.cur + len, ..self }
    }
}

impl<'a> From<&'a str> for Input<'a> {
    fn from(value: &'a str) -> (r: Self) {
        Input { src: value, cur: 0 }
    }
}

impl<'a> vstd::std_specs::convert::FromSpecImpl<&'a str> for Input<'a> {
    open spec fn obeys_from_spec() -> bool {
        true
    }

    open spec fn from_spec(v: &'a str) -> Self {
        Input { src: v, cur: 0 }
    }
}

} // verus!
