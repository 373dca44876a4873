//! The names most programs that write parsers need, in one place.
pub use crate::error::{
    DebugErrorHandler, ErrorCell, ErrorFrom, ErrorHandler, ErrorLocation, ParseError,
};
pub use crate::output::{
    collect, lfold, Chain, ChainImpl, ChainKind, Collect, Collector, DelimitedCollector, Ignore,
    Insert, Keep, OptionalOutput, ToVec,
};
pub use crate::parser_prims::{char_filter, lit, sep};
pub use crate::parser_trait::{FixedLengthParser, Parser};
pub use crate::{Context, Input, MatchResult, ParserResult};
