//! The names a grammar usually needs, in one import.

pub use crate::{Index, ParseResult, Parser, Pattern, PARSE_FUEL, END_INDEX};
pub use crate::declare::{declare, recursive, Declaration};
pub use crate::error::{DefaultError, EmptyError, SimpleError};
pub use crate::fail::Fail;
pub use crate::mapper::{Mapper, Unchanged};
pub use crate::primitives::{any, end, just, nested_parse, permit, permit_map};
pub use crate::span::Bounds;
pub use crate::stream::Stream;
pub use crate::token::Token;
pub use crate::value::{Items, Value};
