//! Incremental parsing of a buffer that keeps growing: a parser runs as far
//! as the items received allow, reports that it needs more, and is resumed
//! once more items have been appended.

pub mod anchor;
pub mod cursor;
pub mod input;
pub mod parser;
pub mod primitives;

pub use anchor::Anchor;
pub use cursor::{Cursor, CursorRef, InputRef, Read, ReadAtLeast};
pub use input::{Input, Parsing, ParsingInput};
pub use parser::{Parser, Step};
pub use primitives::{just, many0, many1, tag, Just, Many0, Many1, Tag};
