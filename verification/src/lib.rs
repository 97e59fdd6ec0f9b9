//! A name-indexed catalog of assembly instructions, registers and directives,
//! built from the tables that `asm_lsp` ships for each instruction set and
//! assembler, and the two queries that are answered from it: the description
//! of one token, and the list of every known name.

pub mod catalog;
pub mod describe;
pub mod merge;
pub mod query;
pub mod resolver;
pub mod tables;
pub mod target;
pub mod text;

pub use catalog::{Catalog, NameLists};
pub use describe::{describe, interpret, Config, QueryError};
pub use query::{query_get, query_list, QueryGetArgs};
pub use resolver::HoverOutcome;
pub use target::{Architecture, Dialect};
pub use text::{clean_text, join_lines};
