//! The verified core of a multi-engine SQL front end.
//!
//! The caller parses SQL text into statements and tells the library of each
//! its text and its table references. Bare filesystem paths that stand where
//! a table is expected are resolved to logical table names and registered
//! with the engine once; each statement is run with its references rewritten,
//! in the order of the text. The library decides; the parser, the engine, and
//! everything that waits on them, stay with the caller.

pub mod engine;
pub mod naming;
pub mod registry;
pub mod repl;
pub mod rewrite;
pub mod schema;
pub mod session;
pub mod sql;

pub use engine::Engine;
pub use naming::derive_table_from_fs_name;
pub use registry::TableRegistry;
pub use repl::Repl;
pub use session::{Action, Event, ExecutionError, RegistrationWarning, Session};
pub use sql::{ParseError, ParsedStatement};
