//! Generator for database-access code in a Go-like destination language.
//!
//! The crate turns a restricted table-definition dialect into, per table, a
//! field-tagged record type plus four database-access routines (insert,
//! fetch-by-identifier, optimistic-concurrency update, delete).  The mapping
//! rules and the text templates are stated as spec functions and every
//! emitter is proved to produce exactly the text those templates describe.
//!
//! A table without an identifier-named column is passed through rather than
//! rejected: its identifier type is the empty string, which leaves the
//! emitted fetch and delete signatures degenerate.  That surfaces at use of
//! the emitted code, not at generation time.

pub mod casing;
pub mod emit;
pub mod mapper;
pub mod parser;
pub mod schema;
pub mod text;
