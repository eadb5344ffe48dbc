//! Artifact grouping for a GraphQL compiler, and extraction of resolver schema
//! declarations from annotated TypeScript declarations.
//!
//! The library works on plain models of its inputs: the compiled IR programs
//! are described by `program`, and parsed TypeScript modules by `ast`.
//!
//! - `program`, `artifacts`, `grouping`: operations grouped by document, the
//!   artifact generated for each group and each reader fragment, and the
//!   merging of artifacts by source file.
//! - `ast`, `extract`, `resolution`: the declarations that a module holds and
//!   its index of imported names.
//! - `translate`, `scalars`, `schema`: TypeScript type annotations translated
//!   into GraphQL types with semantic non-null levels.
//! - `extractor`, `resolve`: collection of resolver declarations across
//!   modules, then resolution of the deferred fields.
//! - `laws`: properties that relate several of these functions.

pub mod location;

pub use location::Location;
pub use location::LocationHandler;
pub use location::SourceLocationKey;
pub use location::Span;
pub use location::WithLocation;

pub mod ast;
pub mod diagnostics;
pub mod resolution;
pub mod schema;
pub mod scalars;
pub mod translate;
pub mod laws;
pub mod program;
pub mod artifacts;
pub mod grouping;
pub mod text;
pub mod extract;
pub mod extractor;
pub mod resolve;
