//! Subcommand router for a cryptocurrency wallet tool: models the parsed
//! wallet invocation, resolves the indexing-server endpoint by layered
//! precedence, decides between a signing-capable named wallet and a
//! read-only address-bound view, and maps each operation to its handler.

pub mod endpoint;
pub mod model;
pub mod router;
