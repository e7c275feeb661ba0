//! A template authorization and rendering core.
//!
//! Applications register named component schemas, compile named templates that
//! declare which components they may read, and render compiled templates
//! against a runtime context. Compilation statically rejects any template that
//! reads a variable path not reachable through the `properties` nesting of at
//! least one of its declared components.

pub mod compiler;
pub mod engine;
pub mod errors;
pub mod registry;
pub mod renderer;
pub mod resolver;
pub mod schema;
pub mod text;
