//! Decision core of a pretty-printer for a JavaScript/TypeScript-family
//! language: a quote and property-key policy engine, a destructuring-pattern
//! layout engine, and the hashed identifier handle both depend on.

pub mod ident;
pub mod options;
pub mod object;
pub mod object_pattern_like;
pub mod quotes;
