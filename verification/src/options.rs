//! Read-only formatting options and the source-language variant that the
//! policy and layout engines consult.

use vstd::prelude::*;

verus! {

/// Preferred quote character for string literals that the formatter
/// synthesizes itself.
#[derive(Clone, Copy, PartialEq, Eq, Structural, Debug)]
pub enum QuoteStyle {
    Double,
    Single,
}

impl QuoteStyle {
    pub fn is_double(&self) -> (r: bool)
        ensures
            r == (*self is Double),
    {
        matches!(self, QuoteStyle::Double)
    }

    /// The quote character this style wraps synthesized strings in.
    pub open spec fn quote_char(self) -> char {
        if self is Double {
            '"'
        } else {
            '\''
        }
    }
}

/// Policy for quoting member keys of object literals, type literals and
/// class bodies.
#[derive(Clone, Copy, PartialEq, Eq, Structural, Debug)]
pub enum QuoteProperties {
    /// Unquote every key that may legally be unquoted.
    AsNeeded,
    /// Keep each key as the source wrote it.
    Preserve,
    /// Unquote when possible, but if any key of a container requires quotes,
    /// quote every key of that container.
    Consistent,
}

/// Language variant of the file being formatted; numeric keys are never
/// quoted in type-bearing sources.
#[derive(Clone, Copy, PartialEq, Eq, Structural, Debug)]
pub enum SourceType {
    JavaScript,
    TypeScript,
}

impl SourceType {
    pub fn is_typescript(&self) -> (r: bool)
        ensures
            r == (*self is TypeScript),
    {
        matches!(self, SourceType::TypeScript)
    }
}

/// The read-only option set shared by one whole format invocation.
#[derive(Clone, Copy, PartialEq, Eq, Structural, Debug)]
pub struct FormatOptions {
    pub quote_style: QuoteStyle,
    pub quote_properties: QuoteProperties,
    pub bracket_spacing: bool,
}

} // verus!
