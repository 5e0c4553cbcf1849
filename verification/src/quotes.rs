//! Per-key quoting classification: which string-literal keys require quotes,
//! and which numeric literals may legally be rendered as quoted strings.

use vstd::prelude::*;
use crate::options::SourceType;

verus! {

/// Whether `s` is a valid ECMAScript identifier name.
pub uninterp spec fn is_identifier_text(s: Seq<char>) -> bool;

/// Relies on `oxc_syntax::identifier::is_identifier_name`: the ECMAScript
/// IdentifierName test, a deterministic function of the characters alone.
#[verifier::external_body]
fn check_identifier_name(s: &str) -> (r: bool)
    ensures
        r == is_identifier_text(s@),
{
    oxc_syntax::identifier::is_identifier_name(s)
}

/// An ASCII decimal digit.
pub open spec fn spec_is_ascii_digit(c: char) -> bool {
    48 <= c as u32 <= 57
}

/// A string-literal property key: its decoded value and, where the source
/// text is known, the raw literal including its quote characters.
///
/// Whether the value survives the 64-bit float round trip (parse it back,
/// print it again, compare) is decided with float arithmetic, which this
/// core does not perform; the host computes it once and hands it in as
/// `reprints_exactly`. It rules out octal-looking digit sequences and any
/// numeral whose re-print loses precision or changes notation.
pub struct StringKey {
    pub value: String,
    pub raw: Option<String>,
    pub reprints_exactly: bool,
}

impl StringKey {
    /// The raw source used an escape sequence: the characters between the
    /// quote marks differ from the decoded value.
    pub open spec fn spec_has_escape(&self) -> bool {
        &&& self.raw matches Some(r)
        &&& r@.len() >= 2
        &&& r@.subrange(1, r@.len() - 1) != self.value@
    }

    /// The decoded value reads as a plain number: it starts with an ASCII
    /// digit and survives the 64-bit float round trip unchanged.
    pub open spec fn spec_plain_number(&self) -> bool {
        &&& self.value@.len() > 0
        &&& spec_is_ascii_digit(self.value@[0])
        &&& self.reprints_exactly
    }

    /// The key cannot be rendered unquoted: either an escape sequence would
    /// be lost, or the value is neither a valid identifier name nor (outside
    /// type-bearing sources) a round-trippable plain number.
    pub open spec fn spec_requires_quotes(&self, source: SourceType) -> bool {
        ||| self.spec_has_escape()
        ||| (!is_identifier_text(self.value@) && !(source !is TypeScript
            && self.spec_plain_number()))
    }
}

/// Decides whether a string-literal property key requires quotes.
pub fn string_literal_key_requires_quotes(s: &StringKey, source: SourceType) -> (r: bool)
    ensures
        r == s.spec_requires_quotes(source),
{
    if let Some(raw) = &s.raw {
        let raw_len: usize = raw.as_str().unicode_len();
        if raw_len >= 2 {
            let content: String = raw.as_str().substring_char(1, raw_len - 1).to_owned();
            if !(content == s.value) {
                return true;
            }
        }
    }
    if check_identifier_name(s.value.as_str()) {
        return false;
    }
    if !source.is_typescript() {
        let value_len: usize = s.value.as_str().unicode_len();
        if value_len > 0 {
            let first: u32 = s.value.as_str().get_char(0) as u32;
            if 48 <= first && first <= 57 {
                if s.reprints_exactly {
                    return false;
                }
            }
        }
    }
    true
}

/// A numeric-literal property key: the canonical decimal print of its value,
/// and the raw source text where it is known.
pub struct NumericKey {
    pub normalized: String,
    pub raw: Option<String>,
}

impl NumericKey {
    /// Quoting is legal for this literal: never in a type-bearing source;
    /// otherwise when no raw text is known, when the canonical print equals
    /// the raw text, or when the raw text starts or ends with a decimal
    /// point.
    pub open spec fn spec_can_quote(&self, source: SourceType) -> bool {
        &&& source !is TypeScript
        &&& match self.raw {
            Some(r) => {
                ||| self.normalized@ == r@
                ||| (r@.len() > 0 && r@[0] == '.')
                ||| (r@.len() > 0 && r@[r@.len() - 1] == '.')
            },
            None => true,
        }
    }
}

/// Decides whether a numeric literal may be rendered as a quoted string,
/// returning the canonical decimal text to quote when it may.
pub fn can_quote_numeric_literal(num: &NumericKey, source: SourceType) -> (r: Option<String>)
    ensures
        r is Some <==> num.spec_can_quote(source),
        r matches Some(t) ==> t@ == num.normalized@,
{
    if source.is_typescript() {
        return None;
    }
    if let Some(raw) = &num.raw {
        if num.normalized == *raw {
            return Some(num.normalized.clone());
        }
        let raw_len: usize = raw.as_str().unicode_len();
        if raw_len > 0 {
            let first: char = raw.as_str().get_char(0);
            let last: char = raw.as_str().get_char(raw_len - 1);
            if first == '.' || last == '.' {
                return Some(num.normalized.clone());
            }
        }
        None
    } else {
        Some(num.normalized.clone())
    }
}

/// An escape sequence in the raw source forces quotes, whatever the decoded
/// value would otherwise allow.
pub proof fn lemma_escape_forces_quotes(s: &StringKey, source: SourceType)
    requires
        s.spec_has_escape(),
    ensures
        s.spec_requires_quotes(source),
{
}

/// Quoting of a numeric literal is offered exactly when its canonical print
/// equals the raw text, or the raw text starts with `.`, or it ends with
/// `.` — and never in a type-bearing source.
pub proof fn lemma_numeric_quote_legality(num: &NumericKey, source: SourceType, r: Seq<char>)
    requires
        num.raw matches Some(raw) && raw@ == r,
    ensures
        num.spec_can_quote(source) <==> (source !is TypeScript && (num.normalized@ == r || (
        r.len() > 0 && r[0] == '.') || (r.len() > 0 && r[r.len() - 1] == '.'))),
{
}

} // verus!
