//! Property-key rendering policy for object literals, type literals and
//! class bodies: the container-wide consistency pre-scan, and the per-key
//! choice between bare, quoted and verbatim rendering.

use vstd::prelude::*;
use crate::ident::{Ident, byte_len};
use crate::options::{FormatOptions, QuoteStyle, SourceType};
use crate::quotes::{NumericKey, StringKey, can_quote_numeric_literal,
    string_literal_key_requires_quotes};

verus! {

/// A property/member key as the tree walker hands it to the policy engine.
pub enum PropertyKey {
    StringLiteral(StringKey),
    StaticIdentifier(Ident),
    NumericLiteral(NumericKey),
    /// Computed keys, private names and every other key form: rendered
    /// verbatim.
    Other,
}

/// The parent-kind tag handed to the external literal-string formatter.
#[derive(Clone, Copy, PartialEq, Eq, Structural, Debug)]
pub enum StringLiteralParentKind {
    /// An ordinary expression string: quoting is preserved.
    Expression,
    /// An object-member key: may be unquoted when legal.
    Member,
    /// A member key inside a force-quote container: always quoted.
    MemberForceQuotes,
}

/// What the walker knows at a key-rendering call.
pub struct KeyContext {
    /// The container-wide force-quote flag of the enclosing object, type
    /// literal or class body.
    pub force_quotes: bool,
    pub options: FormatOptions,
    pub source: SourceType,
}

/// The rendering chosen for a key.
pub enum KeyRendering {
    /// Delegate to the external literal-string formatter with this tag.
    LiteralString { kind: StringLiteralParentKind },
    /// Freshly synthesized quoted text that did not exist in the source.
    SynthesizedQuoted { text: String },
    /// Write the key exactly as the source wrote it.
    Verbatim,
}

/// `s` wrapped in a pair of `q` quote characters.
pub open spec fn spec_quote_wrap(s: Seq<char>, q: char) -> Seq<char> {
    seq![q] + s + seq![q]
}

/// The characters of `s` with its first and last characters removed.
pub open spec fn spec_unquote(s: Seq<char>) -> Seq<char> {
    s.subrange(1, s.len() - 1)
}

/// Synthesizes a quoted string: the active quote character, the text, the
/// quote character again.
fn make_quoted(text: &str, style: QuoteStyle) -> (r: String)
    ensures
        r@ == spec_quote_wrap(text@, style.quote_char()),
{
    let quote: &str = if style.is_double() {
        "\""
    } else {
        "'"
    };
    let mut out: String = String::from_str(quote);
    out.append(text);
    out.append(quote);
    proof {
        reveal_strlit("\"");
        reveal_strlit("'");
        assert(out@ =~= spec_quote_wrap(text@, style.quote_char()));
    }
    out
}

/// The tag a string-literal key is formatted with: forced when the
/// container forces quotes; an ordinary expression string for a key
/// literally equal to `constructor` on a class property definition, so its
/// required quoting is preserved; a member key otherwise.
pub open spec fn spec_string_key_kind(
    s: StringKey,
    force_quotes: bool,
    on_property_definition: bool,
) -> StringLiteralParentKind {
    if force_quotes {
        StringLiteralParentKind::MemberForceQuotes
    } else if on_property_definition && s.value@ == "constructor"@ {
        StringLiteralParentKind::Expression
    } else {
        StringLiteralParentKind::Member
    }
}

/// The key renders as some quoted string under the given force flag:
/// string-literal keys always do; identifier keys only when forced; numeric
/// keys only when forced and legally quotable; other keys never.
pub open spec fn spec_renders_quoted(key: PropertyKey, force_quotes: bool, source: SourceType) -> bool {
    match key {
        PropertyKey::StringLiteral(_) => true,
        PropertyKey::StaticIdentifier(_) => force_quotes,
        PropertyKey::NumericLiteral(n) => force_quotes && n.spec_can_quote(source),
        PropertyKey::Other => false,
    }
}

/// Chooses the rendering of a property key: string-literal keys go to the
/// external string formatter with the tag of `spec_string_key_kind`;
/// identifier and legally-quotable numeric keys are synthesized as quoted
/// strings when the container forces quotes; everything else is verbatim.
pub fn format_property_key(
    key: &PropertyKey,
    ctx: &KeyContext,
    on_property_definition: bool,
) -> (r: KeyRendering)
    ensures
        (match *key {
            PropertyKey::StringLiteral(s) => r matches KeyRendering::LiteralString { kind }
                && kind == spec_string_key_kind(s, ctx.force_quotes, on_property_definition),
            PropertyKey::StaticIdentifier(id) => if ctx.force_quotes {
                r matches KeyRendering::SynthesizedQuoted { text } && text@ == spec_quote_wrap(
                    id@,
                    ctx.options.quote_style.quote_char(),
                )
            } else {
                r is Verbatim
            },
            PropertyKey::NumericLiteral(n) => if ctx.force_quotes && n.spec_can_quote(ctx.source) {
                r matches KeyRendering::SynthesizedQuoted { text } && text@ == spec_quote_wrap(
                    n.normalized@,
                    ctx.options.quote_style.quote_char(),
                )
            } else {
                r is Verbatim
            },
            PropertyKey::Other => r is Verbatim,
        }),
        spec_renders_quoted(*key, ctx.force_quotes, ctx.source) <==> !(r is Verbatim),
{
    match key {
        PropertyKey::StringLiteral(s) => {
            let kind: StringLiteralParentKind = if ctx.force_quotes {
                StringLiteralParentKind::MemberForceQuotes
            } else {
                let constructor_text: String = String::from_str("constructor");
                if on_property_definition && s.value == constructor_text {
                    StringLiteralParentKind::Expression
                } else {
                    StringLiteralParentKind::Member
                }
            };
            KeyRendering::LiteralString { kind }
        },
        PropertyKey::StaticIdentifier(id) => {
            if ctx.force_quotes {
                let text: String = make_quoted(id.as_str(), ctx.options.quote_style);
                KeyRendering::SynthesizedQuoted { text }
            } else {
                KeyRendering::Verbatim
            }
        },
        PropertyKey::NumericLiteral(n) => {
            if ctx.force_quotes {
                if let Some(normalized) = can_quote_numeric_literal(n, ctx.source) {
                    let text: String = make_quoted(normalized.as_str(), ctx.options.quote_style);
                    KeyRendering::SynthesizedQuoted { text }
                } else {
                    KeyRendering::Verbatim
                }
            } else {
                KeyRendering::Verbatim
            }
        },
        PropertyKey::Other => KeyRendering::Verbatim,
    }
}

/// A member name written out, together with what is known of its rendered
/// width in display columns.
pub enum MemberNameWritten {
    /// Delegated to the literal-string formatter, which reports its own
    /// width.
    LiteralString { kind: StringLiteralParentKind },
    /// Synthesized here; the width is the synthesized text's byte length.
    SynthesizedQuoted { text: String, width: usize },
    /// Written as the source wrote it; the width is the source span's
    /// width, which the walker measured.
    Verbatim { width: usize },
}

/// Renders a member name for callers that align or wrap on key width. The
/// constructor special case does not apply here; otherwise the choice
/// agrees with `format_property_key`.
pub fn write_member_name(key: &PropertyKey, ctx: &KeyContext, span_width: usize) -> (r:
    MemberNameWritten)
    ensures
        (match *key {
            PropertyKey::StringLiteral(_) => r matches MemberNameWritten::LiteralString { kind }
                && kind == (if ctx.force_quotes {
                StringLiteralParentKind::MemberForceQuotes
            } else {
                StringLiteralParentKind::Member
            }),
            PropertyKey::StaticIdentifier(id) => if ctx.force_quotes {
                r matches MemberNameWritten::SynthesizedQuoted { text, width } && text@
                    == spec_quote_wrap(id@, ctx.options.quote_style.quote_char()) && width
                    == byte_len(text@) as usize
            } else {
                r matches MemberNameWritten::Verbatim { width } && width == span_width
            },
            PropertyKey::NumericLiteral(n) => if ctx.force_quotes && n.spec_can_quote(ctx.source) {
                r matches MemberNameWritten::SynthesizedQuoted { text, width } && text@
                    == spec_quote_wrap(n.normalized@, ctx.options.quote_style.quote_char()) && width
                    == byte_len(text@) as usize
            } else {
                r matches MemberNameWritten::Verbatim { width } && width == span_width
            },
            PropertyKey::Other => r matches MemberNameWritten::Verbatim { width } && width
                == span_width,
        }),
{
    match key {
        PropertyKey::StringLiteral(_) => {
            let kind: StringLiteralParentKind = if ctx.force_quotes {
                StringLiteralParentKind::MemberForceQuotes
            } else {
                StringLiteralParentKind::Member
            };
            MemberNameWritten::LiteralString { kind }
        },
        PropertyKey::StaticIdentifier(id) => {
            if ctx.force_quotes {
                let text: String = make_quoted(id.as_str(), ctx.options.quote_style);
                let width: usize = text.as_str().len();
                MemberNameWritten::SynthesizedQuoted { text, width }
            } else {
                MemberNameWritten::Verbatim { width: span_width }
            }
        },
        PropertyKey::NumericLiteral(n) => {
            if ctx.force_quotes {
                if let Some(normalized) = can_quote_numeric_literal(n, ctx.source) {
                    let text: String = make_quoted(normalized.as_str(), ctx.options.quote_style);
                    let width: usize = text.as_str().len();
                    MemberNameWritten::SynthesizedQuoted { text, width }
                } else {
                    MemberNameWritten::Verbatim { width: span_width }
                }
            } else {
                MemberNameWritten::Verbatim { width: span_width }
            }
        },
        PropertyKey::Other => MemberNameWritten::Verbatim { width: span_width },
    }
}

/// A member of an object-literal expression.
pub enum ObjectPropertyKind {
    ObjectProperty { key: PropertyKey },
    SpreadProperty,
}

/// A member of a type literal.
pub enum TSSignature {
    TSPropertySignature { key: PropertyKey },
    /// Method, call, construct and index signatures: no string key to scan.
    Other,
}

/// A member of a class body.
pub enum ClassElement {
    PropertyDefinition { key: PropertyKey },
    MethodDefinition { key: PropertyKey },
    AccessorProperty { key: PropertyKey },
    /// Static blocks and every other element: no key to scan.
    Other,
}

/// An object-literal member whose string-literal key requires quotes.
pub open spec fn spec_object_prop_needs_quotes(p: ObjectPropertyKind, source: SourceType) -> bool {
    p matches ObjectPropertyKind::ObjectProperty { key: PropertyKey::StringLiteral(s) }
        && s.spec_requires_quotes(source)
}

/// A type-literal member whose string-literal key requires quotes.
pub open spec fn spec_signature_needs_quotes(m: TSSignature, source: SourceType) -> bool {
    m matches TSSignature::TSPropertySignature { key: PropertyKey::StringLiteral(s) }
        && s.spec_requires_quotes(source)
}

/// A class element whose string-literal key requires quotes.
pub open spec fn spec_class_element_needs_quotes(e: ClassElement, source: SourceType) -> bool {
    ||| e matches ClassElement::PropertyDefinition { key: PropertyKey::StringLiteral(s) }
        && s.spec_requires_quotes(source)
    ||| e matches ClassElement::MethodDefinition { key: PropertyKey::StringLiteral(s) }
        && s.spec_requires_quotes(source)
    ||| e matches ClassElement::AccessorProperty { key: PropertyKey::StringLiteral(s) }
        && s.spec_requires_quotes(source)
}

/// Scans an object literal for a member whose string-literal key requires
/// quotes, stopping at the first one found.
pub fn object_has_property_requiring_quotes(
    properties: &Vec<ObjectPropertyKind>,
    source: SourceType,
) -> (r: bool)
    ensures
        r == exists|i: int|
            0 <= i < properties@.len() && spec_object_prop_needs_quotes(properties@[i], source),
{
    let n: usize = properties.len();
    for i in 0..n
        invariant
            n == properties@.len(),
            forall|j: int|
                0 <= j < i ==> !spec_object_prop_needs_quotes(properties@[j], source),
    {
        if let ObjectPropertyKind::ObjectProperty { key } = &properties[i] {
            if let PropertyKey::StringLiteral(s) = key {
                if string_literal_key_requires_quotes(s, source) {
                    return true;
                }
            }
        }
    }
    false
}

/// Scans a type literal's member list in the same way.
pub fn type_literal_has_property_requiring_quotes(
    members: &Vec<TSSignature>,
    source: SourceType,
) -> (r: bool)
    ensures
        r == exists|i: int|
            0 <= i < members@.len() && spec_signature_needs_quotes(members@[i], source),
{
    let n: usize = members.len();
    for i in 0..n
        invariant
            n == members@.len(),
            forall|j: int| 0 <= j < i ==> !spec_signature_needs_quotes(members@[j], source),
    {
        if let TSSignature::TSPropertySignature { key } = &members[i] {
            if let PropertyKey::StringLiteral(s) = key {
                if string_literal_key_requires_quotes(s, source) {
                    return true;
                }
            }
        }
    }
    false
}

/// Scans a class body's property, method and accessor keys in the same way.
pub fn class_body_has_property_requiring_quotes(
    body: &Vec<ClassElement>,
    source: SourceType,
) -> (r: bool)
    ensures
        r == exists|i: int|
            0 <= i < body@.len() && spec_class_element_needs_quotes(body@[i], source),
{
    let n: usize = body.len();
    for i in 0..n
        invariant
            n == body@.len(),
            forall|j: int| 0 <= j < i ==> !spec_class_element_needs_quotes(body@[j], source),
    {
        match &body[i] {
            ClassElement::PropertyDefinition { key } | ClassElement::MethodDefinition { key }
                | ClassElement::AccessorProperty { key } => {
                if let PropertyKey::StringLiteral(s) = key {
                    if string_literal_key_requires_quotes(s, source) {
                        return true;
                    }
                }
            },
            ClassElement::Other => {},
        }
    }
    false
}

/// The consistent policy forces quotes on an object literal: the policy is
/// active and some member's key requires quotes.
pub open spec fn spec_should_force_object(
    properties: Seq<ObjectPropertyKind>,
    options: FormatOptions,
    source: SourceType,
) -> bool {
    options.quote_properties is Consistent && exists|i: int|
        0 <= i < properties.len() && spec_object_prop_needs_quotes(properties[i], source)
}

/// The consistent policy forces quotes on a type literal.
pub open spec fn spec_should_force_type_literal(
    members: Seq<TSSignature>,
    options: FormatOptions,
    source: SourceType,
) -> bool {
    options.quote_properties is Consistent && exists|i: int|
        0 <= i < members.len() && spec_signature_needs_quotes(members[i], source)
}

/// The consistent policy forces quotes on a class body.
pub open spec fn spec_should_force_class_body(
    body: Seq<ClassElement>,
    options: FormatOptions,
    source: SourceType,
) -> bool {
    options.quote_properties is Consistent && exists|i: int|
        0 <= i < body.len() && spec_class_element_needs_quotes(body[i], source)
}

/// Decides the container-wide force-quote flag for an object literal.
pub fn should_force_quotes_for_object(
    properties: &Vec<ObjectPropertyKind>,
    options: &FormatOptions,
    source: SourceType,
) -> (r: bool)
    ensures
        r == spec_should_force_object(properties@, *options, source),
{
    matches!(options.quote_properties, crate::options::QuoteProperties::Consistent)
        && object_has_property_requiring_quotes(properties, source)
}

/// Decides the container-wide force-quote flag for a type literal.
pub fn should_force_quotes_for_type_literal(
    members: &Vec<TSSignature>,
    options: &FormatOptions,
    source: SourceType,
) -> (r: bool)
    ensures
        r == spec_should_force_type_literal(members@, *options, source),
{
    matches!(options.quote_properties, crate::options::QuoteProperties::Consistent)
        && type_literal_has_property_requiring_quotes(members, source)
}

/// Decides the container-wide force-quote flag for a class body.
pub fn should_force_quotes_for_class_body(
    body: &Vec<ClassElement>,
    options: &FormatOptions,
    source: SourceType,
) -> (r: bool)
    ensures
        r == spec_should_force_class_body(body@, *options, source),
{
    matches!(options.quote_properties, crate::options::QuoteProperties::Consistent)
        && class_body_has_property_requiring_quotes(body, source)
}

/// Under an active container flag, a member's key renders as a quoted
/// string wherever quoting is legal: string keys carry the force tag
/// whatever their position, identifier keys render quoted, and so does
/// every legally-quotable numeric key.
pub open spec fn spec_member_key_forced(p: ObjectPropertyKind, source: SourceType) -> bool {
    match p {
        ObjectPropertyKind::ObjectProperty { key } => match key {
            PropertyKey::StringLiteral(s) => spec_string_key_kind(s, true, false)
                == StringLiteralParentKind::MemberForceQuotes && spec_string_key_kind(s, true, true)
                == StringLiteralParentKind::MemberForceQuotes,
            PropertyKey::StaticIdentifier(_) => spec_renders_quoted(key, true, source),
            PropertyKey::NumericLiteral(n) => n.spec_can_quote(source) ==> spec_renders_quoted(
                key,
                true,
                source,
            ),
            PropertyKey::Other => true,
        },
        ObjectPropertyKind::SpreadProperty => true,
    }
}

/// With the container flag off, no member key is forced: string keys keep
/// their ordinary tags and identifier and numeric keys render unquoted.
pub open spec fn spec_member_key_unforced(p: ObjectPropertyKind, source: SourceType) -> bool {
    match p {
        ObjectPropertyKind::ObjectProperty { key } => match key {
            PropertyKey::StringLiteral(s) => spec_string_key_kind(s, false, false)
                != StringLiteralParentKind::MemberForceQuotes && spec_string_key_kind(
                s,
                false,
                true,
            ) != StringLiteralParentKind::MemberForceQuotes,
            PropertyKey::StaticIdentifier(_) => !spec_renders_quoted(key, false, source),
            PropertyKey::NumericLiteral(_) => !spec_renders_quoted(key, false, source),
            PropertyKey::Other => true,
        },
        ObjectPropertyKind::SpreadProperty => true,
    }
}

/// Consistency propagation. Under the consistent policy, if any member of
/// an object literal carries a string key that requires quotes, the
/// container flag comes on and every member key renders quoted where
/// quoting is legal; if no key requires quotes, the flag stays off and no
/// key is forced.
pub proof fn lemma_consistency_propagation(
    properties: Seq<ObjectPropertyKind>,
    options: FormatOptions,
    source: SourceType,
)
    requires
        options.quote_properties is Consistent,
    ensures
        (exists|i: int|
            0 <= i < properties.len() && spec_object_prop_needs_quotes(properties[i], source))
            ==> spec_should_force_object(properties, options, source),
        spec_should_force_object(properties, options, source) ==> forall|j: int|
            0 <= j < properties.len() ==> spec_member_key_forced(properties[j], source),
        (forall|i: int|
            0 <= i < properties.len() ==> !spec_object_prop_needs_quotes(properties[i], source))
            ==> !spec_should_force_object(properties, options, source),
        !spec_should_force_object(properties, options, source) ==> forall|j: int|
            0 <= j < properties.len() ==> spec_member_key_unforced(properties[j], source),
{
}

/// Quoting idempotence for synthesized keys. Wrapping identifier or
/// normalized-number text in quotes and stripping them again restores the
/// text; re-wrapping the stripped text reproduces the rendered key byte for
/// byte; and a key re-read from such a rendering shows no escape sequence,
/// so re-encoding it keeps the same policy outcome.
pub proof fn lemma_quoted_key_round_trip(name: Seq<char>, style: QuoteStyle, reread: &StringKey)
    requires
        reread.value@ == name,
        reread.raw matches Some(r) && r@ == spec_quote_wrap(name, style.quote_char()),
    ensures
        spec_unquote(spec_quote_wrap(name, style.quote_char())) == name,
        spec_quote_wrap(
            spec_unquote(spec_quote_wrap(name, style.quote_char())),
            style.quote_char(),
        ) == spec_quote_wrap(name, style.quote_char()),
        !reread.spec_has_escape(),
{
    let q = style.quote_char();
    assert(spec_unquote(spec_quote_wrap(name, q)) =~= name);
}

} // verus!
