//! Layout decisions for object destructuring patterns: object binding
//! patterns and object assignment targets. The decision reads the pattern's
//! property list and its syntactic context, and picks one of three layouts:
//! empty, inlined, or grouped with optional forced expansion.

use vstd::prelude::*;
use crate::options::FormatOptions;

verus! {

/// A half-open range of byte offsets in the original source.
#[derive(Clone, Copy, PartialEq, Eq, Structural, Debug)]
pub struct Span {
    pub start: u32,
    pub end: u32,
}

/// What stands left of `=` in a default-valued binding property.
#[derive(Clone, Copy, PartialEq, Eq, Structural, Debug)]
pub enum AssignmentLeftKind {
    BindingIdentifier,
    ObjectPattern,
    ArrayPattern,
}

/// The value bound by one property of an object binding pattern.
#[derive(Clone, Copy, PartialEq, Eq, Structural, Debug)]
pub enum BindingValueKind {
    BindingIdentifier,
    ObjectPattern,
    ArrayPattern,
    AssignmentPattern { left: AssignmentLeftKind },
}

/// One property of an object binding pattern, reduced to what the layout
/// decision reads.
#[derive(Clone, Copy, PartialEq, Eq, Structural, Debug)]
pub struct BindingProperty {
    pub value: BindingValueKind,
}

/// The type annotation attached to the enclosing formal parameter, reduced
/// to whether its span contains a comment.
#[derive(Clone, Copy, PartialEq, Eq, Structural, Debug)]
pub struct TypeAnnotation {
    pub has_comments: bool,
}

/// The parent node of an object binding pattern, with the pieces of the
/// grandparent that the decision reads.
#[derive(Clone, Copy, PartialEq, Eq, Structural, Debug)]
pub enum ObjectPatternParent {
    /// The pattern stands under a binding identifier; the flag says whether
    /// the grandparent is a formal parameter with a default initializer.
    BindingIdentifier { in_formal_parameter_with_initializer: bool },
    FormalParameter { type_annotation: Option<TypeAnnotation>, grandparent_is_arrow_function: bool },
    CatchParameter,
    VariableDeclarator,
    Other,
}

/// The target bound by a full key/value assignment-target property.
#[derive(Clone, Copy, PartialEq, Eq, Structural, Debug)]
pub enum AssignmentTargetBinding {
    ObjectTarget,
    ArrayTarget,
    Other,
}

/// One property of an object assignment target.
#[derive(Clone, Copy, PartialEq, Eq, Structural, Debug)]
pub enum AssignmentTargetProperty {
    /// Identifier shorthand, possibly with a default: never forces
    /// expansion.
    Identifier,
    Property { binding: AssignmentTargetBinding },
}

/// The parent node of an object assignment target.
#[derive(Clone, Copy, PartialEq, Eq, Structural, Debug)]
pub enum AssignmentTargetParent {
    AssignmentExpression,
    VariableDeclarator,
    Other,
}

/// An object binding pattern as the walker hands it to the layout engine.
pub struct ObjectPatternNode {
    pub span: Span,
    pub properties: Vec<BindingProperty>,
    pub has_rest: bool,
    pub parent: ObjectPatternParent,
}

/// An object assignment target as the walker hands it to the layout engine.
pub struct ObjectAssignmentTargetNode {
    pub span: Span,
    pub properties: Vec<AssignmentTargetProperty>,
    pub has_rest: bool,
    pub parent: AssignmentTargetParent,
}

/// Either kind of object destructuring pattern.
pub enum ObjectPatternLike {
    ObjectPattern(ObjectPatternNode),
    ObjectAssignmentTarget(ObjectAssignmentTargetNode),
}

/// The layout chosen for a pattern.
#[derive(Clone, Copy, PartialEq, Eq, Structural, Debug)]
pub enum ObjectPatternLayout {
    /// Wrap the properties in a group; `expand` forces one property per
    /// line, otherwise the external layout engine measures the width.
    Group { expand: bool },
    /// A pattern without any properties.
    Empty,
    /// Write the properties directly, without a breakable group.
    Inline,
}

/// Which external property-list formatter renders the body.
#[derive(Clone, Copy, PartialEq, Eq, Structural, Debug)]
pub enum PropertyListKind {
    Binding,
    AssignmentTarget,
}

/// How the property list is placed between the braces.
#[derive(Clone, Copy, PartialEq, Eq, Structural, Debug)]
pub enum PropertyListMode {
    /// Inlined in the parent, never wrapped in a group.
    Inline,
    /// Wrapped in a breakable group with the given expansion flag.
    Group { expand: bool },
}

/// What stands between the braces of the rendered pattern.
#[derive(Clone, Copy, PartialEq, Eq, Structural, Debug)]
pub enum PatternBodyPlan {
    /// The dangling comments of an empty pattern, indented as a block.
    DanglingComments { span: Span },
    /// The soft-indented property list, padded with a space inside the
    /// braces when bracket spacing is on.
    Properties { list: PropertyListKind, mode: PropertyListMode, bracket_spacing: bool },
}

/// The property binds a nested pattern or carries a default value.
pub open spec fn spec_complex_value(v: BindingValueKind) -> bool {
    !(v is BindingIdentifier)
}

/// The property binds a nested destructuring directly, or a default whose
/// target is itself a nested destructuring.
pub open spec fn spec_nested_value(v: BindingValueKind) -> bool {
    match v {
        BindingValueKind::BindingIdentifier => false,
        BindingValueKind::ObjectPattern => true,
        BindingValueKind::ArrayPattern => true,
        BindingValueKind::AssignmentPattern { left } => left is ObjectPattern
            || left is ArrayPattern,
    }
}

/// The assignment-target property is a full key/value pair bound to a
/// nested object or array target.
pub open spec fn spec_nested_target(p: AssignmentTargetProperty) -> bool {
    p matches AssignmentTargetProperty::Property { binding } && (binding is ObjectTarget
        || binding is ArrayTarget)
}

fn any_complex_value(properties: &Vec<BindingProperty>) -> (r: bool)
    ensures
        r == exists|i: int|
            0 <= i < properties@.len() && spec_complex_value(properties@[i].value),
{
    let n: usize = properties.len();
    for i in 0..n
        invariant
            n == properties@.len(),
            forall|j: int| 0 <= j < i ==> !spec_complex_value(properties@[j].value),
    {
        if !matches!(properties[i].value, BindingValueKind::BindingIdentifier) {
            return true;
        }
    }
    false
}

fn any_nested_value(properties: &Vec<BindingProperty>) -> (r: bool)
    ensures
        r == exists|i: int| 0 <= i < properties@.len() && spec_nested_value(properties@[i].value),
{
    let n: usize = properties.len();
    for i in 0..n
        invariant
            n == properties@.len(),
            forall|j: int| 0 <= j < i ==> !spec_nested_value(properties@[j].value),
    {
        let nested: bool = match &properties[i].value {
            BindingValueKind::BindingIdentifier => false,
            BindingValueKind::ObjectPattern => true,
            BindingValueKind::ArrayPattern => true,
            BindingValueKind::AssignmentPattern { left } => matches!(
                left,
                AssignmentLeftKind::ObjectPattern | AssignmentLeftKind::ArrayPattern
            ),
        };
        if nested {
            return true;
        }
    }
    false
}

fn any_nested_target(properties: &Vec<AssignmentTargetProperty>) -> (r: bool)
    ensures
        r == exists|i: int| 0 <= i < properties@.len() && spec_nested_target(properties@[i]),
{
    let n: usize = properties.len();
    for i in 0..n
        invariant
            n == properties@.len(),
            forall|j: int| 0 <= j < i ==> !spec_nested_target(properties@[j]),
    {
        let nested: bool = match &properties[i] {
            AssignmentTargetProperty::Identifier => false,
            AssignmentTargetProperty::Property { binding } => matches!(
                binding,
                AssignmentTargetBinding::ObjectTarget | AssignmentTargetBinding::ArrayTarget
            ),
        };
        if nested {
            return true;
        }
    }
    false
}

impl ObjectPatternLike {
    /// The pattern's source span.
    pub open spec fn spec_span(&self) -> Span {
        match *self {
            ObjectPatternLike::ObjectPattern(n) => n.span,
            ObjectPatternLike::ObjectAssignmentTarget(n) => n.span,
        }
    }

    /// The pattern has no properties and no rest element.
    pub open spec fn spec_is_empty(&self) -> bool {
        match *self {
            ObjectPatternLike::ObjectPattern(n) => n.properties@.len() == 0 && !n.has_rest,
            ObjectPatternLike::ObjectAssignmentTarget(n) => n.properties@.len() == 0
                && !n.has_rest,
        }
    }

    /// The binding form of a parameter with a default initializer hugs its
    /// parameter: the properties are inlined.
    pub open spec fn spec_is_inline(&self) -> bool {
        match *self {
            ObjectPatternLike::ObjectPattern(n) => n.parent matches
                ObjectPatternParent::BindingIdentifier { in_formal_parameter_with_initializer }
                && in_formal_parameter_with_initializer,
            ObjectPatternLike::ObjectAssignmentTarget(_) => false,
        }
    }

    /// The group must always expand, one property per line. For a formal
    /// parameter: a commented type annotation, any complex property, or
    /// three or more properties outside the exempted untyped-arrow case.
    /// For a catch parameter: never. Elsewhere: any nested destructuring;
    /// for assignment targets, any key/value property bound to a nested
    /// target.
    pub open spec fn spec_should_break(&self) -> bool {
        match *self {
            ObjectPatternLike::ObjectPattern(n) => match n.parent {
                ObjectPatternParent::FormalParameter {
                    type_annotation,
                    grandparent_is_arrow_function,
                } => {
                    ||| (type_annotation matches Some(t) && t.has_comments)
                    ||| (exists|i: int|
                        0 <= i < n.properties@.len() && spec_complex_value(
                            n.properties@[i].value,
                        ))
                    ||| (n.properties@.len() >= 3 && !(type_annotation is None
                        && grandparent_is_arrow_function))
                },
                ObjectPatternParent::CatchParameter => false,
                _ => exists|i: int|
                    0 <= i < n.properties@.len() && spec_nested_value(n.properties@[i].value),
            },
            ObjectPatternLike::ObjectAssignmentTarget(n) => exists|i: int|
                0 <= i < n.properties@.len() && spec_nested_target(n.properties@[i]),
        }
    }

    /// The pattern is the direct target of an assignment-like construct.
    pub open spec fn spec_is_in_assignment_like(&self) -> bool {
        match *self {
            ObjectPatternLike::ObjectPattern(n) => n.parent is VariableDeclarator,
            ObjectPatternLike::ObjectAssignmentTarget(n) => n.parent is AssignmentExpression
                || n.parent is VariableDeclarator,
        }
    }

    /// The layout decision: empty patterns are suppressed; parameter
    /// defaults hug inline; forced expansion takes priority over the
    /// assignment-like inline case; everything else is a measured group.
    pub open spec fn spec_layout(&self) -> ObjectPatternLayout {
        if self.spec_is_empty() {
            ObjectPatternLayout::Empty
        } else if self.spec_is_inline() {
            ObjectPatternLayout::Inline
        } else if self.spec_should_break() {
            ObjectPatternLayout::Group { expand: true }
        } else if self.spec_is_in_assignment_like() {
            ObjectPatternLayout::Inline
        } else {
            ObjectPatternLayout::Group { expand: false }
        }
    }

    /// Which external list formatter renders this pattern's properties.
    pub open spec fn spec_list_kind(&self) -> PropertyListKind {
        match *self {
            ObjectPatternLike::ObjectPattern(_) => PropertyListKind::Binding,
            ObjectPatternLike::ObjectAssignmentTarget(_) => PropertyListKind::AssignmentTarget,
        }
    }

    /// What stands between the braces: dangling comments for an empty
    /// pattern, otherwise the property list, inlined or grouped as the
    /// layout decides, with the configured bracket spacing.
    pub open spec fn spec_fmt(&self, options: FormatOptions) -> PatternBodyPlan {
        match self.spec_layout() {
            ObjectPatternLayout::Empty => PatternBodyPlan::DanglingComments {
                span: self.spec_span(),
            },
            ObjectPatternLayout::Inline => PatternBodyPlan::Properties {
                list: self.spec_list_kind(),
                mode: PropertyListMode::Inline,
                bracket_spacing: options.bracket_spacing,
            },
            ObjectPatternLayout::Group { expand } => PatternBodyPlan::Properties {
                list: self.spec_list_kind(),
                mode: PropertyListMode::Group { expand },
                bracket_spacing: options.bracket_spacing,
            },
        }
    }

    /// The pattern's source span.
    pub fn span(&self) -> (r: Span)
        ensures
            r == self.spec_span(),
    {
        match self {
            ObjectPatternLike::ObjectPattern(n) => n.span,
            ObjectPatternLike::ObjectAssignmentTarget(n) => n.span,
        }
    }

    /// The pattern has no properties and no rest element.
    pub fn is_empty(&self) -> (r: bool)
        ensures
            r == self.spec_is_empty(),
    {
        match self {
            ObjectPatternLike::ObjectPattern(n) => n.properties.len() == 0 && !n.has_rest,
            ObjectPatternLike::ObjectAssignmentTarget(n) => n.properties.len() == 0 && !n.has_rest,
        }
    }

    /// Decides the inline-hugging special case.
    pub fn is_inline(&self) -> (r: bool)
        ensures
            r == self.spec_is_inline(),
    {
        match self {
            ObjectPatternLike::ObjectPattern(n) => match &n.parent {
                ObjectPatternParent::BindingIdentifier {
                    in_formal_parameter_with_initializer,
                } => *in_formal_parameter_with_initializer,
                _ => false,
            },
            ObjectPatternLike::ObjectAssignmentTarget(_) => false,
        }
    }

    /// Decides the forced-expansion predicate.
    pub fn should_break_properties(&self) -> (r: bool)
        ensures
            r == self.spec_should_break(),
    {
        match self {
            ObjectPatternLike::ObjectPattern(n) => match &n.parent {
                ObjectPatternParent::FormalParameter {
                    type_annotation,
                    grandparent_is_arrow_function,
                } => {
                    let type_ann_has_comments: bool = match type_annotation {
                        Some(t) => t.has_comments,
                        None => false,
                    };
                    let has_complex_property: bool = any_complex_value(&n.properties);
                    let is_arrow_no_type: bool = matches!(type_annotation, Option::None)
                        && *grandparent_is_arrow_function;
                    type_ann_has_comments || has_complex_property || (n.properties.len() >= 3
                        && !is_arrow_no_type)
                },
                ObjectPatternParent::CatchParameter => false,
                _ => any_nested_value(&n.properties),
            },
            ObjectPatternLike::ObjectAssignmentTarget(n) => any_nested_target(&n.properties),
        }
    }

    /// Decides the assignment-like inline case.
    pub fn is_in_assignment_like(&self) -> (r: bool)
        ensures
            r == self.spec_is_in_assignment_like(),
    {
        match self {
            ObjectPatternLike::ObjectPattern(n) => matches!(
                n.parent,
                ObjectPatternParent::VariableDeclarator
            ),
            ObjectPatternLike::ObjectAssignmentTarget(n) => matches!(
                n.parent,
                AssignmentTargetParent::AssignmentExpression
                    | AssignmentTargetParent::VariableDeclarator
            ),
        }
    }

    /// Computes the layout, once per node.
    pub fn layout(&self) -> (r: ObjectPatternLayout)
        ensures
            r == self.spec_layout(),
    {
        if self.is_empty() {
            return ObjectPatternLayout::Empty;
        }
        if self.is_inline() {
            return ObjectPatternLayout::Inline;
        }
        let break_properties: bool = self.should_break_properties();
        if break_properties {
            ObjectPatternLayout::Group { expand: true }
        } else if self.is_in_assignment_like() {
            ObjectPatternLayout::Inline
        } else {
            ObjectPatternLayout::Group { expand: false }
        }
    }

    /// Which external list formatter renders this pattern's properties;
    /// both understand a trailing rest element.
    pub fn write_properties(&self) -> (r: PropertyListKind)
        ensures
            r == self.spec_list_kind(),
    {
        match self {
            ObjectPatternLike::ObjectPattern(_) => PropertyListKind::Binding,
            ObjectPatternLike::ObjectAssignmentTarget(_) => PropertyListKind::AssignmentTarget,
        }
    }

    /// Builds the plan for everything between the braces.
    pub fn fmt(&self, options: &FormatOptions) -> (r: PatternBodyPlan)
        ensures
            r == self.spec_fmt(*options),
    {
        match self.layout() {
            ObjectPatternLayout::Empty => PatternBodyPlan::DanglingComments { span: self.span() },
            ObjectPatternLayout::Inline => PatternBodyPlan::Properties {
                list: self.write_properties(),
                mode: PropertyListMode::Inline,
                bracket_spacing: options.bracket_spacing,
            },
            ObjectPatternLayout::Group { expand } => PatternBodyPlan::Properties {
                list: self.write_properties(),
                mode: PropertyListMode::Group { expand },
                bracket_spacing: options.bracket_spacing,
            },
        }
    }
}

/// Layout determinism for binding patterns: the decision reads only the
/// property list and the parent context, so two nodes that agree there get
/// the same layout, whatever their spans.
pub proof fn lemma_layout_deterministic(a: &ObjectPatternNode, b: &ObjectPatternNode)
    requires
        a.properties@ == b.properties@,
        a.has_rest == b.has_rest,
        a.parent == b.parent,
    ensures
        ObjectPatternLike::ObjectPattern(*a).spec_layout() == ObjectPatternLike::ObjectPattern(
            *b,
        ).spec_layout(),
{
}

/// Layout determinism for assignment targets, in the same way.
pub proof fn lemma_target_layout_deterministic(
    a: &ObjectAssignmentTargetNode,
    b: &ObjectAssignmentTargetNode,
)
    requires
        a.properties@ == b.properties@,
        a.has_rest == b.has_rest,
        a.parent == b.parent,
    ensures
        ObjectPatternLike::ObjectAssignmentTarget(*a).spec_layout()
            == ObjectPatternLike::ObjectAssignmentTarget(*b).spec_layout(),
{
}

/// An empty pattern renders with no internal breaking, independent of every
/// formatting option, and keeps its dangling comments.
pub proof fn lemma_empty_pattern_layout(
    p: &ObjectPatternLike,
    o1: FormatOptions,
    o2: FormatOptions,
)
    requires
        p.spec_is_empty(),
    ensures
        (p.spec_layout() is Empty),
        p.spec_fmt(o1) == (PatternBodyPlan::DanglingComments { span: p.spec_span() }),
        p.spec_fmt(o1) == p.spec_fmt(o2),
{
}

/// The catch-parameter exemption: a catch-bound pattern with three or more
/// simple properties is measured normally, while the same property list
/// under a plain (non-arrow, untyped) formal parameter forces expansion.
pub proof fn lemma_catch_parameter_exemption(c: &ObjectPatternNode, f: &ObjectPatternNode)
    requires
        (c.parent is CatchParameter),
        f.parent == (ObjectPatternParent::FormalParameter {
            type_annotation: None,
            grandparent_is_arrow_function: false,
        }),
        c.properties@ == f.properties@,
        c.properties@.len() >= 3,
        forall|i: int|
            0 <= i < c.properties@.len() ==> c.properties@[i].value is BindingIdentifier,
    ensures
        !ObjectPatternLike::ObjectPattern(*c).spec_should_break(),
        ObjectPatternLike::ObjectPattern(*c).spec_layout() == (ObjectPatternLayout::Group {
            expand: false,
        }),
        ObjectPatternLike::ObjectPattern(*f).spec_should_break(),
        ObjectPatternLike::ObjectPattern(*f).spec_layout() == (ObjectPatternLayout::Group {
            expand: true,
        }),
{
}

} // verus!
