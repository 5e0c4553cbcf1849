use format_policy::object_pattern_like::{AssignmentLeftKind, AssignmentTargetBinding,
    AssignmentTargetParent, AssignmentTargetProperty, BindingProperty, BindingValueKind,
    ObjectAssignmentTargetNode, ObjectPatternLayout, ObjectPatternLike, ObjectPatternNode,
    ObjectPatternParent, PatternBodyPlan, PropertyListKind, PropertyListMode, Span,
    TypeAnnotation};
use format_policy::options::{FormatOptions, QuoteProperties, QuoteStyle};

fn simple_properties(n: usize) -> Vec<BindingProperty> {
    vec![BindingProperty { value: BindingValueKind::BindingIdentifier }; n]
}

fn pattern(parent: ObjectPatternParent, properties: Vec<BindingProperty>) -> ObjectPatternLike {
    ObjectPatternLike::ObjectPattern(ObjectPatternNode {
        span: Span { start: 0, end: 20 },
        properties,
        has_rest: false,
        parent,
    })
}

fn options(bracket_spacing: bool) -> FormatOptions {
    FormatOptions {
        quote_style: QuoteStyle::Double,
        quote_properties: QuoteProperties::AsNeeded,
        bracket_spacing,
    }
}

#[test]
fn empty_pattern_keeps_dangling_comments() {
    let p = pattern(ObjectPatternParent::Other, Vec::new());
    assert_eq!(p.layout(), ObjectPatternLayout::Empty);
    // The body plan is the same whatever the options say.
    let with_spacing = p.fmt(&options(true));
    let without_spacing = p.fmt(&options(false));
    assert_eq!(with_spacing, PatternBodyPlan::DanglingComments { span: Span { start: 0, end: 20 } });
    assert_eq!(with_spacing, without_spacing);
}

#[test]
fn rest_element_makes_pattern_nonempty() {
    let p = ObjectPatternLike::ObjectPattern(ObjectPatternNode {
        span: Span { start: 0, end: 8 },
        properties: Vec::new(),
        has_rest: true,
        parent: ObjectPatternParent::Other,
    });
    assert!(!p.is_empty());
    assert_eq!(p.layout(), ObjectPatternLayout::Group { expand: false });
}

#[test]
fn parameter_with_initializer_hugs_inline() {
    let p = pattern(
        ObjectPatternParent::BindingIdentifier { in_formal_parameter_with_initializer: true },
        simple_properties(4),
    );
    assert_eq!(p.layout(), ObjectPatternLayout::Inline);
    let plan = p.fmt(&options(true));
    assert_eq!(
        plan,
        PatternBodyPlan::Properties {
            list: PropertyListKind::Binding,
            mode: PropertyListMode::Inline,
            bracket_spacing: true,
        }
    );
}

#[test]
fn catch_parameter_never_forces_expansion() {
    let p = pattern(ObjectPatternParent::CatchParameter, simple_properties(3));
    assert!(!p.should_break_properties());
    assert_eq!(p.layout(), ObjectPatternLayout::Group { expand: false });
}

#[test]
fn three_simple_properties_force_expansion_on_parameter() {
    let p = pattern(
        ObjectPatternParent::FormalParameter {
            type_annotation: None,
            grandparent_is_arrow_function: false,
        },
        simple_properties(3),
    );
    assert!(p.should_break_properties());
    assert_eq!(p.layout(), ObjectPatternLayout::Group { expand: true });
}

#[test]
fn untyped_arrow_parameter_is_exempt_from_count_rule() {
    let p = pattern(
        ObjectPatternParent::FormalParameter {
            type_annotation: None,
            grandparent_is_arrow_function: true,
        },
        simple_properties(3),
    );
    assert!(!p.should_break_properties());
    assert_eq!(p.layout(), ObjectPatternLayout::Group { expand: false });
    // A type annotation removes the exemption.
    let p = pattern(
        ObjectPatternParent::FormalParameter {
            type_annotation: Some(TypeAnnotation { has_comments: false }),
            grandparent_is_arrow_function: true,
        },
        simple_properties(3),
    );
    assert!(p.should_break_properties());
}

#[test]
fn commented_type_annotation_forces_expansion() {
    let p = pattern(
        ObjectPatternParent::FormalParameter {
            type_annotation: Some(TypeAnnotation { has_comments: true }),
            grandparent_is_arrow_function: true,
        },
        simple_properties(1),
    );
    assert!(p.should_break_properties());
}

#[test]
fn complex_parameter_property_forces_expansion() {
    let mut props = simple_properties(1);
    props.push(BindingProperty {
        value: BindingValueKind::AssignmentPattern { left: AssignmentLeftKind::BindingIdentifier },
    });
    let p = pattern(
        ObjectPatternParent::FormalParameter {
            type_annotation: None,
            grandparent_is_arrow_function: true,
        },
        props,
    );
    assert!(p.should_break_properties());
    assert_eq!(p.layout(), ObjectPatternLayout::Group { expand: true });
}

#[test]
fn declarator_target_inlines_when_nothing_breaks() {
    let p = pattern(ObjectPatternParent::VariableDeclarator, simple_properties(2));
    assert_eq!(p.layout(), ObjectPatternLayout::Inline);
}

#[test]
fn nested_destructuring_breaks_declarator_target() {
    let mut props = simple_properties(1);
    props.push(BindingProperty { value: BindingValueKind::ObjectPattern });
    let p = pattern(ObjectPatternParent::VariableDeclarator, props);
    assert_eq!(p.layout(), ObjectPatternLayout::Group { expand: true });
    // A default whose target is itself nested also breaks.
    let mut props = simple_properties(1);
    props.push(BindingProperty {
        value: BindingValueKind::AssignmentPattern { left: AssignmentLeftKind::ArrayPattern },
    });
    let p = pattern(ObjectPatternParent::VariableDeclarator, props);
    assert_eq!(p.layout(), ObjectPatternLayout::Group { expand: true });
}

fn target(
    parent: AssignmentTargetParent,
    properties: Vec<AssignmentTargetProperty>,
) -> ObjectPatternLike {
    ObjectPatternLike::ObjectAssignmentTarget(ObjectAssignmentTargetNode {
        span: Span { start: 5, end: 25 },
        properties,
        has_rest: false,
        parent,
    })
}

#[test]
fn assignment_target_shorthand_inlines() {
    let p = target(
        AssignmentTargetParent::AssignmentExpression,
        vec![AssignmentTargetProperty::Identifier; 4],
    );
    assert!(!p.should_break_properties());
    assert_eq!(p.layout(), ObjectPatternLayout::Inline);
    let plan = p.fmt(&options(false));
    assert_eq!(
        plan,
        PatternBodyPlan::Properties {
            list: PropertyListKind::AssignmentTarget,
            mode: PropertyListMode::Inline,
            bracket_spacing: false,
        }
    );
}

#[test]
fn assignment_target_nested_property_expands() {
    let props = vec![
        AssignmentTargetProperty::Identifier,
        AssignmentTargetProperty::Property { binding: AssignmentTargetBinding::ArrayTarget },
    ];
    let p = target(AssignmentTargetParent::AssignmentExpression, props);
    assert_eq!(p.layout(), ObjectPatternLayout::Group { expand: true });
}

#[test]
fn assignment_target_in_other_context_groups() {
    let p = target(
        AssignmentTargetParent::Other,
        vec![AssignmentTargetProperty::Property { binding: AssignmentTargetBinding::Other }],
    );
    assert_eq!(p.layout(), ObjectPatternLayout::Group { expand: false });
}

#[test]
fn grouped_plan_carries_expand_flag_and_spacing() {
    let expanded = pattern(
        ObjectPatternParent::FormalParameter {
            type_annotation: None,
            grandparent_is_arrow_function: false,
        },
        simple_properties(3),
    );
    assert_eq!(
        expanded.fmt(&options(true)),
        PatternBodyPlan::Properties {
            list: PropertyListKind::Binding,
            mode: PropertyListMode::Group { expand: true },
            bracket_spacing: true,
        }
    );
    let measured = pattern(ObjectPatternParent::Other, simple_properties(2));
    assert_eq!(
        measured.fmt(&options(false)),
        PatternBodyPlan::Properties {
            list: PropertyListKind::Binding,
            mode: PropertyListMode::Group { expand: false },
            bracket_spacing: false,
        }
    );
}

#[test]
fn layout_is_stable_across_calls() {
    let p = pattern(
        ObjectPatternParent::FormalParameter {
            type_annotation: None,
            grandparent_is_arrow_function: false,
        },
        simple_properties(3),
    );
    let first = p.layout();
    let second = p.layout();
    assert_eq!(first, second);
    assert_eq!(p.fmt(&options(true)), p.fmt(&options(true)));
}
