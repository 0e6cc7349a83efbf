use starship_core::conditional_style::{
    select_style, StarshipConditionalStyle, StarshipConditionalStyleOperator,
};
use starship_core::context::Context;

fn create_context() -> Context {
    Context::new()
}

fn rule(
    env: Option<&str>,
    operator: Option<StarshipConditionalStyleOperator>,
    expected_value: Option<&str>,
    style: &str,
) -> StarshipConditionalStyle {
    StarshipConditionalStyle {
        env: env.map(String::from),
        operator,
        expected_value: expected_value.map(String::from),
        style: String::from(style),
    }
}

#[test]
fn test_exists_operator() {
    let mut context = create_context();
    let style = StarshipConditionalStyle {
        env: Some(String::from("test")),
        operator: Some(StarshipConditionalStyleOperator::Exists),
        expected_value: None,
        style: String::new(),
    };

    assert_eq!(style.should_apply(&context), false);
    context.insert(String::from("test"), String::default());
    assert_eq!(style.should_apply(&context), true);
}

#[test]
fn test_equal_operator() {
    let mut context = create_context();
    let style = StarshipConditionalStyle {
        env: Some(String::from("test")),
        operator: Some(StarshipConditionalStyleOperator::Equal),
        expected_value: Some(String::from("expected")),
        style: String::new(),
    };

    assert_eq!(style.should_apply(&context), false);
    context.insert(String::from("test"), String::from("not_expected"));
    assert_eq!(style.should_apply(&context), false);
    context.insert(String::from("test"), String::from("expected"));
    assert_eq!(style.should_apply(&context), true);
}

#[test]
fn test_equal_operator_both_sides_absent() {
    let context = create_context();
    let unset_variable = rule(
        Some("never_set_anywhere"),
        Some(StarshipConditionalStyleOperator::Equal),
        None,
        "",
    );
    assert_eq!(unset_variable.should_apply(&context), true);

    let no_variable_named = rule(None, Some(StarshipConditionalStyleOperator::Equal), None, "");
    assert_eq!(no_variable_named.should_apply(&context), true);
}

#[test]
fn test_rule_without_operator_always_matches() {
    let context = create_context();
    let catch_all = rule(Some("whatever"), None, Some("ignored"), "blue");
    assert_eq!(catch_all.should_apply(&context), true);
}

#[test]
fn test_empty_rule_list_selects_empty_style() {
    let context = create_context();
    let rules: Vec<StarshipConditionalStyle> = Vec::new();
    assert_eq!(select_style(&context, &rules), "");
}

#[test]
fn test_no_match_falls_back_to_last_style() {
    let context = create_context();
    let rules = vec![
        rule(
            Some("unset_one"),
            Some(StarshipConditionalStyleOperator::Equal),
            Some("x"),
            "red",
        ),
        rule(
            Some("unset_two"),
            Some(StarshipConditionalStyleOperator::Exists),
            None,
            "green",
        ),
    ];
    assert_eq!(select_style(&context, &rules), "green");
}

#[test]
fn test_first_matching_rule_wins() {
    let mut context = create_context();
    context.insert(String::from("SET"), String::from("1"));
    let rules = vec![
        rule(
            Some("SET"),
            Some(StarshipConditionalStyleOperator::Exists),
            None,
            "red",
        ),
        rule(None, None, None, "blue"),
    ];
    assert_eq!(select_style(&context, &rules), "red");
}

#[test]
fn test_ci_example_rule_list() {
    let rules = vec![
        rule(
            Some("CI"),
            Some(StarshipConditionalStyleOperator::Equal),
            Some("true"),
            "red",
        ),
        rule(None, None, None, "blue"),
    ];

    let unset = create_context();
    assert_eq!(select_style(&unset, &rules), "blue");

    let mut ci_true = create_context();
    ci_true.insert(String::from("CI"), String::from("true"));
    assert_eq!(select_style(&ci_true, &rules), "red");

    let mut ci_false = create_context();
    ci_false.insert(String::from("CI"), String::from("false"));
    assert_eq!(select_style(&ci_false, &rules), "blue");
}

#[test]
fn test_insert_shadows_earlier_binding() {
    let mut context = create_context();
    context.insert(String::from("test"), String::from("old"));
    context.insert(String::from("test"), String::from("new"));
    let style = rule(
        Some("test"),
        Some(StarshipConditionalStyleOperator::Equal),
        Some("new"),
        "",
    );
    assert_eq!(style.should_apply(&context), true);
}

#[test]
fn test_operator_from_token() {
    assert_eq!(
        StarshipConditionalStyleOperator::from_token("equal"),
        StarshipConditionalStyleOperator::Equal
    );
    assert_eq!(
        StarshipConditionalStyleOperator::from_token("exists"),
        StarshipConditionalStyleOperator::Exists
    );
    assert_eq!(
        StarshipConditionalStyleOperator::from_token("EXISTS"),
        StarshipConditionalStyleOperator::Exists
    );
}

#[test]
fn test_unknown_operator_token_defaults_to_equal() {
    assert_eq!(
        StarshipConditionalStyleOperator::from_token("exits"),
        StarshipConditionalStyleOperator::Equal
    );
    assert_eq!(
        StarshipConditionalStyleOperator::from_token(""),
        StarshipConditionalStyleOperator::Equal
    );
}

#[test]
fn test_operator_token_round_trip() {
    for op in [
        StarshipConditionalStyleOperator::Equal,
        StarshipConditionalStyleOperator::Exists,
    ] {
        let token = op.token();
        assert_eq!(StarshipConditionalStyleOperator::from_token(token.as_str()), op);
    }
}

#[test]
fn test_default_rule_is_catch_all() {
    let context = create_context();
    let default_rule = StarshipConditionalStyle::default();
    assert_eq!(default_rule.should_apply(&context), true);
    assert_eq!(default_rule.style, "");
}
