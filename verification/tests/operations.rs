use splitwise_cli::error::CliError;
use splitwise_cli::json::{JsonObject, JsonValue};
use splitwise_cli::operations::{
    add_user_to_group, all_operations, create_expense, delete_expense, delete_friend,
    get_groups, render_compact, undelete_group, Method, SuccessCheck,
};

fn object(members: Vec<(&str, JsonValue)>) -> JsonValue {
    let mut o = JsonObject::new();
    for (k, v) in members {
        o.insert(k.to_string(), v);
    }
    JsonValue::Object(o)
}

fn string_list(items: &[&str]) -> JsonValue {
    JsonValue::Array(items.iter().map(|s| JsonValue::String(s.to_string())).collect())
}

#[test]
fn operation_count_matches_mcp_surface() {
    assert_eq!(all_operations().len(), 27);
}

#[test]
fn success_true_operations_require_true() {
    delete_friend()
        .evaluate(&object(vec![
            ("success", JsonValue::Bool(true)),
            ("errors", object(vec![])),
        ]))
        .expect("success=true should pass");

    let error = delete_expense()
        .evaluate(&object(vec![
            ("success", JsonValue::Bool(false)),
            ("errors", object(vec![("expense", string_list(&["missing"]))])),
        ]))
        .expect_err("success=false should fail");
    assert_eq!(error.exit_code(), 2);
}

#[test]
fn errors_must_be_empty_when_required() {
    create_expense()
        .evaluate(&object(vec![
            ("expenses", JsonValue::Array(vec![])),
            ("errors", object(vec![])),
        ]))
        .expect("empty errors should pass");

    add_user_to_group()
        .evaluate(&object(vec![
            ("success", JsonValue::Bool(false)),
            ("errors", object(vec![("base", string_list(&["blocked"]))])),
        ]))
        .expect_err("non-empty errors should fail");
}

#[test]
fn absent_errors_field_is_treated_as_success() {
    undelete_group()
        .evaluate(&object(vec![("success", JsonValue::Bool(true))]))
        .expect("missing errors field should not fail");
}

#[test]
fn semantic_failure_message_renders_errors_field() {
    let error = delete_expense()
        .evaluate(&object(vec![
            ("success", JsonValue::Bool(false)),
            ("errors", object(vec![("expense", string_list(&["missing"]))])),
        ]))
        .expect_err("success=false should fail");
    match &error {
        CliError::SemanticFailure(message) => assert_eq!(message, "{\"expense\":[\"missing\"]}"),
        other => panic!("unexpected error {other:?}"),
    }
    assert_eq!(
        error.message(),
        "Splitwise reported a semantic failure: {\"expense\":[\"missing\"]}"
    );
}

#[test]
fn semantic_failure_without_errors_renders_whole_body() {
    let error = delete_friend()
        .evaluate(&object(vec![("success", JsonValue::String("yes".to_string()))]))
        .expect_err("a string is not true");
    match error {
        CliError::SemanticFailure(message) => assert_eq!(message, "{\"success\":\"yes\"}"),
        other => panic!("unexpected error {other:?}"),
    }
}

#[test]
fn blank_string_and_null_errors_count_as_empty() {
    create_expense()
        .evaluate(&object(vec![("errors", JsonValue::String(" \t".to_string()))]))
        .expect("blank string is empty");
    create_expense()
        .evaluate(&object(vec![("errors", JsonValue::Null)]))
        .expect("null is empty");
    create_expense()
        .evaluate(&object(vec![("errors", JsonValue::Bool(false))]))
        .expect_err("a boolean is not empty");
    create_expense()
        .evaluate(&object(vec![("errors", JsonValue::String("bad".to_string()))]))
        .expect_err("a non-blank string is not empty");
}

#[test]
fn operations_without_checks_accept_anything() {
    get_groups()
        .evaluate(&JsonValue::Number("3".to_string()))
        .expect("no checks");
}

#[test]
fn success_check_ignores_non_objects() {
    let error = delete_friend()
        .evaluate(&JsonValue::Array(vec![]))
        .expect_err("an array has no success field");
    assert_eq!(error.exit_code(), 2);
}

#[test]
fn operation_table_entries() {
    let ops = all_operations();
    assert_eq!(ops[0].name, "get_current_user");
    assert_eq!(ops[14].name, "delete_friend");
    assert_eq!(ops[14].path, "/delete_friend/{id}");
    assert_eq!(ops[14].method, Method::Post);
    assert_eq!(ops[14].success_checks, vec![SuccessCheck::FieldTrue("success")]);
    assert_eq!(ops[18].success_checks, vec![SuccessCheck::FieldAbsentOrEmpty("errors")]);
    for op in &ops {
        assert_eq!(op.body_required, op.has_body);
        if op.method == Method::Get {
            assert!(!op.has_body);
        }
    }
    let mut names: Vec<&str> = ops.iter().map(|o| o.name).collect();
    names.sort();
    names.dedup();
    assert_eq!(names.len(), 27);
}

#[test]
fn render_compact_scalars() {
    assert_eq!(render_compact(&JsonValue::Null), "null");
    assert_eq!(render_compact(&JsonValue::Bool(false)), "false");
    assert_eq!(render_compact(&JsonValue::Number("12".to_string())), "12");
    assert_eq!(render_compact(&JsonValue::String("plain".to_string())), "plain");
}
