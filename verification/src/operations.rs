//! The Splitwise API operations the tool can call, and how a response that
//! arrived with a success status is still read as a failure.
use vstd::prelude::*;
use crate::error::CliError;
use crate::json::{
    compact_json, json_compact, json_get, Json, JsonValue,
};
use crate::text::{chars_are_blank, chars_of, is_blank, string_from};

verus! {

broadcast use vstd::string::group_string_axioms;

/// The HTTP method of an operation.
#[derive(Debug, Clone, Copy, PartialEq, Eq)]
pub enum Method {
    Get,
    Post,
}

/// A check on the JSON body of a response that arrived with a success status.
#[derive(Debug, Clone, Copy, PartialEq, Eq)]
pub enum SuccessCheck {
    /// The field must hold the boolean `true`.
    FieldTrue(&'static str),
    /// The field must be missing, or hold null, an empty array, an empty
    /// object or a blank string.
    FieldAbsentOrEmpty(&'static str),
}

/// One API operation: its name, method, path template (with `{id}`-style
/// placeholders), whether it takes and needs a body, and the checks its
/// responses must pass.
#[derive(Debug)]
pub struct OperationSpec {
    pub name: &'static str,
    pub method: Method,
    pub path: &'static str,
    pub has_body: bool,
    pub body_required: bool,
    pub success_checks: Vec<SuccessCheck>,
}

/// Whether a value counts as empty for `FieldAbsentOrEmpty`.
pub open spec fn is_empty_json(c: Json) -> bool {
    match c {
        Json::Null => true,
        Json::Array(items) => items.len() == 0,
        Json::Object(m) => m.len() == 0,
        Json::Str(t) => is_blank(t),
        _ => false,
    }
}

/// Whether a response body passes one check.
pub open spec fn check_passes(check: SuccessCheck, v: Json) -> bool {
    match check {
        SuccessCheck::FieldTrue(f) => json_get(v, f@) == Some(Json::Bool(true)),
        SuccessCheck::FieldAbsentOrEmpty(f) => match json_get(v, f@) {
            None => true,
            Some(c) => is_empty_json(c),
        },
    }
}

/// Whether a response body passes every check.
pub open spec fn checks_pass(checks: Seq<SuccessCheck>, v: Json) -> bool {
    forall|i: int| 0 <= i < checks.len() ==> check_passes(#[trigger] checks[i], v)
}

/// How a value reads in an error message: null, booleans and numbers as their
/// text, a string as itself, anything else as compact JSON.
pub open spec fn compact_rendering(v: Json) -> Seq<char> {
    match v {
        Json::Null => "null"@,
        Json::Bool(b) => if b {
            "true"@
        } else {
            "false"@
        },
        Json::Number(t) => t,
        Json::Str(s) => s,
        _ => match json_compact(v) {
            Ok(t) => t,
            Err(_) => "<unprintable json>"@,
        },
    }
}

/// The message of a semantic failure: the `errors` field where the body has
/// one, else the whole body.
pub open spec fn failure_text(v: Json) -> Seq<char> {
    match json_get(v, "errors"@) {
        Some(e) => compact_rendering(e),
        None => compact_rendering(v),
    }
}

/// Renders a value for an error message.
pub fn render_compact(value: &JsonValue) -> (s: String)
    ensures
        s@ == compact_rendering(value@),
{
    match value {
        JsonValue::Null => string_from("null"),
        JsonValue::Bool(b) => if *b {
            string_from("true")
        } else {
            string_from("false")
        },
        JsonValue::Number(t) => t.clone(),
        JsonValue::String(t) => t.clone(),
        _ => match compact_json(value) {
            Ok(t) => t,
            Err(_) => string_from("<unprintable json>"),
        },
    }
}

/// The message of a semantic failure for a response body.
pub fn render_semantic_failure(value: &JsonValue) -> (s: String)
    ensures
        s@ == failure_text(value@),
{
    match value.get("errors") {
        Some(e) => render_compact(e),
        None => render_compact(value),
    }
}

/// Whether `value` is empty in the sense of `FieldAbsentOrEmpty`.
fn value_is_empty(value: &JsonValue) -> (r: bool)
    ensures
        r == is_empty_json(value@),
{
    match value {
        JsonValue::Null => true,
        JsonValue::Array(items) => {
            proof {
                crate::json::lemma_array_view(*items);
            }
            items.len() == 0
        },
        JsonValue::Object(o) => o.is_empty(),
        JsonValue::String(t) => {
            let c = chars_of(t.as_str());
            chars_are_blank(&c)
        },
        _ => false,
    }
}

/// Whether `value` passes `check`.
pub fn check_value(check: SuccessCheck, value: &JsonValue) -> (r: bool)
    ensures
        r == check_passes(check, value@),
{
    match check {
        SuccessCheck::FieldTrue(field) => match value.get(field) {
            Some(v) => match v.as_bool() {
                Some(b) => b,
                None => false,
            },
            None => false,
        },
        SuccessCheck::FieldAbsentOrEmpty(field) => match value.get(field) {
            None => true,
            Some(candidate) => value_is_empty(candidate),
        },
    }
}

impl OperationSpec {
    /// Reads a response body that arrived with a success status: `Ok` when it
    /// passes every check of the operation, else a semantic failure whose
    /// message renders the body's `errors` field (or the body).
    pub fn evaluate(self, value: &JsonValue) -> (r: Result<(), CliError>)
        ensures
            r is Ok <==> checks_pass(self.success_checks@, value@),
            r matches Err(e) ==> e matches CliError::SemanticFailure(m) && m@ == failure_text(value@),
    {
        let mut i: usize = 0;
        while i < self.success_checks.len()
            invariant
                i <= self.success_checks@.len(),
                forall|k: int| 0 <= k < i ==> check_passes(#[trigger] self.success_checks@[k], value@),
            decreases self.success_checks@.len() - i,
        {
            if !check_value(self.success_checks[i], value) {
                return Err(CliError::SemanticFailure(render_semantic_failure(value)));
            }
            i = i + 1;
        }
        Ok(())
    }
}

// ---------------------------------------------------------------------------
// The operations
// ---------------------------------------------------------------------------

/// The checks of the operations that answer with a `success` flag.
pub open spec fn success_true() -> Seq<SuccessCheck> {
    seq![SuccessCheck::FieldTrue("success")]
}

/// The checks of the operations that answer with an `errors` field.
pub open spec fn errors_empty() -> Seq<SuccessCheck> {
    seq![SuccessCheck::FieldAbsentOrEmpty("errors")]
}

fn no_checks() -> (v: Vec<SuccessCheck>)
    ensures
        v@ == Seq::<SuccessCheck>::empty(),
{
    Vec::new()
}

fn success_true_checks() -> (v: Vec<SuccessCheck>)
    ensures
        v@ == success_true(),
{
    let mut v = Vec::new();
    v.push(SuccessCheck::FieldTrue("success"));
    v
}

fn errors_empty_checks() -> (v: Vec<SuccessCheck>)
    ensures
        v@ == errors_empty(),
{
    let mut v = Vec::new();
    v.push(SuccessCheck::FieldAbsentOrEmpty("errors"));
    v
}

/// Which checks an operation has.
pub enum CheckKind {
    NoChecks,
    SuccessTrue,
    ErrorsEmpty,
}

pub open spec fn checks_of(kind: CheckKind) -> Seq<SuccessCheck> {
    match kind {
        CheckKind::NoChecks => Seq::empty(),
        CheckKind::SuccessTrue => success_true(),
        CheckKind::ErrorsEmpty => errors_empty(),
    }
}

/// The fields of one operation, as the table lists them.
pub struct OperationRow {
    pub name: Seq<char>,
    pub method: Method,
    pub path: Seq<char>,
    pub has_body: bool,
    pub body_required: bool,
    pub checks: CheckKind,
}

/// Whether `op` is the operation that `row` describes.
pub open spec fn matches_row(op: OperationSpec, row: OperationRow) -> bool {
    &&& op.name@ == row.name
    &&& op.method == row.method
    &&& op.path@ == row.path
    &&& op.has_body == row.has_body
    &&& op.body_required == row.body_required
    &&& op.success_checks@ == checks_of(row.checks)
}

fn operation(
    name: &'static str,
    method: Method,
    path: &'static str,
    has_body: bool,
    checks: CheckKind,
) -> (op: OperationSpec)
    ensures
        op.name == name,
        op.method == method,
        op.path == path,
        op.has_body == has_body,
        op.body_required == has_body,
        op.success_checks@ == checks_of(checks),
{
    let success_checks = match checks {
        CheckKind::NoChecks => no_checks(),
        CheckKind::SuccessTrue => success_true_checks(),
        CheckKind::ErrorsEmpty => errors_empty_checks(),
    };
    OperationSpec { name, method, path, has_body, body_required: has_body, success_checks }
}

pub open spec fn row(
    name: Seq<char>,
    method: Method,
    path: Seq<char>,
    has_body: bool,
    checks: CheckKind,
) -> OperationRow {
    OperationRow { name, method, path, has_body, body_required: has_body, checks }
}

/// The operations, in the order `all_operations` lists them.
pub open spec fn operation_table() -> Seq<OperationRow> {
    seq![
        row("get_current_user"@, Method::Get, "/get_current_user"@, false, CheckKind::NoChecks),
        row("get_user"@, Method::Get, "/get_user/{id}"@, false, CheckKind::NoChecks),
        row("update_user"@, Method::Post, "/update_user/{id}"@, true, CheckKind::NoChecks),
        row("get_groups"@, Method::Get, "/get_groups"@, false, CheckKind::NoChecks),
        row("get_group"@, Method::Get, "/get_group/{id}"@, false, CheckKind::NoChecks),
        row("create_group"@, Method::Post, "/create_group"@, true, CheckKind::ErrorsEmpty),
        row("delete_group"@, Method::Post, "/delete_group/{id}"@, false, CheckKind::SuccessTrue),
        row("undelete_group"@, Method::Post, "/undelete_group/{id}"@, false, CheckKind::SuccessTrue),
        row("add_user_to_group"@, Method::Post, "/add_user_to_group"@, true, CheckKind::ErrorsEmpty),
        row(
            "remove_user_from_group"@,
            Method::Post,
            "/remove_user_from_group"@,
            true,
            CheckKind::SuccessTrue,
        ),
        row("get_friends"@, Method::Get, "/get_friends"@, false, CheckKind::NoChecks),
        row("get_friend"@, Method::Get, "/get_friend/{id}"@, false, CheckKind::NoChecks),
        row("create_friend"@, Method::Post, "/create_friend"@, true, CheckKind::NoChecks),
        row("create_friends"@, Method::Post, "/create_friends"@, true, CheckKind::ErrorsEmpty),
        row("delete_friend"@, Method::Post, "/delete_friend/{id}"@, false, CheckKind::SuccessTrue),
        row("get_currencies"@, Method::Get, "/get_currencies"@, false, CheckKind::NoChecks),
        row("get_expense"@, Method::Get, "/get_expense/{id}"@, false, CheckKind::NoChecks),
        row("get_expenses"@, Method::Get, "/get_expenses"@, false, CheckKind::NoChecks),
        row("create_expense"@, Method::Post, "/create_expense"@, true, CheckKind::ErrorsEmpty),
        row("update_expense"@, Method::Post, "/update_expense/{id}"@, true, CheckKind::ErrorsEmpty),
        row("delete_expense"@, Method::Post, "/delete_expense/{id}"@, false, CheckKind::SuccessTrue),
        row(
            "undelete_expense"@,
            Method::Post,
            "/undelete_expense/{id}"@,
            false,
            CheckKind::SuccessTrue,
        ),
        row("get_comments"@, Method::Get, "/get_comments"@, false, CheckKind::NoChecks),
        row("create_comment"@, Method::Post, "/create_comment"@, true, CheckKind::NoChecks),
        row("delete_comment"@, Method::Post, "/delete_comment/{id}"@, false, CheckKind::NoChecks),
        row("get_notifications"@, Method::Get, "/get_notifications"@, false, CheckKind::NoChecks),
        row("get_categories"@, Method::Get, "/get_categories"@, false, CheckKind::NoChecks),
    ]
}

pub fn get_current_user() -> (op: OperationSpec)
    ensures
        matches_row(op, operation_table()[0]),
{
    operation("get_current_user", Method::Get, "/get_current_user", false, CheckKind::NoChecks)
}

pub fn get_user() -> (op: OperationSpec)
    ensures
        matches_row(op, operation_table()[1]),
{
    operation("get_user", Method::Get, "/get_user/{id}", false, CheckKind::NoChecks)
}

pub fn update_user() -> (op: OperationSpec)
    ensures
        matches_row(op, operation_table()[2]),
{
    operation("update_user", Method::Post, "/update_user/{id}", true, CheckKind::NoChecks)
}

pub fn get_groups() -> (op: OperationSpec)
    ensures
        matches_row(op, operation_table()[3]),
{
    operation("get_groups", Method::Get, "/get_groups", false, CheckKind::NoChecks)
}

pub fn get_group() -> (op: OperationSpec)
    ensures
        matches_row(op, operation_table()[4]),
{
    operation("get_group", Method::Get, "/get_group/{id}", false, CheckKind::NoChecks)
}

pub fn create_group() -> (op: OperationSpec)
    ensures
        matches_row(op, operation_table()[5]),
{
    operation("create_group", Method::Post, "/create_group", true, CheckKind::ErrorsEmpty)
}

pub fn delete_group() -> (op: OperationSpec)
    ensures
        matches_row(op, operation_table()[6]),
{
    operation("delete_group", Method::Post, "/delete_group/{id}", false, CheckKind::SuccessTrue)
}

pub fn undelete_group() -> (op: OperationSpec)
    ensures
        matches_row(op, operation_table()[7]),
{
    operation("undelete_group", Method::Post, "/undelete_group/{id}", false, CheckKind::SuccessTrue)
}

pub fn add_user_to_group() -> (op: OperationSpec)
    ensures
        matches_row(op, operation_table()[8]),
{
    operation("add_user_to_group", Method::Post, "/add_user_to_group", true, CheckKind::ErrorsEmpty)
}

pub fn remove_user_from_group() -> (op: OperationSpec)
    ensures
        matches_row(op, operation_table()[9]),
{
    operation(
        "remove_user_from_group",
        Method::Post,
        "/remove_user_from_group",
        true,
        CheckKind::SuccessTrue,
    )
}

pub fn get_friends() -> (op: OperationSpec)
    ensures
        matches_row(op, operation_table()[10]),
{
    operation("get_friends", Method::Get, "/get_friends", false, CheckKind::NoChecks)
}

pub fn get_friend() -> (op: OperationSpec)
    ensures
        matches_row(op, operation_table()[11]),
{
    operation("get_friend", Method::Get, "/get_friend/{id}", false, CheckKind::NoChecks)
}

pub fn create_friend() -> (op: OperationSpec)
    ensures
        matches_row(op, operation_table()[12]),
{
    operation("create_friend", Method::Post, "/create_friend", true, CheckKind::NoChecks)
}

pub fn create_friends() -> (op: OperationSpec)
    ensures
        matches_row(op, operation_table()[13]),
{
    operation("create_friends", Method::Post, "/create_friends", true, CheckKind::ErrorsEmpty)
}

pub fn delete_friend() -> (op: OperationSpec)
    ensures
        matches_row(op, operation_table()[14]),
{
    operation("delete_friend", Method::Post, "/delete_friend/{id}", false, CheckKind::SuccessTrue)
}

pub fn get_currencies() -> (op: OperationSpec)
    ensures
        matches_row(op, operation_table()[15]),
{
    operation("get_currencies", Method::Get, "/get_currencies", false, CheckKind::NoChecks)
}

pub fn get_expense() -> (op: OperationSpec)
    ensures
        matches_row(op, operation_table()[16]),
{
    operation("get_expense", Method::Get, "/get_expense/{id}", false, CheckKind::NoChecks)
}

pub fn get_expenses() -> (op: OperationSpec)
    ensures
        matches_row(op, operation_table()[17]),
{
    operation("get_expenses", Method::Get, "/get_expenses", false, CheckKind::NoChecks)
}

pub fn create_expense() -> (op: OperationSpec)
    ensures
        matches_row(op, operation_table()[18]),
{
    operation("create_expense", Method::Post, "/create_expense", true, CheckKind::ErrorsEmpty)
}

pub fn update_expense() -> (op: OperationSpec)
    ensures
        matches_row(op, operation_table()[19]),
{
    operation("update_expense", Method::Post, "/update_expense/{id}", true, CheckKind::ErrorsEmpty)
}

pub fn delete_expense() -> (op: OperationSpec)
    ensures
        matches_row(op, operation_table()[20]),
{
    operation("delete_expense", Method::Post, "/delete_expense/{id}", false, CheckKind::SuccessTrue)
}

pub fn undelete_expense() -> (op: OperationSpec)
    ensures
        matches_row(op, operation_table()[21]),
{
    operation(
        "undelete_expense",
        Method::Post,
        "/undelete_expense/{id}",
        false,
        CheckKind::SuccessTrue,
    )
}

pub fn get_comments() -> (op: OperationSpec)
    ensures
        matches_row(op, operation_table()[22]),
{
    operation("get_comments", Method::Get, "/get_comments", false, CheckKind::NoChecks)
}

pub fn create_comment() -> (op: OperationSpec)
    ensures
        matches_row(op, operation_table()[23]),
{
    operation("create_comment", Method::Post, "/create_comment", true, CheckKind::NoChecks)
}

pub fn delete_comment() -> (op: OperationSpec)
    ensures
        matches_row(op, operation_table()[24]),
{
    operation("delete_comment", Method::Post, "/delete_comment/{id}", false, CheckKind::NoChecks)
}

pub fn get_notifications() -> (op: OperationSpec)
    ensures
        matches_row(op, operation_table()[25]),
{
    operation("get_notifications", Method::Get, "/get_notifications", false, CheckKind::NoChecks)
}

pub fn get_categories() -> (op: OperationSpec)
    ensures
        matches_row(op, operation_table()[26]),
{
    operation("get_categories", Method::Get, "/get_categories", false, CheckKind::NoChecks)
}

/// Every operation the tool covers, in table order.
pub fn all_operations() -> (ops: Vec<OperationSpec>)
    ensures
        ops@.len() == operation_table().len(),
        forall|i: int| 0 <= i < ops@.len() ==> matches_row(#[trigger] ops@[i], operation_table()[i]),
{
    let mut ops: Vec<OperationSpec> = Vec::new();
    ops.push(get_current_user());
    ops.push(get_user());
    ops.push(update_user());
    ops.push(get_groups());
    ops.push(get_group());
    ops.push(create_group());
    ops.push(delete_group());
    ops.push(undelete_group());
    ops.push(add_user_to_group());
    ops.push(remove_user_from_group());
    ops.push(get_friends());
    ops.push(get_friend());
    ops.push(create_friend());
    ops.push(create_friends());
    ops.push(delete_friend());
    ops.push(get_currencies());
    ops.push(get_expense());
    ops.push(get_expenses());
    ops.push(create_expense());
    ops.push(update_expense());
    ops.push(delete_expense());
    ops.push(undelete_expense());
    ops.push(get_comments());
    ops.push(create_comment());
    ops.push(delete_comment());
    ops.push(get_notifications());
    ops.push(get_categories());
    ops
}

} // verus!
