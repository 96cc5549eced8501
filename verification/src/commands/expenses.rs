//! `expenses list|get|create|update|delete|undelete`.
use vstd::prelude::*;
use crate::cli::{ExpenseWriteArgs, ExpensesCommand, ExpensesSubcommand};
use crate::commands::common::{
    call_outcome, call_spec, id_param, id_params, insert_array, insert_bool_if_true, insert_i64,
    insert_string, no_params, objects_view, opt_json, opt_text, push_query_int, push_query_str,
    put_array, put_int, put_str, put_true, query_int, query_str, write_body, write_body_exec,
    ApiCall, CallSpec,
};
use crate::error::CliError;
use crate::json::{items_view, Json, JsonObject, JsonValue, Members};
use crate::operations::{
    create_expense, delete_expense, get_expense, get_expenses, operation_table, undelete_expense,
    update_expense,
};

verus! {

/// The `--share` specs as JSON objects.
pub open spec fn shares_json(shares: Seq<Members>) -> Seq<Json> {
    shares.map_values(|m: Members| Json::Object(m))
}

/// The fields `expenses create` and `expenses update` set: the flags, then the
/// `--share` specs as the array `users` when there are any.
pub open spec fn write_fields(f: ExpenseWriteArgs, shares: Seq<Members>) -> Members {
    let m = put_str(Seq::empty(), "cost"@, opt_text(f.cost));
    let m = put_str(m, "description"@, opt_text(f.description));
    let m = put_str(m, "details"@, opt_text(f.details));
    let m = put_int(m, "group_id"@, f.group_id);
    let m = put_str(m, "currency_code"@, opt_text(f.currency_code));
    let m = put_str(m, "date"@, opt_text(f.date));
    let m = put_int(m, "category_id"@, f.category_id);
    let m = put_true(m, "payment"@, f.payment);
    put_array(m, "users"@, shares_json(shares))
}

fn objects_to_values(objects: Vec<JsonObject>) -> (values: Vec<JsonValue>)
    ensures
        items_view(values@) == shares_json(objects_view(objects@)),
{
    let ghost all = objects_view(objects@);
    let n = objects.len();
    let mut rest = objects;
    let mut values: Vec<JsonValue> = Vec::new();
    while rest.len() > 0
        invariant
            n == all.len(),
            rest@.len() + values@.len() == n,
            forall|j: int| 0 <= j < rest@.len() ==> #[trigger] rest@[j]@ == all[j + values@.len()],
            items_view(values@) == shares_json(all.take(values@.len() as int)),
        decreases rest@.len(),
    {
        let ghost prev = rest@;
        let ghost before = values@;
        let o = rest.remove(0);
        assert(o@ == all[before.len() as int]);
        let ghost ov = o@;
        values.push(JsonValue::Object(o));
        assert(values@.last()@ == Json::Object(ov));
        assert(items_view(values@) =~= items_view(before).push(Json::Object(ov)));
        assert(all.take(values@.len() as int) =~= all.take(before.len() as int).push(ov));
        assert(items_view(values@) =~= shares_json(all.take(values@.len() as int)));
        assert forall|j: int| 0 <= j < rest@.len() implies #[trigger] rest@[j]@ == all[j + values@.len()] by {
            assert(rest@[j] == prev[j + 1]);
        }
    }
    assert(all.take(n as int) == all);
    values
}

/// Builds the fields of `expenses create|update`; `shares` are its `--share`
/// specs as read.
pub fn build_write_fields(fields: ExpenseWriteArgs, shares: Vec<JsonObject>) -> (body: JsonObject)
    ensures
        body@ == write_fields(fields, objects_view(shares@)),
{
    let mut body = JsonObject::new();
    insert_string(&mut body, "cost", fields.cost);
    insert_string(&mut body, "description", fields.description);
    insert_string(&mut body, "details", fields.details);
    insert_i64(&mut body, "group_id", fields.group_id);
    insert_string(&mut body, "currency_code", fields.currency_code);
    insert_string(&mut body, "date", fields.date);
    insert_i64(&mut body, "category_id", fields.category_id);
    insert_bool_if_true(&mut body, "payment", fields.payment);
    insert_array(&mut body, "users", objects_to_values(shares));
    body
}

/// The query of `expenses list`: each filter that is given, in a fixed order.
pub open spec fn list_query(cmd: ExpensesSubcommand) -> Seq<(Seq<char>, Seq<char>)> {
    match cmd {
        ExpensesSubcommand::List {
            group_id,
            friend_id,
            dated_after,
            dated_before,
            updated_after,
            updated_before,
            limit,
            offset,
        } => {
            let q = query_int(Seq::empty(), "group_id"@, group_id);
            let q = query_int(q, "friend_id"@, friend_id);
            let q = query_str(q, "dated_after"@, opt_text(dated_after));
            let q = query_str(q, "dated_before"@, opt_text(dated_before));
            let q = query_str(q, "updated_after"@, opt_text(updated_after));
            let q = query_str(q, "updated_before"@, opt_text(updated_before));
            let q = query_int(q, "limit"@, limit);
            query_int(q, "offset"@, offset)
        },
        _ => Seq::empty(),
    }
}

/// The call an `expenses` subcommand makes.
pub open spec fn expenses_call(cmd: ExpensesSubcommand, body: Option<Json>, shares: Seq<Members>) -> Result<
    CallSpec,
    Seq<char>,
> {
    match cmd {
        ExpensesSubcommand::List { .. } => Ok(
            call_spec(operation_table()[17], Seq::empty(), list_query(cmd), None),
        ),
        ExpensesSubcommand::Get { id } => Ok(
            call_spec(operation_table()[16], id_param(id), Seq::empty(), None),
        ),
        ExpensesSubcommand::Create { fields, body: _ } => match write_body(
            body,
            write_fields(fields, shares),
            "expenses create"@,
        ) {
            Ok(b) => Ok(call_spec(operation_table()[18], Seq::empty(), Seq::empty(), Some(b))),
            Err(e) => Err(e),
        },
        ExpensesSubcommand::Update { id, fields, body: _ } => match write_body(
            body,
            write_fields(fields, shares),
            "expenses update"@,
        ) {
            Ok(b) => Ok(call_spec(operation_table()[19], id_param(id), Seq::empty(), Some(b))),
            Err(e) => Err(e),
        },
        ExpensesSubcommand::Delete { id } => Ok(
            call_spec(operation_table()[20], id_param(id), Seq::empty(), None),
        ),
        ExpensesSubcommand::Undelete { id } => Ok(
            call_spec(operation_table()[21], id_param(id), Seq::empty(), None),
        ),
    }
}

/// Plans the call of an `expenses` subcommand; `body` is its `--body` as read
/// and `shares` its `--share` specs as read.
pub fn plan(args: ExpensesCommand, body: Option<JsonValue>, shares: Vec<JsonObject>) -> (r: Result<
    ApiCall,
    CliError,
>)
    ensures
        call_outcome(r, expenses_call(args.command, opt_json(body), objects_view(shares@))),
{
    let ghost cmd = args.command;
    match args.command {
        ExpensesSubcommand::List {
            group_id,
            friend_id,
            dated_after,
            dated_before,
            updated_after,
            updated_before,
            limit,
            offset,
        } => {
            let mut query = no_params();
            push_query_int(&mut query, "group_id", group_id);
            push_query_int(&mut query, "friend_id", friend_id);
            push_query_str(&mut query, "dated_after", dated_after);
            push_query_str(&mut query, "dated_before", dated_before);
            push_query_str(&mut query, "updated_after", updated_after);
            push_query_str(&mut query, "updated_before", updated_before);
            push_query_int(&mut query, "limit", limit);
            push_query_int(&mut query, "offset", offset);
            Ok(
                ApiCall {
                    operation: get_expenses(),
                    path_params: no_params(),
                    query_params: query,
                    body: None,
                },
            )
        },
        ExpensesSubcommand::Get { id } => Ok(
            ApiCall {
                operation: get_expense(),
                path_params: id_params(id),
                query_params: no_params(),
                body: None,
            },
        ),
        ExpensesSubcommand::Create { fields, body: _ } => {
            let b = write_body_exec(body, build_write_fields(fields, shares), "expenses create")?;
            Ok(
                ApiCall {
                    operation: create_expense(),
                    path_params: no_params(),
                    query_params: no_params(),
                    body: Some(b),
                },
            )
        },
        ExpensesSubcommand::Update { id, fields, body: _ } => {
            let b = write_body_exec(body, build_write_fields(fields, shares), "expenses update")?;
            Ok(
                ApiCall {
                    operation: update_expense(),
                    path_params: id_params(id),
                    query_params: no_params(),
                    body: Some(b),
                },
            )
        },
        ExpensesSubcommand::Delete { id } => Ok(
            ApiCall {
                operation: delete_expense(),
                path_params: id_params(id),
                query_params: no_params(),
                body: None,
            },
        ),
        ExpensesSubcommand::Undelete { id } => Ok(
            ApiCall {
                operation: undelete_expense(),
                path_params: id_params(id),
                query_params: no_params(),
                body: None,
            },
        ),
    }
}

} // verus!
