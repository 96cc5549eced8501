//! `comments list|create|delete`.
use vstd::prelude::*;
use crate::cli::{CommentCreateArgs, CommentsCommand, CommentsSubcommand};
use crate::commands::common::{
    call_outcome, call_spec, id_param, id_params, insert_i64, insert_string, no_params, opt_json,
    opt_text, push_query_int, put_int, put_str, query_int, write_body, write_body_exec, ApiCall,
    CallSpec,
};
use crate::error::CliError;
use crate::json::{Json, JsonObject, JsonValue, Members};
use crate::operations::{create_comment, delete_comment, get_comments, operation_table};

verus! {

/// The fields `comments create` sets from its flags.
pub open spec fn create_fields(f: CommentCreateArgs) -> Members {
    let m = put_int(Seq::empty(), "expense_id"@, f.expense_id);
    put_str(m, "content"@, opt_text(f.content))
}

/// Builds the fields of `comments create`.
pub fn build_create_fields(fields: CommentCreateArgs) -> (body: JsonObject)
    ensures
        body@ == create_fields(fields),
{
    let mut body = JsonObject::new();
    insert_i64(&mut body, "expense_id", fields.expense_id);
    insert_string(&mut body, "content", fields.content);
    body
}

/// The call a `comments` subcommand makes.
pub open spec fn comments_call(cmd: CommentsSubcommand, body: Option<Json>) -> Result<
    CallSpec,
    Seq<char>,
> {
    match cmd {
        CommentsSubcommand::List { expense_id } => Ok(
            call_spec(
                operation_table()[22],
                Seq::empty(),
                query_int(Seq::empty(), "expense_id"@, Some(expense_id)),
                None,
            ),
        ),
        CommentsSubcommand::Create { fields, body: _ } => match write_body(
            body,
            create_fields(fields),
            "comments create"@,
        ) {
            Ok(b) => Ok(call_spec(operation_table()[23], Seq::empty(), Seq::empty(), Some(b))),
            Err(e) => Err(e),
        },
        CommentsSubcommand::Delete { id } => Ok(
            call_spec(operation_table()[24], id_param(id), Seq::empty(), None),
        ),
    }
}

/// Plans the call of a `comments` subcommand; `body` is its `--body` as read.
pub fn plan(args: CommentsCommand, body: Option<JsonValue>) -> (r: Result<ApiCall, CliError>)
    ensures
        call_outcome(r, comments_call(args.command, opt_json(body))),
{
    match args.command {
        CommentsSubcommand::List { expense_id } => {
            let mut query = no_params();
            push_query_int(&mut query, "expense_id", Some(expense_id));
            Ok(
                ApiCall {
                    operation: get_comments(),
                    path_params: no_params(),
                    query_params: query,
                    body: None,
                },
            )
        },
        CommentsSubcommand::Create { fields, body: _ } => {
            let b = write_body_exec(body, build_create_fields(fields), "comments create")?;
            Ok(
                ApiCall {
                    operation: create_comment(),
                    path_params: no_params(),
                    query_params: no_params(),
                    body: Some(b),
                },
            )
        },
        CommentsSubcommand::Delete { id } => Ok(
            ApiCall {
                operation: delete_comment(),
                path_params: id_params(id),
                query_params: no_params(),
                body: None,
            },
        ),
    }
}

} // verus!
