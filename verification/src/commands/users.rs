//! `users me|get|update`.
use vstd::prelude::*;
use crate::cli::{UserUpdateArgs, UsersCommand, UsersSubcommand};
use crate::commands::common::{
    call_outcome, call_spec, id_param, id_params, insert_string, no_params, opt_json, opt_text,
    put_str, write_body, write_body_exec, ApiCall, CallSpec,
};
use crate::error::CliError;
use crate::json::{Json, JsonObject, JsonValue, Members};
use crate::operations::{get_current_user, get_user, operation_table, update_user};

verus! {

/// The fields `users update` sets from its flags.
pub open spec fn update_fields(f: UserUpdateArgs) -> Members {
    let m = put_str(Seq::empty(), "first_name"@, opt_text(f.first_name));
    let m = put_str(m, "last_name"@, opt_text(f.last_name));
    let m = put_str(m, "email"@, opt_text(f.email));
    let m = put_str(m, "password"@, opt_text(f.password));
    let m = put_str(m, "locale"@, opt_text(f.locale));
    put_str(m, "default_currency"@, opt_text(f.default_currency))
}

/// Builds the fields `users update` sets from its flags.
pub fn build_update_fields(fields: UserUpdateArgs) -> (body: JsonObject)
    ensures
        body@ == update_fields(fields),
{
    let mut body = JsonObject::new();
    insert_string(&mut body, "first_name", fields.first_name);
    insert_string(&mut body, "last_name", fields.last_name);
    insert_string(&mut body, "email", fields.email);
    insert_string(&mut body, "password", fields.password);
    insert_string(&mut body, "locale", fields.locale);
    insert_string(&mut body, "default_currency", fields.default_currency);
    body
}

/// The call a `users` subcommand makes, given its `--body` as read.
pub open spec fn users_call(cmd: UsersSubcommand, body: Option<Json>) -> Result<CallSpec, Seq<char>> {
    match cmd {
        UsersSubcommand::Me => Ok(call_spec(operation_table()[0], Seq::empty(), Seq::empty(), None)),
        UsersSubcommand::Get { id } => Ok(
            call_spec(operation_table()[1], id_param(id), Seq::empty(), None),
        ),
        UsersSubcommand::Update { id, fields, body: _ } => match write_body(
            body,
            update_fields(fields),
            "users update"@,
        ) {
            Ok(b) => Ok(call_spec(operation_table()[2], id_param(id), Seq::empty(), Some(b))),
            Err(e) => Err(e),
        },
    }
}

/// Plans the call of a `users` subcommand; `body` is its `--body` as read.
pub fn plan(args: UsersCommand, body: Option<JsonValue>) -> (r: Result<ApiCall, CliError>)
    ensures
        call_outcome(r, users_call(args.command, opt_json(body))),
{
    match args.command {
        UsersSubcommand::Me => Ok(
            ApiCall {
                operation: get_current_user(),
                path_params: no_params(),
                query_params: no_params(),
                body: None,
            },
        ),
        UsersSubcommand::Get { id } => Ok(
            ApiCall {
                operation: get_user(),
                path_params: id_params(id),
                query_params: no_params(),
                body: None,
            },
        ),
        UsersSubcommand::Update { id, fields, body: _ } => {
            let b = write_body_exec(body, build_update_fields(fields), "users update")?;
            Ok(
                ApiCall {
                    operation: update_user(),
                    path_params: id_params(id),
                    query_params: no_params(),
                    body: Some(b),
                },
            )
        },
    }
}

} // verus!
