//! `groups list|get|create|delete|undelete|add-user|remove-user`.
use vstd::prelude::*;
use crate::cli::{
    group_type_text, GroupAddUserArgs, GroupCreateArgs, GroupRemoveUserArgs, GroupType,
    GroupsCommand, GroupsSubcommand,
};
use crate::commands::common::{
    call_outcome, call_spec, id_param, id_params, insert_bool_if_true, insert_i64, insert_string,
    no_params, objects_view, opt_json, opt_text, put_all_indexed, put_all_indexed_exec, put_int,
    put_str, put_true, write_body, write_body_exec, ApiCall, CallSpec,
};
use crate::error::CliError;
use crate::json::{Json, JsonObject, JsonValue, Members};
use crate::operations::{
    add_user_to_group, create_group, delete_group, get_group, get_groups, operation_table,
    remove_user_from_group, undelete_group,
};
use crate::text::string_from;

verus! {

/// The API name of an optional group type.
pub open spec fn group_type_opt(g: Option<GroupType>) -> Option<Seq<char>> {
    match g {
        Some(t) => Some(group_type_text(t)),
        None => None,
    }
}

/// The fields `groups create` sets: its flags, then each `--member` spec's
/// members under `users__{i}__{key}` (`user_id` sent as `id`).
pub open spec fn create_fields(f: GroupCreateArgs, members: Seq<Members>) -> Members {
    let m = put_str(Seq::empty(), "name"@, opt_text(f.name));
    let m = put_str(m, "group_type"@, group_type_opt(f.group_type));
    let m = put_true(m, "simplify_by_default"@, f.simplify_by_default);
    put_all_indexed(m, members, true)
}

/// Builds the fields of `groups create`; `members` are its `--member` specs as
/// read (see `commands::common::spec_pairs`).
pub fn build_create_fields(fields: GroupCreateArgs, members: Vec<JsonObject>) -> (body: JsonObject)
    ensures
        body@ == create_fields(fields, objects_view(members@)),
{
    let mut body = JsonObject::new();
    insert_string(&mut body, "name", fields.name);
    let group_type = match fields.group_type {
        Some(g) => Some(string_from(g.as_api_value())),
        None => None,
    };
    insert_string(&mut body, "group_type", group_type);
    insert_bool_if_true(&mut body, "simplify_by_default", fields.simplify_by_default);
    put_all_indexed_exec(&mut body, members, true);
    body
}

/// The fields `groups add-user` sets from its flags.
pub open spec fn add_user_fields(f: GroupAddUserArgs) -> Members {
    let m = put_int(Seq::empty(), "group_id"@, f.group_id);
    let m = put_int(m, "user_id"@, f.user_id);
    let m = put_str(m, "first_name"@, opt_text(f.first_name));
    let m = put_str(m, "last_name"@, opt_text(f.last_name));
    put_str(m, "email"@, opt_text(f.email))
}

/// Builds the fields of `groups add-user`.
pub fn build_add_user_fields(fields: GroupAddUserArgs) -> (body: JsonObject)
    ensures
        body@ == add_user_fields(fields),
{
    let mut body = JsonObject::new();
    insert_i64(&mut body, "group_id", fields.group_id);
    insert_i64(&mut body, "user_id", fields.user_id);
    insert_string(&mut body, "first_name", fields.first_name);
    insert_string(&mut body, "last_name", fields.last_name);
    insert_string(&mut body, "email", fields.email);
    body
}

/// The fields `groups remove-user` sets from its flags.
pub open spec fn remove_user_fields(f: GroupRemoveUserArgs) -> Members {
    let m = put_int(Seq::empty(), "group_id"@, f.group_id);
    put_int(m, "user_id"@, f.user_id)
}

/// Builds the fields of `groups remove-user`.
pub fn build_remove_user_fields(fields: GroupRemoveUserArgs) -> (body: JsonObject)
    ensures
        body@ == remove_user_fields(fields),
{
    let mut body = JsonObject::new();
    insert_i64(&mut body, "group_id", fields.group_id);
    insert_i64(&mut body, "user_id", fields.user_id);
    body
}

/// The call a `groups` subcommand makes, given its `--body` as read and its
/// `--member` specs as read.
pub open spec fn groups_call(cmd: GroupsSubcommand, body: Option<Json>, members: Seq<Members>) -> Result<
    CallSpec,
    Seq<char>,
> {
    match cmd {
        GroupsSubcommand::List => Ok(call_spec(operation_table()[3], Seq::empty(), Seq::empty(), None)),
        GroupsSubcommand::Get { id } => Ok(
            call_spec(operation_table()[4], id_param(id), Seq::empty(), None),
        ),
        GroupsSubcommand::Create { fields, body: _ } => match write_body(
            body,
            create_fields(fields, members),
            "groups create"@,
        ) {
            Ok(b) => Ok(call_spec(operation_table()[5], Seq::empty(), Seq::empty(), Some(b))),
            Err(e) => Err(e),
        },
        GroupsSubcommand::Delete { id } => Ok(
            call_spec(operation_table()[6], id_param(id), Seq::empty(), None),
        ),
        GroupsSubcommand::Undelete { id } => Ok(
            call_spec(operation_table()[7], id_param(id), Seq::empty(), None),
        ),
        GroupsSubcommand::AddUser { fields, body: _ } => match write_body(
            body,
            add_user_fields(fields),
            "groups add-user"@,
        ) {
            Ok(b) => Ok(call_spec(operation_table()[8], Seq::empty(), Seq::empty(), Some(b))),
            Err(e) => Err(e),
        },
        GroupsSubcommand::RemoveUser { fields, body: _ } => match write_body(
            body,
            remove_user_fields(fields),
            "groups remove-user"@,
        ) {
            Ok(b) => Ok(call_spec(operation_table()[9], Seq::empty(), Seq::empty(), Some(b))),
            Err(e) => Err(e),
        },
    }
}

/// Plans the call of a `groups` subcommand; `body` is its `--body` as read and
/// `members` its `--member` specs as read.
pub fn plan(args: GroupsCommand, body: Option<JsonValue>, members: Vec<JsonObject>) -> (r: Result<
    ApiCall,
    CliError,
>)
    ensures
        call_outcome(r, groups_call(args.command, opt_json(body), objects_view(members@))),
{
    match args.command {
        GroupsSubcommand::List => Ok(
            ApiCall {
                operation: get_groups(),
                path_params: no_params(),
                query_params: no_params(),
                body: None,
            },
        ),
        GroupsSubcommand::Get { id } => Ok(
            ApiCall {
                operation: get_group(),
                path_params: id_params(id),
                query_params: no_params(),
                body: None,
            },
        ),
        GroupsSubcommand::Create { fields, body: _ } => {
            let b = write_body_exec(body, build_create_fields(fields, members), "groups create")?;
            Ok(
                ApiCall {
                    operation: create_group(),
                    path_params: no_params(),
                    query_params: no_params(),
                    body: Some(b),
                },
            )
        },
        GroupsSubcommand::Delete { id } => Ok(
            ApiCall {
                operation: delete_group(),
                path_params: id_params(id),
                query_params: no_params(),
                body: None,
            },
        ),
        GroupsSubcommand::Undelete { id } => Ok(
            ApiCall {
                operation: undelete_group(),
                path_params: id_params(id),
                query_params: no_params(),
                body: None,
            },
        ),
        GroupsSubcommand::AddUser { fields, body: _ } => {
            let b = write_body_exec(body, build_add_user_fields(fields), "groups add-user")?;
            Ok(
                ApiCall {
                    operation: add_user_to_group(),
                    path_params: no_params(),
                    query_params: no_params(),
                    body: Some(b),
                },
            )
        },
        GroupsSubcommand::RemoveUser { fields, body: _ } => {
            let b = write_body_exec(body, build_remove_user_fields(fields), "groups remove-user")?;
            Ok(
                ApiCall {
                    operation: remove_user_from_group(),
                    path_params: no_params(),
                    query_params: no_params(),
                    body: Some(b),
                },
            )
        },
    }
}

} // verus!
