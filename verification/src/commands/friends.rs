//! `friends list|get|create|create-many|delete`.
use vstd::prelude::*;
use crate::cli::{FriendCreateArgs, FriendsCommand, FriendsSubcommand};
use crate::commands::common::{
    call_outcome, call_spec, id_param, id_params, insert_string, no_params, objects_view, opt_json,
    opt_text, put_all_indexed, put_all_indexed_exec, put_str, write_body, write_body_exec, ApiCall,
    CallSpec,
};
use crate::error::CliError;
use crate::json::{Json, JsonObject, JsonValue, Members};
use crate::operations::{
    create_friend, create_friends, delete_friend, get_friend, get_friends, operation_table,
};

verus! {

/// The fields `friends create` sets from its flags.
pub open spec fn create_fields(f: FriendCreateArgs) -> Members {
    let m = put_str(Seq::empty(), "user_email"@, opt_text(f.email));
    let m = put_str(m, "user_first_name"@, opt_text(f.first_name));
    put_str(m, "user_last_name"@, opt_text(f.last_name))
}

/// Builds the fields of `friends create`.
pub fn build_create_fields(fields: FriendCreateArgs) -> (body: JsonObject)
    ensures
        body@ == create_fields(fields),
{
    let mut body = JsonObject::new();
    insert_string(&mut body, "user_email", fields.email);
    insert_string(&mut body, "user_first_name", fields.first_name);
    insert_string(&mut body, "user_last_name", fields.last_name);
    body
}

/// The fields `friends create-many` sets: each `--friend` spec's members under
/// `users__{i}__{key}`.
pub open spec fn create_many_fields(friends: Seq<Members>) -> Members {
    put_all_indexed(Seq::empty(), friends, false)
}

/// Builds the fields of `friends create-many`; `friends` are its `--friend`
/// specs as read.
pub fn build_create_many_fields(friends: Vec<JsonObject>) -> (body: JsonObject)
    ensures
        body@ == create_many_fields(objects_view(friends@)),
{
    let mut body = JsonObject::new();
    put_all_indexed_exec(&mut body, friends, false);
    body
}

/// The call a `friends` subcommand makes.
pub open spec fn friends_call(cmd: FriendsSubcommand, body: Option<Json>, friends: Seq<Members>) -> Result<
    CallSpec,
    Seq<char>,
> {
    match cmd {
        FriendsSubcommand::List => Ok(call_spec(operation_table()[10], Seq::empty(), Seq::empty(), None)),
        FriendsSubcommand::Get { id } => Ok(
            call_spec(operation_table()[11], id_param(id), Seq::empty(), None),
        ),
        FriendsSubcommand::Create { fields, body: _ } => match write_body(
            body,
            create_fields(fields),
            "friends create"@,
        ) {
            Ok(b) => Ok(call_spec(operation_table()[12], Seq::empty(), Seq::empty(), Some(b))),
            Err(e) => Err(e),
        },
        FriendsSubcommand::CreateMany { friends: _, body: _ } => match write_body(
            body,
            create_many_fields(friends),
            "friends create-many"@,
        ) {
            Ok(b) => Ok(call_spec(operation_table()[13], Seq::empty(), Seq::empty(), Some(b))),
            Err(e) => Err(e),
        },
        FriendsSubcommand::Delete { id } => Ok(
            call_spec(operation_table()[14], id_param(id), Seq::empty(), None),
        ),
    }
}

/// Plans the call of a `friends` subcommand; `body` is its `--body` as read and
/// `friends` its `--friend` specs as read.
pub fn plan(args: FriendsCommand, body: Option<JsonValue>, friends: Vec<JsonObject>) -> (r: Result<
    ApiCall,
    CliError,
>)
    ensures
        call_outcome(r, friends_call(args.command, opt_json(body), objects_view(friends@))),
{
    match args.command {
        FriendsSubcommand::List => Ok(
            ApiCall {
                operation: get_friends(),
                path_params: no_params(),
                query_params: no_params(),
                body: None,
            },
        ),
        FriendsSubcommand::Get { id } => Ok(
            ApiCall {
                operation: get_friend(),
                path_params: id_params(id),
                query_params: no_params(),
                body: None,
            },
        ),
        FriendsSubcommand::Create { fields, body: _ } => {
            let b = write_body_exec(body, build_create_fields(fields), "friends create")?;
            Ok(
                ApiCall {
                    operation: create_friend(),
                    path_params: no_params(),
                    query_params: no_params(),
                    body: Some(b),
                },
            )
        },
        FriendsSubcommand::CreateMany { friends: _, body: _ } => {
            let b = write_body_exec(body, build_create_many_fields(friends), "friends create-many")?;
            Ok(
                ApiCall {
                    operation: create_friends(),
                    path_params: no_params(),
                    query_params: no_params(),
                    body: Some(b),
                },
            )
        },
        FriendsSubcommand::Delete { id } => Ok(
            ApiCall {
                operation: delete_friend(),
                path_params: id_params(id),
                query_params: no_params(),
                body: None,
            },
        ),
    }
}

} // verus!
