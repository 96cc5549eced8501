//! `notifications list`.
use vstd::prelude::*;
use crate::cli::{NotificationsCommand, NotificationsSubcommand};
use crate::commands::common::{
    call_outcome, call_spec, no_params, opt_text, push_query_int, push_query_str, query_int,
    query_str, ApiCall, CallSpec,
};
use crate::error::CliError;
use crate::operations::{get_notifications, operation_table};

verus! {

/// The call `notifications list` makes: `limit` then `updated_after`, each sent
/// when given.
pub open spec fn notifications_call(cmd: NotificationsSubcommand) -> Result<CallSpec, Seq<char>> {
    match cmd {
        NotificationsSubcommand::List { limit, updated_after } => Ok(
            call_spec(
                operation_table()[25],
                Seq::empty(),
                query_str(
                    query_int(Seq::empty(), "limit"@, limit),
                    "updated_after"@,
                    opt_text(updated_after),
                ),
                None,
            ),
        ),
    }
}

/// Plans the call of a `notifications` subcommand.
pub fn plan(args: NotificationsCommand) -> (r: Result<ApiCall, CliError>)
    ensures
        call_outcome(r, notifications_call(args.command)),
{
    match args.command {
        NotificationsSubcommand::List { limit, updated_after } => {
            let mut query = no_params();
            push_query_int(&mut query, "limit", limit);
            push_query_str(&mut query, "updated_after", updated_after);
            Ok(
                ApiCall {
                    operation: get_notifications(),
                    path_params: no_params(),
                    query_params: query,
                    body: None,
                },
            )
        },
    }
}

} // verus!
