//! `categories list` and `currencies list`.
use vstd::prelude::*;
use crate::cli::{CategoriesCommand, CurrenciesCommand, ReferenceSubcommand};
use crate::commands::common::{call_outcome, call_spec, no_params, ApiCall, CallSpec};
use crate::error::CliError;
use crate::operations::{get_categories, get_currencies, operation_table};

verus! {

/// The call `categories list` makes.
pub open spec fn categories_call(cmd: ReferenceSubcommand) -> Result<CallSpec, Seq<char>> {
    match cmd {
        ReferenceSubcommand::List => Ok(
            call_spec(operation_table()[26], Seq::empty(), Seq::empty(), None),
        ),
    }
}

/// The call `currencies list` makes.
pub open spec fn currencies_call(cmd: ReferenceSubcommand) -> Result<CallSpec, Seq<char>> {
    match cmd {
        ReferenceSubcommand::List => Ok(
            call_spec(operation_table()[15], Seq::empty(), Seq::empty(), None),
        ),
    }
}

/// Plans the call of a `categories` subcommand.
pub fn plan_categories(args: CategoriesCommand) -> (r: Result<ApiCall, CliError>)
    ensures
        call_outcome(r, categories_call(args.command)),
{
    match args.command {
        ReferenceSubcommand::List => Ok(
            ApiCall {
                operation: get_categories(),
                path_params: no_params(),
                query_params: no_params(),
                body: None,
            },
        ),
    }
}

/// Plans the call of a `currencies` subcommand.
pub fn plan_currencies(args: CurrenciesCommand) -> (r: Result<ApiCall, CliError>)
    ensures
        call_outcome(r, currencies_call(args.command)),
{
    match args.command {
        ReferenceSubcommand::List => Ok(
            ApiCall {
                operation: get_currencies(),
                path_params: no_params(),
                query_params: no_params(),
                body: None,
            },
        ),
    }
}

} // verus!
