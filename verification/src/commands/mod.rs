//! The commands: what call each one makes, and which of its arguments must be
//! read before the call can be planned.
pub mod comments;
pub mod common;
pub mod expenses;
pub mod friends;
pub mod groups;
pub mod notifications;
pub mod reference;
pub mod users;

use vstd::prelude::*;
use crate::cli::{
    CommandGroup, CommentsSubcommand, ExpensesSubcommand, FriendsSubcommand, GroupsSubcommand,
    UsersSubcommand,
};
use crate::commands::common::{
    call_outcome, clone_opt, objects_view, opt_json, opt_text, ApiCall, CallSpec,
};
use crate::error::CliError;
use crate::json::{Json, JsonObject, JsonValue, Members};
use crate::output::cells_view;

verus! {

/// The `--body` argument of a command, where it takes one.
pub open spec fn body_arg(command: CommandGroup) -> Option<Seq<char>> {
    match command {
        CommandGroup::Users(c) => match c.command {
            UsersSubcommand::Update { body, .. } => opt_text(body),
            _ => None,
        },
        CommandGroup::Groups(c) => match c.command {
            GroupsSubcommand::Create { body, .. } => opt_text(body),
            GroupsSubcommand::AddUser { body, .. } => opt_text(body),
            GroupsSubcommand::RemoveUser { body, .. } => opt_text(body),
            _ => None,
        },
        CommandGroup::Friends(c) => match c.command {
            FriendsSubcommand::Create { body, .. } => opt_text(body),
            FriendsSubcommand::CreateMany { body, .. } => opt_text(body),
            _ => None,
        },
        CommandGroup::Expenses(c) => match c.command {
            ExpensesSubcommand::Create { body, .. } => opt_text(body),
            ExpensesSubcommand::Update { body, .. } => opt_text(body),
            _ => None,
        },
        CommandGroup::Comments(c) => match c.command {
            CommentsSubcommand::Create { body, .. } => opt_text(body),
            _ => None,
        },
        _ => None,
    }
}

/// The typed `key=value` specs of a command: `groups create --member`,
/// `friends create-many --friend`, `expenses create|update --share`.
pub open spec fn spec_args(command: CommandGroup) -> Seq<Seq<char>> {
    match command {
        CommandGroup::Groups(c) => match c.command {
            GroupsSubcommand::Create { fields, .. } => cells_view(fields.members@),
            _ => Seq::empty(),
        },
        CommandGroup::Friends(c) => match c.command {
            FriendsSubcommand::CreateMany { friends, .. } => cells_view(friends@),
            _ => Seq::empty(),
        },
        CommandGroup::Expenses(c) => match c.command {
            ExpensesSubcommand::Create { fields, .. } => cells_view(fields.shares@),
            ExpensesSubcommand::Update { fields, .. } => cells_view(fields.shares@),
            _ => Seq::empty(),
        },
        _ => Seq::empty(),
    }
}

/// The `--body` argument of a command, where it takes one.
pub fn body_argument(command: &CommandGroup) -> (r: Option<String>)
    ensures
        opt_text(r) == body_arg(*command),
{
    match command {
        CommandGroup::Users(c) => match &c.command {
            UsersSubcommand::Update { body, .. } => clone_opt(body),
            _ => None,
        },
        CommandGroup::Groups(c) => match &c.command {
            GroupsSubcommand::Create { body, .. } => clone_opt(body),
            GroupsSubcommand::AddUser { body, .. } => clone_opt(body),
            GroupsSubcommand::RemoveUser { body, .. } => clone_opt(body),
            _ => None,
        },
        CommandGroup::Friends(c) => match &c.command {
            FriendsSubcommand::Create { body, .. } => clone_opt(body),
            FriendsSubcommand::CreateMany { body, .. } => clone_opt(body),
            _ => None,
        },
        CommandGroup::Expenses(c) => match &c.command {
            ExpensesSubcommand::Create { body, .. } => clone_opt(body),
            ExpensesSubcommand::Update { body, .. } => clone_opt(body),
            _ => None,
        },
        CommandGroup::Comments(c) => match &c.command {
            CommentsSubcommand::Create { body, .. } => clone_opt(body),
            _ => None,
        },
        _ => None,
    }
}

fn clone_strings(v: &Vec<String>) -> (r: Vec<String>)
    ensures
        cells_view(r@) == cells_view(v@),
{
    let mut r: Vec<String> = Vec::new();
    let mut i: usize = 0;
    while i < v.len()
        invariant
            i <= v@.len(),
            r@.len() == i,
            forall|j: int| 0 <= j < i ==> #[trigger] r@[j]@ == v@[j]@,
        decreases v@.len() - i,
    {
        r.push(v[i].clone());
        i = i + 1;
    }
    assert(cells_view(r@) =~= cells_view(v@));
    r
}

/// The typed `key=value` specs of a command, in order.
pub fn typed_spec_arguments(command: &CommandGroup) -> (r: Vec<String>)
    ensures
        cells_view(r@) == spec_args(*command),
{
    match command {
        CommandGroup::Groups(c) => match &c.command {
            GroupsSubcommand::Create { fields, .. } => clone_strings(&fields.members),
            _ => Vec::new(),
        },
        CommandGroup::Friends(c) => match &c.command {
            FriendsSubcommand::CreateMany { friends, .. } => clone_strings(friends),
            _ => Vec::new(),
        },
        CommandGroup::Expenses(c) => match &c.command {
            ExpensesSubcommand::Create { fields, .. } => clone_strings(&fields.shares),
            ExpensesSubcommand::Update { fields, .. } => clone_strings(&fields.shares),
            _ => Vec::new(),
        },
        _ => Vec::new(),
    }
}

/// The call a command makes, given its `--body` as read and its typed specs as
/// read.
pub open spec fn command_call(command: CommandGroup, body: Option<Json>, specs: Seq<Members>) -> Result<
    CallSpec,
    Seq<char>,
> {
    match command {
        CommandGroup::Users(c) => users::users_call(c.command, body),
        CommandGroup::Groups(c) => groups::groups_call(c.command, body, specs),
        CommandGroup::Friends(c) => friends::friends_call(c.command, body, specs),
        CommandGroup::Expenses(c) => expenses::expenses_call(c.command, body, specs),
        CommandGroup::Comments(c) => comments::comments_call(c.command, body),
        CommandGroup::Notifications(c) => notifications::notifications_call(c.command),
        CommandGroup::Categories(c) => reference::categories_call(c.command),
        CommandGroup::Currencies(c) => reference::currencies_call(c.command),
    }
}

/// Plans the call of a command; `body` is its `--body` as read (see
/// `common::body_source`, `common::parse_body_text`) and `specs` its typed specs
/// as read (see `common::read_specs`, `common::spec_objects_from`).
pub fn plan_command(command: CommandGroup, body: Option<JsonValue>, specs: Vec<JsonObject>) -> (r:
    Result<ApiCall, CliError>)
    ensures
        call_outcome(r, command_call(command, opt_json(body), objects_view(specs@))),
{
    match command {
        CommandGroup::Users(c) => users::plan(c, body),
        CommandGroup::Groups(c) => groups::plan(c, body, specs),
        CommandGroup::Friends(c) => friends::plan(c, body, specs),
        CommandGroup::Expenses(c) => expenses::plan(c, body, specs),
        CommandGroup::Comments(c) => comments::plan(c, body),
        CommandGroup::Notifications(c) => notifications::plan(c),
        CommandGroup::Categories(c) => reference::plan_categories(c),
        CommandGroup::Currencies(c) => reference::plan_currencies(c),
    }
}

} // verus!
