//! The command line as data: global options and the command tree.
use vstd::prelude::*;

verus! {

#[verifier::external_type_specification]
#[verifier::external_body]
pub struct ExPathBuf(std::path::PathBuf);

/// How results are printed.
#[derive(Debug, Clone, Copy, PartialEq, Eq, Structural)]
pub enum OutputFormat {
    Table,
    Json,
    Yaml,
}

/// The kinds of group Splitwise knows.
#[derive(Debug, Clone, Copy, PartialEq, Eq, Structural)]
pub enum GroupType {
    Home,
    Trip,
    Couple,
    Other,
    Apartment,
    House,
}

/// The name the API uses for a group type.
pub open spec fn group_type_text(g: GroupType) -> Seq<char> {
    match g {
        GroupType::Home => "home"@,
        GroupType::Trip => "trip"@,
        GroupType::Couple => "couple"@,
        GroupType::Other => "other"@,
        GroupType::Apartment => "apartment"@,
        GroupType::House => "house"@,
    }
}

impl GroupType {
    /// The name the API uses for this group type.
    pub fn as_api_value(self) -> (s: &'static str)
        ensures
            s@ == group_type_text(self),
    {
        match self {
            GroupType::Home => "home",
            GroupType::Trip => "trip",
            GroupType::Couple => "couple",
            GroupType::Other => "other",
            GroupType::Apartment => "apartment",
            GroupType::House => "house",
        }
    }
}

/// The global options and the command.
#[derive(Debug)]
pub struct Cli {
    pub output: Option<OutputFormat>,
    pub json: bool,
    pub yaml: bool,
    pub base_url: Option<String>,
    pub token: Option<String>,
    pub config: Option<std::path::PathBuf>,
    pub verbose: bool,
    pub command: CommandGroup,
}

#[derive(Debug)]
pub enum CommandGroup {
    Users(UsersCommand),
    Groups(GroupsCommand),
    Friends(FriendsCommand),
    Expenses(ExpensesCommand),
    Comments(CommentsCommand),
    Notifications(NotificationsCommand),
    Categories(CategoriesCommand),
    Currencies(CurrenciesCommand),
}

#[derive(Debug)]
pub struct UsersCommand {
    pub command: UsersSubcommand,
}

#[derive(Debug)]
#[allow(inconsistent_fields)]
pub enum UsersSubcommand {
    Me,
    Get { id: i64 },
    Update { id: i64, fields: UserUpdateArgs, body: Option<String> },
}

#[derive(Debug, Default)]
pub struct UserUpdateArgs {
    pub first_name: Option<String>,
    pub last_name: Option<String>,
    pub email: Option<String>,
    pub password: Option<String>,
    pub locale: Option<String>,
    pub default_currency: Option<String>,
}

#[derive(Debug)]
pub struct GroupsCommand {
    pub command: GroupsSubcommand,
}

#[derive(Debug)]
#[allow(inconsistent_fields)]
pub enum GroupsSubcommand {
    List,
    Get { id: i64 },
    Create { fields: GroupCreateArgs, body: Option<String> },
    Delete { id: i64 },
    Undelete { id: i64 },
    AddUser { fields: GroupAddUserArgs, body: Option<String> },
    RemoveUser { fields: GroupRemoveUserArgs, body: Option<String> },
}

#[derive(Debug, Default)]
pub struct GroupCreateArgs {
    pub name: Option<String>,
    pub group_type: Option<GroupType>,
    pub simplify_by_default: bool,
    pub members: Vec<String>,
}

#[derive(Debug, Default)]
pub struct GroupAddUserArgs {
    pub group_id: Option<i64>,
    pub user_id: Option<i64>,
    pub first_name: Option<String>,
    pub last_name: Option<String>,
    pub email: Option<String>,
}

#[derive(Debug, Default)]
pub struct GroupRemoveUserArgs {
    pub group_id: Option<i64>,
    pub user_id: Option<i64>,
}

#[derive(Debug)]
pub struct FriendsCommand {
    pub command: FriendsSubcommand,
}

#[derive(Debug)]
#[allow(inconsistent_fields)]
pub enum FriendsSubcommand {
    List,
    Get { id: i64 },
    Create { fields: FriendCreateArgs, body: Option<String> },
    CreateMany { friends: Vec<String>, body: Option<String> },
    Delete { id: i64 },
}

#[derive(Debug, Default)]
pub struct FriendCreateArgs {
    pub email: Option<String>,
    pub first_name: Option<String>,
    pub last_name: Option<String>,
}

#[derive(Debug)]
pub struct ExpensesCommand {
    pub command: ExpensesSubcommand,
}

#[derive(Debug)]
#[allow(inconsistent_fields)]
pub enum ExpensesSubcommand {
    List {
        group_id: Option<i64>,
        friend_id: Option<i64>,
        dated_after: Option<String>,
        dated_before: Option<String>,
        updated_after: Option<String>,
        updated_before: Option<String>,
        limit: Option<i64>,
        offset: Option<i64>,
    },
    Get { id: i64 },
    Create { fields: ExpenseWriteArgs, body: Option<String> },
    Update { id: i64, fields: ExpenseWriteArgs, body: Option<String> },
    Delete { id: i64 },
    Undelete { id: i64 },
}

#[derive(Debug, Default)]
pub struct ExpenseWriteArgs {
    pub cost: Option<String>,
    pub description: Option<String>,
    pub details: Option<String>,
    pub group_id: Option<i64>,
    pub currency_code: Option<String>,
    pub date: Option<String>,
    pub category_id: Option<i64>,
    pub payment: bool,
    pub shares: Vec<String>,
}

#[derive(Debug)]
pub struct CommentsCommand {
    pub command: CommentsSubcommand,
}

#[derive(Debug)]
#[allow(inconsistent_fields)]
pub enum CommentsSubcommand {
    List { expense_id: i64 },
    Create { fields: CommentCreateArgs, body: Option<String> },
    Delete { id: i64 },
}

#[derive(Debug, Default)]
pub struct CommentCreateArgs {
    pub expense_id: Option<i64>,
    pub content: Option<String>,
}

#[derive(Debug)]
pub struct NotificationsCommand {
    pub command: NotificationsSubcommand,
}

#[derive(Debug)]
pub enum NotificationsSubcommand {
    List { limit: Option<i64>, updated_after: Option<String> },
}

#[derive(Debug)]
pub struct CategoriesCommand {
    pub command: ReferenceSubcommand,
}

#[derive(Debug)]
pub struct CurrenciesCommand {
    pub command: ReferenceSubcommand,
}

#[derive(Debug)]
pub enum ReferenceSubcommand {
    List,
}

} // verus!
