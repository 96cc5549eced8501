//! Properties of what each command sends: under which key each flag goes out,
//! which query parameter each filter becomes, and which API operation each
//! subcommand calls.
use vstd::prelude::*;
use crate::cli::{
    CommentCreateArgs, ExpenseWriteArgs, FriendCreateArgs, GroupAddUserArgs, GroupCreateArgs,
    GroupRemoveUserArgs, group_type_text,
    UserUpdateArgs,
};
use crate::commands::common::{put_array, put_int, put_str, put_true};
use crate::commands::{comments, expenses, friends, groups, notifications, users};
use crate::json::{insert_member, keys_sorted, lemma_insert_lookup, lookup, Json, Members};
use crate::laws::lemma_sorted_head_unique;
use crate::cli::{
    CommandGroup, CommentsSubcommand, ExpensesSubcommand, FriendsSubcommand, GroupsSubcommand,
    NotificationsSubcommand, ReferenceSubcommand, UsersSubcommand,
};
use crate::client::{fill_path, placeholder, Pairs};
use crate::commands::command_call;
use crate::commands::common::{
    coerced, id_param, indexed_key, put_all_indexed, put_indexed, query_int, query_str,
};
use crate::laws::last_value;
use crate::operations::{operation_table, Method};
use crate::output::{cell_text, row_cells};
use crate::text::{
    all_digits, digit_char, digits_value, eq_ignore_case, int_text, is_digit, nat_text, replace_all,
};

verus! {

broadcast use vstd::string::group_string_axioms;

// ---------------------------------------------------------------------------
// Reading a member back
// ---------------------------------------------------------------------------

/// The member a given text is sent as: a JSON string.
pub open spec fn text_member(v: Option<Seq<char>>) -> Option<Json> {
    match v {
        Some(s) => Some(Json::Str(s)),
        None => None,
    }
}

/// The member a given integer is sent as: a JSON number in decimal.
pub open spec fn int_member(v: Option<i64>) -> Option<Json> {
    match v {
        Some(n) => Some(Json::Number(int_text(n as int))),
        None => None,
    }
}

/// The text of an optional string.
pub open spec fn text_of(o: Option<String>) -> Option<Seq<char>> {
    match o {
        Some(s) => Some(s@),
        None => None,
    }
}

proof fn lemma_put_str(m: Members, key: Seq<char>, v: Option<Seq<char>>, k: Seq<char>)
    ensures
        lookup(put_str(m, key, v), k) == if k == key && v is Some {
            text_member(v)
        } else {
            lookup(m, k)
        },
{
    if v is Some {
        lemma_insert_lookup(m, key, Json::Str(v.unwrap()), k);
    }
}

proof fn lemma_put_int(m: Members, key: Seq<char>, v: Option<i64>, k: Seq<char>)
    ensures
        lookup(put_int(m, key, v), k) == if k == key && v is Some {
            int_member(v)
        } else {
            lookup(m, k)
        },
{
    if v is Some {
        lemma_insert_lookup(m, key, Json::Number(int_text(v.unwrap() as int)), k);
    }
}

proof fn lemma_put_true(m: Members, key: Seq<char>, flag: bool, k: Seq<char>)
    ensures
        lookup(put_true(m, key, flag), k) == if k == key && flag {
            Some(Json::Bool(true))
        } else {
            lookup(m, k)
        },
{
    if flag {
        lemma_insert_lookup(m, key, Json::Bool(true), k);
    }
}

proof fn lemma_put_array(m: Members, key: Seq<char>, items: Seq<Json>, k: Seq<char>)
    ensures
        lookup(put_array(m, key, items), k) == if k == key && items.len() > 0 {
            Some(Json::Array(items))
        } else {
            lookup(m, k)
        },
{
    if items.len() > 0 {
        lemma_insert_lookup(m, key, Json::Array(items), k);
    }
}

// ---------------------------------------------------------------------------
// `expenses create|update`
// ---------------------------------------------------------------------------

/// The `--share` specs as the JSON objects of the `users` array.
pub open spec fn share_objects(shares: Seq<Members>) -> Seq<Json> {
    shares.map_values(|m: Members| Json::Object(m))
}

proof fn lemma_expense_lookup(f: ExpenseWriteArgs, shares: Seq<Members>, k: Seq<char>)
    ensures
        lookup(expenses::write_fields(f, shares), k) == if k == "users"@ && shares.len() > 0 {
            Some(Json::Array(share_objects(shares)))
        } else if k == "payment"@ && f.payment {
            Some(Json::Bool(true))
        } else if k == "category_id"@ && f.category_id is Some {
            int_member(f.category_id)
        } else if k == "date"@ && f.date is Some {
            text_member(text_of(f.date))
        } else if k == "currency_code"@ && f.currency_code is Some {
            text_member(text_of(f.currency_code))
        } else if k == "group_id"@ && f.group_id is Some {
            int_member(f.group_id)
        } else if k == "details"@ && f.details is Some {
            text_member(text_of(f.details))
        } else if k == "description"@ && f.description is Some {
            text_member(text_of(f.description))
        } else if k == "cost"@ && f.cost is Some {
            text_member(text_of(f.cost))
        } else {
            None
        },
{
    let m0 = Seq::<(Seq<char>, Json)>::empty();
    lemma_put_str(m0, "cost"@, text_of(f.cost), k);
    let m1 = put_str(m0, "cost"@, text_of(f.cost));
    lemma_put_str(m1, "description"@, text_of(f.description), k);
    let m2 = put_str(m1, "description"@, text_of(f.description));
    lemma_put_str(m2, "details"@, text_of(f.details), k);
    let m3 = put_str(m2, "details"@, text_of(f.details));
    lemma_put_int(m3, "group_id"@, f.group_id, k);
    let m4 = put_int(m3, "group_id"@, f.group_id);
    lemma_put_str(m4, "currency_code"@, text_of(f.currency_code), k);
    let m5 = put_str(m4, "currency_code"@, text_of(f.currency_code));
    lemma_put_str(m5, "date"@, text_of(f.date), k);
    let m6 = put_str(m5, "date"@, text_of(f.date));
    lemma_put_int(m6, "category_id"@, f.category_id, k);
    let m7 = put_int(m6, "category_id"@, f.category_id);
    lemma_put_true(m7, "payment"@, f.payment, k);
    let m8 = put_true(m7, "payment"@, f.payment);
    lemma_put_array(m8, "users"@, share_objects(shares), k);
    assert(share_objects(shares) == expenses::shares_json(shares));
}

/// The keys of the expense fields are different texts.
proof fn lemma_expense_keys_distinct()
    ensures
        "cost"@ != "description"@,
        "cost"@ != "details"@,
        "cost"@ != "group_id"@,
        "cost"@ != "currency_code"@,
        "cost"@ != "date"@,
        "cost"@ != "category_id"@,
        "cost"@ != "payment"@,
        "cost"@ != "users"@,
        "description"@ != "details"@,
        "description"@ != "group_id"@,
        "description"@ != "currency_code"@,
        "description"@ != "date"@,
        "description"@ != "category_id"@,
        "description"@ != "payment"@,
        "description"@ != "users"@,
        "details"@ != "group_id"@,
        "details"@ != "currency_code"@,
        "details"@ != "date"@,
        "details"@ != "category_id"@,
        "details"@ != "payment"@,
        "details"@ != "users"@,
        "group_id"@ != "currency_code"@,
        "group_id"@ != "date"@,
        "group_id"@ != "category_id"@,
        "group_id"@ != "payment"@,
        "group_id"@ != "users"@,
        "currency_code"@ != "date"@,
        "currency_code"@ != "category_id"@,
        "currency_code"@ != "payment"@,
        "currency_code"@ != "users"@,
        "date"@ != "category_id"@,
        "date"@ != "payment"@,
        "date"@ != "users"@,
        "category_id"@ != "payment"@,
        "category_id"@ != "users"@,
        "payment"@ != "users"@,
{
    reveal_strlit("cost");
    reveal_strlit("description");
    reveal_strlit("details");
    reveal_strlit("group_id");
    reveal_strlit("currency_code");
    reveal_strlit("date");
    reveal_strlit("category_id");
    reveal_strlit("payment");
    reveal_strlit("users");
    assert("cost"@.len() == 4);
    assert("description"@.len() == 11);
    assert("details"@.len() == 7);
    assert("group_id"@.len() == 8);
    assert("currency_code"@.len() == 13);
    assert("date"@.len() == 4);
    assert("category_id"@.len() == 11);
    assert("payment"@.len() == 7);
    assert("users"@.len() == 5);
    assert("category_id"@[0] == 'c');
    assert("cost"@[0] == 'c');
    assert("date"@[0] == 'd');
    assert("description"@[0] == 'd');
    assert("details"@[0] == 'd');
    assert("payment"@[0] == 'p');
}

/// What `expenses create|update` sets from its flags: each flag that is given
/// goes out under its own key (`cost`, `description`, `details`, `group_id`,
/// `currency_code`, `date`, `category_id`, `payment` when set, and the `--share`
/// specs as the array `users` when there are any), with the flag's value; a
/// flag that is not given, and every other key, is absent.
pub proof fn law_expense_fields(f: ExpenseWriteArgs, shares: Seq<Members>, k: Seq<char>)
    ensures
        lookup(expenses::write_fields(f, shares), "cost"@) == text_member(text_of(f.cost)),
        lookup(expenses::write_fields(f, shares), "description"@) == text_member(
            text_of(f.description),
        ),
        lookup(expenses::write_fields(f, shares), "details"@) == text_member(text_of(f.details)),
        lookup(expenses::write_fields(f, shares), "group_id"@) == int_member(f.group_id),
        lookup(expenses::write_fields(f, shares), "currency_code"@) == text_member(
            text_of(f.currency_code),
        ),
        lookup(expenses::write_fields(f, shares), "date"@) == text_member(text_of(f.date)),
        lookup(expenses::write_fields(f, shares), "category_id"@) == int_member(f.category_id),
        lookup(expenses::write_fields(f, shares), "payment"@) == if f.payment {
            Some(Json::Bool(true))
        } else {
            None
        },
        lookup(expenses::write_fields(f, shares), "users"@) == if shares.len() > 0 {
            Some(Json::Array(share_objects(shares)))
        } else {
            None
        },
        k != "cost"@ && k != "description"@ && k != "details"@ && k != "group_id"@ && k
            != "currency_code"@ && k != "date"@ && k != "category_id"@ && k != "payment"@ && k
            != "users"@ ==> lookup(expenses::write_fields(f, shares), k) is None,
{
    lemma_expense_keys_distinct();
    lemma_expense_lookup(f, shares, "cost"@);
    lemma_expense_lookup(f, shares, "description"@);
    lemma_expense_lookup(f, shares, "details"@);
    lemma_expense_lookup(f, shares, "group_id"@);
    lemma_expense_lookup(f, shares, "currency_code"@);
    lemma_expense_lookup(f, shares, "date"@);
    lemma_expense_lookup(f, shares, "category_id"@);
    lemma_expense_lookup(f, shares, "payment"@);
    lemma_expense_lookup(f, shares, "users"@);
    lemma_expense_lookup(f, shares, k);
}

/// The keys of the `friend` fields are different texts.
proof fn lemma_friend_keys_distinct()
    ensures
        "user_email"@ != "user_first_name"@,
        "user_email"@ != "user_last_name"@,
        "user_first_name"@ != "user_last_name"@,
{
    reveal_strlit("user_email");
    reveal_strlit("user_first_name");
    reveal_strlit("user_last_name");
    assert("user_email"@.len() == 10);
    assert("user_first_name"@.len() == 15);
    assert("user_last_name"@.len() == 14);
}

proof fn lemma_friend_lookup(f: FriendCreateArgs, k: Seq<char>)
    ensures
        lookup(friends::create_fields(f), k) == if k == "user_last_name"@ && f.last_name is Some {
            text_member(text_of(f.last_name))
        } else if k == "user_first_name"@ && f.first_name is Some {
            text_member(text_of(f.first_name))
        } else if k == "user_email"@ && f.email is Some {
            text_member(text_of(f.email))
        } else {
            None
        },
{
    let m0 = Seq::<(Seq<char>, Json)>::empty();
    lemma_put_str(m0, "user_email"@, text_of(f.email), k);
    let m1 = put_str(m0, "user_email"@, text_of(f.email));
    lemma_put_str(m1, "user_first_name"@, text_of(f.first_name), k);
    let m2 = put_str(m1, "user_first_name"@, text_of(f.first_name));
    lemma_put_str(m2, "user_last_name"@, text_of(f.last_name), k);
}

/// What `friends create` sends: `--email`, `--first-name` and `--last-name`, when
/// given, as `user_email`, `user_first_name` and `user_last_name`; nothing else.
pub proof fn law_friend_fields(f: FriendCreateArgs, k: Seq<char>)
    ensures
        lookup(friends::create_fields(f), "user_email"@) == text_member(text_of(f.email)),
        lookup(friends::create_fields(f), "user_first_name"@) == text_member(text_of(f.first_name)),
        lookup(friends::create_fields(f), "user_last_name"@) == text_member(text_of(f.last_name)),
        k != "user_email"@ && k != "user_first_name"@ &&
            k != "user_last_name"@ ==> lookup(friends::create_fields(f), k) is None,
{
    lemma_friend_keys_distinct();
    lemma_friend_lookup(f, "user_email"@);
    lemma_friend_lookup(f, "user_first_name"@);
    lemma_friend_lookup(f, "user_last_name"@);
    lemma_friend_lookup(f, k);
}

/// The keys of the `user_update` fields are different texts.
proof fn lemma_user_update_keys_distinct()
    ensures
        "first_name"@ != "last_name"@,
        "first_name"@ != "email"@,
        "first_name"@ != "password"@,
        "first_name"@ != "locale"@,
        "first_name"@ != "default_currency"@,
        "last_name"@ != "email"@,
        "last_name"@ != "password"@,
        "last_name"@ != "locale"@,
        "last_name"@ != "default_currency"@,
        "email"@ != "password"@,
        "email"@ != "locale"@,
        "email"@ != "default_currency"@,
        "password"@ != "locale"@,
        "password"@ != "default_currency"@,
        "locale"@ != "default_currency"@,
{
    reveal_strlit("first_name");
    reveal_strlit("last_name");
    reveal_strlit("email");
    reveal_strlit("password");
    reveal_strlit("locale");
    reveal_strlit("default_currency");
    assert("first_name"@.len() == 10);
    assert("last_name"@.len() == 9);
    assert("email"@.len() == 5);
    assert("password"@.len() == 8);
    assert("locale"@.len() == 6);
    assert("default_currency"@.len() == 16);
}

proof fn lemma_user_update_lookup(f: UserUpdateArgs, k: Seq<char>)
    ensures
        lookup(users::update_fields(f), k) == if k == "default_currency"@ &&
            f.default_currency is Some {
            text_member(text_of(f.default_currency))
        } else if k == "locale"@ && f.locale is Some {
            text_member(text_of(f.locale))
        } else if k == "password"@ && f.password is Some {
            text_member(text_of(f.password))
        } else if k == "email"@ && f.email is Some {
            text_member(text_of(f.email))
        } else if k == "last_name"@ && f.last_name is Some {
            text_member(text_of(f.last_name))
        } else if k == "first_name"@ && f.first_name is Some {
            text_member(text_of(f.first_name))
        } else {
            None
        },
{
    let m0 = Seq::<(Seq<char>, Json)>::empty();
    lemma_put_str(m0, "first_name"@, text_of(f.first_name), k);
    let m1 = put_str(m0, "first_name"@, text_of(f.first_name));
    lemma_put_str(m1, "last_name"@, text_of(f.last_name), k);
    let m2 = put_str(m1, "last_name"@, text_of(f.last_name));
    lemma_put_str(m2, "email"@, text_of(f.email), k);
    let m3 = put_str(m2, "email"@, text_of(f.email));
    lemma_put_str(m3, "password"@, text_of(f.password), k);
    let m4 = put_str(m3, "password"@, text_of(f.password));
    lemma_put_str(m4, "locale"@, text_of(f.locale), k);
    let m5 = put_str(m4, "locale"@, text_of(f.locale));
    lemma_put_str(m5, "default_currency"@, text_of(f.default_currency), k);
}

/// What `users update` sends: each of `--first-name`, `--last-name`, `--email`,
/// `--password`, `--locale` and `--default-currency` that is given, under its own
/// key; nothing else.
pub proof fn law_user_update_fields(f: UserUpdateArgs, k: Seq<char>)
    ensures
        lookup(users::update_fields(f), "first_name"@) == text_member(text_of(f.first_name)),
        lookup(users::update_fields(f), "last_name"@) == text_member(text_of(f.last_name)),
        lookup(users::update_fields(f), "email"@) == text_member(text_of(f.email)),
        lookup(users::update_fields(f), "password"@) == text_member(text_of(f.password)),
        lookup(users::update_fields(f), "locale"@) == text_member(text_of(f.locale)),
        lookup(users::update_fields(f), "default_currency"@) == text_member(text_of(f.default_currency)),
        k != "first_name"@ && k != "last_name"@ && k != "email"@ && k != "password"@ &&
            k != "locale"@ &&
            k != "default_currency"@ ==> lookup(users::update_fields(f), k) is None,
{
    lemma_user_update_keys_distinct();
    lemma_user_update_lookup(f, "first_name"@);
    lemma_user_update_lookup(f, "last_name"@);
    lemma_user_update_lookup(f, "email"@);
    lemma_user_update_lookup(f, "password"@);
    lemma_user_update_lookup(f, "locale"@);
    lemma_user_update_lookup(f, "default_currency"@);
    lemma_user_update_lookup(f, k);
}

/// The keys of the `group_add_user` fields are different texts.
proof fn lemma_group_add_user_keys_distinct()
    ensures
        "group_id"@ != "user_id"@,
        "group_id"@ != "first_name"@,
        "group_id"@ != "last_name"@,
        "group_id"@ != "email"@,
        "user_id"@ != "first_name"@,
        "user_id"@ != "last_name"@,
        "user_id"@ != "email"@,
        "first_name"@ != "last_name"@,
        "first_name"@ != "email"@,
        "last_name"@ != "email"@,
{
    reveal_strlit("group_id");
    reveal_strlit("user_id");
    reveal_strlit("first_name");
    reveal_strlit("last_name");
    reveal_strlit("email");
    assert("group_id"@.len() == 8);
    assert("user_id"@.len() == 7);
    assert("first_name"@.len() == 10);
    assert("last_name"@.len() == 9);
    assert("email"@.len() == 5);
}

proof fn lemma_group_add_user_lookup(f: GroupAddUserArgs, k: Seq<char>)
    ensures
        lookup(groups::add_user_fields(f), k) == if k == "email"@ && f.email is Some {
            text_member(text_of(f.email))
        } else if k == "last_name"@ && f.last_name is Some {
            text_member(text_of(f.last_name))
        } else if k == "first_name"@ && f.first_name is Some {
            text_member(text_of(f.first_name))
        } else if k == "user_id"@ && f.user_id is Some {
            int_member(f.user_id)
        } else if k == "group_id"@ && f.group_id is Some {
            int_member(f.group_id)
        } else {
            None
        },
{
    let m0 = Seq::<(Seq<char>, Json)>::empty();
    lemma_put_int(m0, "group_id"@, f.group_id, k);
    let m1 = put_int(m0, "group_id"@, f.group_id);
    lemma_put_int(m1, "user_id"@, f.user_id, k);
    let m2 = put_int(m1, "user_id"@, f.user_id);
    lemma_put_str(m2, "first_name"@, text_of(f.first_name), k);
    let m3 = put_str(m2, "first_name"@, text_of(f.first_name));
    lemma_put_str(m3, "last_name"@, text_of(f.last_name), k);
    let m4 = put_str(m3, "last_name"@, text_of(f.last_name));
    lemma_put_str(m4, "email"@, text_of(f.email), k);
}

/// What `groups add-user` sends: `--group-id` and `--user-id` as numbers, `--first-
/// name`, `--last-name` and `--email` as strings, each under its own key when
/// given; nothing else.
pub proof fn law_group_add_user_fields(f: GroupAddUserArgs, k: Seq<char>)
    ensures
        lookup(groups::add_user_fields(f), "group_id"@) == int_member(f.group_id),
        lookup(groups::add_user_fields(f), "user_id"@) == int_member(f.user_id),
        lookup(groups::add_user_fields(f), "first_name"@) == text_member(text_of(f.first_name)),
        lookup(groups::add_user_fields(f), "last_name"@) == text_member(text_of(f.last_name)),
        lookup(groups::add_user_fields(f), "email"@) == text_member(text_of(f.email)),
        k != "group_id"@ && k != "user_id"@ && k != "first_name"@ && k != "last_name"@ &&
            k != "email"@ ==> lookup(groups::add_user_fields(f), k) is None,
{
    lemma_group_add_user_keys_distinct();
    lemma_group_add_user_lookup(f, "group_id"@);
    lemma_group_add_user_lookup(f, "user_id"@);
    lemma_group_add_user_lookup(f, "first_name"@);
    lemma_group_add_user_lookup(f, "last_name"@);
    lemma_group_add_user_lookup(f, "email"@);
    lemma_group_add_user_lookup(f, k);
}

/// The keys of the `group_remove_user` fields are different texts.
proof fn lemma_group_remove_user_keys_distinct()
    ensures
        "group_id"@ != "user_id"@,
{
    reveal_strlit("group_id");
    reveal_strlit("user_id");
    assert("group_id"@.len() == 8);
    assert("user_id"@.len() == 7);
}

proof fn lemma_group_remove_user_lookup(f: GroupRemoveUserArgs, k: Seq<char>)
    ensures
        lookup(groups::remove_user_fields(f), k) == if k == "user_id"@ && f.user_id is Some {
            int_member(f.user_id)
        } else if k == "group_id"@ && f.group_id is Some {
            int_member(f.group_id)
        } else {
            None
        },
{
    let m0 = Seq::<(Seq<char>, Json)>::empty();
    lemma_put_int(m0, "group_id"@, f.group_id, k);
    let m1 = put_int(m0, "group_id"@, f.group_id);
    lemma_put_int(m1, "user_id"@, f.user_id, k);
}

/// What `groups remove-user` sends: `--group-id` and `--user-id` as numbers, each
/// under its own key when given; nothing else.
pub proof fn law_group_remove_user_fields(f: GroupRemoveUserArgs, k: Seq<char>)
    ensures
        lookup(groups::remove_user_fields(f), "group_id"@) == int_member(f.group_id),
        lookup(groups::remove_user_fields(f), "user_id"@) == int_member(f.user_id),
        k != "group_id"@ && k != "user_id"@ ==> lookup(groups::remove_user_fields(f), k) is None,
{
    lemma_group_remove_user_keys_distinct();
    lemma_group_remove_user_lookup(f, "group_id"@);
    lemma_group_remove_user_lookup(f, "user_id"@);
    lemma_group_remove_user_lookup(f, k);
}

/// The keys of the `comment` fields are different texts.
proof fn lemma_comment_keys_distinct()
    ensures
        "expense_id"@ != "content"@,
{
    reveal_strlit("expense_id");
    reveal_strlit("content");
    assert("expense_id"@.len() == 10);
    assert("content"@.len() == 7);
}

proof fn lemma_comment_lookup(f: CommentCreateArgs, k: Seq<char>)
    ensures
        lookup(comments::create_fields(f), k) == if k == "content"@ && f.content is Some {
            text_member(text_of(f.content))
        } else if k == "expense_id"@ && f.expense_id is Some {
            int_member(f.expense_id)
        } else {
            None
        },
{
    let m0 = Seq::<(Seq<char>, Json)>::empty();
    lemma_put_int(m0, "expense_id"@, f.expense_id, k);
    let m1 = put_int(m0, "expense_id"@, f.expense_id);
    lemma_put_str(m1, "content"@, text_of(f.content), k);
}

/// What `comments create` sends: `--expense-id` as a number and `--content` as a
/// string, each under its own key when given; nothing else.
pub proof fn law_comment_fields(f: CommentCreateArgs, k: Seq<char>)
    ensures
        lookup(comments::create_fields(f), "expense_id"@) == int_member(f.expense_id),
        lookup(comments::create_fields(f), "content"@) == text_member(text_of(f.content)),
        k != "expense_id"@ && k != "content"@ ==> lookup(comments::create_fields(f), k) is None,
{
    lemma_comment_keys_distinct();
    lemma_comment_lookup(f, "expense_id"@);
    lemma_comment_lookup(f, "content"@);
    lemma_comment_lookup(f, k);
}

// ---------------------------------------------------------------------------
// Table cells
// ---------------------------------------------------------------------------

/// A boolean in a table cell reads as its value: `true` as `true`, `false` as
/// `false`, so the two cells differ, and reading a cell back as a typed value
/// gives the same boolean.
pub proof fn law_boolean_cells(b: bool)
    ensures
        cell_text(Json::Bool(true)) == "true"@,
        cell_text(Json::Bool(false)) == "false"@,
        cell_text(Json::Bool(true)) != cell_text(Json::Bool(false)),
        coerced(cell_text(Json::Bool(b)), None) == Json::Bool(b),
{
    reveal_strlit("true");
    reveal_strlit("false");
    assert("true"@.len() == 4);
    assert("false"@.len() == 5);
    assert(eq_ignore_case("true"@, "true"@));
    assert(eq_ignore_case("false"@, "false"@));
    assert(!eq_ignore_case("false"@, "true"@));
}

/// Other scalars in a table cell: `null` is an empty cell, a number reads as
/// its decimal text, a string as itself without quotes.
pub proof fn law_scalar_cells(number: Seq<char>, text: Seq<char>)
    ensures
        cell_text(Json::Null) == Seq::<char>::empty(),
        cell_text(Json::Number(number)) == number,
        cell_text(Json::Str(text)) == text,
{
}

/// A row of a table: for an object, one cell per header, in the headers' order,
/// holding the cell text of the object's member under that header, or an empty
/// cell where it has none; any other item is a row of one cell.
pub proof fn law_row_cells(item: Json, headers: Seq<Seq<char>>, j: int)
    requires
        0 <= j < headers.len(),
    ensures
        item is Object ==> row_cells(item, headers).len() == headers.len(),
        item matches Json::Object(m) ==> row_cells(item, headers)[j] == match lookup(m, headers[j]) {
            Some(v) => cell_text(v),
            None => Seq::<char>::empty(),
        },
        !(item is Object) ==> row_cells(item, headers) == seq![cell_text(item)],
{
}

// ---------------------------------------------------------------------------
// Query parameters
// ---------------------------------------------------------------------------

/// The decimal text of an optional integer.
pub open spec fn int_text_of(v: Option<i64>) -> Option<Seq<char>> {
    match v {
        Some(n) => Some(int_text(n as int)),
        None => None,
    }
}

proof fn lemma_query_str(q: Pairs, key: Seq<char>, v: Option<Seq<char>>, k: Seq<char>)
    ensures
        last_value(query_str(q, key, v), k) == if k == key && v is Some {
            v
        } else {
            last_value(q, k)
        },
{
    if v is Some {
        assert(q.push((key, v.unwrap())).drop_last() == q);
    }
}

proof fn lemma_query_int(q: Pairs, key: Seq<char>, v: Option<i64>, k: Seq<char>)
    ensures
        last_value(query_int(q, key, v), k) == if k == key && v is Some {
            int_text_of(v)
        } else {
            last_value(q, k)
        },
{
    if v is Some {
        assert(q.push((key, int_text(v.unwrap() as int))).drop_last() == q);
    }
}

/// The names of the expense list filters are different texts.
proof fn lemma_expense_filter_keys_distinct()
    ensures
        "group_id"@ != "friend_id"@,
        "group_id"@ != "dated_after"@,
        "group_id"@ != "dated_before"@,
        "group_id"@ != "updated_after"@,
        "group_id"@ != "updated_before"@,
        "group_id"@ != "limit"@,
        "group_id"@ != "offset"@,
        "friend_id"@ != "dated_after"@,
        "friend_id"@ != "dated_before"@,
        "friend_id"@ != "updated_after"@,
        "friend_id"@ != "updated_before"@,
        "friend_id"@ != "limit"@,
        "friend_id"@ != "offset"@,
        "dated_after"@ != "dated_before"@,
        "dated_after"@ != "updated_after"@,
        "dated_after"@ != "updated_before"@,
        "dated_after"@ != "limit"@,
        "dated_after"@ != "offset"@,
        "dated_before"@ != "updated_after"@,
        "dated_before"@ != "updated_before"@,
        "dated_before"@ != "limit"@,
        "dated_before"@ != "offset"@,
        "updated_after"@ != "updated_before"@,
        "updated_after"@ != "limit"@,
        "updated_after"@ != "offset"@,
        "updated_before"@ != "limit"@,
        "updated_before"@ != "offset"@,
        "limit"@ != "offset"@,
{
    reveal_strlit("group_id");
    reveal_strlit("friend_id");
    reveal_strlit("dated_after");
    reveal_strlit("dated_before");
    reveal_strlit("updated_after");
    reveal_strlit("updated_before");
    reveal_strlit("limit");
    reveal_strlit("offset");
    assert("group_id"@.len() == 8);
    assert("friend_id"@.len() == 9);
    assert("dated_after"@.len() == 11);
    assert("dated_before"@.len() == 12);
    assert("updated_after"@.len() == 13);
    assert("updated_before"@.len() == 14);
    assert("limit"@.len() == 5);
    assert("offset"@.len() == 6);
}

proof fn lemma_expense_list_lookup(cmd: ExpensesSubcommand, k: Seq<char>)
    ensures
        match cmd {
            ExpensesSubcommand::List {
                    group_id,
                    friend_id,
                    dated_after,
                    dated_before,
                    updated_after,
                    updated_before,
                    limit,
                    offset,
                } => last_value(expenses::list_query(cmd), k) == if k == "offset"@ &&
                    offset is Some {
                int_text_of(offset)
            } else if k == "limit"@ && limit is Some {
                int_text_of(limit)
            } else if k == "updated_before"@ && updated_before is Some {
                text_of(updated_before)
            } else if k == "updated_after"@ && updated_after is Some {
                text_of(updated_after)
            } else if k == "dated_before"@ && dated_before is Some {
                text_of(dated_before)
            } else if k == "dated_after"@ && dated_after is Some {
                text_of(dated_after)
            } else if k == "friend_id"@ && friend_id is Some {
                int_text_of(friend_id)
            } else if k == "group_id"@ && group_id is Some {
                int_text_of(group_id)
            } else {
                None
            },
            _ => true,
        },
{
    match cmd {
        ExpensesSubcommand::List {
            group_id,
            friend_id,
            dated_after,
            dated_before,
            updated_after,
            updated_before,
            limit,
            offset,
        } => {
            lemma_query_int(Seq::<(Seq<char>, Seq<char>)>::empty(), "group_id"@, group_id, k);
            let q0 = query_int(Seq::<(Seq<char>, Seq<char>)>::empty(), "group_id"@, group_id);
            lemma_query_int(q0, "friend_id"@, friend_id, k);
            let q1 = query_int(q0, "friend_id"@, friend_id);
            lemma_query_str(q1, "dated_after"@, text_of(dated_after), k);
            let q2 = query_str(q1, "dated_after"@, text_of(dated_after));
            lemma_query_str(q2, "dated_before"@, text_of(dated_before), k);
            let q3 = query_str(q2, "dated_before"@, text_of(dated_before));
            lemma_query_str(q3, "updated_after"@, text_of(updated_after), k);
            let q4 = query_str(q3, "updated_after"@, text_of(updated_after));
            lemma_query_str(q4, "updated_before"@, text_of(updated_before), k);
            let q5 = query_str(q4, "updated_before"@, text_of(updated_before));
            lemma_query_int(q5, "limit"@, limit, k);
            let q6 = query_int(q5, "limit"@, limit);
            lemma_query_int(q6, "offset"@, offset, k);
        },
        _ => {},
    }
}

/// What `expenses list` sends: `GET /get_expenses` with no body, where each
/// filter that is given (`--group-id`, `--friend-id`, `--dated-after`,
/// `--dated-before`, `--updated-after`, `--updated-before`, `--limit`,
/// `--offset`) is the query parameter of the same name with the flag's value,
/// and no other parameter is sent.
pub proof fn law_expense_list_filters(
    cmd: ExpensesSubcommand,
    body: Option<Json>,
    shares: Seq<Members>,
    k: Seq<char>,
)
    ensures
        match cmd {
            ExpensesSubcommand::List {
                    group_id,
                    friend_id,
                    dated_after,
                    dated_before,
                    updated_after,
                    updated_before,
                    limit,
                    offset,
                } => expenses::expenses_call(cmd, body, shares) matches Ok(cs) && {
            &&& last_value(cs.query, "group_id"@) == int_text_of(group_id)
            &&& last_value(cs.query, "friend_id"@) == int_text_of(friend_id)
            &&& last_value(cs.query, "dated_after"@) == text_of(dated_after)
            &&& last_value(cs.query, "dated_before"@) == text_of(dated_before)
            &&& last_value(cs.query, "updated_after"@) == text_of(updated_after)
            &&& last_value(cs.query, "updated_before"@) == text_of(updated_before)
            &&& last_value(cs.query, "limit"@) == int_text_of(limit)
            &&& last_value(cs.query, "offset"@) == int_text_of(offset)
            &&& (k != "group_id"@ && k != "friend_id"@ && k != "dated_after"@ &&
                k != "dated_before"@ && k != "updated_after"@ && k != "updated_before"@ &&
                k != "limit"@ && k != "offset"@ ==> last_value(cs.query, k) is None)
            &&& cs.op.name == "get_expenses"@
            &&& cs.op.method == Method::Get
            &&& cs.path.len() == 0
            &&& cs.body is None
            },
            _ => true,
        },
{
    lemma_expense_filter_keys_distinct();
    lemma_expense_list_lookup(cmd, "group_id"@);
    lemma_expense_list_lookup(cmd, "friend_id"@);
    lemma_expense_list_lookup(cmd, "dated_after"@);
    lemma_expense_list_lookup(cmd, "dated_before"@);
    lemma_expense_list_lookup(cmd, "updated_after"@);
    lemma_expense_list_lookup(cmd, "updated_before"@);
    lemma_expense_list_lookup(cmd, "limit"@);
    lemma_expense_list_lookup(cmd, "offset"@);
    lemma_expense_list_lookup(cmd, k);
}

/// What `notifications list` sends: `GET /get_notifications`, with `limit` and
/// `updated_after` as query parameters exactly when given, and no other.
pub proof fn law_notification_filters(cmd: NotificationsSubcommand, k: Seq<char>)
    ensures
        match cmd {
            NotificationsSubcommand::List { limit, updated_after } => notifications::notifications_call(
                cmd,
            ) matches Ok(cs) && {
                &&& last_value(cs.query, "limit"@) == int_text_of(limit)
                &&& last_value(cs.query, "updated_after"@) == text_of(updated_after)
                &&& (k != "limit"@ && k != "updated_after"@ ==> last_value(cs.query, k) is None)
                &&& cs.op.name == "get_notifications"@
                &&& cs.op.method == Method::Get
            },
        },
{
    reveal_strlit("limit");
    reveal_strlit("updated_after");
    assert("limit"@.len() == 5);
    assert("updated_after"@.len() == 13);
    match cmd {
        NotificationsSubcommand::List { limit, updated_after } => {
            let e = Seq::<(Seq<char>, Seq<char>)>::empty();
            let q = query_int(e, "limit"@, limit);
            lemma_query_int(e, "limit"@, limit, "limit"@);
            lemma_query_int(e, "limit"@, limit, "updated_after"@);
            lemma_query_int(e, "limit"@, limit, k);
            lemma_query_str(q, "updated_after"@, text_of(updated_after), "limit"@);
            lemma_query_str(q, "updated_after"@, text_of(updated_after), "updated_after"@);
            lemma_query_str(q, "updated_after"@, text_of(updated_after), k);
        },
    }
}

/// What `comments list` sends: `GET /get_comments` with the expense's id as the
/// query parameter `expense_id`, and no other.
pub proof fn law_comment_list_query(cmd: CommentsSubcommand, body: Option<Json>, k: Seq<char>)
    ensures
        match cmd {
            CommentsSubcommand::List { expense_id } => comments::comments_call(cmd, body) matches Ok(
                cs,
            ) && {
                &&& last_value(cs.query, "expense_id"@) == Some(int_text(expense_id as int))
                &&& (k != "expense_id"@ ==> last_value(cs.query, k) is None)
                &&& cs.op.name == "get_comments"@
                &&& cs.op.method == Method::Get
            },
            _ => true,
        },
{
    match cmd {
        CommentsSubcommand::List { expense_id } => {
            let e = Seq::<(Seq<char>, Seq<char>)>::empty();
            lemma_query_int(e, "expense_id"@, Some(expense_id), "expense_id"@);
            lemma_query_int(e, "expense_id"@, Some(expense_id), k);
        },
        _ => {},
    }
}

// ---------------------------------------------------------------------------
// Which API operation each subcommand calls
// ---------------------------------------------------------------------------

/// The Splitwise endpoint a subcommand stands for.
pub open spec fn endpoint_name(c: CommandGroup) -> Seq<char> {
    match c {
        CommandGroup::Users(x) => match x.command {
            UsersSubcommand::Me => "get_current_user"@,
            UsersSubcommand::Get { id } => "get_user"@,
            UsersSubcommand::Update { id, .. } => "update_user"@,
        },
        CommandGroup::Groups(x) => match x.command {
            GroupsSubcommand::List => "get_groups"@,
            GroupsSubcommand::Get { id } => "get_group"@,
            GroupsSubcommand::Create { .. } => "create_group"@,
            GroupsSubcommand::Delete { id } => "delete_group"@,
            GroupsSubcommand::Undelete { id } => "undelete_group"@,
            GroupsSubcommand::AddUser { .. } => "add_user_to_group"@,
            GroupsSubcommand::RemoveUser { .. } => "remove_user_from_group"@,
        },
        CommandGroup::Friends(x) => match x.command {
            FriendsSubcommand::List => "get_friends"@,
            FriendsSubcommand::Get { id } => "get_friend"@,
            FriendsSubcommand::Create { .. } => "create_friend"@,
            FriendsSubcommand::CreateMany { .. } => "create_friends"@,
            FriendsSubcommand::Delete { id } => "delete_friend"@,
        },
        CommandGroup::Expenses(x) => match x.command {
            ExpensesSubcommand::List { .. } => "get_expenses"@,
            ExpensesSubcommand::Get { id } => "get_expense"@,
            ExpensesSubcommand::Create { .. } => "create_expense"@,
            ExpensesSubcommand::Update { id, .. } => "update_expense"@,
            ExpensesSubcommand::Delete { id } => "delete_expense"@,
            ExpensesSubcommand::Undelete { id } => "undelete_expense"@,
        },
        CommandGroup::Comments(x) => match x.command {
            CommentsSubcommand::List { .. } => "get_comments"@,
            CommentsSubcommand::Create { .. } => "create_comment"@,
            CommentsSubcommand::Delete { id } => "delete_comment"@,
        },
        CommandGroup::Notifications(x) => match x.command {
            NotificationsSubcommand::List { .. } => "get_notifications"@,
        },
        CommandGroup::Categories(x) => match x.command {
            ReferenceSubcommand::List => "get_categories"@,
        },
        CommandGroup::Currencies(x) => match x.command {
            ReferenceSubcommand::List => "get_currencies"@,
        },
    }
}

/// The path of that endpoint, with `{id}` where it takes an id.
pub open spec fn endpoint_path(c: CommandGroup) -> Seq<char> {
    match c {
        CommandGroup::Users(x) => match x.command {
            UsersSubcommand::Me => "/get_current_user"@,
            UsersSubcommand::Get { id } => "/get_user/{id}"@,
            UsersSubcommand::Update { id, .. } => "/update_user/{id}"@,
        },
        CommandGroup::Groups(x) => match x.command {
            GroupsSubcommand::List => "/get_groups"@,
            GroupsSubcommand::Get { id } => "/get_group/{id}"@,
            GroupsSubcommand::Create { .. } => "/create_group"@,
            GroupsSubcommand::Delete { id } => "/delete_group/{id}"@,
            GroupsSubcommand::Undelete { id } => "/undelete_group/{id}"@,
            GroupsSubcommand::AddUser { .. } => "/add_user_to_group"@,
            GroupsSubcommand::RemoveUser { .. } => "/remove_user_from_group"@,
        },
        CommandGroup::Friends(x) => match x.command {
            FriendsSubcommand::List => "/get_friends"@,
            FriendsSubcommand::Get { id } => "/get_friend/{id}"@,
            FriendsSubcommand::Create { .. } => "/create_friend"@,
            FriendsSubcommand::CreateMany { .. } => "/create_friends"@,
            FriendsSubcommand::Delete { id } => "/delete_friend/{id}"@,
        },
        CommandGroup::Expenses(x) => match x.command {
            ExpensesSubcommand::List { .. } => "/get_expenses"@,
            ExpensesSubcommand::Get { id } => "/get_expense/{id}"@,
            ExpensesSubcommand::Create { .. } => "/create_expense"@,
            ExpensesSubcommand::Update { id, .. } => "/update_expense/{id}"@,
            ExpensesSubcommand::Delete { id } => "/delete_expense/{id}"@,
            ExpensesSubcommand::Undelete { id } => "/undelete_expense/{id}"@,
        },
        CommandGroup::Comments(x) => match x.command {
            CommentsSubcommand::List { .. } => "/get_comments"@,
            CommentsSubcommand::Create { .. } => "/create_comment"@,
            CommentsSubcommand::Delete { id } => "/delete_comment/{id}"@,
        },
        CommandGroup::Notifications(x) => match x.command {
            NotificationsSubcommand::List { .. } => "/get_notifications"@,
        },
        CommandGroup::Categories(x) => match x.command {
            ReferenceSubcommand::List => "/get_categories"@,
        },
        CommandGroup::Currencies(x) => match x.command {
            ReferenceSubcommand::List => "/get_currencies"@,
        },
    }
}

/// Whether a subcommand only reads: `me`, `get` and `list`.
pub open spec fn is_read(c: CommandGroup) -> bool {
    match c {
        CommandGroup::Users(x) => match x.command {
            UsersSubcommand::Me => true,
            UsersSubcommand::Get { id } => true,
            UsersSubcommand::Update { id, .. } => false,
        },
        CommandGroup::Groups(x) => match x.command {
            GroupsSubcommand::List => true,
            GroupsSubcommand::Get { id } => true,
            GroupsSubcommand::Create { .. } => false,
            GroupsSubcommand::Delete { id } => false,
            GroupsSubcommand::Undelete { id } => false,
            GroupsSubcommand::AddUser { .. } => false,
            GroupsSubcommand::RemoveUser { .. } => false,
        },
        CommandGroup::Friends(x) => match x.command {
            FriendsSubcommand::List => true,
            FriendsSubcommand::Get { id } => true,
            FriendsSubcommand::Create { .. } => false,
            FriendsSubcommand::CreateMany { .. } => false,
            FriendsSubcommand::Delete { id } => false,
        },
        CommandGroup::Expenses(x) => match x.command {
            ExpensesSubcommand::List { .. } => true,
            ExpensesSubcommand::Get { id } => true,
            ExpensesSubcommand::Create { .. } => false,
            ExpensesSubcommand::Update { id, .. } => false,
            ExpensesSubcommand::Delete { id } => false,
            ExpensesSubcommand::Undelete { id } => false,
        },
        CommandGroup::Comments(x) => match x.command {
            CommentsSubcommand::List { .. } => true,
            CommentsSubcommand::Create { .. } => false,
            CommentsSubcommand::Delete { id } => false,
        },
        CommandGroup::Notifications(x) => match x.command {
            NotificationsSubcommand::List { .. } => true,
        },
        CommandGroup::Categories(x) => match x.command {
            ReferenceSubcommand::List => true,
        },
        CommandGroup::Currencies(x) => match x.command {
            ReferenceSubcommand::List => true,
        },
    }
}

/// The id a subcommand names in its path, if any.
pub open spec fn command_id(c: CommandGroup) -> Option<i64> {
    match c {
        CommandGroup::Users(x) => match x.command {
            UsersSubcommand::Me => None,
            UsersSubcommand::Get { id } => Some(id),
            UsersSubcommand::Update { id, .. } => Some(id),
        },
        CommandGroup::Groups(x) => match x.command {
            GroupsSubcommand::List => None,
            GroupsSubcommand::Get { id } => Some(id),
            GroupsSubcommand::Create { .. } => None,
            GroupsSubcommand::Delete { id } => Some(id),
            GroupsSubcommand::Undelete { id } => Some(id),
            GroupsSubcommand::AddUser { .. } => None,
            GroupsSubcommand::RemoveUser { .. } => None,
        },
        CommandGroup::Friends(x) => match x.command {
            FriendsSubcommand::List => None,
            FriendsSubcommand::Get { id } => Some(id),
            FriendsSubcommand::Create { .. } => None,
            FriendsSubcommand::CreateMany { .. } => None,
            FriendsSubcommand::Delete { id } => Some(id),
        },
        CommandGroup::Expenses(x) => match x.command {
            ExpensesSubcommand::List { .. } => None,
            ExpensesSubcommand::Get { id } => Some(id),
            ExpensesSubcommand::Create { .. } => None,
            ExpensesSubcommand::Update { id, .. } => Some(id),
            ExpensesSubcommand::Delete { id } => Some(id),
            ExpensesSubcommand::Undelete { id } => Some(id),
        },
        CommandGroup::Comments(x) => match x.command {
            CommentsSubcommand::List { .. } => None,
            CommentsSubcommand::Create { .. } => None,
            CommentsSubcommand::Delete { id } => Some(id),
        },
        CommandGroup::Notifications(x) => match x.command {
            NotificationsSubcommand::List { .. } => None,
        },
        CommandGroup::Categories(x) => match x.command {
            ReferenceSubcommand::List => None,
        },
        CommandGroup::Currencies(x) => match x.command {
            ReferenceSubcommand::List => None,
        },
    }
}

/// The name, path and method of each operation of the table.
proof fn lemma_operation_rows()
    ensures
        operation_table()[0].name == "get_current_user"@ &&
            operation_table()[0].path == "/get_current_user"@
            && operation_table()[0].method == Method::Get,
        operation_table()[1].name == "get_user"@ && operation_table()[1].path == "/get_user/{id}"@
            && operation_table()[1].method == Method::Get,
        operation_table()[2].name == "update_user"@ &&
            operation_table()[2].path == "/update_user/{id}"@
            && operation_table()[2].method == Method::Post,
        operation_table()[3].name == "get_groups"@ && operation_table()[3].path == "/get_groups"@
            && operation_table()[3].method == Method::Get,
        operation_table()[4].name == "get_group"@ && operation_table()[4].path == "/get_group/{id}"@
            && operation_table()[4].method == Method::Get,
        operation_table()[5].name == "create_group"@ &&
            operation_table()[5].path == "/create_group"@
            && operation_table()[5].method == Method::Post,
        operation_table()[6].name == "delete_group"@ &&
            operation_table()[6].path == "/delete_group/{id}"@
            && operation_table()[6].method == Method::Post,
        operation_table()[7].name == "undelete_group"@ &&
            operation_table()[7].path == "/undelete_group/{id}"@
            && operation_table()[7].method == Method::Post,
        operation_table()[8].name == "add_user_to_group"@ &&
            operation_table()[8].path == "/add_user_to_group"@
            && operation_table()[8].method == Method::Post,
        operation_table()[9].name == "remove_user_from_group"@ &&
            operation_table()[9].path == "/remove_user_from_group"@
            && operation_table()[9].method == Method::Post,
        operation_table()[10].name == "get_friends"@ &&
            operation_table()[10].path == "/get_friends"@
            && operation_table()[10].method == Method::Get,
        operation_table()[11].name == "get_friend"@ &&
            operation_table()[11].path == "/get_friend/{id}"@
            && operation_table()[11].method == Method::Get,
        operation_table()[12].name == "create_friend"@ &&
            operation_table()[12].path == "/create_friend"@
            && operation_table()[12].method == Method::Post,
        operation_table()[13].name == "create_friends"@ &&
            operation_table()[13].path == "/create_friends"@
            && operation_table()[13].method == Method::Post,
        operation_table()[14].name == "delete_friend"@ &&
            operation_table()[14].path == "/delete_friend/{id}"@
            && operation_table()[14].method == Method::Post,
        operation_table()[15].name == "get_currencies"@ &&
            operation_table()[15].path == "/get_currencies"@
            && operation_table()[15].method == Method::Get,
        operation_table()[16].name == "get_expense"@ &&
            operation_table()[16].path == "/get_expense/{id}"@
            && operation_table()[16].method == Method::Get,
        operation_table()[17].name == "get_expenses"@ &&
            operation_table()[17].path == "/get_expenses"@
            && operation_table()[17].method == Method::Get,
        operation_table()[18].name == "create_expense"@ &&
            operation_table()[18].path == "/create_expense"@
            && operation_table()[18].method == Method::Post,
        operation_table()[19].name == "update_expense"@ &&
            operation_table()[19].path == "/update_expense/{id}"@
            && operation_table()[19].method == Method::Post,
        operation_table()[20].name == "delete_expense"@ &&
            operation_table()[20].path == "/delete_expense/{id}"@
            && operation_table()[20].method == Method::Post,
        operation_table()[21].name == "undelete_expense"@ &&
            operation_table()[21].path == "/undelete_expense/{id}"@
            && operation_table()[21].method == Method::Post,
        operation_table()[22].name == "get_comments"@ &&
            operation_table()[22].path == "/get_comments"@
            && operation_table()[22].method == Method::Get,
        operation_table()[23].name == "create_comment"@ &&
            operation_table()[23].path == "/create_comment"@
            && operation_table()[23].method == Method::Post,
        operation_table()[24].name == "delete_comment"@ &&
            operation_table()[24].path == "/delete_comment/{id}"@
            && operation_table()[24].method == Method::Post,
        operation_table()[25].name == "get_notifications"@ &&
            operation_table()[25].path == "/get_notifications"@
            && operation_table()[25].method == Method::Get,
        operation_table()[26].name == "get_categories"@ &&
            operation_table()[26].path == "/get_categories"@
            && operation_table()[26].method == Method::Get,
{
}

proof fn lemma_users_endpoints(c: CommandGroup, body: Option<Json>, specs: Seq<Members>)
    requires
        c is Users,
    ensures
        command_call(c, body, specs) matches Ok(cs) ==> {
            &&& cs.op.name == endpoint_name(c)
            &&& cs.op.path == endpoint_path(c)
            &&& (cs.op.method == Method::Get <==> is_read(c))
            &&& cs.path == match command_id(c) {
                Some(id) => id_param(id),
                None => Seq::<(Seq<char>, Seq<char>)>::empty(),
            }
        },
{
    lemma_operation_rows();
}

proof fn lemma_groups_endpoints(c: CommandGroup, body: Option<Json>, specs: Seq<Members>)
    requires
        c is Groups,
    ensures
        command_call(c, body, specs) matches Ok(cs) ==> {
            &&& cs.op.name == endpoint_name(c)
            &&& cs.op.path == endpoint_path(c)
            &&& (cs.op.method == Method::Get <==> is_read(c))
            &&& cs.path == match command_id(c) {
                Some(id) => id_param(id),
                None => Seq::<(Seq<char>, Seq<char>)>::empty(),
            }
        },
{
    lemma_operation_rows();
}

proof fn lemma_friends_endpoints(c: CommandGroup, body: Option<Json>, specs: Seq<Members>)
    requires
        c is Friends,
    ensures
        command_call(c, body, specs) matches Ok(cs) ==> {
            &&& cs.op.name == endpoint_name(c)
            &&& cs.op.path == endpoint_path(c)
            &&& (cs.op.method == Method::Get <==> is_read(c))
            &&& cs.path == match command_id(c) {
                Some(id) => id_param(id),
                None => Seq::<(Seq<char>, Seq<char>)>::empty(),
            }
        },
{
    lemma_operation_rows();
}

proof fn lemma_expenses_endpoints(c: CommandGroup, body: Option<Json>, specs: Seq<Members>)
    requires
        c is Expenses,
    ensures
        command_call(c, body, specs) matches Ok(cs) ==> {
            &&& cs.op.name == endpoint_name(c)
            &&& cs.op.path == endpoint_path(c)
            &&& (cs.op.method == Method::Get <==> is_read(c))
            &&& cs.path == match command_id(c) {
                Some(id) => id_param(id),
                None => Seq::<(Seq<char>, Seq<char>)>::empty(),
            }
        },
{
    lemma_operation_rows();
}

proof fn lemma_comments_endpoints(c: CommandGroup, body: Option<Json>, specs: Seq<Members>)
    requires
        c is Comments,
    ensures
        command_call(c, body, specs) matches Ok(cs) ==> {
            &&& cs.op.name == endpoint_name(c)
            &&& cs.op.path == endpoint_path(c)
            &&& (cs.op.method == Method::Get <==> is_read(c))
            &&& cs.path == match command_id(c) {
                Some(id) => id_param(id),
                None => Seq::<(Seq<char>, Seq<char>)>::empty(),
            }
        },
{
    lemma_operation_rows();
}

proof fn lemma_notifications_endpoints(c: CommandGroup, body: Option<Json>, specs: Seq<Members>)
    requires
        c is Notifications,
    ensures
        command_call(c, body, specs) matches Ok(cs) ==> {
            &&& cs.op.name == endpoint_name(c)
            &&& cs.op.path == endpoint_path(c)
            &&& (cs.op.method == Method::Get <==> is_read(c))
            &&& cs.path == match command_id(c) {
                Some(id) => id_param(id),
                None => Seq::<(Seq<char>, Seq<char>)>::empty(),
            }
        },
{
    lemma_operation_rows();
}

proof fn lemma_categories_endpoints(c: CommandGroup, body: Option<Json>, specs: Seq<Members>)
    requires
        c is Categories,
    ensures
        command_call(c, body, specs) matches Ok(cs) ==> {
            &&& cs.op.name == endpoint_name(c)
            &&& cs.op.path == endpoint_path(c)
            &&& (cs.op.method == Method::Get <==> is_read(c))
            &&& cs.path == match command_id(c) {
                Some(id) => id_param(id),
                None => Seq::<(Seq<char>, Seq<char>)>::empty(),
            }
        },
{
    lemma_operation_rows();
}

proof fn lemma_currencies_endpoints(c: CommandGroup, body: Option<Json>, specs: Seq<Members>)
    requires
        c is Currencies,
    ensures
        command_call(c, body, specs) matches Ok(cs) ==> {
            &&& cs.op.name == endpoint_name(c)
            &&& cs.op.path == endpoint_path(c)
            &&& (cs.op.method == Method::Get <==> is_read(c))
            &&& cs.path == match command_id(c) {
                Some(id) => id_param(id),
                None => Seq::<(Seq<char>, Seq<char>)>::empty(),
            }
        },
{
    lemma_operation_rows();
}

/// Each subcommand calls its own endpoint: the operation it plans is the one
/// named after it (`expenses delete` calls `delete_expense`, `expenses undelete`
/// calls `undelete_expense`, ...), at that endpoint's path; a reading subcommand
/// uses `GET` and every other `POST`; the id a subcommand names is the one path
/// parameter, and a subcommand without an id has none.
pub proof fn law_command_endpoints(c: CommandGroup, body: Option<Json>, specs: Seq<Members>)
    ensures
        command_call(c, body, specs) matches Ok(cs) ==> {
            &&& cs.op.name == endpoint_name(c)
            &&& cs.op.path == endpoint_path(c)
            &&& (cs.op.method == Method::Get <==> is_read(c))
            &&& cs.path == match command_id(c) {
                Some(id) => id_param(id),
                None => Seq::<(Seq<char>, Seq<char>)>::empty(),
            }
        },
{
    match c {
        CommandGroup::Users(_) => lemma_users_endpoints(c, body, specs),
        CommandGroup::Groups(_) => lemma_groups_endpoints(c, body, specs),
        CommandGroup::Friends(_) => lemma_friends_endpoints(c, body, specs),
        CommandGroup::Expenses(_) => lemma_expenses_endpoints(c, body, specs),
        CommandGroup::Comments(_) => lemma_comments_endpoints(c, body, specs),
        CommandGroup::Notifications(_) => lemma_notifications_endpoints(c, body, specs),
        CommandGroup::Categories(_) => lemma_categories_endpoints(c, body, specs),
        CommandGroup::Currencies(_) => lemma_currencies_endpoints(c, body, specs),
    }
}

/// The path of a subcommand's endpoint up to its id: the part before `{id}`
/// where it takes one, the whole path otherwise.
pub open spec fn endpoint_base(c: CommandGroup) -> Seq<char> {
    match c {
        CommandGroup::Users(x) => match x.command {
            UsersSubcommand::Me => "/get_current_user"@,
            UsersSubcommand::Get { id } => "/get_user/"@,
            UsersSubcommand::Update { id, .. } => "/update_user/"@,
        },
        CommandGroup::Groups(x) => match x.command {
            GroupsSubcommand::List => "/get_groups"@,
            GroupsSubcommand::Get { id } => "/get_group/"@,
            GroupsSubcommand::Create { .. } => "/create_group"@,
            GroupsSubcommand::Delete { id } => "/delete_group/"@,
            GroupsSubcommand::Undelete { id } => "/undelete_group/"@,
            GroupsSubcommand::AddUser { .. } => "/add_user_to_group"@,
            GroupsSubcommand::RemoveUser { .. } => "/remove_user_from_group"@,
        },
        CommandGroup::Friends(x) => match x.command {
            FriendsSubcommand::List => "/get_friends"@,
            FriendsSubcommand::Get { id } => "/get_friend/"@,
            FriendsSubcommand::Create { .. } => "/create_friend"@,
            FriendsSubcommand::CreateMany { .. } => "/create_friends"@,
            FriendsSubcommand::Delete { id } => "/delete_friend/"@,
        },
        CommandGroup::Expenses(x) => match x.command {
            ExpensesSubcommand::List { .. } => "/get_expenses"@,
            ExpensesSubcommand::Get { id } => "/get_expense/"@,
            ExpensesSubcommand::Create { .. } => "/create_expense"@,
            ExpensesSubcommand::Update { id, .. } => "/update_expense/"@,
            ExpensesSubcommand::Delete { id } => "/delete_expense/"@,
            ExpensesSubcommand::Undelete { id } => "/undelete_expense/"@,
        },
        CommandGroup::Comments(x) => match x.command {
            CommentsSubcommand::List { .. } => "/get_comments"@,
            CommentsSubcommand::Create { .. } => "/create_comment"@,
            CommentsSubcommand::Delete { id } => "/delete_comment/"@,
        },
        CommandGroup::Notifications(x) => match x.command {
            NotificationsSubcommand::List { .. } => "/get_notifications"@,
        },
        CommandGroup::Categories(x) => match x.command {
            ReferenceSubcommand::List => "/get_categories"@,
        },
        CommandGroup::Currencies(x) => match x.command {
            ReferenceSubcommand::List => "/get_currencies"@,
        },
    }
}
/// Whether a text has no `{`.
pub open spec fn no_brace(s: Seq<char>) -> bool {
    forall|i: int| 0 <= i < s.len() ==> s[i] != '{'
}

proof fn lemma_replace_at_end(prefix: Seq<char>, pat: Seq<char>, rep: Seq<char>)
    requires
        pat.len() > 0,
        pat[0] == '{',
        no_brace(prefix),
    ensures
        replace_all(prefix + pat, pat, rep) == prefix + rep,
    decreases prefix.len(),
{
    let s = prefix + pat;
    if prefix.len() == 0 {
        assert(s =~= pat);
        assert(s.take(pat.len() as int) =~= pat);
        let rest = s.skip(pat.len() as int);
        assert(rest.len() == 0);
        assert(replace_all(rest, pat, rep) == rest);
        assert(replace_all(s, pat, rep) == rep + replace_all(rest, pat, rep));
        assert(rep + rest =~= rep);
        assert(prefix + rep =~= rep);
    } else {
        assert(prefix[0] != '{');
        assert(s.take(pat.len() as int)[0] == prefix[0]);
        assert(s.take(pat.len() as int) != pat);
        assert(s[0] == prefix[0]);
        assert(s.drop_first() =~= prefix.drop_first() + pat);
        assert(no_brace(prefix.drop_first()));
        lemma_replace_at_end(prefix.drop_first(), pat, rep);
        assert(replace_all(s, pat, rep) == seq![s[0]] + replace_all(s.drop_first(), pat, rep));
        assert(seq![prefix[0]] + (prefix.drop_first() + rep) =~= prefix + rep);
    }
}

#[verifier::rlimit(40)]
proof fn lemma_id_paths()
    ensures
        "/get_user/{id}"@ == "/get_user/"@ + "{id}"@ && no_brace("/get_user/"@),
        "/update_user/{id}"@ == "/update_user/"@ + "{id}"@ && no_brace("/update_user/"@),
        "/get_group/{id}"@ == "/get_group/"@ + "{id}"@ && no_brace("/get_group/"@),
        "/delete_group/{id}"@ == "/delete_group/"@ + "{id}"@ && no_brace("/delete_group/"@),
        "/undelete_group/{id}"@ == "/undelete_group/"@ + "{id}"@ && no_brace("/undelete_group/"@),
        "/get_friend/{id}"@ == "/get_friend/"@ + "{id}"@ && no_brace("/get_friend/"@),
        "/delete_friend/{id}"@ == "/delete_friend/"@ + "{id}"@ && no_brace("/delete_friend/"@),
        "/get_expense/{id}"@ == "/get_expense/"@ + "{id}"@ && no_brace("/get_expense/"@),
        "/update_expense/{id}"@ == "/update_expense/"@ + "{id}"@ && no_brace("/update_expense/"@),
        "/delete_expense/{id}"@ == "/delete_expense/"@ + "{id}"@ && no_brace("/delete_expense/"@),
        "/undelete_expense/{id}"@ == "/undelete_expense/"@ + "{id}"@ &&
            no_brace("/undelete_expense/"@),
        "/delete_comment/{id}"@ == "/delete_comment/"@ + "{id}"@ && no_brace("/delete_comment/"@),
{
    reveal_strlit("{id}");
    reveal_strlit("/get_user/{id}");
    reveal_strlit("/get_user/");
    assert("/get_user/{id}"@ =~= "/get_user/"@ + "{id}"@);
    assert(no_brace("/get_user/"@));
    reveal_strlit("/update_user/{id}");
    reveal_strlit("/update_user/");
    assert("/update_user/{id}"@ =~= "/update_user/"@ + "{id}"@);
    assert(no_brace("/update_user/"@));
    reveal_strlit("/get_group/{id}");
    reveal_strlit("/get_group/");
    assert("/get_group/{id}"@ =~= "/get_group/"@ + "{id}"@);
    assert(no_brace("/get_group/"@));
    reveal_strlit("/delete_group/{id}");
    reveal_strlit("/delete_group/");
    assert("/delete_group/{id}"@ =~= "/delete_group/"@ + "{id}"@);
    assert(no_brace("/delete_group/"@));
    reveal_strlit("/undelete_group/{id}");
    reveal_strlit("/undelete_group/");
    assert("/undelete_group/{id}"@ =~= "/undelete_group/"@ + "{id}"@);
    assert(no_brace("/undelete_group/"@));
    reveal_strlit("/get_friend/{id}");
    reveal_strlit("/get_friend/");
    assert("/get_friend/{id}"@ =~= "/get_friend/"@ + "{id}"@);
    assert(no_brace("/get_friend/"@));
    reveal_strlit("/delete_friend/{id}");
    reveal_strlit("/delete_friend/");
    assert("/delete_friend/{id}"@ =~= "/delete_friend/"@ + "{id}"@);
    assert(no_brace("/delete_friend/"@));
    reveal_strlit("/get_expense/{id}");
    reveal_strlit("/get_expense/");
    assert("/get_expense/{id}"@ =~= "/get_expense/"@ + "{id}"@);
    assert(no_brace("/get_expense/"@));
    reveal_strlit("/update_expense/{id}");
    reveal_strlit("/update_expense/");
    assert("/update_expense/{id}"@ =~= "/update_expense/"@ + "{id}"@);
    assert(no_brace("/update_expense/"@));
    reveal_strlit("/delete_expense/{id}");
    reveal_strlit("/delete_expense/");
    assert("/delete_expense/{id}"@ =~= "/delete_expense/"@ + "{id}"@);
    assert(no_brace("/delete_expense/"@));
    reveal_strlit("/undelete_expense/{id}");
    reveal_strlit("/undelete_expense/");
    assert("/undelete_expense/{id}"@ =~= "/undelete_expense/"@ + "{id}"@);
    assert(no_brace("/undelete_expense/"@));
    reveal_strlit("/delete_comment/{id}");
    reveal_strlit("/delete_comment/");
    assert("/delete_comment/{id}"@ =~= "/delete_comment/"@ + "{id}"@);
    assert(no_brace("/delete_comment/"@));
}

proof fn lemma_id_path_split(c: CommandGroup)
    requires
        command_id(c) is Some,
    ensures
        endpoint_path(c) == endpoint_base(c) + "{id}"@,
        no_brace(endpoint_base(c)),
{
    lemma_id_paths();
}

/// The path a subcommand requests: the endpoint's path with the subcommand's id
/// in place of `{id}` (`expenses delete 5` requests `/delete_expense/5`), or the
/// endpoint's path as it is for a subcommand without an id.
pub proof fn law_request_path(c: CommandGroup, body: Option<Json>, specs: Seq<Members>)
    ensures
        command_call(c, body, specs) matches Ok(cs) ==> fill_path(cs.op.path, cs.path) == match command_id(
            c,
        ) {
            Some(id) => endpoint_base(c) + int_text(id as int),
            None => endpoint_path(c),
        },
{
    law_command_endpoints(c, body, specs);
    lemma_id_paths();
    reveal_strlit("{id}");
    reveal_strlit("id");
    assert(placeholder("id"@) =~= "{id}"@);
    if command_id(c) is Some {
        let id = command_id(c).unwrap();
        let p = id_param(id);
        lemma_id_path_split(c);
        assert(p[0].0 == "id"@ && p[0].1 == int_text(id as int));
        assert(p.drop_first().len() == 0);
        lemma_replace_at_end(endpoint_base(c), "{id}"@, int_text(id as int));
        assert(fill_path(endpoint_path(c), p) == fill_path(
            replace_all(endpoint_path(c), placeholder("id"@), int_text(id as int)),
            p.drop_first(),
        ));
    }
}


// ---------------------------------------------------------------------------
// `groups create` and `friends create-many`: numbered members
// ---------------------------------------------------------------------------

/// Whether a key is one of the numbered `users__{i}__{key}` keys.
pub open spec fn is_numbered_key(k: Seq<char>) -> bool {
    k.len() >= 7 && k.subrange(0, 7) == "users__"@
}

proof fn lemma_indexed_key_numbered(index: nat, key: Seq<char>, rename: bool)
    ensures
        is_numbered_key(indexed_key(index, key, rename)),
{
    reveal_strlit("users__");
    let s = indexed_key(index, key, rename);
    assert("users__"@.len() == 7);
    let rest = nat_text(index) + "__"@ + (if rename && key == "user_id"@ {
        "id"@
    } else {
        key
    });
    assert(s == "users__"@ + rest);
    assert(s.subrange(0, 7) =~= "users__"@);
}

proof fn lemma_put_indexed_other(m: Members, index: nat, spec: Members, rename: bool, k: Seq<char>)
    requires
        !is_numbered_key(k),
    ensures
        lookup(put_indexed(m, index, spec, rename), k) == lookup(m, k),
    decreases spec.len(),
{
    if spec.len() > 0 {
        let key = indexed_key(index, spec[0].0, rename);
        lemma_indexed_key_numbered(index, spec[0].0, rename);
        lemma_insert_lookup(m, key, spec[0].1, k);
        lemma_put_indexed_other(insert_member(m, key, spec[0].1), index, spec.drop_first(), rename, k);
    }
}

/// Setting the numbered members of the specs leaves every other key as it was.
pub proof fn law_numbered_members_leave_other_keys(
    m: Members,
    specs: Seq<Members>,
    rename: bool,
    k: Seq<char>,
)
    requires
        !is_numbered_key(k),
    ensures
        lookup(put_all_indexed(m, specs, rename), k) == lookup(m, k),
    decreases specs.len(),
{
    if specs.len() > 0 {
        law_numbered_members_leave_other_keys(m, specs.drop_last(), rename, k);
        lemma_put_indexed_other(
            put_all_indexed(m, specs.drop_last(), rename),
            (specs.len() - 1) as nat,
            specs.last(),
            rename,
            k,
        );
    }
}

/// The key a spec's key goes out as in a numbered member: `user_id` becomes
/// `id` where renaming applies.
pub open spec fn sent_key(key: Seq<char>, rename: bool) -> Seq<char> {
    if rename && key == "user_id"@ {
        "id"@
    } else {
        key
    }
}

proof fn lemma_nat_text_digits(n: nat)
    ensures
        nat_text(n).len() >= 1,
        all_digits(nat_text(n)),
        digits_value(nat_text(n)) == n,
    decreases n,
{
    if n >= 10 {
        lemma_nat_text_digits(n / 10);
        let s = nat_text(n / 10);
        let c = digit_char(n % 10);
        assert(c as u32 == 48 + n % 10);
        assert(s.push(c).drop_last() == s);
        assert(s.push(c).last() == c);
        assert(n == (n / 10) * 10 + n % 10);
        assert(nat_text(n) == s.push(c));
        assert(digits_value(s.push(c)) == digits_value(s) * 10 + ((c as u32) - 48) as nat);
        assert(digits_value(nat_text(n)) == (n / 10) * 10 + n % 10);
    } else {
        let c = digit_char(n);
        assert(c as u32 == 48 + n);
        assert(nat_text(n) == seq![c]);
        assert(seq![c].drop_last().len() == 0);
        assert(digits_value(seq![c]) == digits_value(seq![c].drop_last()) * 10 + ((c as u32) - 48) as nat);
    }
}

/// The parts of a numbered key: `users__`, the number, `__`, the sent key.
proof fn lemma_indexed_key_parts(index: nat, key: Seq<char>, rename: bool)
    ensures
        ({
            let s = indexed_key(index, key, rename);
            let d = nat_text(index);
            &&& s.len() == 7 + d.len() + 2 + sent_key(key, rename).len()
            &&& forall|i: int| 7 <= i < 7 + d.len() ==> is_digit(#[trigger] s[i])
            &&& s[7int + d.len()] == '_'
            &&& s.subrange(7, 7int + d.len()) == d
            &&& s.skip(7int + d.len() + 2) == sent_key(key, rename)
        }),
{
    reveal_strlit("users__");
    reveal_strlit("__");
    lemma_nat_text_digits(index);
    let d = nat_text(index);
    let s = indexed_key(index, key, rename);
    assert(s == "users__"@ + d + "__"@ + sent_key(key, rename));
    assert(s.subrange(7, 7int + d.len()) =~= d);
    assert(s.skip(7int + d.len() + 2) =~= sent_key(key, rename));
    assert forall|i: int| 7 <= i < 7 + d.len() implies is_digit(#[trigger] s[i]) by {
        assert(s[i] == d[i - 7]);
    }
}

/// Numbered keys of different numbers differ; those of one number differ when
/// the sent keys do.
proof fn lemma_indexed_keys_differ(i: nat, x: Seq<char>, j: nat, y: Seq<char>, rename: bool)
    ensures
        indexed_key(i, x, rename) == indexed_key(j, y, rename) ==> i == j && sent_key(x, rename)
            == sent_key(y, rename),
{
    lemma_indexed_key_parts(i, x, rename);
    lemma_indexed_key_parts(j, y, rename);
    lemma_nat_text_digits(i);
    lemma_nat_text_digits(j);
    let s = indexed_key(i, x, rename);
    let t = indexed_key(j, y, rename);
    let di = nat_text(i);
    let dj = nat_text(j);
    if s == t {
        if di.len() < dj.len() {
            assert(is_digit(t[7int + di.len()]));
            assert(false);
        }
        if dj.len() < di.len() {
            assert(is_digit(s[7int + dj.len()]));
            assert(false);
        }
        assert(di == dj);
    }
}

/// Setting a spec's members under number `index` leaves a key alone that no key
/// of that number can be.
proof fn lemma_put_indexed_untouched(m: Members, index: nat, spec: Members, rename: bool, k: Seq<char>)
    requires
        forall|x: Seq<char>| #[trigger] indexed_key(index, x, rename) != k,
    ensures
        lookup(put_indexed(m, index, spec, rename), k) == lookup(m, k),
    decreases spec.len(),
{
    if spec.len() > 0 {
        let key = indexed_key(index, spec[0].0, rename);
        lemma_insert_lookup(m, key, spec[0].1, k);
        lemma_put_indexed_untouched(insert_member(m, key, spec[0].1), index, spec.drop_first(), rename, k);
    }
}

/// Setting a spec's members under number `index`: the numbered key of a member
/// reads that member's value.
proof fn lemma_put_indexed_lookup(m: Members, index: nat, spec: Members, rename: bool, key: Seq<char>)
    requires
        keys_sorted(spec),
        !(rename && key == "id"@),
        rename && key == "user_id"@ ==> lookup(spec, "id"@) is None,
    ensures
        lookup(put_indexed(m, index, spec, rename), indexed_key(index, key, rename)) == match lookup(
            spec,
            key,
        ) {
            Some(v) => Some(v),
            None => lookup(m, indexed_key(index, key, rename)),
        },
    decreases spec.len(),
{
    reveal_strlit("id");
    reveal_strlit("user_id");
    assert("id"@ != "user_id"@) by {
        assert("id"@.len() == 2);
        assert("user_id"@.len() == 7);
    }
    if spec.len() > 0 {
        let k = indexed_key(index, key, rename);
        let k0 = indexed_key(index, spec[0].0, rename);
        let m1 = insert_member(m, k0, spec[0].1);
        lemma_sorted_head_unique(spec);
        lemma_put_indexed_lookup(m1, index, spec.drop_first(), rename, key);
        lemma_insert_lookup(m, k0, spec[0].1, k);
        lemma_indexed_keys_differ(index, spec[0].0, index, key, rename);
    }
}

/// Setting the numbered members of several specs: the key `users__{i}__{key}`
/// reads spec `i`'s value for `key` where it has one, and is otherwise as before.
proof fn lemma_put_all_indexed_lookup(
    m: Members,
    specs: Seq<Members>,
    rename: bool,
    i: nat,
    key: Seq<char>,
)
    requires
        i < specs.len(),
        forall|j: int| 0 <= j < specs.len() ==> keys_sorted(#[trigger] specs[j]),
        !(rename && key == "id"@),
        rename && key == "user_id"@ ==> lookup(specs[i as int], "id"@) is None,
    ensures
        lookup(put_all_indexed(m, specs, rename), indexed_key(i, key, rename)) == match lookup(
            specs[i as int],
            key,
        ) {
            Some(v) => Some(v),
            None => lookup(m, indexed_key(i, key, rename)),
        },
    decreases specs.len(),
{
    let n = specs.len();
    let k = indexed_key(i, key, rename);
    let init = specs.drop_last();
    let base = put_all_indexed(m, init, rename);
    if i == n - 1 {
        lemma_put_indexed_lookup(base, i, specs.last(), rename, key);
        lemma_put_all_indexed_untouched(m, init, rename, i, key);
    } else {
        assert forall|j: int| 0 <= j < init.len() implies keys_sorted(#[trigger] init[j]) by {
            assert(init[j] == specs[j]);
        }
        lemma_put_all_indexed_lookup(m, init, rename, i, key);
        assert(init[i as int] == specs[i as int]);
        assert forall|x: Seq<char>| #[trigger] indexed_key((n - 1) as nat, x, rename) != k by {
            lemma_indexed_keys_differ((n - 1) as nat, x, i, key, rename);
        }
        lemma_put_indexed_untouched(base, (n - 1) as nat, specs.last(), rename, k);
    }
}

/// Numbered members of specs before number `i` leave the keys of number `i`
/// alone.
proof fn lemma_put_all_indexed_untouched(m: Members, specs: Seq<Members>, rename: bool, i: nat, key: Seq<char>)
    requires
        specs.len() <= i,
    ensures
        lookup(put_all_indexed(m, specs, rename), indexed_key(i, key, rename)) == lookup(
            m,
            indexed_key(i, key, rename),
        ),
    decreases specs.len(),
{
    if specs.len() > 0 {
        let n = specs.len();
        let k = indexed_key(i, key, rename);
        lemma_put_all_indexed_untouched(m, specs.drop_last(), rename, i, key);
        assert forall|x: Seq<char>| #[trigger] indexed_key((n - 1) as nat, x, rename) != k by {
            lemma_indexed_keys_differ((n - 1) as nat, x, i, key, rename);
        }
        lemma_put_indexed_untouched(
            put_all_indexed(m, specs.drop_last(), rename),
            (n - 1) as nat,
            specs.last(),
            rename,
            k,
        );
    }
}

/// Numbered members: for the `i`-th spec, the key `users__{i}__{key}` reads the
/// spec's value for `key`, where `key` is `user_id` sent as `id` when renaming
/// (as `groups create --member` does; `friends create-many --friend` sends keys
/// as they are). A key the spec lacks is left as it was.
pub proof fn law_numbered_members(m: Members, specs: Seq<Members>, rename: bool, i: nat, key: Seq<char>)
    requires
        i < specs.len(),
        forall|j: int| 0 <= j < specs.len() ==> keys_sorted(#[trigger] specs[j]),
        !(rename && key == "id"@),
        rename && key == "user_id"@ ==> lookup(specs[i as int], "id"@) is None,
    ensures
        lookup(
            put_all_indexed(m, specs, rename),
            "users__"@ + nat_text(i) + "__"@ + (if rename && key == "user_id"@ {
                "id"@
            } else {
                key
            }),
        ) == match lookup(specs[i as int], key) {
            Some(v) => Some(v),
            None => lookup(m, indexed_key(i, key, rename)),
        },
{
    lemma_put_all_indexed_lookup(m, specs, rename, i, key);
}

/// The keys of the `groups create` flags are different texts.
proof fn lemma_group_keys_distinct()
    ensures
        "name"@ != "group_type"@,
        "name"@ != "simplify_by_default"@,
        "group_type"@ != "simplify_by_default"@,
{
    reveal_strlit("name");
    reveal_strlit("group_type");
    reveal_strlit("simplify_by_default");
    assert("name"@.len() == 4);
    assert("group_type"@.len() == 10);
    assert("simplify_by_default"@.len() == 19);
}

proof fn lemma_group_lookup(f: GroupCreateArgs, members: Seq<Members>, k: Seq<char>)
    requires
        !is_numbered_key(k),
    ensures
        lookup(groups::create_fields(f, members), k) == if k == "simplify_by_default"@
            && f.simplify_by_default {
            Some(Json::Bool(true))
        } else if k == "group_type"@ && f.group_type is Some {
            text_member(groups::group_type_opt(f.group_type))
        } else if k == "name"@ && f.name is Some {
            text_member(text_of(f.name))
        } else {
            None
        },
{
    let m0 = Seq::<(Seq<char>, Json)>::empty();
    let m1 = put_str(m0, "name"@, text_of(f.name));
    let m2 = put_str(m1, "group_type"@, groups::group_type_opt(f.group_type));
    let m3 = put_true(m2, "simplify_by_default"@, f.simplify_by_default);
    law_numbered_members_leave_other_keys(m3, members, true, k);
    lemma_put_str(m0, "name"@, text_of(f.name), k);
    lemma_put_str(m1, "group_type"@, groups::group_type_opt(f.group_type), k);
    lemma_put_true(m2, "simplify_by_default"@, f.simplify_by_default, k);
}

/// What `groups create` sends from its flags: `--name` as `name`, `--group-type`
/// as `group_type` with the API's name for it, `simplify_by_default: true` when
/// that flag is set; each only when given. Every other key that is not a
/// numbered member key is absent.
pub proof fn law_group_fields(f: GroupCreateArgs, members: Seq<Members>, k: Seq<char>)
    ensures
        lookup(groups::create_fields(f, members), "name"@) == text_member(text_of(f.name)),
        lookup(groups::create_fields(f, members), "group_type"@) == match f.group_type {
            Some(g) => Some(Json::Str(group_type_text(g))),
            None => None,
        },
        lookup(groups::create_fields(f, members), "simplify_by_default"@) == if f.simplify_by_default {
            Some(Json::Bool(true))
        } else {
            None
        },
        k != "name"@ && k != "group_type"@ && k != "simplify_by_default"@ && !is_numbered_key(k)
            ==> lookup(groups::create_fields(f, members), k) is None,
{
    lemma_group_keys_distinct();
    reveal_strlit("users__");
    reveal_strlit("name");
    reveal_strlit("group_type");
    reveal_strlit("simplify_by_default");
    assert(!is_numbered_key("name"@));
    assert(!is_numbered_key("group_type"@)) by {
        assert("group_type"@.subrange(0, 7)[0] == 'g');
    }
    assert(!is_numbered_key("simplify_by_default"@)) by {
        assert("simplify_by_default"@.subrange(0, 7)[0] == 's');
    }
    lemma_group_lookup(f, members, "name"@);
    lemma_group_lookup(f, members, "group_type"@);
    lemma_group_lookup(f, members, "simplify_by_default"@);
    if !is_numbered_key(k) {
        lemma_group_lookup(f, members, k);
    }
}

} // verus!
