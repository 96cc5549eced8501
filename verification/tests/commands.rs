use splitwise_cli::auth::bearer_headers;
use splitwise_cli::cli::{
    CommandGroup, CommentCreateArgs, CommentsCommand, CommentsSubcommand, ExpenseWriteArgs,
    ExpensesCommand, ExpensesSubcommand, FriendsCommand, FriendsSubcommand, GroupCreateArgs,
    GroupType, GroupsCommand, GroupsSubcommand, OutputFormat, UserUpdateArgs, UsersCommand,
    UsersSubcommand,
};
use splitwise_cli::client::{finish_response, plan_request};
use splitwise_cli::commands::common::{
    body_source, coerce_scalar, merge_body_with_fields, parse_body_text, read_specs, require_body,
    spec_object_from, spec_objects_from, spec_pairs, BodySource,
};
use splitwise_cli::commands::{body_argument, plan_command, typed_spec_arguments};
use splitwise_cli::error::CliError;
use splitwise_cli::json::{compact_json, JsonObject, JsonValue};
use splitwise_cli::output::{render_output, Shown};

fn compact(v: &JsonValue) -> String {
    compact_json(v).expect("json renders")
}

/// Reads a typed spec the way the command line does, with no value read as a float.
fn typed(spec: &str) -> JsonObject {
    let pairs = spec_pairs(spec).expect("spec parses");
    let floats = vec![None; pairs.len()];
    spec_object_from(pairs, floats)
}

#[test]
fn groups_list_reads_successfully() {
    let command = CommandGroup::Groups(GroupsCommand { command: GroupsSubcommand::List });
    let call = plan_command(command, None, vec![]).expect("plan");
    let operation_name = call.operation.name;
    let plan = plan_request("http://127.0.0.1:4000", call).expect("request");
    assert_eq!(operation_name, "get_groups");
    assert_eq!(plan.url, "http://127.0.0.1:4000/get_groups");
    let headers = bearer_headers("test-token").expect("valid token");
    assert_eq!(headers, vec![("authorization".to_string(), "Bearer test-token".to_string())]);
    let value = finish_response(
        splitwise_cli::operations::get_groups(),
        200,
        Some("application/json"),
        r#"{"groups":[{"id":1,"name":"Trip"}]}"#,
    )
    .expect("success");
    let printed = json_text(render_output(&value, OutputFormat::Json).expect("output"));
    assert_eq!(format!("{printed}\n"), "{\"groups\":[{\"id\":1,\"name\":\"Trip\"}]}\n");
}

#[test]
fn comments_create_supports_typed_flags() {
    let command = CommandGroup::Comments(CommentsCommand {
        command: CommentsSubcommand::Create {
            fields: CommentCreateArgs { expense_id: Some(42), content: Some("Hello there".to_string()) },
            body: None,
        },
    });
    let call = plan_command(command, None, vec![]).expect("plan");
    assert_eq!(call.operation.name, "create_comment");
    let body = call.body.as_ref().expect("body");
    assert_eq!(compact(body), "{\"content\":\"Hello there\",\"expense_id\":42}");
    let value = finish_response(
        splitwise_cli::operations::create_comment(),
        200,
        Some("application/json"),
        r#"{"comment":{"id":9,"content":"Hello there"}}"#,
    )
    .expect("success");
    let printed = json_text(render_output(&value, OutputFormat::Json).expect("output"));
    assert_eq!(format!("{printed}\n"), "{\"comment\":{\"content\":\"Hello there\",\"id\":9}}\n");
}

#[test]
fn groups_create_supports_body_file() {
    let raw = "@/tmp/body.json";
    match body_source(raw) {
        BodySource::File(path) => assert_eq!(path, "/tmp/body.json"),
        _ => panic!("expected a file"),
    }
    let contents = r#"{"name":"Road Trip","group_type":"trip","users__0__email":"ada@example.com"}"#;
    let body = parse_body_text(contents).expect("body parses");
    let command = CommandGroup::Groups(GroupsCommand {
        command: GroupsSubcommand::Create { fields: GroupCreateArgs::default(), body: Some(raw.to_string()) },
    });
    let call = plan_command(command, Some(body), vec![]).expect("plan");
    assert_eq!(call.operation.name, "create_group");
    assert_eq!(
        compact(call.body.as_ref().unwrap()),
        "{\"group_type\":\"trip\",\"name\":\"Road Trip\",\"users__0__email\":\"ada@example.com\"}"
    );
    let value = finish_response(
        splitwise_cli::operations::create_group(),
        200,
        Some("application/json"),
        r#"{"group":{"id":88,"name":"Road Trip"}}"#,
    )
    .expect("success");
    assert_eq!(
        json_text(render_output(&value, OutputFormat::Json).unwrap()),
        "{\"group\":{\"id\":88,\"name\":\"Road Trip\"}}"
    );
}

#[test]
fn semantic_failures_exit_with_code_two() {
    let command = CommandGroup::Friends(FriendsCommand { command: FriendsSubcommand::Delete { id: 99 } });
    let call = plan_command(command, None, vec![]).expect("plan");
    let plan = plan_request("http://127.0.0.1:4000/", call).expect("request");
    assert_eq!(plan.url, "http://127.0.0.1:4000/delete_friend/99");
    let error = finish_response(
        splitwise_cli::operations::delete_friend(),
        200,
        Some("application/json"),
        r#"{"success":false,"errors":{"base":["There was an issue deleting that friendship"]}}"#,
    )
    .expect_err("semantic failure");
    assert_eq!(error.exit_code(), 2);
    assert!(error.message().contains("semantic failure"));
}

#[test]
fn typed_spec_last_pair_wins_and_values_are_coerced() {
    let pairs = spec_pairs(" a=1 , b=TRUE,, c = null ,d=x=y, a=-7,e=+3,f=2.50").unwrap();
    assert_eq!(pairs.len(), 7);
    let floats = vec![None, None, None, None, None, None, Some("2.5".to_string())];
    let obj = spec_object_from(pairs, floats);
    assert_eq!(
        compact(&JsonValue::Object(obj)),
        "{\"a\":-7,\"b\":true,\"c\":null,\"d\":\"x=y\",\"e\":3,\"f\":2.5}"
    );
}

#[test]
fn typed_spec_errors() {
    let missing = spec_pairs("user_id").unwrap_err();
    match missing {
        CliError::Input(m) => assert_eq!(m, "invalid field specification `user_id`; expected key=value"),
        other => panic!("unexpected {other:?}"),
    }
    match spec_pairs(" =5").unwrap_err() {
        CliError::Input(m) => assert_eq!(m, "field names in typed specs cannot be empty"),
        other => panic!("unexpected {other:?}"),
    }
    match spec_pairs(" , ,").unwrap_err() {
        CliError::Input(m) => assert_eq!(m, "typed spec must contain at least one key=value pair"),
        other => panic!("unexpected {other:?}"),
    }
}

#[test]
fn coerce_scalar_reads_keywords_integers_and_floats() {
    assert_eq!(compact(&coerce_scalar("True", None)), "true");
    assert_eq!(compact(&coerce_scalar("fAlSe", None)), "false");
    assert_eq!(compact(&coerce_scalar("NULL", None)), "null");
    assert_eq!(compact(&coerce_scalar("007", None)), "7");
    assert_eq!(compact(&coerce_scalar("-9223372036854775808", None)), "-9223372036854775808");
    assert_eq!(compact(&coerce_scalar("42.50", Some("42.5".to_string()))), "42.5");
    assert_eq!(compact(&coerce_scalar("hello", None)), "\"hello\"");
}

#[test]
fn expense_create_builds_shares_array() {
    let shares = vec![typed("user_id=1,paid_share=42.50,owed_share=21.25")];
    let command = CommandGroup::Expenses(ExpensesCommand {
        command: ExpensesSubcommand::Create {
            fields: ExpenseWriteArgs {
                cost: Some("42.50".to_string()),
                description: Some("Dinner".to_string()),
                group_id: Some(77),
                payment: true,
                shares: vec!["user_id=1,paid_share=42.50,owed_share=21.25".to_string()],
                ..ExpenseWriteArgs::default()
            },
            body: None,
        },
    });
    assert_eq!(typed_spec_arguments(&command).len(), 1);
    assert_eq!(body_argument(&command), None);
    let call = plan_command(command, None, shares).expect("plan");
    assert_eq!(
        compact(call.body.as_ref().unwrap()),
        "{\"cost\":\"42.50\",\"description\":\"Dinner\",\"group_id\":77,\"payment\":true,\"users\":[{\"owed_share\":\"21.25\",\"paid_share\":\"42.50\",\"user_id\":1}]}"
    );
}

#[test]
fn expenses_list_query_goes_out_sorted() {
    let command = CommandGroup::Expenses(ExpensesCommand {
        command: ExpensesSubcommand::List {
            group_id: Some(5),
            friend_id: None,
            dated_after: Some("2024-01-01".to_string()),
            dated_before: None,
            updated_after: None,
            updated_before: None,
            limit: Some(10),
            offset: None,
        },
    });
    let call = plan_command(command, None, vec![]).expect("plan");
    assert_eq!(
        call.query_params,
        vec![
            ("group_id".to_string(), "5".to_string()),
            ("dated_after".to_string(), "2024-01-01".to_string()),
            ("limit".to_string(), "10".to_string()),
        ]
    );
    let plan = plan_request("https://x.example//", call).unwrap();
    assert_eq!(plan.url, "https://x.example/get_expenses");
    assert_eq!(
        plan.query,
        vec![
            ("dated_after".to_string(), "2024-01-01".to_string()),
            ("group_id".to_string(), "5".to_string()),
            ("limit".to_string(), "10".to_string()),
        ]
    );
}

#[test]
fn groups_create_members_are_indexed_and_user_id_renamed() {
    let members = vec![typed("user_id=5"), typed("email=ada@example.com,first_name=Ada")];
    let command = CommandGroup::Groups(GroupsCommand {
        command: GroupsSubcommand::Create {
            fields: GroupCreateArgs {
                name: Some("Trip".to_string()),
                group_type: Some(GroupType::Apartment),
                simplify_by_default: true,
                members: vec![],
            },
            body: None,
        },
    });
    let call = plan_command(command, None, members).expect("plan");
    assert_eq!(
        compact(call.body.as_ref().unwrap()),
        "{\"group_type\":\"apartment\",\"name\":\"Trip\",\"simplify_by_default\":true,\"users__0__id\":5,\"users__1__email\":\"ada@example.com\",\"users__1__first_name\":\"Ada\"}"
    );
}

#[test]
fn friends_create_many_keeps_user_id() {
    let friends = vec![typed("user_id=5")];
    let command = CommandGroup::Friends(FriendsCommand {
        command: FriendsSubcommand::CreateMany { friends: vec!["user_id=5".to_string()], body: None },
    });
    let call = plan_command(command, None, friends).expect("plan");
    assert_eq!(compact(call.body.as_ref().unwrap()), "{\"users__0__user_id\":5}");
}

#[test]
fn typed_flags_override_body_keys() {
    let body = parse_body_text(r#"{"first_name":"Old","locale":"en"}"#).unwrap();
    let command = CommandGroup::Users(UsersCommand {
        command: UsersSubcommand::Update {
            id: 3,
            fields: UserUpdateArgs { first_name: Some("New".to_string()), ..UserUpdateArgs::default() },
            body: Some("{}".to_string()),
        },
    });
    let call = plan_command(command, Some(body), vec![]).expect("plan");
    assert_eq!(call.path_params, vec![("id".to_string(), "3".to_string())]);
    assert_eq!(compact(call.body.as_ref().unwrap()), "{\"first_name\":\"New\",\"locale\":\"en\"}");
    let plan = plan_request("https://api.example", call).unwrap();
    assert_eq!(plan.url, "https://api.example/update_user/3");
}

#[test]
fn write_command_without_input_is_an_error() {
    let command = CommandGroup::Users(UsersCommand {
        command: UsersSubcommand::Update { id: 3, fields: UserUpdateArgs::default(), body: None },
    });
    let error = plan_command(command, None, vec![]).expect_err("no input");
    match error {
        CliError::Input(m) => assert_eq!(m, "users update requires input; pass typed flags or --body"),
        other => panic!("unexpected {other:?}"),
    }
}

#[test]
fn merge_rejects_non_object_body() {
    let mut fields = JsonObject::new();
    fields.insert("a".to_string(), JsonValue::Null);
    let error = merge_body_with_fields(Some(JsonValue::Array(vec![])), fields).expect_err("array body");
    match error {
        CliError::Input(m) => assert_eq!(m, "request body must be a JSON object to merge with typed flags"),
        other => panic!("unexpected {other:?}"),
    }
    assert!(merge_body_with_fields(None, JsonObject::new()).unwrap().is_none());
    assert!(require_body(None, "x").is_err());
}

#[test]
fn body_text_errors() {
    match parse_body_text("  \n ").unwrap_err() {
        CliError::Input(m) => assert_eq!(m, "request body cannot be empty; pass JSON or @file.json"),
        other => panic!("unexpected {other:?}"),
    }
    match parse_body_text("[1]").unwrap_err() {
        CliError::Input(m) => assert_eq!(m, "request body must decode to a JSON object"),
        other => panic!("unexpected {other:?}"),
    }
    match parse_body_text("{oops").unwrap_err() {
        CliError::Input(m) => assert!(m.starts_with("invalid JSON body; pass inline JSON or @file.json: ")),
        other => panic!("unexpected {other:?}"),
    }
    assert!(matches!(body_source("@-"), BodySource::Stdin));
    match body_source("{\"a\":1}") {
        BodySource::Inline(t) => assert_eq!(t, "{\"a\":1}"),
        _ => panic!("expected inline"),
    }
}

#[test]
fn body_required_operation_without_body_is_refused() {
    let call = splitwise_cli::commands::common::ApiCall {
        operation: splitwise_cli::operations::create_expense(),
        path_params: vec![],
        query_params: vec![],
        body: None,
    };
    match plan_request("https://api.example", call) {
        Err(CliError::Input(m)) => {
            assert_eq!(m, "create_expense requires a request body; pass typed flags or --body")
        }
        _ => panic!("expected an input error"),
    }
}

#[test]
fn invalid_bearer_token_is_a_config_error() {
    match bearer_headers("bad\ntoken") {
        Err(CliError::Config(m)) => assert_eq!(m, "invalid bearer token: failed to parse header value"),
        _ => panic!("expected a config error"),
    }
    assert!(bearer_headers("tab\tand ünïcode").is_ok());
}

fn json_text(shown: Shown) -> String {
    match shown {
        Shown::Text(text) => text,
        Shown::Table(_) => panic!("JSON output is text"),
    }
}

#[test]
fn several_specs_stop_at_the_first_refused() {
    let specs = vec![
        "user_id=1,paid_share=10".to_string(),
        "owed_share".to_string(),
        "=3".to_string(),
    ];
    match read_specs(&specs).unwrap_err() {
        CliError::Input(m) => {
            assert_eq!(m, "invalid field specification `owed_share`; expected key=value")
        }
        other => panic!("unexpected {other:?}"),
    }
    let good = vec!["user_id=1,paid_share=10".to_string(), "user_id=2".to_string()];
    let pairs = read_specs(&good).unwrap();
    assert_eq!(pairs.len(), 2);
    let floats = vec![vec![None, None], vec![None]];
    let objects = spec_objects_from(pairs, floats);
    assert_eq!(objects.len(), 2);
    assert_eq!(
        compact(&JsonValue::Object(objects.into_iter().nth(1).unwrap())),
        "{\"user_id\":2}"
    );
    assert!(read_specs(&Vec::new()).unwrap().is_empty());
}

#[test]
fn file_text_reads_like_inline_text() {
    let held = r#" {"name":"Trip"} "#;
    match body_source("@body.json") {
        BodySource::File(path) => assert_eq!(path, "body.json"),
        other => panic!("unexpected {other:?}"),
    }
    match body_source(held) {
        BodySource::Inline(text) => assert_eq!(text, held),
        other => panic!("unexpected {other:?}"),
    }
    let from_file = parse_body_text(held).unwrap();
    let inline = match body_source(held) {
        BodySource::Inline(text) => parse_body_text(&text).unwrap(),
        other => panic!("unexpected {other:?}"),
    };
    assert_eq!(compact(&from_file), compact(&inline));
    assert_eq!(compact(&inline), "{\"name\":\"Trip\"}");
}
