use splitwise_cli::cli::{GroupType, OutputFormat};
use splitwise_cli::json::{parse_json, JsonValue};
use splitwise_cli::output::{
    collect_headers, render_cell, render_human, render_output, row_of, single_entry, Shown,
};

fn parse(text: &str) -> JsonValue {
    parse_json(text).expect("valid json")
}

fn text(shown: Shown) -> String {
    match shown {
        Shown::Text(text) => text,
        Shown::Table(table) => table.to_string(),
    }
}

#[test]
fn empty_list_reads_no_results() {
    assert_eq!(text(render_human(&parse("[]")).unwrap()), "(no results)");
    assert_eq!(text(render_human(&parse(r#"{"groups":[]}"#)).unwrap()), "(no results)");
}

#[test]
fn headers_follow_first_appearance() {
    let items = match parse(r#"[{"b":1,"a":2},{"c":3,"a":4}]"#) {
        JsonValue::Array(items) => items,
        _ => unreachable!(),
    };
    assert_eq!(collect_headers(&items), vec!["a", "b", "c"]);
    let headers = collect_headers(&items);
    assert_eq!(row_of(&items[1], &headers), vec!["4", "", "3"]);
}

#[test]
fn a_non_object_item_gives_a_value_column() {
    let items = match parse(r#"[{"a":1},2]"#) {
        JsonValue::Array(items) => items,
        _ => unreachable!(),
    };
    let headers = collect_headers(&items);
    assert_eq!(headers, vec!["value"]);
    assert_eq!(row_of(&items[1], &headers), vec!["2"]);
    assert_eq!(row_of(&items[0], &headers), vec![""]);
}

#[test]
fn table_output_contains_cells() {
    let text = text(render_human(&parse(r#"{"groups":[{"id":1,"name":"Trip"}]}"#)).unwrap());
    assert!(text.contains("Trip"));
    assert!(text.contains("name"));
}

#[test]
fn objects_without_keys_print_as_pretty_json() {
    assert_eq!(text(render_human(&parse("[{}]")).unwrap()), "[\n  {}\n]");
}

#[test]
fn other_objects_print_as_pretty_json() {
    assert_eq!(text(render_human(&parse(r#"{"a":1,"b":[]}"#)).unwrap()), "{\n  \"a\": 1,\n  \"b\": []\n}");
}

#[test]
fn scalars_print_as_cells() {
    assert_eq!(text(render_human(&parse("null")).unwrap()), "");
    assert_eq!(render_cell(&parse(r#""x""#)), "x");
    assert_eq!(render_cell(&parse("[1]")), "[1]");
}

#[test]
fn yaml_and_json_output() {
    let v = parse(r#"{"a":1}"#);
    assert_eq!(text(render_output(&v, OutputFormat::Json).unwrap()), "{\"a\":1}");
    assert_eq!(text(render_output(&v, OutputFormat::Yaml).unwrap()), "a: 1\n");
}

#[test]
fn group_types_have_api_names() {
    assert_eq!(GroupType::Home.as_api_value(), "home");
    assert_eq!(GroupType::Trip.as_api_value(), "trip");
    assert_eq!(GroupType::Couple.as_api_value(), "couple");
    assert_eq!(GroupType::Other.as_api_value(), "other");
    assert_eq!(GroupType::Apartment.as_api_value(), "apartment");
    assert_eq!(GroupType::House.as_api_value(), "house");
}

#[test]
fn single_entry_only_for_one_member() {
    let one = match parse(r#"{"groups":[1]}"#) {
        JsonValue::Object(o) => o,
        _ => unreachable!(),
    };
    let (key, value) = single_entry(&one).expect("one member");
    assert_eq!(key, "groups");
    assert!(matches!(value, JsonValue::Array(items) if items.len() == 1));
    let two = match parse(r#"{"a":1,"b":2}"#) {
        JsonValue::Object(o) => o,
        _ => unreachable!(),
    };
    assert!(single_entry(&two).is_none());
    let none = match parse("{}") {
        JsonValue::Object(o) => o,
        _ => unreachable!(),
    };
    assert!(single_entry(&none).is_none());
}

#[test]
fn a_list_becomes_a_table_of_its_items() {
    let shown = render_human(&parse(r#"{"groups":[{"id":1,"name":"Trip"},{"id":2}]}"#)).unwrap();
    let table = match shown {
        Shown::Table(table) => table,
        Shown::Text(text) => panic!("expected a table, got {text}"),
    };
    let header: Vec<String> =
        table.header().expect("header").cell_iter().map(|c| c.content()).collect();
    assert_eq!(header, vec!["id", "name"]);
    let rows: Vec<Vec<String>> =
        table.row_iter().map(|r| r.cell_iter().map(|c| c.content()).collect()).collect();
    assert_eq!(rows, vec![vec!["1", "Trip"], vec!["2", ""]]);
}
