//! How a result is shown: compact JSON, YAML, or a readable table.
use vstd::prelude::*;
use crate::cli::OutputFormat;
use crate::error::CliError;
use crate::json::{
    compact_json, json_compact, json_pretty, lemma_array_view, lookup, items_view, pretty_json,
    yaml_of, yaml_text, Json, JsonObject, JsonValue,
};
use crate::text::string_from;

verus! {

broadcast use vstd::string::group_string_axioms;

// ---------------------------------------------------------------------------
// Tables through `comfy_table`
// ---------------------------------------------------------------------------

#[verifier::external_type_specification]
#[verifier::external_body]
pub struct ExTable(comfy_table::Table);

/// The header row of a table, once one is set.
pub uninterp spec fn table_header(t: comfy_table::Table) -> Option<Seq<Seq<char>>>;

/// The rows of a table, in the order they were added.
pub uninterp spec fn table_rows(t: comfy_table::Table) -> Seq<Seq<Seq<char>>>;

/// The texts of a list of cells.
pub open spec fn cells_view(v: Seq<String>) -> Seq<Seq<char>> {
    v.map_values(|s: String| s@)
}

/// `comfy_table::Table::new`: a table without header or rows.
#[verifier::external_body]
fn table_new() -> (t: comfy_table::Table)
    ensures
        table_header(t) is None,
        table_rows(t) == Seq::<Seq<Seq<char>>>::empty(),
{
    comfy_table::Table::new()
}

/// `comfy_table::Table::load_preset` with the `UTF8_FULL` preset: changes the
/// drawing characters only.
#[verifier::external_body]
fn table_use_full_borders(t: &mut comfy_table::Table)
    ensures
        table_header(*final(t)) == table_header(*old(t)),
        table_rows(*final(t)) == table_rows(*old(t)),
{
    t.load_preset(comfy_table::presets::UTF8_FULL);
}

/// `comfy_table::Table::set_content_arrangement` with `Dynamic`: changes the
/// layout only.
#[verifier::external_body]
fn table_arrange_dynamic(t: &mut comfy_table::Table)
    ensures
        table_header(*final(t)) == table_header(*old(t)),
        table_rows(*final(t)) == table_rows(*old(t)),
{
    t.set_content_arrangement(comfy_table::ContentArrangement::Dynamic);
}

/// `comfy_table::Table::set_header`: the header becomes these cells.
#[verifier::external_body]
fn table_set_header(t: &mut comfy_table::Table, cells: Vec<String>)
    ensures
        table_header(*final(t)) == Some(cells_view(cells@)),
        table_rows(*final(t)) == table_rows(*old(t)),
{
    t.set_header(cells);
}

/// `comfy_table::Table::add_row`: a row of these cells is appended.
#[verifier::external_body]
fn table_add_row(t: &mut comfy_table::Table, cells: Vec<String>)
    ensures
        table_header(*final(t)) == table_header(*old(t)),
        table_rows(*final(t)) == table_rows(*old(t)).push(cells_view(cells@)),
{
    t.add_row(cells);
}

// ---------------------------------------------------------------------------
// Cells and headers
// ---------------------------------------------------------------------------

/// How a value reads in a table cell: empty for null, booleans and numbers as
/// their text, a string as itself, anything else as compact JSON.
pub open spec fn cell_text(v: Json) -> Seq<char> {
    match v {
        Json::Null => Seq::empty(),
        Json::Bool(b) => if b {
            "true"@
        } else {
            "false"@
        },
        Json::Number(t) => t,
        Json::Str(s) => s,
        _ => match json_compact(v) {
            Ok(t) => t,
            Err(_) => "<unprintable json>"@,
        },
    }
}

/// Renders a value for a table cell.
pub fn render_cell(value: &JsonValue) -> (s: String)
    ensures
        s@ == cell_text(value@),
{
    match value {
        JsonValue::Null => String::new(),
        JsonValue::Bool(b) => if *b {
            string_from("true")
        } else {
            string_from("false")
        },
        JsonValue::Number(t) => t.clone(),
        JsonValue::String(t) => t.clone(),
        _ => match compact_json(value) {
            Ok(t) => t,
            Err(_) => string_from("<unprintable json>"),
        },
    }
}

/// The keys of an object, in order; none for any other value.
pub open spec fn keys_of(v: Json) -> Seq<Seq<char>> {
    match v {
        Json::Object(m) => m.map_values(|e: (Seq<char>, Json)| e.0),
        _ => Seq::empty(),
    }
}

/// `acc` followed by the keys it does not hold yet, in order.
pub open spec fn add_new_keys(acc: Seq<Seq<char>>, keys: Seq<Seq<char>>) -> Seq<Seq<char>>
    decreases keys.len(),
{
    if keys.len() == 0 {
        acc
    } else {
        let a = add_new_keys(acc, keys.drop_last());
        if a.contains(keys.last()) {
            a
        } else {
            a.push(keys.last())
        }
    }
}

/// The keys of the objects, each once, in the order they first appear.
pub open spec fn keys_in_order(items: Seq<Json>) -> Seq<Seq<char>>
    decreases items.len(),
{
    if items.len() == 0 {
        Seq::empty()
    } else {
        add_new_keys(keys_in_order(items.drop_last()), keys_of(items.last()))
    }
}

pub open spec fn all_objects(items: Seq<Json>) -> bool {
    forall|i: int| 0 <= i < items.len() ==> #[trigger] items[i] is Object
}

/// The column headers of a list: the keys of its objects in order of first
/// appearance, or the single column `value` when any item is not an object.
pub open spec fn table_headers(items: Seq<Json>) -> Seq<Seq<char>> {
    if all_objects(items) {
        keys_in_order(items)
    } else {
        seq!["value"@]
    }
}

/// The cells of one item: for an object, its value under each header (empty
/// where it has none); for anything else, the item alone.
pub open spec fn row_cells(item: Json, headers: Seq<Seq<char>>) -> Seq<Seq<char>> {
    match item {
        Json::Object(m) => headers.map_values(
            |h: Seq<char>|
                cell_text(
                    match lookup(m, h) {
                        Some(v) => v,
                        None => Json::Null,
                    },
                ),
        ),
        _ => seq![cell_text(item)],
    }
}

/// Whether `h` holds `k`, compared by text.
fn holds_key(h: &Vec<String>, k: &String) -> (r: bool)
    ensures
        r == cells_view(h@).contains(k@),
{
    let mut i: usize = 0;
    while i < h.len()
        invariant
            i <= h@.len(),
            forall|j: int| 0 <= j < i ==> #[trigger] h@[j]@ != k@,
        decreases h@.len() - i,
    {
        if h[i] == *k {
            assert(cells_view(h@)[i as int] == k@);
            return true;
        }
        i = i + 1;
    }
    assert forall|j: int| 0 <= j < cells_view(h@).len() implies cells_view(h@)[j] != k@ by {
        assert(cells_view(h@)[j] == h@[j]@);
    }
    false
}

/// Collects the column headers of a list (see `table_headers`).
pub fn collect_headers(items: &Vec<JsonValue>) -> (headers: Vec<String>)
    ensures
        cells_view(headers@) == table_headers(items_view(items@)),
{
    let ghost iv = items_view(items@);
    let mut headers: Vec<String> = Vec::new();
    let mut i: usize = 0;
    assert(cells_view(headers@) =~= keys_in_order(iv.take(0)));
    while i < items.len()
        invariant
            i <= items@.len(),
            iv == items_view(items@),
            all_objects(iv.take(i as int)),
            cells_view(headers@) == keys_in_order(iv.take(i as int)),
        decreases items@.len() - i,
    {
        match &items[i] {
            JsonValue::Object(o) => {
                let ghost acc0 = cells_view(headers@);
                let ghost keys = keys_of(iv[i as int]);
                assert(iv[i as int] == Json::Object(o@));
                let mut k: usize = 0;
                assert(keys.take(0) =~= Seq::<Seq<char>>::empty());
                while k < o.len()
                    invariant
                        k <= o@.len(),
                        keys == keys_of(Json::Object(o@)),
                        keys.len() == o@.len(),
                        cells_view(headers@) == add_new_keys(acc0, keys.take(k as int)),
                    decreases o@.len() - k,
                {
                    let key = o.key_at(k);
                    assert(keys.take(k + 1).drop_last() == keys.take(k as int));
                    assert(keys.take(k + 1).last() == key@);
                    if !holds_key(&headers, key) {
                        headers.push(key.clone());
                        assert(cells_view(headers@) =~= add_new_keys(acc0, keys.take(k as int)).push(
                            key@,
                        ));
                    }
                    k = k + 1;
                }
                assert(keys.take(o@.len() as int) == keys);
                assert(iv.take(i + 1).drop_last() == iv.take(i as int));
                assert(iv.take(i + 1).last() == iv[i as int]);
                assert forall|j: int| 0 <= j < i + 1 implies #[trigger] iv.take(i + 1)[j] is Object by {
                    if j < i {
                        assert(iv.take(i + 1)[j] == iv.take(i as int)[j]);
                    }
                }
            },
            _ => {
                assert(!(iv[i as int] is Object));
                assert(!all_objects(iv));
                let mut only: Vec<String> = Vec::new();
                only.push(string_from("value"));
                assert(cells_view(only@) =~= seq!["value"@]);
                return only;
            },
        }
        i = i + 1;
    }
    assert(iv.take(items@.len() as int) == iv);
    headers
}

/// The cells of one item under the given headers (see `row_cells`).
pub fn row_of(item: &JsonValue, headers: &Vec<String>) -> (cells: Vec<String>)
    ensures
        cells_view(cells@) == row_cells(item@, cells_view(headers@)),
{
    let mut cells: Vec<String> = Vec::new();
    match item {
        JsonValue::Object(o) => {
            let ghost hv = cells_view(headers@);
            let mut k: usize = 0;
            while k < headers.len()
                invariant
                    k <= headers@.len(),
                    hv == cells_view(headers@),
                    item@ == Json::Object(o@),
                    cells@.len() == k,
                    forall|j: int| 0 <= j < k ==> #[trigger] cells@[j]@ == cell_text(
                        match lookup(o@, hv[j]) {
                            Some(v) => v,
                            None => Json::Null,
                        },
                    ),
                decreases headers@.len() - k,
            {
                let text = match o.get(headers[k].as_str()) {
                    Some(v) => render_cell(v),
                    None => render_cell(&JsonValue::Null),
                };
                cells.push(text);
                k = k + 1;
            }
            assert(cells_view(cells@) =~= row_cells(item@, hv));
        },
        _ => {
            cells.push(render_cell(item));
            assert(cells_view(cells@) =~= row_cells(item@, cells_view(headers@)));
        },
    }
    cells
}

// ---------------------------------------------------------------------------
// Rendering
// ---------------------------------------------------------------------------

/// What the readable output of a value is: a text, a failure with its message,
/// or a table with this header and these rows.
pub enum Rendering {
    Text(Seq<char>),
    Failed(Seq<char>),
    Table(Seq<Seq<char>>, Seq<Seq<Seq<char>>>),
}

/// The text of a pretty-printing result, or its failure.
pub open spec fn pretty_rendering(v: Json) -> Rendering {
    match json_pretty(v) {
        Ok(t) => Rendering::Text(t),
        Err(e) => Rendering::Failed(e),
    }
}

/// The readable output of a list: `(no results)` when empty; pretty JSON when
/// no column comes out (every item an object without keys); else a table whose
/// header is `table_headers` and whose rows are `row_cells` of each item.
pub open spec fn array_rendering(items: Seq<Json>) -> Rendering {
    if items.len() == 0 {
        Rendering::Text("(no results)"@)
    } else if table_headers(items).len() == 0 {
        pretty_rendering(Json::Array(items))
    } else {
        Rendering::Table(
            table_headers(items),
            items.map_values(|it: Json| row_cells(it, table_headers(items))),
        )
    }
}

/// The readable output of a value: a list as `array_rendering`; an object with
/// exactly one member that is a list as that list; any other object as pretty
/// JSON; anything else as its cell text.
pub open spec fn human_rendering(v: Json) -> Rendering {
    match v {
        Json::Array(items) => array_rendering(items),
        Json::Object(m) => if m.len() == 1 && m[0].1 is Array {
            array_rendering(m[0].1->Array_0)
        } else {
            pretty_rendering(v)
        },
        _ => Rendering::Text(cell_text(v)),
    }
}

/// What is shown for a value: a text, or a table that the caller draws (the
/// drawing follows the terminal's width).
pub enum Shown {
    Text(String),
    Table(comfy_table::Table),
}

/// Whether a rendering result is what `want` describes: the same text, the
/// same JSON error, or a table with the described header and rows.
pub open spec fn shown_as(r: Result<Shown, CliError>, want: Rendering) -> bool {
    match want {
        Rendering::Text(t) => r matches Ok(Shown::Text(s)) && s@ == t,
        Rendering::Failed(m) => r matches Err(e) && (e matches CliError::Json(x) && x@ == m),
        Rendering::Table(h, rows) => r matches Ok(Shown::Table(t)) && table_header(t) == Some(h)
            && table_rows(t) == rows,
    }
}

fn pretty_or_error(value: &JsonValue) -> (r: Result<Shown, CliError>)
    ensures
        shown_as(r, pretty_rendering(value@)),
{
    match pretty_json(value) {
        Ok(s) => Ok(Shown::Text(s)),
        Err(e) => Err(CliError::Json(e)),
    }
}

/// The table of a list under the given headers: the headers, then one row of
/// `row_cells` per item.
pub fn build_table(items: &Vec<JsonValue>, headers: Vec<String>) -> (table: comfy_table::Table)
    ensures
        table_header(table) == Some(cells_view(headers@)),
        table_rows(table) == items_view(items@).map_values(
            |it: Json| row_cells(it, cells_view(headers@)),
        ),
{
    let ghost iv = items_view(items@);
    let ghost hv = cells_view(headers@);
    let mut table = table_new();
    table_use_full_borders(&mut table);
    table_arrange_dynamic(&mut table);
    let header_cells = clone_cells(&headers);
    table_set_header(&mut table, header_cells);
    let mut i: usize = 0;
    while i < items.len()
        invariant
            i <= items@.len(),
            iv == items_view(items@),
            hv == cells_view(headers@),
            table_header(table) == Some(hv),
            table_rows(table) == iv.take(i as int).map_values(|it: Json| row_cells(it, hv)),
        decreases items@.len() - i,
    {
        let row = row_of(&items[i], &headers);
        table_add_row(&mut table, row);
        assert(iv.take(i + 1).map_values(|it: Json| row_cells(it, hv)) =~= iv.take(i as int).map_values(
            |it: Json| row_cells(it, hv),
        ).push(row_cells(iv[i as int], hv)));
        i = i + 1;
    }
    assert(iv.take(items@.len() as int) == iv);
    table
}

/// Shows a list (see `array_rendering`): a table gets the header
/// `table_headers` and one row of `row_cells` per item.
pub fn render_array(array: &JsonValue) -> (r: Result<Shown, CliError>)
    requires
        array@ is Array,
    ensures
        shown_as(r, array_rendering(array@->Array_0)),
{
    match array {
        JsonValue::Array(items) => {
            proof {
                lemma_array_view(*items);
            }
            if items.len() == 0 {
                return Ok(Shown::Text(string_from("(no results)")));
            }
            let headers = collect_headers(items);
            if headers.len() == 0 {
                return pretty_or_error(array);
            }
            let table = build_table(items, headers);
            Ok(Shown::Table(table))
        },
        _ => Ok(Shown::Text(string_from("(no results)"))),
    }
}

fn clone_cells(v: &Vec<String>) -> (r: Vec<String>)
    ensures
        cells_view(r@) == cells_view(v@),
{
    let mut r: Vec<String> = Vec::new();
    let mut i: usize = 0;
    while i < v.len()
        invariant
            i <= v@.len(),
            r@.len() == i,
            forall|j: int| 0 <= j < i ==> #[trigger] r@[j]@ == v@[j]@,
        decreases v@.len() - i,
    {
        r.push(v[i].clone());
        i = i + 1;
    }
    assert(cells_view(r@) =~= cells_view(v@));
    r
}

/// The one member of an object that has exactly one member.
pub fn single_entry(object: &JsonObject) -> (r: Option<(&String, &JsonValue)>)
    ensures
        r is Some <==> object@.len() == 1,
        r matches Some(e) ==> e.0@ == object@[0].0 && e.1@ == object@[0].1,
{
    if object.len() == 1 {
        Some((object.key_at(0), object.value_at(0)))
    } else {
        None
    }
}

/// Renders a value for reading (see `human_rendering`).
pub fn render_human(value: &JsonValue) -> (r: Result<Shown, CliError>)
    ensures
        shown_as(r, human_rendering(value@)),
{
    match value {
        JsonValue::Array(_) => render_array(value),
        JsonValue::Object(o) => {
            if let Some((_, member)) = single_entry(o) {
                if let JsonValue::Array(_) = member {
                    return render_array(member);
                }
            }
            pretty_or_error(value)
        },
        _ => Ok(Shown::Text(render_cell(value))),
    }
}

/// What is printed for a value in a format: compact JSON (a failure is a JSON
/// error), YAML (a failure is a config error), or the readable rendering.
pub fn render_output(value: &JsonValue, format: OutputFormat) -> (r: Result<Shown, CliError>)
    ensures
        format == OutputFormat::Json ==> match json_compact(value@) {
            Ok(t) => r matches Ok(Shown::Text(s)) && s@ == t,
            Err(m) => r matches Err(e) && (e matches CliError::Json(x) && x@ == m),
        },
        format == OutputFormat::Yaml ==> match yaml_text(value@) {
            Ok(t) => r matches Ok(Shown::Text(s)) && s@ == t,
            Err(m) => r matches Err(e) && (e matches CliError::Config(x) && x@ == m),
        },
        format == OutputFormat::Table ==> shown_as(r, human_rendering(value@)),
{
    match format {
        OutputFormat::Json => match compact_json(value) {
            Ok(s) => Ok(Shown::Text(s)),
            Err(e) => Err(CliError::Json(e)),
        },
        OutputFormat::Yaml => match yaml_of(value) {
            Ok(s) => Ok(Shown::Text(s)),
            Err(e) => Err(CliError::Config(e)),
        },
        OutputFormat::Table => render_human(value),
    }
}

} // verus!
