//! What the commands share: reading the `--body` argument, typed
//! `key=value` specs, merging typed flags into a body, and the request a
//! command makes.
use vstd::prelude::*;
use crate::error::CliError;
use crate::json::{
    extend_members, insert_member, json_parse, lookup, parse_json, Json, JsonObject, JsonValue, Members,
};
use crate::laws::law_extend_overrides;
use crate::operations::{matches_row, OperationRow, OperationSpec};
use crate::text::{
    chars_eq_ignore_case, chars_of, eq_ignore_case, i64_text, int_text, nat_text, parse_i64,
    parse_i64_chars, push_chars, push_nat_text, push_str, split_char, split_chars, split_once_char,
    split_once_chars, string_from, string_of, sub_chars, trim, trim_chars,
};

verus! {

broadcast use vstd::string::group_string_axioms;

// ---------------------------------------------------------------------------
// The request a command makes
// ---------------------------------------------------------------------------

/// One API call: the operation, the values of its path placeholders, its query
/// parameters in the order given, and its body.
#[derive(Debug)]
pub struct ApiCall {
    pub operation: OperationSpec,
    pub path_params: Vec<(String, String)>,
    pub query_params: Vec<(String, String)>,
    pub body: Option<JsonValue>,
}

/// What a command's call is, in terms of the operation table.
pub struct CallSpec {
    pub op: OperationRow,
    pub path: Seq<(Seq<char>, Seq<char>)>,
    pub query: Seq<(Seq<char>, Seq<char>)>,
    pub body: Option<Json>,
}

pub open spec fn call_spec(
    op: OperationRow,
    path: Seq<(Seq<char>, Seq<char>)>,
    query: Seq<(Seq<char>, Seq<char>)>,
    body: Option<Json>,
) -> CallSpec {
    CallSpec { op, path, query, body }
}

/// Whether `c` is the call that `s` describes.
pub open spec fn call_matches(c: ApiCall, s: CallSpec) -> bool {
    &&& matches_row(c.operation, s.op)
    &&& pairs_view(c.path_params@) == s.path
    &&& pairs_view(c.query_params@) == s.query
    &&& opt_json(c.body) == s.body
}

/// Whether a planned call, or its input error, is what `s` describes.
pub open spec fn call_outcome(r: Result<ApiCall, CliError>, s: Result<CallSpec, Seq<char>>) -> bool {
    match r {
        Ok(c) => s matches Ok(cs) && call_matches(c, cs),
        Err(e) => e matches CliError::Input(m) && s == Err::<CallSpec, Seq<char>>(m@),
    }
}

/// The path parameter that fills `{id}`.
pub open spec fn id_param(id: i64) -> Seq<(Seq<char>, Seq<char>)> {
    seq![("id"@, int_text(id as int))]
}

/// The path parameters that fill `{id}`.
pub fn id_params(id: i64) -> (r: Vec<(String, String)>)
    ensures
        pairs_view(r@) == id_param(id),
{
    let mut r = Vec::new();
    r.push((string_from("id"), i64_text(id)));
    assert(pairs_view(r@) =~= id_param(id));
    r
}

/// No parameters.
pub fn no_params() -> (r: Vec<(String, String)>)
    ensures
        pairs_view(r@) == Seq::<(Seq<char>, Seq<char>)>::empty(),
{
    let r = Vec::new();
    assert(pairs_view(r@) =~= Seq::<(Seq<char>, Seq<char>)>::empty());
    r
}

/// What a typed write command sends: the merged body, which must exist.
pub open spec fn write_body(body: Option<Json>, fields: Members, command_name: Seq<char>) -> Result<
    Json,
    Seq<char>,
> {
    match merged(body, fields) {
        Err(e) => Err(e),
        Ok(None) => Err(requires_input_text(command_name)),
        Ok(Some(b)) => Ok(b),
    }
}

/// Merges the typed fields into the body and requires the result.
pub fn write_body_exec(body: Option<JsonValue>, fields: JsonObject, command_name: &str) -> (r: Result<
    JsonValue,
    CliError,
>)
    ensures
        r matches Ok(v) ==> write_body(opt_json(body), fields@, command_name@) == Ok::<
            Json,
            Seq<char>,
        >(v@),
        r matches Err(e) ==> e matches CliError::Input(m) && write_body(
            opt_json(body),
            fields@,
            command_name@,
        ) == Err::<Json, Seq<char>>(m@),
{
    let m = merge_body_with_fields(body, fields)?;
    require_body(m, command_name)
}

/// `q` followed by `(key, v)` when there is a value.
pub open spec fn query_str(q: Tokens, key: Seq<char>, v: Option<Seq<char>>) -> Tokens {
    match v {
        Some(s) => q.push((key, s)),
        None => q,
    }
}

/// `q` followed by `(key, n)` when there is a number.
pub open spec fn query_int(q: Tokens, key: Seq<char>, v: Option<i64>) -> Tokens {
    match v {
        Some(n) => q.push((key, int_text(n as int))),
        None => q,
    }
}

/// Adds a query parameter when there is a value.
pub fn push_query_str(q: &mut Vec<(String, String)>, key: &str, v: Option<String>)
    ensures
        pairs_view(final(q)@) == query_str(pairs_view(old(q)@), key@, opt_text(v)),
{
    let ghost before = q@;
    if let Some(s) = v {
        q.push((string_from(key), s));
        assert(pairs_view(q@) =~= pairs_view(before).push((key@, opt_text(v).unwrap())));
    }
}

/// Adds a numeric query parameter when there is a number.
pub fn push_query_int(q: &mut Vec<(String, String)>, key: &str, v: Option<i64>)
    ensures
        pairs_view(final(q)@) == query_int(pairs_view(old(q)@), key@, v),
{
    let ghost before = q@;
    if let Some(n) = v {
        q.push((string_from(key), i64_text(n)));
        assert(pairs_view(q@) =~= pairs_view(before).push((key@, int_text(n as int))));
    }
}

/// The characters of a list of name/value pairs.
pub open spec fn pairs_view(p: Seq<(String, String)>) -> Seq<(Seq<char>, Seq<char>)> {
    p.map_values(|e: (String, String)| (e.0@, e.1@))
}

/// The view of an optional value.
pub open spec fn opt_json(o: Option<JsonValue>) -> Option<Json> {
    match o {
        Some(v) => Some(v@),
        None => None,
    }
}

// ---------------------------------------------------------------------------
// The `--body` argument
// ---------------------------------------------------------------------------

/// Where the text of a `--body` argument comes from.
#[derive(Debug)]
pub enum BodySource {
    /// The argument is the JSON text itself.
    Inline(String),
    /// `@-`: standard input.
    Stdin,
    /// `@path`: the file at `path`.
    File(String),
}

/// Where the text of a `--body` argument comes from, as text.
pub enum BodyFrom {
    Inline(Seq<char>),
    Stdin,
    File(Seq<char>),
}

/// Where the text of a `--body` argument comes from: after a leading `@`, `-`
/// means standard input and anything else a file path; any other argument is
/// the text itself.
pub open spec fn body_from(raw: Seq<char>) -> BodyFrom {
    if raw.len() > 0 && raw[0] == '@' {
        if raw.drop_first() == seq!['-'] {
            BodyFrom::Stdin
        } else {
            BodyFrom::File(raw.drop_first())
        }
    } else {
        BodyFrom::Inline(raw)
    }
}

/// The view of a body source.
pub open spec fn source_view(s: BodySource) -> BodyFrom {
    match s {
        BodySource::Inline(t) => BodyFrom::Inline(t@),
        BodySource::Stdin => BodyFrom::Stdin,
        BodySource::File(p) => BodyFrom::File(p@),
    }
}

/// What a `--body` argument gives, where `held` is the text that standard input
/// or the named file held (unused for an inline body): that text read by
/// `body_text_result`.
pub open spec fn argument_body(raw: Seq<char>, held: Seq<char>) -> Result<Json, Seq<char>> {
    match body_from(raw) {
        BodyFrom::Inline(t) => body_text_result(t),
        _ => body_text_result(held),
    }
}

/// Reads where the text of a `--body` argument comes from (see `body_from`).
pub fn body_source(raw_body: &str) -> (r: BodySource)
    ensures
        source_view(r) == body_from(raw_body@),
{
    let v = chars_of(raw_body);
    if v.len() > 0 && v[0] == '@' {
        let rest = sub_chars(&v, 1, v.len());
        assert(rest@ == raw_body@.drop_first());
        if rest.len() == 1 && rest[0] == '-' {
            assert(rest@ == seq!['-']);
            BodySource::Stdin
        } else {
            BodySource::File(string_of(&rest))
        }
    } else {
        BodySource::Inline(string_from(raw_body))
    }
}

pub open spec fn empty_body_text() -> Seq<char> {
    "request body cannot be empty; pass JSON or @file.json"@
}

pub open spec fn invalid_body_prefix() -> Seq<char> {
    "invalid JSON body; pass inline JSON or @file.json: "@
}

pub open spec fn non_object_body_text() -> Seq<char> {
    "request body must decode to a JSON object"@
}

/// What the text of a body gives: the trimmed text parsed as JSON, which must
/// be an object; an error message otherwise.
pub open spec fn body_text_result(raw: Seq<char>) -> Result<Json, Seq<char>> {
    let t = trim(raw);
    if t.len() == 0 {
        Err(empty_body_text())
    } else {
        match json_parse(t) {
            Err(e) => Err(invalid_body_prefix() + e),
            Ok(v) => if v is Object {
                Ok(v)
            } else {
                Err(non_object_body_text())
            },
        }
    }
}

/// Reads the text of a `--body` argument (inline, or what the file or standard
/// input held). Every failure is an input error.
pub fn parse_body_text(raw: &str) -> (r: Result<JsonValue, CliError>)
    ensures
        r matches Ok(v) ==> body_text_result(raw@) == Ok::<Json, Seq<char>>(v@),
        r matches Err(e) ==> e matches CliError::Input(m) && body_text_result(raw@) == Err::<Json, Seq<char>>(m@),
{
    let t = trim_chars(&chars_of(raw));
    if t.len() == 0 {
        return Err(CliError::Input(string_from("request body cannot be empty; pass JSON or @file.json")));
    }
    let text = string_of(&t);
    match parse_json(text.as_str()) {
        Err(e) => {
            let mut m = string_from("invalid JSON body; pass inline JSON or @file.json: ");
            push_str(&mut m, e.as_str());
            Err(CliError::Input(m))
        },
        Ok(v) => {
            if !v.is_object() {
                return Err(CliError::Input(string_from("request body must decode to a JSON object")));
            }
            Ok(v)
        },
    }
}

// ---------------------------------------------------------------------------
// Typed `key=value` specs
// ---------------------------------------------------------------------------

pub open spec fn bad_entry_text(t: Seq<char>) -> Seq<char> {
    "invalid field specification `"@ + t + "`; expected key=value"@
}

pub open spec fn empty_key_text() -> Seq<char> {
    "field names in typed specs cannot be empty"@
}

pub open spec fn no_pairs_text() -> Seq<char> {
    "typed spec must contain at least one key=value pair"@
}

pub type Tokens = Seq<(Seq<char>, Seq<char>)>;

/// The pairs of the comma-separated entries: blank entries are skipped; an
/// entry without `=` or with a blank key is an error; key and value are trimmed.
pub open spec fn tokens_from(entries: Seq<Seq<char>>) -> Result<Tokens, Seq<char>>
    decreases entries.len(),
{
    if entries.len() == 0 {
        Ok(Seq::empty())
    } else {
        let t = trim(entries[0]);
        if t.len() == 0 {
            tokens_from(entries.drop_first())
        } else {
            match split_once_char(t, '=') {
                None => Err(bad_entry_text(t)),
                Some(kv) => if trim(kv.0).len() == 0 {
                    Err(empty_key_text())
                } else {
                    match tokens_from(entries.drop_first()) {
                        Ok(rest) => Ok(seq![(trim(kv.0), trim(kv.1))] + rest),
                        Err(e) => Err(e),
                    }
                },
            }
        }
    }
}

/// The pairs of a typed spec such as `user_id=1,owed_share=2.5`; at least one
/// pair is needed.
pub open spec fn spec_tokens(input: Seq<char>) -> Result<Tokens, Seq<char>> {
    match tokens_from(split_char(input, ',')) {
        Ok(ts) => if ts.len() == 0 {
            Err(no_pairs_text())
        } else {
            Ok(ts)
        },
        Err(e) => Err(e),
    }
}

/// `done` followed by what `r` holds.
pub open spec fn after(done: Tokens, r: Result<Tokens, Seq<char>>) -> Result<Tokens, Seq<char>> {
    match r {
        Ok(rest) => Ok(done + rest),
        Err(e) => Err(e),
    }
}

/// The view of a list of pairs.
pub open spec fn tokens_view(v: Seq<(String, String)>) -> Tokens {
    pairs_view(v)
}

/// Splits a typed spec into trimmed `key`/`value` pairs, in order.
pub fn spec_pairs(input: &str) -> (r: Result<Vec<(String, String)>, CliError>)
    ensures
        r matches Ok(v) ==> spec_tokens(input@) == Ok::<Tokens, Seq<char>>(tokens_view(v@)),
        r matches Err(e) ==> e matches CliError::Input(m) && spec_tokens(input@) == Err::<Tokens, Seq<char>>(m@),
{
    let whole = chars_of(input);
    let entries = split_chars(&whole, ',');
    let ghost es = split_char(input@, ',');
    assert(es.skip(0) == es);
    let mut out: Vec<(String, String)> = Vec::new();
    let mut i: usize = 0;
    while i < entries.len()
        invariant
            i <= entries@.len(),
            entries@.len() == es.len(),
            es == split_char(input@, ','),
            forall|k: int| 0 <= k < entries@.len() ==> #[trigger] entries@[k]@ == es[k],
            tokens_from(es) == after(tokens_view(out@), tokens_from(es.skip(i as int))),
        decreases entries@.len() - i,
    {
        let t = trim_chars(&entries[i]);
        let ghost rest = es.skip(i as int);
        assert(rest[0] == es[i as int]);
        assert(rest.drop_first() == es.skip(i + 1));
        if t.len() != 0 {
            match split_once_chars(&t, '=') {
                None => {
                    let mut m = string_from("invalid field specification `");
                    push_chars(&mut m, &t);
                    push_str(&mut m, "`; expected key=value");
                    assert(trim(rest[0]) == t@);
                    assert(tokens_from(rest) == Err::<Tokens, Seq<char>>(bad_entry_text(t@)));
                    assert(m@ == bad_entry_text(t@));
                    return Err(CliError::Input(m));
                },
                Some(kv) => {
                    let key = trim_chars(&kv.0);
                    let value = trim_chars(&kv.1);
                    if key.len() == 0 {
                        assert(trim(rest[0]) == t@);
                        assert(tokens_from(rest) == Err::<Tokens, Seq<char>>(empty_key_text()));
                        return Err(CliError::Input(string_from("field names in typed specs cannot be empty")));
                    }
                    let ghost before = out@;
                    out.push((string_of(&key), string_of(&value)));
                    assert(tokens_view(out@) == tokens_view(before) + seq![(key@, value@)]);
                    proof {
                        match tokens_from(es.skip(i + 1)) {
                            Ok(r) => {
                                assert(tokens_view(before) + (seq![(key@, value@)] + r)
                                    == tokens_view(out@) + r);
                            },
                            Err(_) => {},
                        }
                    }
                },
            }
        }
        i = i + 1;
    }
    assert(es.skip(i as int).len() == 0);
    assert(tokens_view(out@) + Seq::<(Seq<char>, Seq<char>)>::empty() == tokens_view(out@));
    if out.len() == 0 {
        return Err(CliError::Input(string_from("typed spec must contain at least one key=value pair")));
    }
    Ok(out)
}

/// How a typed value is read: `true`, `false` and `null` in any ASCII case, then
/// an `i64`, then the number that a reading as a 64-bit float gives (handed in as
/// `float_text`, the text `serde_json` displays for it), else the text as a string.
pub open spec fn coerced(value: Seq<char>, float_text: Option<Seq<char>>) -> Json {
    if eq_ignore_case(value, "true"@) {
        Json::Bool(true)
    } else if eq_ignore_case(value, "false"@) {
        Json::Bool(false)
    } else if eq_ignore_case(value, "null"@) {
        Json::Null
    } else if parse_i64(value) is Some {
        Json::Number(int_text(parse_i64(value).unwrap() as int))
    } else if float_text is Some {
        Json::Number(float_text.unwrap())
    } else {
        Json::Str(value)
    }
}

/// Reads a typed value; `float_text` is what reading it as a finite 64-bit float
/// gives, as `serde_json` displays that number (`None` when it does not read as one).
pub fn coerce_scalar(value: &str, float_text: Option<String>) -> (r: JsonValue)
    ensures
        r@ == coerced(value@, opt_text(float_text)),
{
    let v = chars_of(value);
    if chars_eq_ignore_case(&v, &chars_of("true")) {
        return JsonValue::Bool(true);
    }
    if chars_eq_ignore_case(&v, &chars_of("false")) {
        return JsonValue::Bool(false);
    }
    if chars_eq_ignore_case(&v, &chars_of("null")) {
        return JsonValue::Null;
    }
    match parse_i64_chars(&v) {
        Some(n) => JsonValue::Number(i64_text(n)),
        None => match float_text {
            Some(t) => JsonValue::Number(t),
            None => JsonValue::String(string_from(value)),
        },
    }
}

pub open spec fn opt_text(o: Option<String>) -> Option<Seq<char>> {
    match o {
        Some(s) => Some(s@),
        None => None,
    }
}

/// The members a list of pairs makes, each value read by `coerced` with its float
/// reading; a later pair with the same key replaces an earlier one.
pub open spec fn spec_object(tokens: Tokens, floats: Seq<Option<Seq<char>>>) -> Members
    decreases tokens.len(),
{
    if tokens.len() == 0 {
        Seq::empty()
    } else {
        insert_member(
            spec_object(tokens.drop_last(), floats.drop_last()),
            tokens.last().0,
            coerced(tokens.last().1, floats.last()),
        )
    }
}

/// The float readings of the values of the pairs.
pub open spec fn floats_view(v: Seq<Option<String>>) -> Seq<Option<Seq<char>>> {
    v.map_values(|o: Option<String>| opt_text(o))
}

/// Builds the object of a typed spec from its pairs (see `spec_pairs`) and, for
/// each value, what reading it as a finite 64-bit float gives.
pub fn spec_object_from(pairs: Vec<(String, String)>, floats: Vec<Option<String>>) -> (r: JsonObject)
    requires
        pairs@.len() == floats@.len(),
    ensures
        r@ == spec_object(tokens_view(pairs@), floats_view(floats@)),
{
    let mut obj = JsonObject::new();
    let ghost tv = tokens_view(pairs@);
    let ghost fv = floats_view(floats@);
    let mut i: usize = 0;
    assert(tv.take(0) == Seq::<(Seq<char>, Seq<char>)>::empty());
    while i < pairs.len()
        invariant
            pairs@.len() == floats@.len(),
            i <= pairs@.len(),
            tv == tokens_view(pairs@),
            fv == floats_view(floats@),
            obj@ == spec_object(tv.take(i as int), fv.take(i as int)),
        decreases pairs@.len() - i,
    {
        let value = coerce_scalar(pairs[i].1.as_str(), clone_opt(&floats[i]));
        obj.insert(pairs[i].0.clone(), value);
        assert(tv.take(i + 1).drop_last() == tv.take(i as int));
        assert(fv.take(i + 1).drop_last() == fv.take(i as int));
        i = i + 1;
    }
    assert(tv.take(pairs@.len() as int) == tv);
    assert(fv.take(pairs@.len() as int) == fv);
    obj
}

pub fn clone_opt(o: &Option<String>) -> (r: Option<String>)
    ensures
        opt_text(r) == opt_text(*o),
{
    match o {
        Some(s) => Some(s.clone()),
        None => None,
    }
}

/// The pairs of each of several typed specs, in order; the first spec that is
/// refused gives the error.
pub open spec fn specs_tokens(inputs: Seq<Seq<char>>) -> Result<Seq<Tokens>, Seq<char>>
    decreases inputs.len(),
{
    if inputs.len() == 0 {
        Ok(Seq::empty())
    } else {
        match spec_tokens(inputs[0]) {
            Err(e) => Err(e),
            Ok(t) => match specs_tokens(inputs.drop_first()) {
                Ok(rest) => Ok(seq![t] + rest),
                Err(e) => Err(e),
            },
        }
    }
}

/// `done` followed by what `r` holds.
pub open spec fn after_specs(done: Seq<Tokens>, r: Result<Seq<Tokens>, Seq<char>>) -> Result<
    Seq<Tokens>,
    Seq<char>,
> {
    match r {
        Ok(rest) => Ok(done + rest),
        Err(e) => Err(e),
    }
}

/// The pairs of each of several lists.
pub open spec fn specs_view(v: Seq<Vec<(String, String)>>) -> Seq<Tokens> {
    v.map_values(|p: Vec<(String, String)>| tokens_view(p@))
}

/// The texts of several strings.
pub open spec fn texts_view(v: Seq<String>) -> Seq<Seq<char>> {
    v.map_values(|s: String| s@)
}

/// Splits each typed spec into its pairs (see `spec_pairs`), in order; the
/// first spec that is refused stops the reading with its error.
pub fn read_specs(inputs: &Vec<String>) -> (r: Result<Vec<Vec<(String, String)>>, CliError>)
    ensures
        r matches Ok(v) ==> specs_tokens(texts_view(inputs@)) == Ok::<Seq<Tokens>, Seq<char>>(
            specs_view(v@),
        ),
        r matches Err(e) ==> e matches CliError::Input(m) && specs_tokens(texts_view(inputs@))
            == Err::<Seq<Tokens>, Seq<char>>(m@),
{
    let ghost iv = texts_view(inputs@);
    let mut out: Vec<Vec<(String, String)>> = Vec::new();
    let mut i: usize = 0;
    assert(iv.skip(0) == iv);
    while i < inputs.len()
        invariant
            i <= inputs@.len(),
            iv == texts_view(inputs@),
            specs_tokens(iv) == after_specs(specs_view(out@), specs_tokens(iv.skip(i as int))),
        decreases inputs@.len() - i,
    {
        let ghost rest = iv.skip(i as int);
        assert(rest[0] == inputs@[i as int]@);
        assert(rest.drop_first() == iv.skip(i + 1));
        match spec_pairs(inputs[i].as_str()) {
            Err(e) => {
                return Err(e);
            },
            Ok(pairs) => {
                let ghost before = out@;
                let ghost tv = tokens_view(pairs@);
                out.push(pairs);
                assert(specs_view(out@) =~= specs_view(before).push(tv));
                proof {
                    match specs_tokens(iv.skip(i + 1)) {
                        Ok(r) => {
                            assert(specs_view(before) + (seq![tv] + r) =~= specs_view(out@) + r);
                        },
                        Err(_) => {},
                    }
                }
            },
        }
        i = i + 1;
    }
    assert(iv.skip(i as int).len() == 0);
    assert(specs_view(out@) + Seq::<Tokens>::empty() =~= specs_view(out@));
    Ok(out)
}

/// The objects of several typed specs (see `spec_object`).
pub open spec fn spec_objects(specs: Seq<Tokens>, floats: Seq<Seq<Option<Seq<char>>>>) -> Seq<
    Members,
> {
    Seq::new(specs.len(), |i: int| spec_object(specs[i], floats[i]))
}

/// The float readings of the values of several specs.
pub open spec fn all_floats_view(v: Seq<Vec<Option<String>>>) -> Seq<Seq<Option<Seq<char>>>> {
    v.map_values(|f: Vec<Option<String>>| floats_view(f@))
}

/// Builds the objects of several typed specs from their pairs (see
/// `read_specs`) and, for each value, what reading it as a finite 64-bit float
/// gives.
pub fn spec_objects_from(pairs: Vec<Vec<(String, String)>>, floats: Vec<Vec<Option<String>>>) -> (r:
    Vec<JsonObject>)
    requires
        pairs@.len() == floats@.len(),
        forall|i: int| 0 <= i < pairs@.len() ==> #[trigger] pairs@[i]@.len() == floats@[i]@.len(),
    ensures
        objects_view(r@) == spec_objects(specs_view(pairs@), all_floats_view(floats@)),
{
    let ghost pv = specs_view(pairs@);
    let ghost fv = all_floats_view(floats@);
    let n = pairs.len();
    let mut ps = pairs;
    let mut fs = floats;
    let mut out: Vec<JsonObject> = Vec::new();
    while ps.len() > 0
        invariant
            n == pv.len(),
            n == fv.len(),
            ps@.len() == fs@.len(),
            ps@.len() + out@.len() == n,
            forall|j: int| 0 <= j < ps@.len() ==> #[trigger] ps@[j]@.len() == fs@[j]@.len(),
            forall|j: int| 0 <= j < ps@.len() ==> tokens_view(#[trigger] ps@[j]@) == pv[j + out@.len()],
            forall|j: int| 0 <= j < fs@.len() ==> floats_view(#[trigger] fs@[j]@) == fv[j + out@.len()],
            forall|j: int| 0 <= j < out@.len() ==> #[trigger] out@[j]@ == spec_object(pv[j], fv[j]),
        decreases ps@.len(),
    {
        let ghost k: int = out@.len() as int;
        let ghost ps_before = ps@;
        let ghost fs_before = fs@;
        let p = ps.remove(0);
        let f = fs.remove(0);
        assert(ps_before[0] == p && fs_before[0] == f);
        assert(tokens_view(ps_before[0]@) == pv[k]);
        assert(floats_view(fs_before[0]@) == fv[k]);
        let o = spec_object_from(p, f);
        out.push(o);
        assert forall|j: int| 0 <= j < ps@.len() implies tokens_view(#[trigger] ps@[j]@) == pv[j + out@.len()] by {
            assert(ps@[j] == ps_before[j + 1]);
        }
        assert forall|j: int| 0 <= j < fs@.len() implies floats_view(#[trigger] fs@[j]@) == fv[j + out@.len()] by {
            assert(fs@[j] == fs_before[j + 1]);
        }
        assert forall|j: int| 0 <= j < ps@.len() implies #[trigger] ps@[j]@.len() == fs@[j]@.len() by {
            assert(ps@[j] == ps_before[j + 1]);
            assert(fs@[j] == fs_before[j + 1]);
        }
    }
    assert(objects_view(out@) =~= spec_objects(pv, fv));
    out
}

// ---------------------------------------------------------------------------
// Merging typed flags into the body
// ---------------------------------------------------------------------------

pub open spec fn merge_non_object_text() -> Seq<char> {
    "request body must be a JSON object to merge with typed flags"@
}

/// What merging typed fields into a body gives: nothing when both are absent;
/// the body's members with the fields set over them; an error for a body that
/// is not an object.
pub open spec fn merged(body: Option<Json>, fields: Members) -> Result<Option<Json>, Seq<char>> {
    match body {
        None => if fields.len() == 0 {
            Ok(None)
        } else {
            Ok(Some(Json::Object(extend_members(Seq::empty(), fields))))
        },
        Some(Json::Object(m)) => Ok(Some(Json::Object(extend_members(m, fields)))),
        Some(_) => Err(merge_non_object_text()),
    }
}

/// Sets the typed fields over the members of the body.
pub fn merge_body_with_fields(body: Option<JsonValue>, fields: JsonObject) -> (r: Result<
    Option<JsonValue>,
    CliError,
>)
    ensures
        r matches Ok(o) ==> merged(opt_json(body), fields@) == Ok::<Option<Json>, Seq<char>>(opt_json(o)),
        r matches Err(e) ==> e matches CliError::Input(m) && merged(opt_json(body), fields@)
            == Err::<Option<Json>, Seq<char>>(m@),
        r matches Ok(Some(v)) ==> v@ is Object && forall|k: Seq<char>|
            #[trigger] lookup(v@->Object_0, k) == match lookup(fields@, k) {
                Some(x) => Some(x),
                None => match opt_json(body) {
                    Some(Json::Object(m)) => lookup(m, k),
                    _ => None::<Json>,
                },
            },
{
    proof {
        use_type_invariant(&fields);
    }
    if body.is_none() && fields.is_empty() {
        return Ok(None);
    }
    let ghost fv = fields@;
    let mut base = match body {
        Some(JsonValue::Object(map)) => map,
        Some(_) => {
            return Err(CliError::Input(string_from("request body must be a JSON object to merge with typed flags")));
        },
        None => JsonObject::new(),
    };
    let ghost bv = base@;
    base.extend(fields);
    proof {
        assert forall|k: Seq<char>| #[trigger] lookup(base@, k) == match lookup(fv, k) {
            Some(x) => Some(x),
            None => lookup(bv, k),
        } by {
            law_extend_overrides(bv, fv, k);
        }
    }
    Ok(Some(JsonValue::Object(base)))
}

pub open spec fn requires_input_text(command_name: Seq<char>) -> Seq<char> {
    command_name + " requires input; pass typed flags or --body"@
}

/// The body, or an input error naming the command when there is none.
pub fn require_body(body: Option<JsonValue>, command_name: &str) -> (r: Result<JsonValue, CliError>)
    ensures
        body matches Some(b) ==> (r matches Ok(v) && v == b),
        body is None ==> (r matches Err(e) && (e matches CliError::Input(m) && m@ == requires_input_text(
            command_name@,
        ))),
{
    match body {
        Some(b) => Ok(b),
        None => {
            let mut m = string_from(command_name);
            push_str(&mut m, " requires input; pass typed flags or --body");
            Err(CliError::Input(m))
        },
    }
}

// ---------------------------------------------------------------------------
// Setting typed fields
// ---------------------------------------------------------------------------

/// `m` with `key` set to the string when there is one.
pub open spec fn put_str(m: Members, key: Seq<char>, v: Option<Seq<char>>) -> Members {
    match v {
        Some(s) => insert_member(m, key, Json::Str(s)),
        None => m,
    }
}

/// `m` with `key` set to the number when there is one.
pub open spec fn put_int(m: Members, key: Seq<char>, v: Option<i64>) -> Members {
    match v {
        Some(n) => insert_member(m, key, Json::Number(int_text(n as int))),
        None => m,
    }
}

/// `m` with `key` set to `true` when the flag is set.
pub open spec fn put_true(m: Members, key: Seq<char>, flag: bool) -> Members {
    if flag {
        insert_member(m, key, Json::Bool(true))
    } else {
        m
    }
}

/// `m` with `key` set to the array when it has items.
pub open spec fn put_array(m: Members, key: Seq<char>, items: Seq<Json>) -> Members {
    if items.len() > 0 {
        insert_member(m, key, Json::Array(items))
    } else {
        m
    }
}

/// Sets `key` to the string when there is one.
pub fn insert_string(target: &mut JsonObject, key: &str, value: Option<String>)
    ensures
        final(target)@ == put_str(old(target)@, key@, opt_text(value)),
{
    if let Some(value) = value {
        target.insert(string_from(key), JsonValue::String(value));
    }
}

/// Sets `key` to the number when there is one.
pub fn insert_i64(target: &mut JsonObject, key: &str, value: Option<i64>)
    ensures
        final(target)@ == put_int(old(target)@, key@, value),
{
    if let Some(value) = value {
        target.insert(string_from(key), JsonValue::Number(i64_text(value)));
    }
}

/// Sets `key` to `true` when the flag is set.
pub fn insert_bool_if_true(target: &mut JsonObject, key: &str, value: bool)
    ensures
        final(target)@ == put_true(old(target)@, key@, value),
{
    if value {
        target.insert(string_from(key), JsonValue::Bool(true));
    }
}

/// Sets `key` to the array when it has items.
pub fn insert_array(target: &mut JsonObject, key: &str, values: Vec<JsonValue>)
    ensures
        final(target)@ == put_array(old(target)@, key@, crate::json::items_view(values@)),
{
    proof {
        crate::json::lemma_array_view(values);
    }
    if values.len() != 0 {
        target.insert(string_from(key), JsonValue::Array(values));
    }
}

// ---------------------------------------------------------------------------
// Members taken from typed specs
// ---------------------------------------------------------------------------

/// The views of a list of objects.
pub open spec fn objects_view(v: Seq<JsonObject>) -> Seq<Members> {
    v.map_values(|o: JsonObject| o@)
}

/// The key under which member `key` of the typed spec at `index` is sent:
/// `users__{index}__{key}`, with `user_id` sent as `id` where `rename` is set.
pub open spec fn indexed_key(index: nat, key: Seq<char>, rename: bool) -> Seq<char> {
    "users__"@ + nat_text(index) + "__"@ + (if rename && key == "user_id"@ {
        "id"@
    } else {
        key
    })
}

/// `m` with the members of one typed spec set under their indexed keys, in order.
pub open spec fn put_indexed(m: Members, index: nat, spec: Members, rename: bool) -> Members
    decreases spec.len(),
{
    if spec.len() == 0 {
        m
    } else {
        put_indexed(
            insert_member(m, indexed_key(index, spec[0].0, rename), spec[0].1),
            index,
            spec.drop_first(),
            rename,
        )
    }
}

/// `m` with the members of every typed spec set under their indexed keys.
pub open spec fn put_all_indexed(m: Members, specs: Seq<Members>, rename: bool) -> Members
    decreases specs.len(),
{
    if specs.len() == 0 {
        m
    } else {
        put_indexed(
            put_all_indexed(m, specs.drop_last(), rename),
            (specs.len() - 1) as nat,
            specs.last(),
            rename,
        )
    }
}

/// The key `users__{index}__{key}`, renaming `user_id` to `id` where asked.
pub fn indexed_key_exec(index: usize, key: &String, rename: bool) -> (s: String)
    ensures
        s@ == indexed_key(index as nat, key@, rename),
{
    let mut v: Vec<char> = chars_of("users__");
    push_nat_text(&mut v, index as u64);
    let mut s = string_of(&v);
    push_str(&mut s, "__");
    if rename && *key == string_from("user_id") {
        push_str(&mut s, "id");
    } else {
        push_str(&mut s, key.as_str());
    }
    s
}

/// Sets the members of one typed spec under their indexed keys.
pub fn put_indexed_exec(target: &mut JsonObject, index: usize, spec: JsonObject, rename: bool)
    ensures
        final(target)@ == put_indexed(old(target)@, index as nat, spec@, rename),
{
    let ghost sv = spec@;
    let mut entries = spec.into_entries();
    assert(sv.skip(0) == sv);
    while entries.len() > 0
        invariant
            entries@.len() <= sv.len(),
            forall|j: int|
                0 <= j < entries@.len() ==> (#[trigger] entries@[j].0@, entries@[j].1@) == sv[j + (
                sv.len() - entries@.len())],
            put_indexed(old(target)@, index as nat, sv, rename) == put_indexed(
                target@,
                index as nat,
                sv.skip(sv.len() - entries@.len()),
                rename,
            ),
        decreases entries@.len(),
    {
        let ghost k = sv.len() - entries@.len();
        let ghost prev = entries@;
        let (key, value) = entries.remove(0);
        assert(sv.skip(k)[0] == (key@, value@));
        assert(sv.skip(k).drop_first() == sv.skip(k + 1));
        let full = indexed_key_exec(index, &key, rename);
        target.insert(full, value);
        assert forall|j: int| 0 <= j < entries@.len() implies (#[trigger] entries@[j].0@, entries@[j].1@)
            == sv[j + (sv.len() - entries@.len())] by {
            assert(entries@[j] == prev[j + 1]);
        }
    }
    assert(sv.skip(sv.len() as int).len() == 0);
}

/// Sets the members of every typed spec, the spec at position `i` under
/// `users__{i}__...`.
pub fn put_all_indexed_exec(target: &mut JsonObject, specs: Vec<JsonObject>, rename: bool)
    ensures
        final(target)@ == put_all_indexed(old(target)@, objects_view(specs@), rename),
{
    let ghost all = objects_view(specs@);
    let n = specs.len();
    let mut rest = specs;
    let mut index: usize = 0;
    assert(all.take(0) == Seq::<Members>::empty());
    while index < n
        invariant
            n == all.len(),
            index <= n,
            rest@.len() == n - index,
            forall|j: int| 0 <= j < rest@.len() ==> #[trigger] rest@[j]@ == all[j + index],
            target@ == put_all_indexed(old(target)@, all.take(index as int), rename),
        decreases n - index,
    {
        let ghost prev = rest@;
        let spec = rest.remove(0);
        assert(all.take(index + 1).drop_last() == all.take(index as int));
        assert(all.take(index + 1).last() == spec@);
        put_indexed_exec(target, index, spec, rename);
        index = index + 1;
        assert forall|j: int| 0 <= j < rest@.len() implies #[trigger] rest@[j]@ == all[j + index] by {
            assert(rest@[j] == prev[j + 1]);
        }
    }
    assert(all.take(n as int) == all);
}

} // verus!
