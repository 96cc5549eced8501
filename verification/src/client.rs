//! The decisions around one HTTP exchange with the Splitwise API: what request
//! a call becomes, and what a response means. The transport itself is not here.
use vstd::prelude::*;
use crate::commands::common::{opt_json, pairs_view, ApiCall};
use crate::error::CliError;
use crate::json::{
    insert_member, json_parse, lemma_insert_at, parse_json, seq_less, chars_less, Json, JsonValue,
};
use crate::operations::{checks_pass, failure_text};
use crate::text::{
    chars_contain, chars_of, contains_seq, nat_text, push_nat_text, push_str,
    replace_all, replace_chars, string_from, string_of, trim, trim_chars, trim_end_char,
    trim_end_matches_char,
};

verus! {

broadcast use vstd::string::group_string_axioms;

/// What is sent: the operation (whose method is used and whose checks apply
/// to the response), the full URL, the query parameters (ordered by name, each
/// name once) and the JSON body.
#[derive(Debug)]
pub struct RequestPlan {
    pub operation: crate::operations::OperationSpec,
    pub url: String,
    pub query: Vec<(String, String)>,
    pub body: Option<JsonValue>,
}

pub type Pairs = Seq<(Seq<char>, Seq<char>)>;

/// The placeholder of a path parameter: `{name}`.
pub open spec fn placeholder(name: Seq<char>) -> Seq<char> {
    seq!['{'] + name + seq!['}']
}

/// The path with each parameter's placeholder replaced by its value, the
/// parameters taken in order.
pub open spec fn fill_path(path: Seq<char>, params: Pairs) -> Seq<char>
    decreases params.len(),
{
    if params.len() == 0 {
        path
    } else {
        fill_path(replace_all(path, placeholder(params[0].0), params[0].1), params.drop_first())
    }
}

/// The query parameters as a map ordered by name: a later value for a name
/// replaces an earlier one.
pub open spec fn query_map(params: Pairs) -> Pairs
    decreases params.len(),
{
    if params.len() == 0 {
        Seq::empty()
    } else {
        insert_member(query_map(params.drop_last()), params.last().0, params.last().1)
    }
}

/// The URL of a call: the base address without trailing slashes, then the path.
pub open spec fn request_url(base_url: Seq<char>, path: Seq<char>, params: Pairs) -> Seq<char> {
    trim_end_char(base_url, '/') + fill_path(path, params)
}

pub open spec fn body_missing_text(name: Seq<char>) -> Seq<char> {
    name + " requires a request body; pass typed flags or --body"@
}

/// Fills the placeholders of a path.
pub fn fill_path_exec(path: &str, params: &Vec<(String, String)>) -> (r: String)
    ensures
        r@ == fill_path(path@, pairs_view(params@)),
{
    let ghost ps = pairs_view(params@);
    let mut cur = chars_of(path);
    let mut i: usize = 0;
    assert(ps.skip(0) == ps);
    while i < params.len()
        invariant
            i <= params@.len(),
            ps == pairs_view(params@),
            fill_path(path@, ps) == fill_path(cur@, ps.skip(i as int)),
        decreases params@.len() - i,
    {
        let mut pat: Vec<char> = Vec::new();
        pat.push('{');
        let key = chars_of(params[i].0.as_str());
        let mut k: usize = 0;
        while k < key.len()
            invariant
                k <= key@.len(),
                pat@ == seq!['{'] + key@.take(k as int),
            decreases key@.len() - k,
        {
            pat.push(key[k]);
            k = k + 1;
            assert(key@.take(k as int) == key@.take(k - 1).push(key@[k - 1]));
        }
        pat.push('}');
        assert(key@.take(key@.len() as int) == key@);
        let value = chars_of(params[i].1.as_str());
        assert(ps.skip(i as int)[0] == ps[i as int]);
        assert(ps.skip(i as int).drop_first() == ps.skip(i + 1));
        assert(key@ == ps[i as int].0);
        assert(pat@ =~= placeholder(ps[i as int].0));
        assert(value@ == ps[i as int].1);
        cur = replace_chars(&cur, &pat, &value);
        i = i + 1;
    }
    assert(ps.skip(i as int).len() == 0);
    string_of(&cur)
}

/// Sets `key` to `value` among pairs ordered by name.
fn insert_pair(q: &mut Vec<(String, String)>, key: String, value: String)
    ensures
        pairs_view(final(q)@) == insert_member(pairs_view(old(q)@), key@, value@),
{
    let kc = chars_of(key.as_str());
    let ghost old_view = pairs_view(q@);
    let n = q.len();
    let mut i: usize = 0;
    while i < n
        invariant
            n == q@.len(),
            i <= n,
            pairs_view(q@) == old_view,
            kc@ == key@,
            forall|j: int| 0 <= j < i ==> seq_less(#[trigger] old_view[j].0, key@),
        ensures
            i <= n,
            pairs_view(q@) == old_view,
            forall|j: int| 0 <= j < i ==> seq_less(#[trigger] old_view[j].0, key@),
            i < n ==> !seq_less(old_view[i as int].0, key@),
        decreases n - i,
    {
        let ec = chars_of(q[i].0.as_str());
        if !chars_less(&ec, &kc) {
            break;
        }
        i = i + 1;
    }
    proof {
        lemma_insert_at(old_view, key@, value@, i as int);
    }
    let ghost kv = key@;
    let ghost vv = value@;
    if i < n && q[i].0 == key {
        q.remove(i);
        q.insert(i, (key, value));
        assert(pairs_view(q@) =~= old_view.take(i as int) + seq![(kv, vv)] + old_view.skip(i + 1));
    } else {
        q.insert(i, (key, value));
        assert(pairs_view(q@) =~= old_view.take(i as int) + seq![(kv, vv)] + old_view.skip(i as int));
    }
}

/// Orders the query parameters by name, a later value for a name replacing an
/// earlier one.
pub fn query_map_exec(params: &Vec<(String, String)>) -> (r: Vec<(String, String)>)
    ensures
        pairs_view(r@) == query_map(pairs_view(params@)),
{
    let ghost ps = pairs_view(params@);
    let mut q: Vec<(String, String)> = Vec::new();
    let mut i: usize = 0;
    assert(pairs_view(q@) =~= query_map(ps.take(0)));
    while i < params.len()
        invariant
            i <= params@.len(),
            ps == pairs_view(params@),
            pairs_view(q@) == query_map(ps.take(i as int)),
        decreases params@.len() - i,
    {
        insert_pair(&mut q, params[i].0.clone(), params[i].1.clone());
        assert(ps.take(i + 1).drop_last() == ps.take(i as int));
        i = i + 1;
    }
    assert(ps.take(params@.len() as int) == ps);
    q
}

/// Plans the request of a call: an operation that needs a body must have one;
/// the URL is the base address without trailing slashes followed by the filled
/// path.
pub fn plan_request(base_url: &str, call: ApiCall) -> (r: Result<RequestPlan, CliError>)
    ensures
        r is Err <==> call.operation.body_required && call.body is None,
        r matches Err(e) ==> (e matches CliError::Input(m) && m@ == body_missing_text(
            call.operation.name@,
        )),
        r matches Ok(p) ==> {
            &&& p.operation == call.operation
            &&& p.url@ == request_url(
                base_url@,
                call.operation.path@,
                pairs_view(call.path_params@),
            )
            &&& pairs_view(p.query@) == query_map(pairs_view(call.query_params@))
            &&& opt_json(p.body) == opt_json(call.body)
        },
{
    if call.operation.body_required && call.body.is_none() {
        let mut m = string_from(call.operation.name);
        push_str(&mut m, " requires a request body; pass typed flags or --body");
        return Err(CliError::Input(m));
    }
    let path = fill_path_exec(call.operation.path, &call.path_params);
    let base = trim_end_matches_char(&chars_of(base_url), '/');
    let mut url = string_of(&base);
    push_str(&mut url, path.as_str());
    let query = query_map_exec(&call.query_params);
    Ok(RequestPlan { operation: call.operation, url, query, body: call.body })
}

// ---------------------------------------------------------------------------
// Responses
// ---------------------------------------------------------------------------

/// The reason phrase `http::StatusCode::canonical_reason` gives for a code.
pub uninterp spec fn status_reason(code: u16) -> Option<Seq<char>>;

/// Calls `http::StatusCode::canonical_reason` on the status `code` (a code that
/// `StatusCode::from_u16` refuses has no reason); the result is named by
/// `status_reason`.
#[verifier::external_body]
fn canonical_reason(code: u16) -> (r: Option<&'static str>)
    ensures
        match r {
            Some(s) => status_reason(code) == Some(s@),
            None => status_reason(code) is None,
        },
{
    match http::StatusCode::from_u16(code) {
        Ok(status) => status.canonical_reason(),
        Err(_) => None,
    }
}

/// A status as `http::StatusCode` displays it: the code and its reason phrase.
pub open spec fn status_text(code: u16) -> Seq<char> {
    nat_text(code as nat) + seq![' '] + match status_reason(code) {
        Some(r) => r,
        None => "<unknown status code>"@,
    }
}

/// Whether a status is a success (200 to 299).
pub open spec fn is_success(code: u16) -> bool {
    200 <= code && code < 300
}

/// The message of a request that failed with status `code` and body `text`.
pub open spec fn request_failure_text(code: u16, text: Seq<char>) -> Seq<char> {
    status_text(code) + ": "@ + text
}

/// What a response body parses to: `null` when it is blank; JSON when the
/// content type names `application/json` or the trimmed text starts with `{`
/// or `[`; the untrimmed text as a string otherwise. `Err` holds a JSON error.
pub open spec fn response_value(content_type: Option<Seq<char>>, raw: Seq<char>) -> Result<
    Json,
    Seq<char>,
> {
    let t = trim(raw);
    if t.len() == 0 {
        Ok(Json::Null)
    } else {
        let looks_like_json = t[0] == '{' || t[0] == '[';
        let advertised = match content_type {
            Some(c) => contains_seq(c, "application/json"@),
            None => false,
        };
        if advertised || looks_like_json {
            json_parse(t)
        } else {
            Ok(Json::Str(raw))
        }
    }
}

/// The characters of an optional text.
pub open spec fn opt_str(o: Option<&str>) -> Option<Seq<char>> {
    match o {
        Some(s) => Some(s@),
        None => None,
    }
}

/// Reads the body of a successful response.
pub fn parse_response_body(content_type: Option<&str>, raw_text: &str) -> (r: Result<
    JsonValue,
    CliError,
>)
    ensures
        r matches Ok(v) ==> response_value(opt_str(content_type), raw_text@) == Ok::<
            Json,
            Seq<char>,
        >(v@),
        r matches Err(e) ==> e matches CliError::Json(m) && response_value(
            opt_str(content_type),
            raw_text@,
        ) == Err::<Json, Seq<char>>(m@),
{
    let t = trim_chars(&chars_of(raw_text));
    if t.len() == 0 {
        return Ok(JsonValue::Null);
    }
    let looks_like_json = t[0] == '{' || t[0] == '[';
    let advertised = match content_type {
        Some(c) => chars_contain(&chars_of(c), &chars_of("application/json")),
        None => false,
    };
    if advertised || looks_like_json {
        let text = string_of(&t);
        match parse_json(text.as_str()) {
            Ok(v) => Ok(v),
            Err(e) => Err(CliError::Json(e)),
        }
    } else {
        Ok(JsonValue::String(string_from(raw_text)))
    }
}

/// The message of a request that failed with status `code` and body `text`.
pub fn request_failure(code: u16, text: &str) -> (s: String)
    ensures
        s@ == request_failure_text(code, text@),
{
    let mut v: Vec<char> = Vec::new();
    push_nat_text(&mut v, code as u64);
    v.push(' ');
    let mut s = string_of(&v);
    match canonical_reason(code) {
        Some(r) => push_str(&mut s, r),
        None => push_str(&mut s, "<unknown status code>"),
    }
    push_str(&mut s, ": ");
    push_str(&mut s, text);
    s
}

/// What a response means: a status outside 200..=299 is a request failure
/// carrying the status and the body text; otherwise the body is read (see
/// `response_value`) and must pass the operation's checks.
pub fn finish_response(
    operation: crate::operations::OperationSpec,
    status: u16,
    content_type: Option<&str>,
    text: &str,
) -> (r: Result<JsonValue, CliError>)
    ensures
        !is_success(status) ==> (r matches Err(e) && (e matches CliError::Request(m) && m@
            == request_failure_text(status, text@))),
        is_success(status) ==> match response_value(opt_str(content_type), text@) {
            Err(j) => r matches Err(e) && (e matches CliError::Json(m) && m@ == j),
            Ok(v) => if checks_pass(operation.success_checks@, v) {
                r matches Ok(out) && out@ == v
            } else {
                r matches Err(e) && (e matches CliError::SemanticFailure(m) && m@ == failure_text(v))
            },
        },
{
    if !(200 <= status && status < 300) {
        return Err(CliError::Request(request_failure(status, text)));
    }
    let value = parse_response_body(content_type, text)?;
    operation.evaluate(&value)?;
    Ok(value)
}

} // verus!
