//! Properties of the library as a whole, each stated over the specifications
//! the functions' contracts use and proved from them.
use vstd::prelude::*;
use crate::client::{query_map, response_value, Pairs};
use crate::commands::common::{
    argument_body, body_from, body_text_result, coerced, merged, spec_object, BodyFrom, Tokens,
};
use crate::config::env_token;
use crate::error::{exit_code_of, CliError};
use crate::json::{
    extend_members, insert_member, json_get, keys_sorted, lemma_insert_lookup,
    lemma_insert_sorted, lemma_less_irreflexive, lookup, seq_less, Json,
    Members,
};
use crate::operations::{
    check_passes, checks_of, checks_pass, errors_empty, is_empty_json, operation_table,
    success_true, CheckKind, Method, SuccessCheck,
};
use crate::output::{add_new_keys, all_objects, keys_in_order, keys_of, table_headers};
use crate::text::{is_blank, trim_end_char};

verus! {

broadcast use vstd::string::group_string_axioms;

// ---------------------------------------------------------------------------
// Soft failures and exit codes
// ---------------------------------------------------------------------------

/// An operation with the `success` check fails unless the body's `success`
/// field is `true`; one with the `errors` check fails exactly when the body has
/// an `errors` field that is not empty (a missing field passes).
pub proof fn law_soft_failures(v: Json)
    ensures
        checks_pass(success_true(), v) <==> json_get(v, "success"@) == Some(Json::Bool(true)),
        checks_pass(errors_empty(), v) <==> match json_get(v, "errors"@) {
            None => true,
            Some(e) => is_empty_json(e),
        },
        json_get(v, "errors"@) is None ==> checks_pass(errors_empty(), v),
{
    assert(success_true()[0] == SuccessCheck::FieldTrue("success"));
    assert(errors_empty()[0] == SuccessCheck::FieldAbsentOrEmpty("errors"));
    if json_get(v, "success"@) == Some(Json::Bool(true)) {
        assert forall|i: int| 0 <= i < success_true().len() implies check_passes(
            #[trigger] success_true()[i],
            v,
        ) by {}
    }
    if (match json_get(v, "errors"@) {
        None => true,
        Some(e) => is_empty_json(e),
    }) {
        assert forall|i: int| 0 <= i < errors_empty().len() implies check_passes(
            #[trigger] errors_empty()[i],
            v,
        ) by {}
    }
    if checks_pass(success_true(), v) {
        assert(check_passes(success_true()[0], v));
    }
    if checks_pass(errors_empty(), v) {
        assert(check_passes(errors_empty()[0], v));
    }
}

/// An operation without checks accepts every body.
pub proof fn law_no_checks_accept_everything(v: Json)
    ensures
        checks_pass(checks_of(CheckKind::NoChecks), v),
{
}

/// A semantic failure exits with status 2; every other error with status 1.
pub proof fn law_exit_codes(e: CliError)
    ensures
        exit_code_of(e) == 2 <==> e is SemanticFailure,
        exit_code_of(e) == 1 <==> !(e is SemanticFailure),
{
}

/// The operation table: 27 operations; an operation needs a body exactly when
/// it takes one, and no `GET` takes one; the operations that answer with a
/// `success` flag are checked for it and those that answer with `errors` are
/// checked for that.
pub proof fn law_operation_table()
    ensures
        operation_table().len() == 27,
        forall|i: int|
            0 <= i < operation_table().len() ==> (#[trigger] operation_table()[i]).body_required
                == operation_table()[i].has_body,
        forall|i: int|
            0 <= i < operation_table().len() && (#[trigger] operation_table()[i]).method == Method::Get
                ==> !operation_table()[i].has_body,
        forall|i: int|
            0 <= i < operation_table().len() ==> ((#[trigger] operation_table()[i]).checks
                == CheckKind::SuccessTrue <==> (i == 6 || i == 7 || i == 9 || i == 14 || i == 20
                || i == 21)),
        forall|i: int|
            0 <= i < operation_table().len() ==> ((#[trigger] operation_table()[i]).checks
                == CheckKind::ErrorsEmpty <==> (i == 5 || i == 8 || i == 13 || i == 18 || i == 19)),
{
    let t = operation_table();
    assert forall|i: int| 0 <= i < t.len() implies (#[trigger] t[i]).body_required == t[i].has_body by {}
    assert forall|i: int| 0 <= i < t.len() && (#[trigger] t[i]).method == Method::Get implies !t[i].has_body by {}
    assert forall|i: int| 0 <= i < t.len() implies ((#[trigger] t[i]).checks == CheckKind::SuccessTrue
        <==> (i == 6 || i == 7 || i == 9 || i == 14 || i == 20 || i == 21)) by {}
    assert forall|i: int| 0 <= i < t.len() implies ((#[trigger] t[i]).checks == CheckKind::ErrorsEmpty
        <==> (i == 5 || i == 8 || i == 13 || i == 18 || i == 19)) by {}
}

// ---------------------------------------------------------------------------
// Objects: setting members
// ---------------------------------------------------------------------------

/// A member that `lookup` finds is one of the members.
pub proof fn lemma_lookup_found<V>(m: Seq<(Seq<char>, V)>, k: Seq<char>)
    requires
        lookup(m, k) is Some,
    ensures
        exists|i: int| 0 <= i < m.len() && m[i].0 == k,
    decreases m.len(),
{
    if m[0].0 != k {
        lemma_lookup_found(m.drop_first(), k);
        let i = choose|i: int| 0 <= i < m.drop_first().len() && m.drop_first()[i].0 == k;
        assert(m[i + 1].0 == k);
    }
}

/// In ordered members, the first key does not come again.
pub proof fn lemma_sorted_head_unique<V>(m: Seq<(Seq<char>, V)>)
    requires
        keys_sorted(m),
        m.len() > 0,
    ensures
        lookup(m.drop_first(), m[0].0) is None,
        keys_sorted(m.drop_first()),
{
    let t = m.drop_first();
    assert forall|i: int, j: int| 0 <= i < j < t.len() implies seq_less(#[trigger] t[i].0, #[trigger] t[j].0) by {
        assert(t[i] == m[i + 1] && t[j] == m[j + 1]);
    }
    if lookup(t, m[0].0) is Some {
        lemma_lookup_found(t, m[0].0);
        let i = choose|i: int| 0 <= i < t.len() && t[i].0 == m[0].0;
        assert(t[i] == m[i + 1]);
        assert(seq_less(m[0].0, m[i + 1].0));
        lemma_less_irreflexive(m[0].0);
    }
}

/// Setting ordered members over a base: a key the extra members hold reads
/// their value, any other key reads as in the base; the order is kept.
pub proof fn law_extend_overrides<V>(base: Seq<(Seq<char>, V)>, extra: Seq<(Seq<char>, V)>, k: Seq<char>)
    requires
        keys_sorted(extra),
    ensures
        lookup(extend_members(base, extra), k) == match lookup(extra, k) {
            Some(v) => Some(v),
            None => lookup(base, k),
        },
        keys_sorted(base) ==> keys_sorted(extend_members(base, extra)),
    decreases extra.len(),
{
    if extra.len() > 0 {
        let b2 = insert_member(base, extra[0].0, extra[0].1);
        lemma_sorted_head_unique(extra);
        law_extend_overrides(b2, extra.drop_first(), k);
        lemma_insert_lookup(base, extra[0].0, extra[0].1, k);
        if keys_sorted(base) {
            lemma_insert_sorted(base, extra[0].0, extra[0].1);
            law_extend_overrides(b2, extra.drop_first(), k);
        }
    }
}

/// Typed flags win over `--body`: after merging typed fields into an object
/// body, a field the flags set reads the flag's value and every other field
/// reads as in the body. (The members of every `JsonObject` are ordered, its
/// type invariant, so `merge_body_with_fields` states this for all its inputs.)
pub proof fn law_typed_flags_override_body(body: Members, fields: Members, k: Seq<char>)
    requires
        keys_sorted(fields),
    ensures
        merged(Some(Json::Object(body)), fields) matches Ok(Some(Json::Object(m))) && lookup(m, k)
            == match lookup(fields, k) {
            Some(v) => Some(v),
            None => lookup(body, k),
        },
{
    law_extend_overrides(body, fields, k);
}

/// The value a key reads in a typed spec: that of its last pair.
pub open spec fn last_pair_value(tokens: Tokens, floats: Seq<Option<Seq<char>>>, k: Seq<char>) -> Option<Json>
    decreases tokens.len(),
{
    if tokens.len() == 0 {
        None
    } else if tokens.last().0 == k {
        Some(coerced(tokens.last().1, floats.last()))
    } else {
        last_pair_value(tokens.drop_last(), floats.drop_last(), k)
    }
}

/// In a typed spec the last pair for a key wins, and the object comes out
/// ordered by key.
pub proof fn law_last_pair_wins(tokens: Tokens, floats: Seq<Option<Seq<char>>>, k: Seq<char>)
    ensures
        lookup(spec_object(tokens, floats), k) == last_pair_value(tokens, floats, k),
        keys_sorted(spec_object(tokens, floats)),
    decreases tokens.len(),
{
    if tokens.len() > 0 {
        law_last_pair_wins(tokens.drop_last(), floats.drop_last(), k);
        let prev = spec_object(tokens.drop_last(), floats.drop_last());
        lemma_insert_lookup(prev, tokens.last().0, coerced(tokens.last().1, floats.last()), k);
        lemma_insert_sorted(prev, tokens.last().0, coerced(tokens.last().1, floats.last()));
    }
}

// ---------------------------------------------------------------------------
// Requests
// ---------------------------------------------------------------------------

/// The value a query parameter is sent with: the last one given for it.
pub open spec fn last_value(params: Pairs, k: Seq<char>) -> Option<Seq<char>>
    decreases params.len(),
{
    if params.len() == 0 {
        None
    } else if params.last().0 == k {
        Some(params.last().1)
    } else {
        last_value(params.drop_last(), k)
    }
}

/// Query parameters go out ordered by name, each name once, with the last
/// value given for it.
pub proof fn law_query_last_value_wins(params: Pairs, k: Seq<char>)
    ensures
        lookup(query_map(params), k) == last_value(params, k),
        keys_sorted(query_map(params)),
    decreases params.len(),
{
    if params.len() > 0 {
        law_query_last_value_wins(params.drop_last(), k);
        let prev = query_map(params.drop_last());
        lemma_insert_lookup(prev, params.last().0, params.last().1, k);
        lemma_insert_sorted(prev, params.last().0, params.last().1);
    }
}

/// The base address loses its trailing slashes, so joining it with a path
/// (which starts with `/`) never doubles the slash.
pub proof fn law_base_url_without_trailing_slash(base: Seq<char>)
    ensures
        trim_end_char(base, '/').len() == 0 || trim_end_char(base, '/').last() != '/',
    decreases base.len(),
{
    if base.len() > 0 && base.last() == '/' {
        law_base_url_without_trailing_slash(base.drop_last());
    }
}

/// A blank response body reads as `null`, whatever its content type.
pub proof fn law_blank_response_is_null(content_type: Option<Seq<char>>, raw: Seq<char>)
    requires
        is_blank(raw),
    ensures
        response_value(content_type, raw) == Ok::<Json, Seq<char>>(Json::Null),
{
}

/// A `--body` that is read successfully is a JSON object.
pub proof fn law_body_is_object(raw: Seq<char>)
    ensures
        body_text_result(raw) matches Ok(v) ==> v is Object,
{
}

/// A body read from a file or from standard input is treated exactly as the same
/// text given inline, as long as that text does not itself start with `@` (inline,
/// such a text would name another source).
pub proof fn law_read_body_is_like_inline(raw: Seq<char>, held: Seq<char>, other: Seq<char>)
    requires
        !(body_from(raw) is Inline),
        !(held.len() > 0 && held[0] == '@'),
    ensures
        body_from(held) == BodyFrom::Inline(held),
        argument_body(raw, held) == argument_body(held, other),
        argument_body(raw, held) == body_text_result(held),
{
}

/// A token taken from the environment is never empty.
pub proof fn law_env_token_not_empty(values: Seq<Option<String>>)
    ensures
        env_token(values) matches Some(t) ==> t.len() > 0,
{
}

// ---------------------------------------------------------------------------
// Tables
// ---------------------------------------------------------------------------

proof fn lemma_add_new_keys(acc: Seq<Seq<char>>, keys: Seq<Seq<char>>)
    requires
        acc.no_duplicates(),
    ensures
        add_new_keys(acc, keys).no_duplicates(),
        forall|k: Seq<char>| #[trigger] add_new_keys(acc, keys).contains(k) <==> (acc.contains(k)
            || keys.contains(k)),
    decreases keys.len(),
{
    if keys.len() > 0 {
        lemma_add_new_keys(acc, keys.drop_last());
        let a = add_new_keys(acc, keys.drop_last());
        assert forall|k: Seq<char>| #[trigger] keys.contains(k) <==> (keys.drop_last().contains(k) || k
            == keys.last()) by {
            if keys.contains(k) {
                let i = choose|i: int| 0 <= i < keys.len() && keys[i] == k;
                if i < keys.len() - 1 {
                    assert(keys.drop_last()[i] == k);
                }
            }
            if keys.drop_last().contains(k) {
                let i = choose|i: int| 0 <= i < keys.drop_last().len() && keys.drop_last()[i] == k;
                assert(keys[i] == k);
            }
            if k == keys.last() {
                assert(keys[keys.len() - 1] == k);
            }
        }
        if !a.contains(keys.last()) {
            let r = a.push(keys.last());
            assert forall|k: Seq<char>| #[trigger] r.contains(k) <==> (a.contains(k) || k == keys.last()) by {
                if r.contains(k) {
                    let i = choose|i: int| 0 <= i < r.len() && r[i] == k;
                    if i < a.len() {
                        assert(a[i] == k);
                    }
                }
                if a.contains(k) {
                    let i = choose|i: int| 0 <= i < a.len() && a[i] == k;
                    assert(r[i] == k);
                }
                if k == keys.last() {
                    assert(r[a.len() as int] == k);
                }
            }
        }
    }
}

/// The columns of a table never repeat; when every item is an object they are
/// exactly the keys that occur in the items.
pub proof fn law_headers_cover_keys(items: Seq<Json>)
    ensures
        table_headers(items).no_duplicates(),
        all_objects(items) ==> forall|k: Seq<char>|
            #[trigger] table_headers(items).contains(k) <==> exists|i: int|
                0 <= i < items.len() && keys_of(items[i]).contains(k),
    decreases items.len(),
{
    if !all_objects(items) {
        assert(seq!["value"@].no_duplicates());
    } else if items.len() > 0 {
        let front = items.drop_last();
        assert(all_objects(front)) by {
            assert forall|i: int| 0 <= i < front.len() implies #[trigger] front[i] is Object by {
                assert(front[i] == items[i]);
            }
        }
        law_headers_cover_keys(front);
        lemma_add_new_keys(keys_in_order(front), keys_of(items.last()));
        assert forall|k: Seq<char>| #[trigger] table_headers(items).contains(k) <==> exists|i: int|
            0 <= i < items.len() && keys_of(items[i]).contains(k) by {
            if exists|i: int| 0 <= i < items.len() && keys_of(items[i]).contains(k) {
                let i = choose|i: int| 0 <= i < items.len() && keys_of(items[i]).contains(k);
                if i < items.len() - 1 {
                    assert(front[i] == items[i]);
                    assert(keys_in_order(front).contains(k));
                }
            }
            if keys_in_order(front).contains(k) {
                let i = choose|i: int| 0 <= i < front.len() && keys_of(front[i]).contains(k);
                assert(front[i] == items[i]);
            }
        }
    } else {
        assert(keys_in_order(items) =~= Seq::<Seq<char>>::empty());
    }
}

} // verus!
