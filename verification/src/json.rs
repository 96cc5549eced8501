//! The JSON values that requests carry and responses return.
//!
//! An object keeps its members ordered by key, without repeats, the way a
//! `serde_json` map built without `preserve_order` iterates them: inserting a
//! key that is present replaces its value in place.
use vstd::prelude::*;
use crate::text::{chars_of, string_from};

verus! {

broadcast use vstd::string::group_string_axioms;

// ---------------------------------------------------------------------------
// The model
// ---------------------------------------------------------------------------

/// A JSON document as a mathematical value. A number is held as its decimal text.
pub enum Json {
    Null,
    Bool(bool),
    Number(Seq<char>),
    Str(Seq<char>),
    Array(Seq<Json>),
    Object(Seq<(Seq<char>, Json)>),
}

/// The members of an object, in order.
pub type Members = Seq<(Seq<char>, Json)>;

/// Code-point order on texts, the order of `String` keys in a `BTreeMap`.
pub open spec fn seq_less(a: Seq<char>, b: Seq<char>) -> bool
    decreases a.len(),
{
    if a.len() == 0 {
        b.len() > 0
    } else if b.len() == 0 {
        false
    } else if a[0] != b[0] {
        a[0] < b[0]
    } else {
        seq_less(a.drop_first(), b.drop_first())
    }
}

/// Keys strictly increase along the members (so none repeats).
pub open spec fn keys_sorted<V>(m: Seq<(Seq<char>, V)>) -> bool {
    forall|i: int, j: int| 0 <= i < j < m.len() ==> seq_less(#[trigger] m[i].0, #[trigger] m[j].0)
}

/// The value of the first member named `key`.
pub open spec fn lookup<V>(m: Seq<(Seq<char>, V)>, key: Seq<char>) -> Option<V>
    decreases m.len(),
{
    if m.len() == 0 {
        None
    } else if m[0].0 == key {
        Some(m[0].1)
    } else {
        lookup(m.drop_first(), key)
    }
}

/// `m` with `key` set to `value`: the member replaced in place where the key is
/// present, else inserted before the first greater key.
pub open spec fn insert_member<V>(m: Seq<(Seq<char>, V)>, key: Seq<char>, value: V) -> Seq<(Seq<char>, V)>
    decreases m.len(),
{
    if m.len() == 0 {
        seq![(key, value)]
    } else if m[0].0 == key {
        seq![(key, value)] + m.drop_first()
    } else if seq_less(key, m[0].0) {
        seq![(key, value)] + m
    } else {
        seq![m[0]] + insert_member(m.drop_first(), key, value)
    }
}

/// `base` with the members of `extra` set one after the other, as
/// `serde_json::Map::extend` does.
pub open spec fn extend_members<V>(base: Seq<(Seq<char>, V)>, extra: Seq<(Seq<char>, V)>) -> Seq<(Seq<char>, V)>
    decreases extra.len(),
{
    if extra.len() == 0 {
        base
    } else {
        extend_members(insert_member(base, extra[0].0, extra[0].1), extra.drop_first())
    }
}

/// `serde_json::Value::get` with a key: the member of an object, nothing for
/// any other value.
pub open spec fn json_get(j: Json, key: Seq<char>) -> Option<Json> {
    match j {
        Json::Object(m) => lookup(m, key),
        _ => None,
    }
}

/// Every object in `j`, at any depth, has its keys in order.
pub open spec fn sorted_deep(j: Json) -> bool
    decreases j,
{
    match j {
        Json::Array(items) => forall|i: int| 0 <= i < items.len() ==> sorted_deep(#[trigger] items[i]),
        Json::Object(m) => keys_sorted(m) && forall|i: int|
            0 <= i < m.len() ==> sorted_deep(#[trigger] m[i].1),
        _ => true,
    }
}

// ---------------------------------------------------------------------------
// Facts about the order and the members
// ---------------------------------------------------------------------------

pub proof fn lemma_less_irreflexive(a: Seq<char>)
    ensures
        !seq_less(a, a),
    decreases a.len(),
{
    if a.len() > 0 {
        lemma_less_irreflexive(a.drop_first());
    }
}

pub proof fn lemma_less_asymmetric(a: Seq<char>, b: Seq<char>)
    requires
        seq_less(a, b),
    ensures
        !seq_less(b, a),
    decreases a.len(),
{
    if a.len() > 0 && b.len() > 0 && a[0] == b[0] {
        lemma_less_asymmetric(a.drop_first(), b.drop_first());
    }
}

pub proof fn lemma_less_transitive(a: Seq<char>, b: Seq<char>, c: Seq<char>)
    requires
        seq_less(a, b),
        seq_less(b, c),
    ensures
        seq_less(a, c),
    decreases a.len(),
{
    if a.len() > 0 && b.len() > 0 && c.len() > 0 && a[0] == b[0] && b[0] == c[0] {
        lemma_less_transitive(a.drop_first(), b.drop_first(), c.drop_first());
    }
}

pub proof fn lemma_less_total(a: Seq<char>, b: Seq<char>)
    requires
        a != b,
    ensures
        seq_less(a, b) || seq_less(b, a),
    decreases a.len(),
{
    if a.len() > 0 && b.len() > 0 && a[0] == b[0] {
        if a.drop_first() == b.drop_first() {
            assert(a =~= seq![a[0]] + a.drop_first());
            assert(b =~= seq![b[0]] + b.drop_first());
        }
        lemma_less_total(a.drop_first(), b.drop_first());
    } else if a.len() == 0 && b.len() == 0 {
        assert(a =~= b);
    }
}

/// After setting `key`, reading it gives the new value and every other key
/// reads as before.
pub proof fn lemma_insert_lookup<V>(m: Seq<(Seq<char>, V)>, key: Seq<char>, value: V, other: Seq<char>)
    ensures
        lookup(insert_member(m, key, value), key) == Some(value),
        other != key ==> lookup(insert_member(m, key, value), other) == lookup(m, other),
    decreases m.len(),
{
    let r = insert_member(m, key, value);
    if other != key && (m.len() == 0 || m[0].0 == key || seq_less(key, m[0].0)) {
        assert(r[0].0 == key);
        assert(lookup(r, other) == lookup(r.drop_first(), other));
    }
    if m.len() == 0 {
        assert(r.drop_first().len() == 0);
    } else if m[0].0 == key {
        assert(r.drop_first() == m.drop_first());
    } else if seq_less(key, m[0].0) {
        assert(r.drop_first() == m);
    } else {
        lemma_insert_lookup(m.drop_first(), key, value, other);
        assert(r.drop_first() == insert_member(m.drop_first(), key, value));
    }
}

/// Setting a key keeps the keys in order.
pub proof fn lemma_insert_sorted<V>(m: Seq<(Seq<char>, V)>, key: Seq<char>, value: V)
    requires
        keys_sorted(m),
    ensures
        keys_sorted(insert_member(m, key, value)),
        forall|i: int|
            0 <= i < insert_member(m, key, value).len() ==> (#[trigger] insert_member(
                m,
                key,
                value,
            )[i].0 == key || exists|j: int| 0 <= j < m.len() && m[j].0 == insert_member(m, key, value)[i].0),
    decreases m.len(),
{
    let r = insert_member(m, key, value);
    if m.len() == 0 {
    } else if m[0].0 == key {
        assert forall|i: int, j: int| 0 <= i < j < r.len() implies seq_less(
            #[trigger] r[i].0,
            #[trigger] r[j].0,
        ) by {
            assert(r[j] == m[j]);
            if i > 0 {
                assert(r[i] == m[i]);
            }
        }
        assert forall|i: int| 0 <= i < r.len() implies (#[trigger] r[i].0 == key || exists|j: int|
            0 <= j < m.len() && m[j].0 == r[i].0) by {
            if i > 0 {
                assert(r[i] == m[i]);
            }
        }
    } else if seq_less(key, m[0].0) {
        assert forall|i: int, j: int| 0 <= i < j < r.len() implies seq_less(
            #[trigger] r[i].0,
            #[trigger] r[j].0,
        ) by {
            assert(r[j] == m[j - 1]);
            if i > 0 {
                assert(r[i] == m[i - 1]);
            } else if j - 1 > 0 {
                assert(seq_less(m[0].0, m[j - 1].0));
                lemma_less_transitive(key, m[0].0, m[j - 1].0);
            }
        }
        assert forall|i: int| 0 <= i < r.len() implies (#[trigger] r[i].0 == key || exists|j: int|
            0 <= j < m.len() && m[j].0 == r[i].0) by {
            if i > 0 {
                assert(r[i] == m[i - 1]);
            }
        }
    } else {
        let t = m.drop_first();
        assert(keys_sorted(t)) by {
            assert forall|i: int, j: int| 0 <= i < j < t.len() implies seq_less(
                #[trigger] t[i].0,
                #[trigger] t[j].0,
            ) by {
                assert(t[i] == m[i + 1] && t[j] == m[j + 1]);
            }
        }
        lemma_insert_sorted(t, key, value);
        let rt = insert_member(t, key, value);
        assert(r == seq![m[0]] + rt);
        lemma_less_total(key, m[0].0);
        assert forall|i: int| 0 <= i < r.len() implies (#[trigger] r[i].0 == key || exists|j: int|
            0 <= j < m.len() && m[j].0 == r[i].0) by {
            if i > 0 {
                assert(r[i] == rt[i - 1]);
                if rt[i - 1].0 != key {
                    let j = choose|j: int| 0 <= j < t.len() && t[j].0 == rt[i - 1].0;
                    assert(m[j + 1] == t[j]);
                }
            } else {
                assert(m[0].0 == r[0].0);
            }
        }
        assert forall|i: int, j: int| 0 <= i < j < r.len() implies seq_less(
            #[trigger] r[i].0,
            #[trigger] r[j].0,
        ) by {
            if i > 0 {
                assert(r[i] == rt[i - 1] && r[j] == rt[j - 1]);
            } else {
                assert(r[j] == rt[j - 1]);
                if rt[j - 1].0 == key {
                } else {
                    let k = choose|k: int| 0 <= k < t.len() && t[k].0 == rt[j - 1].0;
                    assert(m[k + 1] == t[k]);
                    assert(seq_less(m[0].0, m[k + 1].0));
                }
            }
        }
    }
}

/// Setting members one after the other keeps the keys in order.
pub proof fn lemma_extend_sorted<V>(base: Seq<(Seq<char>, V)>, extra: Seq<(Seq<char>, V)>)
    requires
        keys_sorted(base),
    ensures
        keys_sorted(extend_members(base, extra)),
    decreases extra.len(),
{
    if extra.len() > 0 {
        lemma_insert_sorted(base, extra[0].0, extra[0].1);
        lemma_extend_sorted(insert_member(base, extra[0].0, extra[0].1), extra.drop_first());
    }
}

/// The shape `insert_member` has once the insertion point `i` is known.
pub proof fn lemma_insert_at<V>(m: Seq<(Seq<char>, V)>, key: Seq<char>, value: V, i: int)
    requires
        0 <= i <= m.len(),
        forall|j: int| 0 <= j < i ==> seq_less(#[trigger] m[j].0, key),
        i < m.len() ==> !seq_less(m[i].0, key),
    ensures
        insert_member(m, key, value) == (if i < m.len() && m[i].0 == key {
            m.take(i) + seq![(key, value)] + m.skip(i + 1)
        } else {
            m.take(i) + seq![(key, value)] + m.skip(i)
        }),
    decreases i,
{
    if i == 0 {
        if m.len() > 0 && m[0].0 != key {
            lemma_less_total(m[0].0, key);
        }
        assert(m.skip(0) == m);
        if m.len() > 0 {
            assert(m.skip(1) == m.drop_first());
        }
    } else {
        lemma_less_irreflexive(key);
        lemma_less_asymmetric(m[0].0, key);
        let t = m.drop_first();
        assert forall|j: int| 0 <= j < i - 1 implies seq_less(#[trigger] t[j].0, key) by {
            assert(t[j] == m[j + 1]);
        }
        lemma_insert_at(t, key, value, i - 1);
        assert(t.take(i - 1) == m.take(i).drop_first());
        assert(m.take(i) == seq![m[0]] + t.take(i - 1));
        if i < m.len() {
            assert(t.skip(i) == m.skip(i + 1));
        }
        assert(t.skip(i - 1) == m.skip(i));
    }
}

/// `lookup` reads the first member named `key`.
pub proof fn lemma_lookup_at<V>(m: Seq<(Seq<char>, V)>, key: Seq<char>, i: int)
    requires
        0 <= i <= m.len(),
        forall|j: int| 0 <= j < i ==> #[trigger] m[j].0 != key,
        i < m.len() ==> m[i].0 == key,
    ensures
        lookup(m, key) == (if i < m.len() {
            Some(m[i].1)
        } else {
            None
        }),
    decreases i,
{
    if i > 0 {
        let t = m.drop_first();
        assert forall|j: int| 0 <= j < i - 1 implies #[trigger] t[j].0 != key by {
            assert(t[j] == m[j + 1]);
        }
        lemma_lookup_at(t, key, i - 1);
    }
}

// ---------------------------------------------------------------------------
// The executable values
// ---------------------------------------------------------------------------

/// A JSON value. A number holds its decimal text, as `serde_json` displays it.
#[derive(Debug)]
pub enum JsonValue {
    Null,
    Bool(bool),
    Number(String),
    String(String),
    Array(Vec<JsonValue>),
    Object(JsonObject),
}

/// The members of a JSON object, ordered by key, each key once: the object of a
/// `JsonValue`, as `serde_json::Map` (a `BTreeMap` here) holds the object of a
/// `serde_json::Value`. `serde_json::Map` holds only `serde_json::Value`s, an
/// outside type whose contents the logic reads, so the library keeps its own
/// model of both; parsing and printing still go through `serde_json`.
#[derive(Debug)]
pub struct JsonObject {
    entries: Vec<(String, JsonValue)>,
}

impl View for JsonValue {
    type V = Json;

    open spec fn view(&self) -> Json
        decreases self,
    {
        match self {
            JsonValue::Null => Json::Null,
            JsonValue::Bool(b) => Json::Bool(*b),
            JsonValue::Number(t) => Json::Number(t@),
            JsonValue::String(t) => Json::Str(t@),
            JsonValue::Array(items) => Json::Array(
                Seq::new(
                    items@.len(),
                    |i: int|
                        if 0 <= i < items@.len() {
                            items@[i].view()
                        } else {
                            Json::Null
                        },
                ),
            ),
            JsonValue::Object(obj) => Json::Object(obj.view()),
        }
    }
}

impl View for JsonObject {
    type V = Members;

    closed spec fn view(&self) -> Members
        decreases self,
    {
        Seq::new(
            self.entries@.len(),
            |i: int|
                if 0 <= i < self.entries@.len() {
                    (self.entries@[i].0@, self.entries@[i].1.view())
                } else {
                    (Seq::empty(), Json::Null)
                },
        )
    }
}

/// The view of every item of an array.
pub open spec fn items_view(items: Seq<JsonValue>) -> Seq<Json> {
    items.map_values(|v: JsonValue| v@)
}

pub proof fn lemma_array_view(items: Vec<JsonValue>)
    ensures
        JsonValue::Array(items)@ == Json::Array(items_view(items@)),
{
    assert(JsonValue::Array(items)@->Array_0 =~= items_view(items@));
}

/// Compares two keys in code-point order.
pub fn chars_less(a: &Vec<char>, b: &Vec<char>) -> (r: bool)
    ensures
        r == seq_less(a@, b@),
{
    let mut i: usize = 0;
    assert(a@.skip(0) == a@ && b@.skip(0) == b@);
    while i < a.len() && i < b.len() && a[i] == b[i]
        invariant
            i <= a.len(),
            i <= b.len(),
            seq_less(a@, b@) == seq_less(a@.skip(i as int), b@.skip(i as int)),
        decreases a.len() - i,
    {
        assert(a@.skip(i as int).drop_first() == a@.skip(i + 1));
        assert(b@.skip(i as int).drop_first() == b@.skip(i + 1));
        i = i + 1;
    }
    if i == a.len() {
        i < b.len()
    } else if i == b.len() {
        false
    } else {
        a[i] < b[i]
    }
}

impl JsonObject {
    /// The members of every object are ordered by key, each key once.
    #[verifier::type_invariant]
    pub open spec fn well_formed(self) -> bool {
        keys_sorted(self@)
    }

    /// An object without members.
    pub fn new() -> (r: JsonObject)
        ensures
            r@ == Seq::<(Seq<char>, Json)>::empty(),
            keys_sorted(r@),
    {
        let r = JsonObject { entries: Vec::new() };
        assert(r@ =~= Seq::<(Seq<char>, Json)>::empty());
        r
    }

    /// The members that a list of entries stands for.
    pub closed spec fn members_of(ents: Seq<(String, JsonValue)>) -> Members {
        Seq::new(ents.len(), |i: int| (ents[i].0@, ents[i].1@))
    }

    /// An object over `entries` stands for their members.
    proof fn lemma_view_of(entries: Vec<(String, JsonValue)>)
        ensures
            (JsonObject { entries })@ == Self::members_of(entries@),
    {
        assert((JsonObject { entries })@ =~= Self::members_of(entries@));
    }

    /// The number of members.
    pub fn len(&self) -> (n: usize)
        ensures
            n == self@.len(),
    {
        self.entries.len()
    }

    /// Whether the object has no member.
    pub fn is_empty(&self) -> (b: bool)
        ensures
            b == (self@.len() == 0),
    {
        self.entries.len() == 0
    }

    /// The members, in order.
    pub fn entries(&self) -> (r: &Vec<(String, JsonValue)>)
        ensures
            r@.len() == self@.len(),
            forall|i: int| 0 <= i < r@.len() ==> (#[trigger] r@[i].0@, r@[i].1@) == self@[i],
    {
        &self.entries
    }

    /// The members, moved out in order.
    pub fn into_entries(self) -> (r: Vec<(String, JsonValue)>)
        ensures
            r@.len() == self@.len(),
            forall|i: int| 0 <= i < r@.len() ==> (#[trigger] r@[i].0@, r@[i].1@) == self@[i],
    {
        self.entries
    }

    /// The key of member `i`.
    pub fn key_at(&self, i: usize) -> (k: &String)
        requires
            i < self@.len(),
        ensures
            k@ == self@[i as int].0,
    {
        &self.entries[i].0
    }

    /// The value of member `i`.
    pub fn value_at(&self, i: usize) -> (v: &JsonValue)
        requires
            i < self@.len(),
        ensures
            v@ == self@[i as int].1,
    {
        &self.entries[i].1
    }

    /// The value of the member named `key`.
    pub fn get(&self, key: &str) -> (r: Option<&JsonValue>)
        ensures
            r is None <==> lookup(self@, key@) is None,
            r matches Some(v) ==> lookup(self@, key@) == Some(v@),
    {
        let k = string_from(key);
        let mut i: usize = 0;
        while i < self.entries.len()
            invariant
                i <= self.entries@.len(),
                k@ == key@,
                forall|j: int| 0 <= j < i ==> #[trigger] self@[j].0 != key@,
            decreases self.entries@.len() - i,
        {
            if self.entries[i].0 == k {
                proof {
                    lemma_lookup_at(self@, key@, i as int);
                }
                return Some(&self.entries[i].1);
            }
            i = i + 1;
        }
        proof {
            lemma_lookup_at(self@, key@, self@.len() as int);
        }
        None
    }

    /// Sets the member `key` to `value`: replaced in place where present, else
    /// inserted in key order.
    pub fn insert(&mut self, key: String, value: JsonValue)
        ensures
            final(self)@ == insert_member(old(self)@, key@, value@),
            keys_sorted(final(self)@),
    {
        proof {
            use_type_invariant(&*self);
            lemma_insert_sorted(self@, key@, value@);
        }
        let ghost old_view = self@;
        let mut entries: Vec<(String, JsonValue)> = Vec::new();
        std::mem::swap(&mut entries, &mut self.entries);
        let ghost ents = entries@;
        assert(old_view =~= Self::members_of(ents));
        let kc = chars_of(key.as_str());
        let mut i: usize = 0;
        let n = entries.len();
        while i < n
            invariant
                n == entries@.len(),
                i <= n,
                entries@ == ents,
                old_view == Self::members_of(ents),
                kc@ == key@,
                forall|j: int| 0 <= j < i ==> seq_less(#[trigger] old_view[j].0, key@),
            ensures
                i <= n,
                entries@ == ents,
                forall|j: int| 0 <= j < i ==> seq_less(#[trigger] old_view[j].0, key@),
                i < n ==> !seq_less(old_view[i as int].0, key@),
            decreases n - i,
        {
            let ec = chars_of(entries[i].0.as_str());
            if !chars_less(&ec, &kc) {
                break;
            }
            i = i + 1;
        }
        proof {
            lemma_insert_at(old_view, key@, value@, i as int);
        }
        let ghost vv = value@;
        let ghost kv = key@;
        if i < n && entries[i].0 == key {
            entries.remove(i);
            entries.insert(i, (key, value));
            assert(Self::members_of(entries@) =~= old_view.take(i as int) + seq![(kv, vv)] + old_view.skip(i + 1));
        } else {
            entries.insert(i, (key, value));
            assert(Self::members_of(entries@) =~= old_view.take(i as int) + seq![(kv, vv)] + old_view.skip(i as int));
        }
        proof {
            Self::lemma_view_of(entries);
        }
        self.entries = entries;
    }

    /// Sets every member of `extra` in turn (`serde_json::Map::extend`).
    pub fn extend(&mut self, extra: JsonObject)
        ensures
            final(self)@ == extend_members(old(self)@, extra@),
            keys_sorted(final(self)@),
    {
        proof {
            use_type_invariant(&*self);
            lemma_extend_sorted(self@, extra@);
        }
        let ghost ev = extra@;
        let mut rest = extra.entries;
        assert(ev.skip(0) == ev);
        let mut idx: usize = 0;
        let n = rest.len();
        while idx < n
            invariant
                n == rest@.len(),
                idx <= n,
                ev.len() == n,
                forall|j: int| idx <= j < n ==> (#[trigger] rest@[j].0@, rest@[j].1@) == ev[j],
                extend_members(old(self)@, ev) == extend_members(self@, ev.skip(idx as int)),
            decreases n - idx,
        {
            let (k, v) = take_entry(&mut rest, idx);
            assert(ev.skip(idx as int)[0] == (k@, v@));
            assert(ev.skip(idx as int).drop_first() == ev.skip(idx + 1));
            self.insert(k, v);
            idx = idx + 1;
        }
        assert(ev.skip(n as int).len() == 0);
    }
}

/// Moves entry `i` out of `v`, leaving a placeholder in its slot.
fn take_entry(v: &mut Vec<(String, JsonValue)>, i: usize) -> (e: (String, JsonValue))
    requires
        i < old(v)@.len(),
    ensures
        e == old(v)@[i as int],
        final(v)@.len() == old(v)@.len(),
        forall|j: int| 0 <= j < old(v)@.len() && j != i ==> #[trigger] final(v)@[j] == old(v)@[j],
{
    let e = v.remove(i);
    v.insert(i, (String::new(), JsonValue::Null));
    e
}

impl JsonValue {
    /// The member `key` of an object; nothing for any other value
    /// (`serde_json::Value::get`).
    pub fn get(&self, key: &str) -> (r: Option<&JsonValue>)
        ensures
            r is None <==> json_get(self@, key@) is None,
            r matches Some(v) ==> json_get(self@, key@) == Some(v@),
    {
        match self {
            JsonValue::Object(obj) => obj.get(key),
            _ => None,
        }
    }

    /// The boolean a `Bool` holds (`serde_json::Value::as_bool`).
    pub fn as_bool(&self) -> (r: Option<bool>)
        ensures
            r == (match self@ {
                Json::Bool(b) => Some(b),
                _ => None,
            }),
    {
        match self {
            JsonValue::Bool(b) => Some(*b),
            _ => None,
        }
    }

    /// Whether the value is an object (`serde_json::Value::is_object`).
    pub fn is_object(&self) -> (r: bool)
        ensures
            r == (self@ is Object),
    {
        match self {
            JsonValue::Object(_) => true,
            _ => false,
        }
    }
}

// ---------------------------------------------------------------------------
// Reading and writing JSON text through `serde_json`
// ---------------------------------------------------------------------------

#[verifier::external_type_specification]
#[verifier::external_body]
pub struct ExSerdeValue(serde_json::Value);

/// Rebuilds a `serde_json::Value` as a `JsonValue`, node for node: a number
/// becomes its `Display` text, a map's members keep its iteration order.
#[verifier::external_body]
fn from_serde(v: serde_json::Value) -> JsonValue {
    match v {
        serde_json::Value::Null => JsonValue::Null,
        serde_json::Value::Bool(b) => JsonValue::Bool(b),
        serde_json::Value::Number(n) => JsonValue::Number(n.to_string()),
        serde_json::Value::String(s) => JsonValue::String(s),
        serde_json::Value::Array(items) => JsonValue::Array(items.into_iter().map(from_serde).collect()),
        serde_json::Value::Object(map) => JsonValue::Object(
            JsonObject { entries: map.into_iter().map(|(k, v)| (k, from_serde(v))).collect() },
        ),
    }
}

/// Rebuilds a `JsonValue` as a `serde_json::Value`, node for node: a number's
/// text is read back with `serde_json::Number`'s `FromStr`, and a text that it
/// refuses stays a string.
#[verifier::external_body]
fn to_serde(v: &JsonValue) -> serde_json::Value {
    match v {
        JsonValue::Null => serde_json::Value::Null,
        JsonValue::Bool(b) => serde_json::Value::Bool(*b),
        JsonValue::Number(t) => t.parse::<serde_json::Number>().map_or_else(
            |_| serde_json::Value::String(t.clone()),
            serde_json::Value::Number,
        ),
        JsonValue::String(s) => serde_json::Value::String(s.clone()),
        JsonValue::Array(items) => serde_json::Value::Array(items.iter().map(to_serde).collect()),
        JsonValue::Object(o) => serde_json::Value::Object(
            o.entries.iter().map(|(k, v)| (k.clone(), to_serde(v))).collect(),
        ),
    }
}

/// What `serde_json::from_str::<serde_json::Value>` makes of a text: the value,
/// or the text of its error.
pub uninterp spec fn json_parse(text: Seq<char>) -> Result<Json, Seq<char>>;

/// What `serde_json::to_string` writes for a value: compact JSON, or the text of
/// its error.
pub uninterp spec fn json_compact(v: Json) -> Result<Seq<char>, Seq<char>>;

/// What `serde_json::to_string_pretty` writes for a value.
pub uninterp spec fn json_pretty(v: Json) -> Result<Seq<char>, Seq<char>>;

/// What `serde_yaml::to_string` writes for a value.
pub uninterp spec fn yaml_text(v: Json) -> Result<Seq<char>, Seq<char>>;

/// The view of a text result.
pub open spec fn text_result(r: Result<String, String>) -> Result<Seq<char>, Seq<char>> {
    match r {
        Ok(s) => Ok(s@),
        Err(e) => Err(e@),
    }
}

/// The view of a parse result.
pub open spec fn value_result(r: Result<JsonValue, String>) -> Result<Json, Seq<char>> {
    match r {
        Ok(v) => Ok(v@),
        Err(e) => Err(e@),
    }
}

/// Parses JSON text with `serde_json::from_str` into a `serde_json::Value`, then
/// rebuilds it as a `JsonValue`. The result is named by `json_parse`; its
/// objects iterate in key order, since `serde_json::Map` is a `BTreeMap` here.
#[verifier::external_body]
pub fn parse_json(text: &str) -> (r: Result<JsonValue, String>)
    ensures
        value_result(r) == json_parse(text@),
        r matches Ok(v) ==> sorted_deep(v@),
{
    match serde_json::from_str::<serde_json::Value>(text) {
        Ok(v) => Ok(from_serde(v)),
        Err(e) => Err(e.to_string()),
    }
}

/// Writes `v` as compact JSON with `serde_json::to_string`; named by `json_compact`.
#[verifier::external_body]
pub fn compact_json(v: &JsonValue) -> (r: Result<String, String>)
    ensures
        text_result(r) == json_compact(v@),
{
    serde_json::to_string(&to_serde(v)).map_err(|e| e.to_string())
}

/// Writes `v` as indented JSON with `serde_json::to_string_pretty`; named by
/// `json_pretty`.
#[verifier::external_body]
pub fn pretty_json(v: &JsonValue) -> (r: Result<String, String>)
    ensures
        text_result(r) == json_pretty(v@),
{
    serde_json::to_string_pretty(&to_serde(v)).map_err(|e| e.to_string())
}

/// Writes `v` as YAML with `serde_yaml::to_string`; named by `yaml_text`.
#[verifier::external_body]
pub fn yaml_of(v: &JsonValue) -> (r: Result<String, String>)
    ensures
        text_result(r) == yaml_text(v@),
{
    serde_yaml::to_string(&to_serde(v)).map_err(|e| e.to_string())
}

} // verus!
