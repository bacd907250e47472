//! A JSON document model that the verified code can read and build, and the
//! shallow merge of request-level extra fields into a request body.

use vstd::prelude::*;
use crate::text::str_eq;

verus! {

/// A JSON number, kept in the form in which it was read: a non-negative
/// integer, a negative integer, or the decimal text of any other number.
#[derive(Debug, Clone, PartialEq)]
pub enum JsonNumber {
    PosInt(u64),
    NegInt(i64),
    Float(String),
}

/// A JSON value. Object members are kept in order; when a key occurs more
/// than once, the last occurrence is the member's value.
#[derive(Debug)]
pub enum JsonValue {
    Null,
    Bool(bool),
    Number(JsonNumber),
    String(String),
    Array(Vec<JsonValue>),
    Object(Vec<(String, JsonValue)>),
}

/// The value of member `key` among `entries` (the last occurrence wins).
pub open spec fn obj_lookup(entries: Seq<(String, JsonValue)>, key: Seq<char>) -> Option<JsonValue>
    decreases entries.len(),
{
    if entries.len() == 0 {
        None
    } else if entries.last().0@ == key {
        Some(entries.last().1)
    } else {
        obj_lookup(entries.drop_last(), key)
    }
}

/// `v[key]` when `v` is an object holding `key`.
pub open spec fn spec_get(v: JsonValue, key: Seq<char>) -> Option<JsonValue> {
    match v {
        JsonValue::Object(entries) => obj_lookup(entries@, key),
        _ => None,
    }
}

/// The characters of `v` when it is a string.
pub open spec fn spec_as_str(v: JsonValue) -> Option<Seq<char>> {
    match v {
        JsonValue::String(s) => Some(s@),
        _ => None,
    }
}

/// `v[key]` as a string.
pub open spec fn spec_get_str(v: JsonValue, key: Seq<char>) -> Option<Seq<char>> {
    match spec_get(v, key) {
        Some(m) => spec_as_str(m),
        None => None,
    }
}

/// `v[key]` as an unsigned integer.
pub open spec fn spec_get_u64(v: JsonValue, key: Seq<char>) -> Option<u64> {
    match spec_get(v, key) {
        Some(JsonValue::Number(JsonNumber::PosInt(n))) => Some(n),
        _ => None,
    }
}

/// The human-readable message of an API error body: `error.message` when it
/// is a string, else a top-level `message` string.
pub open spec fn spec_extract_error_message(body: JsonValue) -> Option<Seq<char>> {
    let nested = match spec_get(body, "error"@) {
        Some(e) => spec_get_str(e, "message"@),
        None => None,
    };
    match nested {
        Some(m) => Some(m),
        None => spec_get_str(body, "message"@),
    }
}

/// `entries` without the members named `key`.
pub open spec fn without_key(entries: Seq<(String, JsonValue)>, key: Seq<char>) -> Seq<
    (String, JsonValue),
>
    decreases entries.len(),
{
    if entries.len() == 0 {
        entries
    } else if entries.last().0@ == key {
        without_key(entries.drop_last(), key)
    } else {
        without_key(entries.drop_last(), key).push(entries.last())
    }
}

/// `entries` with member `key` set to `value`: any earlier member of that name
/// is dropped and the new member is appended.
pub open spec fn obj_insert(entries: Seq<(String, JsonValue)>, key: String, value: JsonValue) -> Seq<
    (String, JsonValue),
> {
    without_key(entries, key@).push((key, value))
}

/// `base` with every member of `extra` inserted in turn.
pub open spec fn obj_insert_all(base: Seq<(String, JsonValue)>, extra: Seq<(String, JsonValue)>) -> Seq<
    (String, JsonValue),
>
    decreases extra.len(),
{
    if extra.len() == 0 {
        base
    } else {
        let prev = obj_insert_all(base, extra.drop_last());
        obj_insert(prev, extra.last().0, extra.last().1)
    }
}

/// Whether `merged` is the request body after merging request-level extra
/// fields into `body`: two objects merge member by member with `extra`
/// winning; otherwise `extra` replaces the body.
pub open spec fn is_merged_body(body: JsonValue, extra: Option<JsonValue>, merged: JsonValue) -> bool {
    match extra {
        None => merged == body,
        Some(e) => match (body, e) {
            (JsonValue::Object(b), JsonValue::Object(x)) => merged matches JsonValue::Object(m)
                && m@ == obj_insert_all(b@, x@),
            (_, x) => merged == x,
        },
    }
}

proof fn lemma_lookup_without_key(entries: Seq<(String, JsonValue)>, key: Seq<char>, k: Seq<char>)
    ensures
        obj_lookup(without_key(entries, key), k) == if k == key {
            None
        } else {
            obj_lookup(entries, k)
        },
    decreases entries.len(),
{
    if entries.len() > 0 {
        lemma_lookup_without_key(entries.drop_last(), key, k);
        if entries.last().0@ != key {
            let w = without_key(entries.drop_last(), key);
            assert(w.push(entries.last()).drop_last() =~= w);
        }
    }
}

/// Inserting a member makes it the member's value and leaves the other members.
pub proof fn lemma_lookup_insert(entries: Seq<(String, JsonValue)>, key: String, value: JsonValue, k: Seq<char>)
    ensures
        obj_lookup(obj_insert(entries, key, value), k) == if k == key@ {
            Some(value)
        } else {
            obj_lookup(entries, k)
        },
{
    lemma_lookup_without_key(entries, key@, k);
    let w = without_key(entries, key@);
    assert(w.push((key, value)).drop_last() =~= w);
}

/// Merging objects: every member of `extra` wins, the other members of
/// `base` stay.
pub proof fn lemma_lookup_insert_all(base: Seq<(String, JsonValue)>, extra: Seq<(String, JsonValue)>, k: Seq<char>)
    ensures
        obj_lookup(obj_insert_all(base, extra), k) == match obj_lookup(extra, k) {
            Some(v) => Some(v),
            None => obj_lookup(base, k),
        },
    decreases extra.len(),
{
    if extra.len() > 0 {
        lemma_lookup_insert_all(base, extra.drop_last(), k);
        lemma_lookup_insert(obj_insert_all(base, extra.drop_last()), extra.last().0, extra.last().1, k);
    }
}

/// The member `key` of `v`, when `v` is an object that has it.
pub fn json_get<'a>(v: &'a JsonValue, key: &str) -> (r: Option<&'a JsonValue>)
    ensures
        r matches Some(x) ==> spec_get(*v, key@) == Some(*x),
        r is None ==> spec_get(*v, key@) is None,
{
    match v {
        JsonValue::Object(entries) => {
            let mut i = entries.len();
            assert(entries@.take(i as int) =~= entries@);
            while i > 0
                invariant
                    i <= entries@.len(),
                    spec_get(*v, key@) == obj_lookup(entries@, key@),
                    obj_lookup(entries@, key@) == obj_lookup(entries@.take(i as int), key@),
                decreases i,
            {
                assert(entries@.take(i as int).drop_last() =~= entries@.take(i - 1));
                assert(entries@.take(i as int).last() == entries@[i - 1]);
                if str_eq(entries[i - 1].0.as_str(), key) {
                    assert(entries@[i - 1].0@ == key@);
                    assert(obj_lookup(entries@.take(i as int), key@) == Some(entries@[i - 1].1));
                    assert(spec_get(*v, key@) == Some(entries@[i - 1].1));
                    let found = &entries[i - 1].1;
                    assert(*found == entries@[i - 1].1);
                    return Some(found);
                }
                i = i - 1;
            }
            None
        },
        _ => None,
    }
}

/// The characters of `v` when it is a string.
pub fn json_as_str(v: &JsonValue) -> (r: Option<&str>)
    ensures
        r matches Some(s) ==> spec_as_str(*v) == Some(s@),
        r is None ==> spec_as_str(*v) is None,
{
    match v {
        JsonValue::String(s) => Some(s.as_str()),
        _ => None,
    }
}

/// `v[key]` as a string.
pub fn json_get_str<'a>(v: &'a JsonValue, key: &str) -> (r: Option<&'a str>)
    ensures
        r matches Some(s) ==> spec_get_str(*v, key@) == Some(s@),
        r is None ==> spec_get_str(*v, key@) is None,
{
    match json_get(v, key) {
        Some(m) => json_as_str(m),
        None => None,
    }
}

/// `v[key]` as an unsigned integer.
pub fn json_get_u64(v: &JsonValue, key: &str) -> (r: Option<u64>)
    ensures
        r == spec_get_u64(*v, key@),
{
    match json_get(v, key) {
        Some(JsonValue::Number(JsonNumber::PosInt(n))) => Some(*n),
        _ => None,
    }
}

/// Extracts the human-readable message of an API error body: `error.message`
/// (the OpenAI error format) or else a top-level `message`.
pub fn extract_error_message(body: &JsonValue) -> (r: Option<String>)
    ensures
        r matches Some(m) ==> spec_extract_error_message(*body) == Some(m@),
        r is None ==> spec_extract_error_message(*body) is None,
{
    let nested = match json_get(body, "error") {
        Some(e) => json_get_str(e, "message"),
        None => None,
    };
    match nested {
        Some(m) => Some(m.to_string()),
        None => match json_get_str(body, "message") {
            Some(m) => Some(m.to_string()),
            None => None,
        },
    }
}

fn remove_key(entries: Vec<(String, JsonValue)>, key: &str) -> (r: Vec<(String, JsonValue)>)
    ensures
        r@ == without_key(entries@, key@),
{
    let ghost orig = entries@;
    let mut rest = entries;
    let mut out: Vec<(String, JsonValue)> = Vec::new();
    while rest.len() > 0
        invariant
            orig == orig.take(orig.len() - rest@.len()) + rest@,
            rest@.len() <= orig.len(),
            out@ == without_key(orig.take(orig.len() - rest@.len()), key@),
        decreases rest@.len(),
    {
        let ghost done = orig.len() - rest@.len();
        let item = rest.remove(0);
        proof {
            assert(orig.take(done + 1).drop_last() =~= orig.take(done));
            assert(orig[done] == item);
            assert(orig.take(done + 1).last() == item);
        }
        if !str_eq(item.0.as_str(), key) {
            out.push(item);
        }
        proof {
            assert(orig =~= orig.take(orig.len() - rest@.len()) + rest@);
        }
    }
    assert(orig.take(orig.len() as int) =~= orig);
    out
}

/// Sets member `key` of an object's members to `value`.
pub fn object_insert(entries: Vec<(String, JsonValue)>, key: String, value: JsonValue) -> (r: Vec<
    (String, JsonValue),
>)
    ensures
        r@ == obj_insert(entries@, key, value),
{
    let mut out = remove_key(entries, key.as_str());
    out.push((key, value));
    out
}

/// Merges request-level extra fields into a JSON request body. When both are
/// objects their members are merged with `extra` winning; otherwise `extra`
/// replaces the body; with no `extra` the body is unchanged.
pub fn merge_extra_body(body: JsonValue, extra_body: Option<JsonValue>) -> (merged: JsonValue)
    ensures
        is_merged_body(body, extra_body, merged),
{
    match extra_body {
        None => body,
        Some(extra) => match (body, extra) {
            (JsonValue::Object(b), JsonValue::Object(x)) => {
                let ghost xs = x@;
                let ghost bs = b@;
                let mut acc = b;
                let mut rest = x;
                while rest.len() > 0
                    invariant
                        xs == xs.take(xs.len() - rest@.len()) + rest@,
                        rest@.len() <= xs.len(),
                        acc@ == obj_insert_all(bs, xs.take(xs.len() - rest@.len())),
                    decreases rest@.len(),
                {
                    let ghost done = xs.len() - rest@.len();
                    let (k, v) = rest.remove(0);
                    proof {
                        assert(xs.take(done + 1).drop_last() =~= xs.take(done));
                        assert(xs[done] == (k, v));
                    }
                    acc = object_insert(acc, k, v);
                    proof {
                        assert(xs =~= xs.take(xs.len() - rest@.len()) + rest@);
                    }
                }
                assert(xs.take(xs.len() as int) =~= xs);
                JsonValue::Object(acc)
            },
            (_, x) => x,
        },
    }
}

} // verus!

verus! {

/// The abstract value of a JSON number.
pub enum NumberView {
    PosInt(u64),
    NegInt(i64),
    Float(Seq<char>),
}

/// The abstract value of a JSON document: strings as character sequences,
/// object members in order.
pub enum JsonView {
    Null,
    Bool(bool),
    Number(NumberView),
    String(Seq<char>),
    Array(Seq<JsonView>),
    Object(Seq<(Seq<char>, JsonView)>),
}

/// The abstract value of a number.
pub open spec fn number_view(n: JsonNumber) -> NumberView {
    match n {
        JsonNumber::PosInt(u) => NumberView::PosInt(u),
        JsonNumber::NegInt(i) => NumberView::NegInt(i),
        JsonNumber::Float(t) => NumberView::Float(t@),
    }
}

/// The abstract value of a JSON document.
pub open spec fn jview(v: JsonValue) -> JsonView
    decreases v,
{
    match v {
        JsonValue::Null => JsonView::Null,
        JsonValue::Bool(b) => JsonView::Bool(b),
        JsonValue::Number(n) => JsonView::Number(number_view(n)),
        JsonValue::String(s) => JsonView::String(s@),
        JsonValue::Array(items) => JsonView::Array(
            Seq::new(items@.len(), |i: int| if 0 <= i < items@.len() { jview(items[i]) } else { JsonView::Null }),
        ),
        JsonValue::Object(members) => JsonView::Object(
            Seq::new(members@.len(), |i: int| if 0 <= i < members@.len() { (members[i].0@, jview(members[i].1)) } else { (Seq::empty(), JsonView::Null) }),
        ),
    }
}

/// The abstract values of a sequence of JSON values.
pub open spec fn items_view(xs: Seq<JsonValue>) -> Seq<JsonView> {
    Seq::new(xs.len(), |i: int| jview(xs[i]))
}

/// The abstract members of an object.
pub open spec fn members_view(ms: Seq<(String, JsonValue)>) -> Seq<(Seq<char>, JsonView)> {
    Seq::new(ms.len(), |i: int| (ms[i].0@, jview(ms[i].1)))
}

/// Appending an item appends its abstract value.
pub proof fn lemma_items_view_push(xs: Seq<JsonValue>, x: JsonValue)
    ensures
        items_view(xs.push(x)) == items_view(xs).push(jview(x)),
{
    assert forall|j: int| 0 <= j < xs.len() + 1 implies #[trigger] items_view(xs.push(x))[j]
        == items_view(xs).push(jview(x))[j] by {
        if j < xs.len() {
            assert(xs.push(x)[j] == xs[j]);
        }
    }
    assert(items_view(xs.push(x)) =~= items_view(xs).push(jview(x)));
}

/// Appending a member appends its abstract value.
pub proof fn lemma_members_view_push(ms: Seq<(String, JsonValue)>, m: (String, JsonValue))
    ensures
        members_view(ms.push(m)) == members_view(ms).push((m.0@, jview(m.1))),
{
    assert forall|j: int| 0 <= j < ms.len() + 1 implies #[trigger] members_view(ms.push(m))[j]
        == members_view(ms).push((m.0@, jview(m.1)))[j] by {
        if j < ms.len() {
            assert(ms.push(m)[j] == ms[j]);
        }
    }
    assert(members_view(ms.push(m)) =~= members_view(ms).push((m.0@, jview(m.1))));
}

/// An array's abstract value is made of its items' abstract values.
pub proof fn lemma_jview_array(items: Vec<JsonValue>)
    ensures
        jview(JsonValue::Array(items)) == JsonView::Array(items_view(items@)),
{
    let j = jview(JsonValue::Array(items));
    let t = j->Array_0;
    assert(t =~= items_view(items@));
}

/// An object's abstract value is made of its members' abstract values.
pub proof fn lemma_jview_object(members: Vec<(String, JsonValue)>)
    ensures
        jview(JsonValue::Object(members)) == JsonView::Object(members_view(members@)),
{
    let j = jview(JsonValue::Object(members));
    let t = j->Object_0;
    assert(t =~= members_view(members@));
}

/// A JSON string holding a copy of `s`.
pub fn json_string(s: &str) -> (r: JsonValue)
    ensures
        jview(r) == JsonView::String(s@),
{
    JsonValue::String(s.to_string())
}

/// A JSON array of the strings in `xs`.
pub fn json_string_array(xs: &Vec<String>) -> (r: JsonValue)
    ensures
        jview(r) == JsonView::Array(Seq::new(xs@.len(), |i: int| JsonView::String(xs@[i]@))),
{
    let mut items: Vec<JsonValue> = Vec::new();
    let mut i: usize = 0;
    while i < xs.len()
        invariant
            i <= xs@.len(),
            items_view(items@) =~= Seq::new(i as nat, |j: int| JsonView::String(xs@[j]@)),
        decreases xs@.len() - i,
    {
        let item = json_string(xs[i].as_str());
        let ghost before = items@;
        items.push(item);
        proof {
            lemma_items_view_push(before, item);
            assert(items_view(items@) =~= Seq::new((i + 1) as nat, |j: int| JsonView::String(xs@[j]@)));
        }
        i = i + 1;
    }
    proof {
        lemma_jview_array(items);
    }
    JsonValue::Array(items)
}

/// Appends the member `key: value` to an object's members.
pub fn push_member(members: &mut Vec<(String, JsonValue)>, key: &str, value: JsonValue)
    ensures
        members_view(final(members)@) == members_view(old(members)@).push((key@, jview(value))),
{
    let k = key.to_string();
    let ghost before = members@;
    members.push((k, value));
    proof {
        lemma_members_view_push(before, (k, value));
    }
}

/// A deep copy of a JSON value.
pub fn json_clone(v: &JsonValue) -> (r: JsonValue)
    ensures
        jview(r) == jview(*v),
    decreases v,
{
    match v {
        JsonValue::Null => JsonValue::Null,
        JsonValue::Bool(b) => JsonValue::Bool(*b),
        JsonValue::Number(n) => JsonValue::Number(match n {
            JsonNumber::PosInt(u) => JsonNumber::PosInt(*u),
            JsonNumber::NegInt(i) => JsonNumber::NegInt(*i),
            JsonNumber::Float(t) => JsonNumber::Float(t.clone()),
        }),
        JsonValue::String(s) => JsonValue::String(s.clone()),
        JsonValue::Array(items) => {
            let mut out: Vec<JsonValue> = Vec::new();
            let mut i: usize = 0;
            while i < items.len()
                invariant
                    i <= items@.len(),
                    *v == JsonValue::Array(*items),
                    items_view(out@) =~= items_view(items@).take(i as int),
                decreases items@.len() - i,
            {
                proof {
                    let ghost arr = JsonValue::Array(*items);
                    assert(decreases_to!(arr => arr->Array_0));
                    vstd::std_specs::vec::axiom_vec_index_decreases(*items, i as int);
                }
                let c = json_clone(&items[i]);
                let ghost before = out@;
                out.push(c);
                proof {
                    lemma_items_view_push(before, c);
                    assert(items_view(out@) =~= items_view(items@).take(i + 1));
                }
                i = i + 1;
            }
            proof {
                lemma_jview_array(out);
                lemma_jview_array(*items);
                assert(items_view(items@).take(items@.len() as int) =~= items_view(items@));
            }
            JsonValue::Array(out)
        },
        JsonValue::Object(members) => {
            let mut out: Vec<(String, JsonValue)> = Vec::new();
            let mut i: usize = 0;
            while i < members.len()
                invariant
                    i <= members@.len(),
                    *v == JsonValue::Object(*members),
                    members_view(out@) =~= members_view(members@).take(i as int),
                decreases members@.len() - i,
            {
                proof {
                    let ghost obj = JsonValue::Object(*members);
                    assert(decreases_to!(obj => obj->Object_0));
                    vstd::std_specs::vec::axiom_vec_index_decreases(*members, i as int);
                    assert(decreases_to!(members[i as int] => members[i as int].1));
                }
                let c = json_clone(&members[i].1);
                let k = members[i].0.clone();
                let ghost before = out@;
                out.push((k, c));
                proof {
                    lemma_members_view_push(before, (k, c));
                    assert(members_view(out@) =~= members_view(members@).take(i + 1));
                }
                i = i + 1;
            }
            proof {
                lemma_jview_object(out);
                lemma_jview_object(*members);
                assert(members_view(members@).take(members@.len() as int) =~= members_view(members@));
            }
            JsonValue::Object(out)
        },
    }
}

/// Abstract members without those named `k`.
pub open spec fn view_without(ms: Seq<(Seq<char>, JsonView)>, k: Seq<char>) -> Seq<(Seq<char>, JsonView)>
    decreases ms.len(),
{
    if ms.len() == 0 {
        ms
    } else if ms.last().0 == k {
        view_without(ms.drop_last(), k)
    } else {
        view_without(ms.drop_last(), k).push(ms.last())
    }
}

/// Abstract members with member `k` set to `v`: an earlier member of that
/// name is dropped and the new one appended.
pub open spec fn view_insert(ms: Seq<(Seq<char>, JsonView)>, k: Seq<char>, v: JsonView) -> Seq<
    (Seq<char>, JsonView),
> {
    view_without(ms, k).push((k, v))
}

/// Abstract members with every member of `extra` set in turn.
pub open spec fn view_insert_all(ms: Seq<(Seq<char>, JsonView)>, extra: Seq<(Seq<char>, JsonView)>) -> Seq<
    (Seq<char>, JsonView),
>
    decreases extra.len(),
{
    if extra.len() == 0 {
        ms
    } else {
        view_insert(view_insert_all(ms, extra.drop_last()), extra.last().0, extra.last().1)
    }
}

proof fn lemma_members_view_without(es: Seq<(String, JsonValue)>, k: Seq<char>)
    ensures
        members_view(without_key(es, k)) == view_without(members_view(es), k),
    decreases es.len(),
{
    if es.len() > 0 {
        lemma_members_view_without(es.drop_last(), k);
        assert(members_view(es).drop_last() =~= members_view(es.drop_last()));
        if es.last().0@ != k {
            lemma_members_view_push(without_key(es.drop_last(), k), es.last());
        }
    }
}

/// Setting member `key` of objects commutes with their abstract values.
pub proof fn lemma_members_view_insert(es: Seq<(String, JsonValue)>, key: String, value: JsonValue)
    ensures
        members_view(obj_insert(es, key, value)) == view_insert(members_view(es), key@, jview(value)),
{
    lemma_members_view_without(es, key@);
    lemma_members_view_push(without_key(es, key@), (key, value));
}

/// Sets every member of `extra`, in order, on the members `base` (a member
/// of `extra` replaces one of the same name).
pub fn insert_members(base: Vec<(String, JsonValue)>, extra: &Vec<(String, JsonValue)>) -> (r: Vec<
    (String, JsonValue),
>)
    ensures
        members_view(r@) == view_insert_all(members_view(base@), members_view(extra@)),
{
    let ghost b = members_view(base@);
    let mut acc = base;
    let mut i: usize = 0;
    assert(members_view(extra@).take(0) =~= Seq::<(Seq<char>, JsonView)>::empty());
    while i < extra.len()
        invariant
            i <= extra@.len(),
            members_view(acc@) == view_insert_all(b, members_view(extra@).take(i as int)),
        decreases extra@.len() - i,
    {
        let k = extra[i].0.clone();
        let v = json_clone(&extra[i].1);
        let ghost before = acc@;
        acc = object_insert(acc, k, v);
        proof {
            lemma_members_view_insert(before, k, v);
            let xs = members_view(extra@);
            assert(xs.take(i + 1).drop_last() =~= xs.take(i as int));
            assert(xs.take(i + 1).last() == (k@, jview(v)));
        }
        i = i + 1;
    }
    assert(members_view(extra@).take(extra@.len() as int) =~= members_view(extra@));
    acc
}

/// Extra body fields override the request body: when both are objects, a
/// field given in `extra` takes `extra`'s value and every other field keeps
/// the body's.
pub proof fn law_extra_body_overrides(body: JsonValue, extra: JsonValue, merged: JsonValue, k: Seq<char>)
    requires
        body is Object,
        extra is Object,
        is_merged_body(body, Some(extra), merged),
    ensures
        spec_get(merged, k) == match spec_get(extra, k) {
            Some(v) => Some(v),
            None => spec_get(body, k),
        },
{
    let b = body->Object_0;
    let x = extra->Object_0;
    lemma_lookup_insert_all(b@, x@, k);
}

} // verus!
