//! A JSON document model that the client's logic reads and builds.
//!
//! `Json` mirrors the shape of a parsed JSON document (as `serde_json::Value`
//! holds it); `JsonView` is its mathematical model, with strings as character
//! sequences. Objects keep their members in a sequence; lookups find the first
//! member with the key and updates replace that member, so a document whose keys
//! are unique keeps them unique.
use vstd::prelude::*;
use crate::text::{decimal, signed_decimal};

verus! {

/// A JSON number: a non-negative integer, a negative integer, or another number
/// kept in its printed form.
pub enum JsonNumber {
    UInt(u64),
    Int(i64),
    Float(String),
}

/// A JSON value.
pub enum Json {
    Null,
    Bool(bool),
    Number(JsonNumber),
    Str(String),
    Array(Vec<Json>),
    Object(Vec<(String, Json)>),
}

/// Model of a JSON number.
#[verifier::ext_equal]
pub enum NumberView {
    UInt(u64),
    Int(i64),
    Float(Seq<char>),
}

/// Model of a JSON value.
#[verifier::ext_equal]
pub enum JsonView {
    Null,
    Bool(bool),
    Number(NumberView),
    Str(Seq<char>),
    Array(Seq<JsonView>),
    Object(Seq<(Seq<char>, JsonView)>),
}

impl JsonNumber {
    pub open spec fn view(&self) -> NumberView {
        match self {
            JsonNumber::UInt(u) => NumberView::UInt(*u),
            JsonNumber::Int(i) => NumberView::Int(*i),
            JsonNumber::Float(s) => NumberView::Float(s@),
        }
    }
}

impl Json {
    pub open spec fn view(&self) -> JsonView
        decreases self,
    {
        match self {
            Json::Null => JsonView::Null,
            Json::Bool(b) => JsonView::Bool(*b),
            Json::Number(n) => JsonView::Number(n.view()),
            Json::Str(s) => JsonView::Str(s@),
            Json::Array(items) => JsonView::Array(items_view(items@)),
            Json::Object(fields) => JsonView::Object(fields_view(fields@)),
        }
    }
}

/// Models of a sequence of JSON values.
pub open spec fn items_view(items: Seq<Json>) -> Seq<JsonView>
    decreases items,
{
    if items.len() == 0 {
        seq![]
    } else {
        items_view(items.subrange(0, items.len() - 1)).push(items[items.len() - 1].view())
    }
}

/// Models of a sequence of object members.
pub open spec fn fields_view(fields: Seq<(String, Json)>) -> Seq<(Seq<char>, JsonView)>
    decreases fields,
{
    if fields.len() == 0 {
        seq![]
    } else {
        fields_view(fields.subrange(0, fields.len() - 1)).push(
            (fields[fields.len() - 1].0@, fields[fields.len() - 1].1.view()),
        )
    }
}

proof fn lemma_items_view_index(items: Seq<Json>, i: int)
    requires
        0 <= i < items.len(),
    ensures
        items_view(items).len() == items.len(),
        items_view(items)[i] == items[i].view(),
    decreases items.len(),
{
    lemma_items_view_len(items);
    if i < items.len() - 1 {
        lemma_items_view_index(items.subrange(0, items.len() - 1), i);
    }
}

/// The model of a sequence of values has its length.
pub broadcast proof fn lemma_items_view_len(items: Seq<Json>)
    ensures
        #[trigger] items_view(items).len() == items.len(),
    decreases items.len(),
{
    if items.len() > 0 {
        lemma_items_view_len(items.subrange(0, items.len() - 1));
    }
}

/// The model of a sequence of values holds the model of each value.
pub broadcast proof fn lemma_items_view_at(items: Seq<Json>, i: int)
    requires
        0 <= i < items.len(),
    ensures
        #[trigger] items_view(items)[i] == items[i].view(),
{
    lemma_items_view_index(items, i);
}

proof fn lemma_fields_view_index(fields: Seq<(String, Json)>, i: int)
    requires
        0 <= i < fields.len(),
    ensures
        fields_view(fields).len() == fields.len(),
        fields_view(fields)[i] == (fields[i].0@, fields[i].1.view()),
    decreases fields.len(),
{
    lemma_fields_view_len(fields);
    if i < fields.len() - 1 {
        lemma_fields_view_index(fields.subrange(0, fields.len() - 1), i);
    }
}

/// The model of a sequence of members has its length.
pub broadcast proof fn lemma_fields_view_len(fields: Seq<(String, Json)>)
    ensures
        #[trigger] fields_view(fields).len() == fields.len(),
    decreases fields.len(),
{
    if fields.len() > 0 {
        lemma_fields_view_len(fields.subrange(0, fields.len() - 1));
    }
}

/// The model of a sequence of members holds each member's name and model.
pub broadcast proof fn lemma_fields_view_at(fields: Seq<(String, Json)>, i: int)
    requires
        0 <= i < fields.len(),
    ensures
        #[trigger] fields_view(fields)[i] == (fields[i].0@, fields[i].1.view()),
{
    lemma_fields_view_index(fields, i);
}

/// The facts that relate values to their models.
pub broadcast group group_json_view {
    lemma_items_view_len,
    lemma_items_view_at,
    lemma_fields_view_len,
    lemma_fields_view_at,
}

// ---------------------------------------------------------------------------
// Model-level operations
// ---------------------------------------------------------------------------

/// Position of the first member named `key` at or after `i`, or `fields.len()`.
pub open spec fn key_pos_from(fields: Seq<(Seq<char>, JsonView)>, key: Seq<char>, i: int) -> int
    decreases fields.len() - i,
{
    if i < 0 || i >= fields.len() {
        fields.len() as int
    } else if fields[i].0 == key {
        i
    } else {
        key_pos_from(fields, key, i + 1)
    }
}

/// Position of the first member named `key`, or `fields.len()`.
pub open spec fn key_pos(fields: Seq<(Seq<char>, JsonView)>, key: Seq<char>) -> int {
    key_pos_from(fields, key, 0)
}

/// The value of the first member named `key`.
pub open spec fn fields_get(fields: Seq<(Seq<char>, JsonView)>, key: Seq<char>) -> Option<
    JsonView,
> {
    let p = key_pos(fields, key);
    if 0 <= p < fields.len() {
        Some(fields[p].1)
    } else {
        None
    }
}

/// The members after setting `key` to `v`: the first member named `key` gets the new
/// value, or a new member is appended.
pub open spec fn fields_set(fields: Seq<(Seq<char>, JsonView)>, key: Seq<char>, v: JsonView) -> Seq<
    (Seq<char>, JsonView),
> {
    let p = key_pos(fields, key);
    if 0 <= p < fields.len() {
        fields.update(p, (key, v))
    } else {
        fields.push((key, v))
    }
}

/// `value.get(key)`: the member of an object; `None` for anything else.
pub open spec fn get_spec(j: JsonView, key: Seq<char>) -> Option<JsonView> {
    match j {
        JsonView::Object(fields) => fields_get(fields, key),
        _ => None,
    }
}

/// Follows a path of object keys (a JSON pointer whose tokens are not array indices).
pub open spec fn lookup_spec(j: JsonView, path: Seq<Seq<char>>) -> Option<JsonView>
    decreases path.len(),
{
    if path.len() == 0 {
        Some(j)
    } else {
        match get_spec(j, path[0]) {
            Some(c) => lookup_spec(c, path.drop_first()),
            None => None,
        }
    }
}

/// `value[key] = v`: an object member is set; `null` first becomes an empty object.
pub open spec fn set_spec(j: JsonView, key: Seq<char>, v: JsonView) -> JsonView {
    match j {
        JsonView::Object(fields) => JsonView::Object(fields_set(fields, key, v)),
        JsonView::Null => JsonView::Object(seq![(key, v)]),
        _ => j,
    }
}

/// A value that `value[key] = v` accepts (anything else makes it panic).
pub open spec fn is_settable(j: JsonView) -> bool {
    j is Object || j is Null
}

/// `value.as_str()`.
pub open spec fn as_str_spec(j: Option<JsonView>) -> Option<Seq<char>> {
    match j {
        Some(JsonView::Str(s)) => Some(s),
        _ => None,
    }
}

/// `value.as_u64()`.
pub open spec fn as_u64_spec(j: Option<JsonView>) -> Option<u64> {
    match j {
        Some(JsonView::Number(NumberView::UInt(u))) => Some(u),
        Some(JsonView::Number(NumberView::Int(i))) => if i >= 0 {
            Some(i as u64)
        } else {
            None
        },
        _ => None,
    }
}

/// `value.as_bool()`.
pub open spec fn as_bool_spec(j: Option<JsonView>) -> Option<bool> {
    match j {
        Some(JsonView::Bool(b)) => Some(b),
        _ => None,
    }
}

/// `value.as_array()`.
pub open spec fn as_array_spec(j: Option<JsonView>) -> Option<Seq<JsonView>> {
    match j {
        Some(JsonView::Array(a)) => Some(a),
        _ => None,
    }
}

/// The printed form of a number (`Number::to_string`).
pub open spec fn number_text(n: NumberView) -> Seq<char> {
    match n {
        NumberView::UInt(u) => decimal(u as nat),
        NumberView::Int(i) => signed_decimal(i as int),
        NumberView::Float(s) => s,
    }
}

/// Model of an optional borrowed value.
pub open spec fn opt_view(o: Option<&Json>) -> Option<JsonView> {
    match o {
        Some(j) => Some(j@),
        None => None,
    }
}

/// Model of an optional borrowed string.
pub open spec fn opt_str_view(o: Option<&str>) -> Option<Seq<char>> {
    match o {
        Some(s) => Some(s@),
        None => None,
    }
}

/// Model of an optional owned string.
pub open spec fn opt_string_view(o: Option<String>) -> Option<Seq<char>> {
    match o {
        Some(s) => Some(s@),
        None => None,
    }
}

/// The first member named `key` at or after `i` lies between `i` and the end, and no
/// member before it has that name.
pub proof fn lemma_key_pos_bounds(fields: Seq<(Seq<char>, JsonView)>, key: Seq<char>, i: int)
    requires
        0 <= i <= fields.len(),
    ensures
        i <= key_pos_from(fields, key, i) <= fields.len(),
        key_pos_from(fields, key, i) < fields.len() ==> fields[key_pos_from(fields, key, i)].0
            == key,
        forall|j: int| i <= j < key_pos_from(fields, key, i) ==> fields[j].0 != key,
    decreases fields.len() - i,
{
    if i < fields.len() && fields[i].0 != key {
        lemma_key_pos_bounds(fields, key, i + 1);
    }
}

// ---------------------------------------------------------------------------
// Laws of member access
// ---------------------------------------------------------------------------

/// The first member named `key` at or after `i` is at `m` when no member in between
/// has that name and `m` does (or `m` is the end).
pub proof fn lemma_key_pos_is(fields: Seq<(Seq<char>, JsonView)>, key: Seq<char>, i: int, m: int)
    requires
        0 <= i <= m <= fields.len(),
        forall|j: int| i <= j < m ==> fields[j].0 != key,
        m < fields.len() ==> fields[m].0 == key,
    ensures
        key_pos_from(fields, key, i) == m,
    decreases m - i,
{
    if i < m {
        lemma_key_pos_is(fields, key, i + 1, m);
    }
}

/// Reading a member just written gives the written value.
pub proof fn law_get_after_set(j: JsonView, key: Seq<char>, v: JsonView)
    requires
        is_settable(j),
    ensures
        get_spec(set_spec(j, key, v), key) == Some(v),
{
    let f = match j {
        JsonView::Object(f) => f,
        _ => seq![],
    };
    let p = key_pos(f, key);
    lemma_key_pos_bounds(f, key, 0);
    let g = fields_set(f, key, v);
    assert forall|x: int| 0 <= x < p implies g[x].0 != key by {}
    lemma_key_pos_is(g, key, 0, p);
}

/// Writing a member leaves every other member as it was.
pub proof fn law_set_keeps_other_members(j: JsonView, key: Seq<char>, other: Seq<char>, v: JsonView)
    requires
        is_settable(j),
        other != key,
    ensures
        get_spec(set_spec(j, key, v), other) == get_spec(j, other),
{
    let f = match j {
        JsonView::Object(f) => f,
        _ => seq![],
    };
    let g = fields_set(f, key, v);
    lemma_key_pos_bounds(f, key, 0);
    lemma_key_pos_bounds(f, other, 0);
    let q = key_pos(f, other);
    if q < f.len() {
        assert forall|x: int| 0 <= x < q implies g[x].0 != other by {}
        lemma_key_pos_is(g, other, 0, q);
    } else {
        assert forall|x: int| 0 <= x < g.len() implies g[x].0 != other by {}
        lemma_key_pos_is(g, other, 0, g.len() as int);
    }
}

/// Writing a member twice keeps only the second value.
pub proof fn law_set_twice(j: JsonView, key: Seq<char>, v1: JsonView, v2: JsonView)
    requires
        is_settable(j),
    ensures
        set_spec(set_spec(j, key, v1), key, v2) == set_spec(j, key, v2),
{
    match j {
        JsonView::Object(f) => {
            lemma_key_pos_bounds(f, key, 0);
            let p = key_pos(f, key);
            let g = fields_set(f, key, v1);
            assert forall|x: int| 0 <= x < p implies g[x].0 != key by {}
            lemma_key_pos_is(g, key, 0, p);
            if p < f.len() {
                assert(g.update(p, (key, v2)) =~= f.update(p, (key, v2)));
            } else {
                assert(g.update(p, (key, v2)) =~= f.push((key, v2)));
            }
        },
        _ => {
            let g = seq![(key, v1)];
            lemma_key_pos_is(g, key, 0, 0);
            assert(g.update(0, (key, v2)) =~= seq![(key, v2)]);
        },
    }
}

/// Writing a member the value it already has leaves an object unchanged.
pub proof fn law_set_current_value_is_identity(j: JsonView, key: Seq<char>, v: JsonView)
    requires
        j is Object,
        get_spec(j, key) == Some(v),
    ensures
        set_spec(j, key, v) == j,
{
    let f = j->Object_0;
    lemma_key_pos_bounds(f, key, 0);
    let p = key_pos(f, key);
    assert(f.update(p, (key, v)) =~= f);
}

} // verus!
