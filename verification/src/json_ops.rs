//! Executable access to JSON documents: lookups, conversions, copies and updates,
//! each specified over the `JsonView` model.
use vstd::prelude::*;
use crate::json::{
    as_array_spec, as_bool_spec, as_str_spec, as_u64_spec, fields_set, fields_view, get_spec,
    group_json_view, is_settable, items_view, key_pos, key_pos_from, lemma_key_pos_bounds,
    lookup_spec, number_text, opt_str_view, opt_view, set_spec, Json, JsonNumber, JsonView,
};
use crate::text::{i64_to_string, u64_to_string};

verus! {

broadcast use group_json_view;

// ---------------------------------------------------------------------------
// Executable operations
// ---------------------------------------------------------------------------

impl JsonNumber {
    /// Deep copy.
    pub fn copy(&self) -> (r: JsonNumber)
        ensures
            r.view() == self.view(),
    {
        match self {
            JsonNumber::UInt(u) => JsonNumber::UInt(*u),
            JsonNumber::Int(i) => JsonNumber::Int(*i),
            JsonNumber::Float(s) => JsonNumber::Float(s.clone()),
        }
    }

    /// `Number::to_string`.
    pub fn to_text(&self) -> (r: String)
        ensures
            r@ == number_text(self.view()),
    {
        match self {
            JsonNumber::UInt(u) => u64_to_string(*u),
            JsonNumber::Int(i) => i64_to_string(*i),
            JsonNumber::Float(s) => s.clone(),
        }
    }
}

impl Json {
    /// A string value.
    pub fn from_str(s: &str) -> (r: Json)
        ensures
            r@ == JsonView::Str(s@),
    {
        Json::Str(s.to_owned())
    }

    /// An empty object.
    pub fn empty_object() -> (r: Json)
        ensures
            r@ == JsonView::Object(seq![]),
    {
        let r = Json::Object(Vec::new());
        assert(fields_view(Seq::<(String, Json)>::empty()) =~= seq![]);
        r
    }

    /// An array holding `items`.
    pub fn from_vec(items: Vec<Json>) -> (r: Json)
        ensures
            r@ == JsonView::Array(items_view(items@)),
    {
        Json::Array(items)
    }

    /// Deep copy.
    #[verifier::loop_isolation(false)]
    pub fn copy(&self) -> (r: Json)
        ensures
            r@ == self@,
        decreases self,
    {
        match self {
            Json::Null => Json::Null,
            Json::Bool(b) => Json::Bool(*b),
            Json::Number(n) => Json::Number(n.copy()),
            Json::Str(s) => Json::Str(s.clone()),
            Json::Array(items) => {
                let mut out: Vec<Json> = Vec::new();
                let mut i: usize = 0;
                while i < items.len()
                    invariant
                        i <= items@.len(),
                        out@.len() == i,
                        forall|k: int| 0 <= k < i ==> (#[trigger] out@[k])@ == items@[k]@,
                    decreases items@.len() - i,
                {
                    let c = items[i].copy();
                    out.push(c);
                    i = i + 1;
                }
                let r = Json::Array(out);
                assert(items_view(out@) =~= items_view(items@));
                r
            },
            Json::Object(fields) => {
                let mut out: Vec<(String, Json)> = Vec::new();
                let mut i: usize = 0;
                while i < fields.len()
                    invariant
                        i <= fields@.len(),
                        out@.len() == i,
                        forall|k: int|
                            0 <= k < i ==> (#[trigger] out@[k]).0@ == fields@[k].0@ && out@[k].1@
                                == fields@[k].1@,
                    decreases fields@.len() - i,
                {
                    let c = fields[i].1.copy();
                    out.push((fields[i].0.clone(), c));
                    i = i + 1;
                }
                let r = Json::Object(out);
                assert forall|k: int| 0 <= k < out@.len() implies fields_view(out@)[k]
                    == fields_view(fields@)[k] by {
                    assert(out@[k].0@ == fields@[k].0@ && out@[k].1@ == fields@[k].1@);
                }
                assert(fields_view(out@) =~= fields_view(fields@));
                r
            },
        }
    }

    /// `value.get(key)`.
    #[verifier::loop_isolation(false)]
    pub fn get(&self, key: &str) -> (r: Option<&Json>)
        ensures
            opt_view(r) == get_spec(self@, key@),
    {
        match self {
            Json::Object(fields) => {
                let ghost fv = fields_view(fields@);
                let mut i: usize = 0;
                while i < fields.len()
                    invariant
                        i <= fields@.len(),
                        fv == fields_view(fields@),
                        key_pos(fv, key@) == key_pos_from(fv, key@, i as int),
                    decreases fields@.len() - i,
                {
                    if str_eq(fields[i].0.as_str(), key) {
                        assert(fv[i as int] == (fields@[i as int].0@, fields@[i as int].1@));
                        return Some(&fields[i].1);
                    }
                    assert(fv[i as int] == (fields@[i as int].0@, fields@[i as int].1@));
                    i = i + 1;
                }
                None
            },
            _ => None,
        }
    }

    /// Follows a path of object keys.
    pub fn lookup(&self, path: &[&str]) -> (r: Option<&Json>)
        ensures
            opt_view(r) == lookup_spec(self@, path@.map_values(|k: &str| k@)),
    {
        let ghost pv = path@.map_values(|k: &str| k@);
        let mut cur: &Json = self;
        let mut i: usize = 0;
        assert(pv.subrange(0, pv.len() as int) =~= pv);
        while i < path.len()
            invariant
                i <= path@.len(),
                pv == path@.map_values(|k: &str| k@),
                lookup_spec(self@, pv) == lookup_spec(cur@, pv.subrange(i as int, pv.len() as int)),
            decreases path@.len() - i,
        {
            let ghost rest = pv.subrange(i as int, pv.len() as int);
            assert(rest.drop_first() =~= pv.subrange(i + 1, pv.len() as int));
            match cur.get(path[i]) {
                Some(c) => {
                    cur = c;
                },
                None => {
                    return None;
                },
            }
            i = i + 1;
        }
        assert(pv.subrange(i as int, pv.len() as int) =~= Seq::<Seq<char>>::empty());
        Some(cur)
    }

    /// `value.as_str()`.
    pub fn as_str(&self) -> (r: Option<&str>)
        ensures
            opt_str_view(r) == as_str_spec(Some(self@)),
    {
        match self {
            Json::Str(s) => Some(s.as_str()),
            _ => None,
        }
    }

    /// `value.as_u64()`.
    pub fn as_u64(&self) -> (r: Option<u64>)
        ensures
            r == as_u64_spec(Some(self@)),
    {
        match self {
            Json::Number(JsonNumber::UInt(u)) => Some(*u),
            Json::Number(JsonNumber::Int(i)) => if *i >= 0 {
                Some(*i as u64)
            } else {
                None
            },
            _ => None,
        }
    }

    /// `value.as_bool()`.
    pub fn as_bool(&self) -> (r: Option<bool>)
        ensures
            r == as_bool_spec(Some(self@)),
    {
        match self {
            Json::Bool(b) => Some(*b),
            _ => None,
        }
    }

    /// `value.as_array()`.
    pub fn as_array(&self) -> (r: Option<&Vec<Json>>)
        ensures
            match r {
                Some(v) => as_array_spec(Some(self@)) == Some(items_view(v@)),
                None => as_array_spec(Some(self@)) is None,
            },
    {
        match self {
            Json::Array(items) => Some(items),
            _ => None,
        }
    }

    /// `value[key] = v` on an object (or on `null`, which becomes an object).
    pub fn set(&mut self, key: &str, v: Json)
        requires
            is_settable(old(self)@),
        ensures
            final(self)@ == set_spec(old(self)@, key@, v@),
    {
        if let Json::Null = self {
            *self = Json::empty_object();
        }
        match self {
            Json::Object(fields) => {
                set_field(fields, key, v);
            },
            _ => {},
        }
    }
}

/// Sets the first member named `key` to `v`, or appends a new member.
pub fn set_field(fields: &mut Vec<(String, Json)>, key: &str, v: Json)
    ensures
        fields_view(final(fields)@) == fields_set(fields_view(old(fields)@), key@, v@),
{
    let ghost fv = fields_view(fields@);
    let mut i: usize = 0;
    while i < fields.len()
        invariant
            i <= fields@.len(),
            fv == fields_view(fields@),
            fields@ == old(fields)@,
            key_pos(fv, key@) == key_pos_from(fv, key@, i as int),
        decreases fields@.len() - i,
    {
        assert(fv[i as int] == (fields@[i as int].0@, fields@[i as int].1@));
        if str_eq(fields[i].0.as_str(), key) {
            let ghost vv = v@;
            fields.set(i, (key.to_owned(), v));
            proof {
                assert forall|k: int| 0 <= k < fields@.len() implies fields_view(fields@)[k]
                    == fv.update(i as int, (key@, vv))[k] by {
                    if k != i {
                        assert(fields@[k] == old(fields)@[k]);
                    }
                }
                assert(fields_view(fields@) =~= fv.update(i as int, (key@, vv)));
            }
            return;
        }
        i = i + 1;
    }
    let ghost vv = v@;
    fields.push((key.to_owned(), v));
    proof {
        assert forall|k: int| 0 <= k < fields@.len() implies fields_view(fields@)[k] == fv.push(
            (key@, vv),
        )[k] by {
            if k < fv.len() {
                assert(fields@[k] == old(fields)@[k]);
            }
        }
        assert(fields_view(fields@) =~= fv.push((key@, vv)));
    }
}

/// Appends a member to a list of object members.
pub fn push_member(fields: &mut Vec<(String, Json)>, key: &str, v: Json)
    ensures
        fields_view(final(fields)@) == fields_view(old(fields)@).push((key@, v@)),
{
    let ghost before = fields_view(fields@);
    let ghost vv = v@;
    fields.push((key.to_owned(), v));
    proof {
        assert forall|k: int| 0 <= k < fields@.len() implies fields_view(fields@)[k]
            == before.push((key@, vv))[k] by {
            if k < before.len() {
                assert(fields@[k] == old(fields)@[k]);
            }
        }
        assert(fields_view(fields@) =~= before.push((key@, vv)));
    }
}

/// Appends a value to a list of array items.
pub fn push_item(items: &mut Vec<Json>, v: Json)
    ensures
        items_view(final(items)@) == items_view(old(items)@).push(v@),
{
    let ghost before = items_view(items@);
    let ghost vv = v@;
    items.push(v);
    proof {
        assert forall|k: int| 0 <= k < items@.len() implies items_view(items@)[k] == before.push(
            vv,
        )[k] by {
            if k < before.len() {
                assert(items@[k] == old(items)@[k]);
            }
        }
        assert(items_view(items@) =~= before.push(vv));
    }
}

/// An object with the given members.
pub fn object(fields: Vec<(String, Json)>) -> (r: Json)
    ensures
        r@ == JsonView::Object(fields_view(fields@)),
{
    Json::Object(fields)
}

/// No members yet.
pub fn no_members() -> (r: Vec<(String, Json)>)
    ensures
        fields_view(r@) == Seq::<(Seq<char>, JsonView)>::empty(),
{
    let r: Vec<(String, Json)> = Vec::new();
    assert(fields_view(r@) =~= Seq::<(Seq<char>, JsonView)>::empty());
    r
}

/// No items yet.
pub fn no_items() -> (r: Vec<Json>)
    ensures
        items_view(r@) == Seq::<JsonView>::empty(),
{
    let r: Vec<Json> = Vec::new();
    assert(items_view(r@) =~= Seq::<JsonView>::empty());
    r
}

/// String equality.
pub fn str_eq(a: &str, b: &str) -> (r: bool)
    ensures
        r == (a@ == b@),
{
    let n = a.unicode_len();
    if n != b.unicode_len() {
        return false;
    }
    let mut i: usize = 0;
    while i < n
        invariant
            n == a@.len(),
            n == b@.len(),
            i <= n,
            forall|j: int| 0 <= j < i ==> a@[j] == b@[j],
        decreases n - i,
    {
        if a.get_char(i) != b.get_char(i) {
            return false;
        }
        i = i + 1;
    }
    assert(a@ =~= b@);
    true
}

} // verus!
