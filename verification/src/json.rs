//! JSON documents as plain values: what entity data, link metadata and
//! generated payloads hold.

use vstd::prelude::*;
use crate::text::owned;

verus! {

/// A JSON number as `serde_json` distinguishes it: a non-negative integer,
/// a negative integer, or a floating-point number kept as its IEEE-754
/// bit pattern.
#[derive(Clone, Copy, Debug, PartialEq, Eq, Structural)]
pub enum JsonNumber {
    PosInt(u64),
    NegInt(i64),
    Float(u64),
}

/// A JSON value. Object members keep their order; keys are expected to be
/// distinct (lookups take the first match).
#[derive(Debug, PartialEq)]
pub enum JsonValue {
    Null,
    Bool(bool),
    Number(JsonNumber),
    String(String),
    Array(Vec<JsonValue>),
    Object(Vec<(String, JsonValue)>),
}

/// The mathematical content of a JSON value.
pub enum JsonData {
    Null,
    Bool(bool),
    Number(JsonNumber),
    Str(Seq<char>),
    Array(Seq<JsonData>),
    Object(Seq<(Seq<char>, JsonData)>),
}

/// Content of a JSON value.
pub open spec fn json_view(j: JsonValue) -> JsonData
    decreases j, 0nat,
{
    match j {
        JsonValue::Null => JsonData::Null,
        JsonValue::Bool(b) => JsonData::Bool(b),
        JsonValue::Number(n) => JsonData::Number(n),
        JsonValue::String(s) => JsonData::Str(s@),
        JsonValue::Array(v) => JsonData::Array(json_items_view(v@)),
        JsonValue::Object(v) => JsonData::Object(json_members_view(v@)),
    }
}

/// Content of a sequence of JSON values.
pub open spec fn json_items_view(s: Seq<JsonValue>) -> Seq<JsonData>
    decreases s, 1nat,
{
    if s.len() == 0 {
        Seq::empty()
    } else {
        json_items_view(s.drop_last()).push(json_view(s.last()))
    }
}

/// Content of a sequence of object members.
pub open spec fn json_members_view(s: Seq<(String, JsonValue)>) -> Seq<(Seq<char>, JsonData)>
    decreases s, 1nat,
{
    if s.len() == 0 {
        Seq::empty()
    } else {
        json_members_view(s.drop_last()).push((s.last().0@, json_view(s.last().1)))
    }
}

impl View for JsonValue {
    type V = JsonData;

    open spec fn view(&self) -> JsonData {
        json_view(*self)
    }
}

/// A member list with one more member at the end.
pub proof fn lemma_members_push(s: Seq<(String, JsonValue)>, m: (String, JsonValue))
    ensures
        json_members_view(s.push(m)) == json_members_view(s).push((m.0@, json_view(m.1))),
{
    assert(s.push(m).drop_last() == s);
}

/// Appends the member `key: value` to an object's member list.
pub fn push_member(members: &mut Vec<(String, JsonValue)>, key: &str, value: JsonValue)
    ensures
        json_members_view(final(members)@) == json_members_view(old(members)@).push(
            (key@, value@),
        ),
{
    let ghost m0 = members@;
    let k = owned(key);
    proof {
        lemma_members_push(m0, (k, value));
    }
    members.push((k, value));
}

/// A JSON string holding `s`.
pub fn json_str(s: &str) -> (r: JsonValue)
    ensures
        r@ == JsonData::Str(s@),
{
    JsonValue::String(owned(s))
}

impl JsonValue {
    /// `serde_json::Value::is_null`.
    pub open spec fn spec_is_null(&self) -> bool {
        self is Null
    }

    /// Whether the value is `null`.
    pub fn is_null(&self) -> (r: bool)
        ensures
            r == self.spec_is_null(),
    {
        match self {
            JsonValue::Null => true,
            _ => false,
        }
    }

    /// A copy with the same content.
    pub fn clone_value(&self) -> (r: JsonValue)
        ensures
            r@ == self@,
        decreases self,
    {
        match self {
            JsonValue::Null => JsonValue::Null,
            JsonValue::Bool(b) => JsonValue::Bool(*b),
            JsonValue::Number(n) => JsonValue::Number(*n),
            JsonValue::String(s) => JsonValue::String(s.clone()),
            JsonValue::Array(v) => {
                let mut w: Vec<JsonValue> = Vec::new();
                let mut i: usize = 0;
                while i < v.len()
                    invariant
                        *self == JsonValue::Array(*v),
                        i <= v.len(),
                        json_items_view(w@) == json_items_view(v@.subrange(0, i as int)),
                    decreases v.len() - i,
                {
                    proof {
                        assert(decreases_to!(*self => (*self)->Array_0));
                        assert(decreases_to!(*v => v[i as int]));
                    }
                    let c = v[i].clone_value();
                    let ghost w0 = w@;
                    w.push(c);
                    assert(w@.drop_last() == w0);
                    assert(v@.subrange(0, i + 1).drop_last() == v@.subrange(0, i as int));
                    i = i + 1;
                }
                assert(v@.subrange(0, v.len() as int) == v@);
                JsonValue::Array(w)
            },
            JsonValue::Object(v) => {
                let mut w: Vec<(String, JsonValue)> = Vec::new();
                let mut i: usize = 0;
                while i < v.len()
                    invariant
                        *self == JsonValue::Object(*v),
                        i <= v.len(),
                        json_members_view(w@) == json_members_view(v@.subrange(0, i as int)),
                    decreases v.len() - i,
                {
                    proof {
                        assert(decreases_to!(*self => (*self)->Object_0));
                        assert(decreases_to!(*v => v[i as int]));
                        assert(decreases_to!(v[i as int] => v[i as int].1));
                    }
                    let c = v[i].1.clone_value();
                    let k = v[i].0.clone();
                    let ghost w0 = w@;
                    w.push((k, c));
                    assert(w@.drop_last() == w0);
                    assert(v@.subrange(0, i + 1).drop_last() == v@.subrange(0, i as int));
                    i = i + 1;
                }
                assert(v@.subrange(0, v.len() as int) == v@);
                JsonValue::Object(w)
            },
        }
    }
}

/// The value stored under `key` in an object's content (first match).
pub open spec fn spec_lookup(members: Seq<(Seq<char>, JsonData)>, key: Seq<char>) -> Option<JsonData>
    decreases members.len(),
{
    if members.len() == 0 {
        None
    } else if members[0].0 == key {
        Some(members[0].1)
    } else {
        spec_lookup(members.drop_first(), key)
    }
}

/// A lookup finds the first member with the key.
pub proof fn lemma_lookup_at(members: Seq<(Seq<char>, JsonData)>, key: Seq<char>, k: int)
    requires
        0 <= k < members.len(),
        members[k].0 == key,
        forall|j: int| 0 <= j < k ==> (#[trigger] members[j]).0 != key,
    ensures
        spec_lookup(members, key) == Some(members[k].1),
    decreases k,
{
    if k > 0 {
        let t = members.drop_first();
        assert(members[0].0 != key);
        assert forall|j: int| 0 <= j < k - 1 implies (#[trigger] t[j]).0 != key by {
            assert(t[j] == members[j + 1]);
        }
        lemma_lookup_at(t, key, k - 1);
        assert(t[k - 1] == members[k]);
    }
}

/// A lookup finds a member whose key differs from every earlier key in its
/// length or in its first character.
pub proof fn lemma_lookup_at_apart(members: Seq<(Seq<char>, JsonData)>, key: Seq<char>, k: int)
    requires
        0 <= k < members.len(),
        members[k].0 == key,
        key.len() > 0,
        forall|j: int|
            0 <= j < k ==> (#[trigger] members[j]).0.len() != key.len() || members[j].0[0] != key[0],
    ensures
        spec_lookup(members, key) == Some(members[k].1),
{
    assert forall|j: int| 0 <= j < k implies (#[trigger] members[j]).0 != key by {
        if members[j].0.len() == key.len() {
            assert(members[j].0[0] != key[0]);
        }
    }
    lemma_lookup_at(members, key, k);
}

/// The content of `data.get(key)` for a JSON object, `None` otherwise.
pub open spec fn spec_get(data: JsonData, key: Seq<char>) -> Option<JsonData> {
    match data {
        JsonData::Object(m) => spec_lookup(m, key),
        _ => None,
    }
}

/// Fields of a `google.protobuf.Struct` built from a JSON value: the
/// members of an object, none for any other value.
pub open spec fn spec_struct_fields(v: JsonData) -> Seq<(Seq<char>, JsonData)> {
    match v {
        JsonData::Object(m) => m,
        _ => Seq::empty(),
    }
}

/// The members a JSON value contributes to a protobuf `Struct`: those of
/// an object, none otherwise (only objects convert to a `Struct`).
pub fn json_to_struct_fields(v: &JsonValue) -> (r: Vec<(String, JsonValue)>)
    ensures
        json_members_view(r@) == spec_struct_fields(v@),
{
    match v {
        JsonValue::Object(_) => {
            let c = v.clone_value();
            match c {
                JsonValue::Object(m) => m,
                _ => {
                    assert(false);
                    Vec::new()
                },
            }
        },
        _ => {
            let r: Vec<(String, JsonValue)> = Vec::new();
            assert(json_members_view(r@) == Seq::<(Seq<char>, JsonData)>::empty());
            r
        },
    }
}

/// The member view holds, position by position, each key's text and each
/// value's content.
pub proof fn lemma_members_view_index(s: Seq<(String, JsonValue)>)
    ensures
        json_members_view(s).len() == s.len(),
        forall|k: int|
            0 <= k < s.len() ==> #[trigger] json_members_view(s)[k] == (s[k].0@, json_view(s[k].1)),
    decreases s.len(),
{
    if s.len() > 0 {
        lemma_members_view_index(s.drop_last());
        assert forall|k: int| 0 <= k < s.len() implies #[trigger] json_members_view(s)[k] == (
            s[k].0@,
            json_view(s[k].1),
        ) by {
            if k < s.len() - 1 {
                assert(s.drop_last()[k] == s[k]);
            }
        }
    }
}

proof fn lemma_lookup_skip(m: Seq<(Seq<char>, JsonData)>, key: Seq<char>, i: int)
    requires
        0 <= i < m.len(),
        m[i].0 != key,
    ensures
        spec_lookup(m.subrange(i, m.len() as int), key) == spec_lookup(
            m.subrange(i + 1, m.len() as int),
            key,
        ),
{
    assert(m.subrange(i, m.len() as int).drop_first() =~= m.subrange(i + 1, m.len() as int));
}

/// The value stored under `key` when the value is an object (the first
/// member with that key); `None` otherwise.
pub fn json_get<'a>(v: &'a JsonValue, key: &str) -> (r: Option<&'a JsonValue>)
    ensures
        match r {
            Some(x) => spec_get(v@, key@) == Some(x@),
            None => spec_get(v@, key@) is None,
        },
{
    match v {
        JsonValue::Object(members) => {
            let ghost mv = json_members_view(members@);
            proof {
                lemma_members_view_index(members@);
            }
            let mut i: usize = 0;
            assert(mv.subrange(0, mv.len() as int) =~= mv);
            while i < members.len()
                invariant
                    *v == JsonValue::Object(*members),
                    mv == json_members_view(members@),
                    mv.len() == members@.len(),
                    forall|k: int|
                        0 <= k < members@.len() ==> #[trigger] mv[k] == (
                            members@[k].0@,
                            json_view(members@[k].1),
                        ),
                    i <= members@.len(),
                    spec_lookup(mv, key@) == spec_lookup(mv.subrange(i as int, mv.len() as int), key@),
                decreases members@.len() - i,
            {
                assert(mv[i as int] == (members@[i as int].0@, json_view(members@[i as int].1)));
                if crate::text::str_eq(members[i].0.as_str(), key) {
                    assert(mv.subrange(i as int, mv.len() as int)[0] == mv[i as int]);
                    return Some(&members[i].1);
                }
                proof {
                    lemma_lookup_skip(mv, key@, i as int);
                }
                i = i + 1;
            }
            assert(mv.subrange(mv.len() as int, mv.len() as int) =~= Seq::<(Seq<char>, JsonData)>::empty());
            None
        },
        _ => None,
    }
}

/// The text of a JSON string value.
pub fn json_as_str(v: &JsonValue) -> (r: Option<&str>)
    ensures
        match r {
            Some(s) => v@ == JsonData::Str(s@),
            None => !(v@ is Str),
        },
{
    match v {
        JsonValue::String(s) => Some(s.as_str()),
        _ => None,
    }
}

} // verus!
