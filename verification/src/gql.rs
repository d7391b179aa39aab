//! GraphQL documents as plain values (what a parsed query holds), field
//! arguments, and the conversion of GraphQL values to JSON.

use vstd::prelude::*;
use crate::json::{json_items_view, json_members_view, JsonData, JsonNumber, JsonValue};
use crate::text::str_eq;

verus! {

/// A GraphQL input value. Floats keep their IEEE-754 bit pattern; object
/// members are in key order as the parser gives them.
#[derive(Debug)]
pub enum GqlValue {
    Variable(String),
    Int(i64),
    Float(u64),
    String(String),
    Boolean(bool),
    Null,
    Enum(String),
    List(Vec<GqlValue>),
    Object(Vec<(String, GqlValue)>),
}

/// A selected field with its arguments and sub-selection.
#[derive(Debug)]
pub struct GqlField {
    pub name: String,
    pub arguments: Vec<(String, GqlValue)>,
    pub selection_set: Vec<GqlSelection>,
}

/// One item of a selection set.
#[derive(Debug)]
pub enum GqlSelection {
    Field(GqlField),
    FragmentSpread,
    InlineFragment,
}

/// The kind of an operation.
#[derive(Clone, Copy, Debug, PartialEq, Eq, Structural)]
pub enum OperationKind {
    /// A bare `{ ... }` selection set (a query)
    SelectionSet,
    Query,
    Mutation,
    Subscription,
}

/// A top-level definition of a document.
#[derive(Debug)]
pub enum GqlDefinition {
    Operation { kind: OperationKind, selection_set: Vec<GqlSelection> },
    Fragment,
}

/// A parsed GraphQL document.
#[derive(Debug)]
pub struct GqlDocument {
    pub definitions: Vec<GqlDefinition>,
}

/// The JSON number an integer becomes.
pub open spec fn spec_int_number(i: i64) -> JsonNumber {
    if i >= 0 {
        JsonNumber::PosInt(i as u64)
    } else {
        JsonNumber::NegInt(i)
    }
}

/// The bit pattern is a finite double (its exponent is not all ones).
pub open spec fn spec_is_finite(bits: u64) -> bool {
    (bits >> 52u64) & 0x7ffu64 != 0x7ffu64
}

/// The JSON a GraphQL value becomes: numbers and strings map to their
/// JSON counterparts, enums to strings, non-finite floats and unresolved
/// variables to `null`.
pub open spec fn spec_gql_to_json(v: GqlValue) -> JsonData
    decreases v, 0nat,
{
    match v {
        GqlValue::Null => JsonData::Null,
        GqlValue::Int(i) => JsonData::Number(spec_int_number(i)),
        GqlValue::Float(bits) => if spec_is_finite(bits) {
            JsonData::Number(JsonNumber::Float(bits))
        } else {
            JsonData::Null
        },
        GqlValue::String(s) => JsonData::Str(s@),
        GqlValue::Boolean(b) => JsonData::Bool(b),
        GqlValue::Enum(e) => JsonData::Str(e@),
        GqlValue::List(l) => JsonData::Array(spec_gql_items(l@)),
        GqlValue::Object(o) => JsonData::Object(spec_gql_members(o@)),
        GqlValue::Variable(_) => JsonData::Null,
    }
}

/// JSON of a list of GraphQL values.
pub open spec fn spec_gql_items(s: Seq<GqlValue>) -> Seq<JsonData>
    decreases s, 1nat,
{
    if s.len() == 0 {
        Seq::empty()
    } else {
        spec_gql_items(s.drop_last()).push(spec_gql_to_json(s.last()))
    }
}

/// JSON of the members of a GraphQL object.
pub open spec fn spec_gql_members(s: Seq<(String, GqlValue)>) -> Seq<(Seq<char>, JsonData)>
    decreases s, 1nat,
{
    if s.len() == 0 {
        Seq::empty()
    } else {
        spec_gql_members(s.drop_last()).push((s.last().0@, spec_gql_to_json(s.last().1)))
    }
}

/// Convert a GraphQL value to JSON.
pub fn gql_value_to_json(value: &GqlValue) -> (r: JsonValue)
    ensures
        r@ == spec_gql_to_json(*value),
    decreases value,
{
    match value {
        GqlValue::Null => JsonValue::Null,
        GqlValue::Int(i) => {
            if *i >= 0 {
                JsonValue::Number(JsonNumber::PosInt(*i as u64))
            } else {
                JsonValue::Number(JsonNumber::NegInt(*i))
            }
        },
        GqlValue::Float(bits) => {
            if (*bits >> 52u64) & 0x7ffu64 != 0x7ffu64 {
                JsonValue::Number(JsonNumber::Float(*bits))
            } else {
                JsonValue::Null
            }
        },
        GqlValue::String(s) => JsonValue::String(s.clone()),
        GqlValue::Boolean(b) => JsonValue::Bool(*b),
        GqlValue::Enum(e) => JsonValue::String(e.clone()),
        GqlValue::List(l) => {
            let mut w: Vec<JsonValue> = Vec::new();
            let mut i: usize = 0;
            while i < l.len()
                invariant
                    *value == GqlValue::List(*l),
                    i <= l.len(),
                    json_items_view(w@) == spec_gql_items(l@.subrange(0, i as int)),
                decreases l.len() - i,
            {
                proof {
                    assert(decreases_to!(*value => (*value)->List_0));
                    assert(decreases_to!(*l => l[i as int]));
                }
                let c = gql_value_to_json(&l[i]);
                let ghost w0 = w@;
                w.push(c);
                assert(w@.drop_last() == w0);
                assert(l@.subrange(0, i + 1).drop_last() == l@.subrange(0, i as int));
                i = i + 1;
            }
            assert(l@.subrange(0, l.len() as int) == l@);
            JsonValue::Array(w)
        },
        GqlValue::Object(o) => {
            let mut w: Vec<(String, JsonValue)> = Vec::new();
            let mut i: usize = 0;
            while i < o.len()
                invariant
                    *value == GqlValue::Object(*o),
                    i <= o.len(),
                    json_members_view(w@) == spec_gql_members(o@.subrange(0, i as int)),
                decreases o.len() - i,
            {
                proof {
                    assert(decreases_to!(*value => (*value)->Object_0));
                    assert(decreases_to!(*o => o[i as int]));
                    assert(decreases_to!(o[i as int] => o[i as int].1));
                }
                let c = gql_value_to_json(&o[i].1);
                let k = o[i].0.clone();
                let ghost w0 = w@;
                w.push((k, c));
                assert(w@.drop_last() == w0);
                assert(o@.subrange(0, i + 1).drop_last() == o@.subrange(0, i as int));
                i = i + 1;
            }
            assert(o@.subrange(0, o.len() as int) == o@);
            JsonValue::Object(w)
        },
        GqlValue::Variable(_) => JsonValue::Null,
    }
}

/// `args[i]` is the first argument named `name`.
pub open spec fn is_first_arg(args: Seq<(String, GqlValue)>, name: Seq<char>, i: int) -> bool {
    &&& 0 <= i < args.len()
    &&& args[i].0@ == name
    &&& forall|j: int| 0 <= j < i ==> (#[trigger] args[j]).0@ != name
}

/// The value of the first argument named `name`, if any.
pub open spec fn spec_arg(args: Seq<(String, GqlValue)>, name: Seq<char>) -> Option<GqlValue> {
    if exists|i: int| is_first_arg(args, name, i) {
        Some(args[choose|i: int| is_first_arg(args, name, i)].1)
    } else {
        None
    }
}

/// Index of the first argument named `name`.
pub fn find_arg(args: &Vec<(String, GqlValue)>, name: &str) -> (r: Option<usize>)
    ensures
        match r {
            Some(i) => is_first_arg(args@, name@, i as int) && spec_arg(args@, name@) == Some(
                args@[i as int].1,
            ),
            None => spec_arg(args@, name@) is None && forall|j: int|
                0 <= j < args@.len() ==> (#[trigger] args@[j]).0@ != name@,
        },
{
    let mut i: usize = 0;
    while i < args.len()
        invariant
            i <= args@.len(),
            forall|j: int| 0 <= j < i ==> (#[trigger] args@[j]).0@ != name@,
        decreases args@.len() - i,
    {
        if str_eq(args[i].0.as_str(), name) {
            assert(is_first_arg(args@, name@, i as int));
            let ghost k = choose|k: int| is_first_arg(args@, name@, k);
            assert(k == i) by {
                if k < i {
                } else if k > i {
                    assert(args@[i as int].0@ == name@);
                }
            }
            return Some(i);
        }
        i = i + 1;
    }
    None
}

/// The string argument `name`: `None` when absent or not a string.
pub open spec fn spec_string_arg(f: GqlField, name: Seq<char>) -> Option<Seq<char>> {
    match spec_arg(f.arguments@, name) {
        Some(GqlValue::String(s)) => Some(s@),
        _ => None,
    }
}

/// The integer argument `name` (truncated to 32 bits): `None` when absent
/// or not an integer.
pub open spec fn spec_int_arg(f: GqlField, name: Seq<char>) -> Option<i32> {
    match spec_arg(f.arguments@, name) {
        Some(GqlValue::Int(i)) => Some(i as i32),
        _ => None,
    }
}

/// The argument `name` converted to JSON, if present.
pub open spec fn spec_json_arg(f: GqlField, name: Seq<char>) -> Option<JsonData> {
    match spec_arg(f.arguments@, name) {
        Some(v) => Some(spec_gql_to_json(v)),
        None => None,
    }
}

/// Get a string argument from a field.
pub fn get_string_arg(field: &GqlField, arg_name: &str) -> (r: Option<String>)
    ensures
        match r {
            Some(s) => spec_string_arg(*field, arg_name@) == Some(s@),
            None => spec_string_arg(*field, arg_name@) is None,
        },
{
    match find_arg(&field.arguments, arg_name) {
        Some(i) => match &field.arguments[i].1 {
            GqlValue::String(s) => Some(s.clone()),
            _ => None,
        },
        None => None,
    }
}

/// Get an integer argument from a field.
pub fn get_int_arg(field: &GqlField, arg_name: &str) -> (r: Option<i32>)
    ensures
        r == spec_int_arg(*field, arg_name@),
{
    match find_arg(&field.arguments, arg_name) {
        Some(i) => match &field.arguments[i].1 {
            GqlValue::Int(v) => Some(*v as i32),
            _ => None,
        },
        None => None,
    }
}

/// Get an argument from a field, converted to JSON.
pub fn get_json_arg(field: &GqlField, arg_name: &str) -> (r: Option<JsonValue>)
    ensures
        match r {
            Some(j) => spec_json_arg(*field, arg_name@) == Some(j@),
            None => spec_json_arg(*field, arg_name@) is None,
        },
{
    match find_arg(&field.arguments, arg_name) {
        Some(i) => Some(gql_value_to_json(&field.arguments[i].1)),
        None => None,
    }
}

} // verus!
