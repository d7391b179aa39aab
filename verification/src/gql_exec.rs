//! The GraphQL executor's decisions: which operation runs, what each
//! query or mutation field asks for, and how entity fields are resolved.
//! Fetching and storing entities is left to the caller.

use vstd::prelude::*;
use crate::config::{link_matches, LinkDefinition};
use crate::gql::{
    get_int_arg, get_json_arg, get_string_arg, spec_int_arg, spec_json_arg, spec_string_arg,
    GqlDefinition, GqlDocument, GqlField, GqlSelection, OperationKind,
};
use crate::ids::{parse_uuid, spec_parse_uuid, spec_uuid_error_text, uuid_error_text};
use crate::json::{
    json_items_view, json_members_view, json_view, lemma_members_push, lemma_members_view_index, push_member, JsonData,
    JsonValue,
};
use crate::naming::{
    mutation_name_to_entity_type, pascal_to_snake, pluralize, spec_pluralize, spec_to_snake,
    spec_without_prefix, camel_to_snake,
};
use crate::text::{
    contains, is_ascii_upper, occurs_at, owned, spec_contains, spec_occurs_at, spec_starts_with,
    starts_with, str_eq, strip_prefix,
};

verus! {

/// Why a GraphQL field could not be executed.
#[derive(Debug)]
pub enum ExecError {
    /// "Failed to parse query: <the parser's message>"
    ParseFailed(String),
    /// "No operation found in query"
    NoOperation,
    /// "Subscriptions are not supported"
    SubscriptionsNotSupported,
    /// "Missing required argument '<name>'"
    MissingArgument(String),
    /// A string that is not a UUID, and why the UUID parser refused it
    InvalidUuid { text: String, reason: String },
    /// "Unknown query field: <name>"
    UnknownQueryField(String),
    /// "Unknown mutation field: <name>"
    UnknownMutationField(String),
    /// "Invalid <kind> mutation format: <name>"
    InvalidMutationFormat { kind: String, name: String },
    /// "Created entity missing id field"
    CreatedEntityMissingId,
    /// "Entity missing id field"
    EntityMissingId,
    /// "Entity is not an object"
    EntityNotObject,
    /// "No link configuration found for S -> T"
    LinkTypeNotFound { source_type: String, target_type: String },
}

impl ExecError {
    /// The message of the error, as the executor reports it (a UUID error
    /// is reported with the UUID parser's own message).
    pub fn message(&self) -> (r: String)
        ensures
            match *self {
                ExecError::ParseFailed(m) => r@ == "Failed to parse query: "@ + m@,
                ExecError::NoOperation => r@ == "No operation found in query"@,
                ExecError::SubscriptionsNotSupported => r@ == "Subscriptions are not supported"@,
                ExecError::MissingArgument(n) => r@ == "Missing required argument '"@ + n@ + "'"@,
                ExecError::InvalidUuid { reason, .. } => r@ == reason@,
                ExecError::UnknownQueryField(n) => r@ == "Unknown query field: "@ + n@,
                ExecError::UnknownMutationField(n) => r@ == "Unknown mutation field: "@ + n@,
                ExecError::InvalidMutationFormat { kind, name } => r@ == "Invalid "@ + kind@
                    + " mutation format: "@ + name@,
                ExecError::CreatedEntityMissingId => r@ == "Created entity missing id field"@,
                ExecError::EntityMissingId => r@ == "Entity missing id field"@,
                ExecError::EntityNotObject => r@ == "Entity is not an object"@,
                ExecError::LinkTypeNotFound { source_type, target_type } => r@
                    == "No link configuration found for "@ + source_type@ + " -> "@ + target_type@,
            },
    {
        match self {
            ExecError::ParseFailed(m) => {
                let mut t = owned("Failed to parse query: ");
                t.append(m.as_str());
                t
            },
            ExecError::NoOperation => owned("No operation found in query"),
            ExecError::SubscriptionsNotSupported => owned("Subscriptions are not supported"),
            ExecError::MissingArgument(n) => {
                let mut m = owned("Missing required argument '");
                m.append(n.as_str());
                m.append("'");
                m
            },
            ExecError::InvalidUuid { reason, .. } => reason.clone(),
            ExecError::UnknownQueryField(n) => {
                let mut m = owned("Unknown query field: ");
                m.append(n.as_str());
                m
            },
            ExecError::UnknownMutationField(n) => {
                let mut m = owned("Unknown mutation field: ");
                m.append(n.as_str());
                m
            },
            ExecError::InvalidMutationFormat { kind, name } => {
                let mut m = owned("Invalid ");
                m.append(kind.as_str());
                m.append(" mutation format: ");
                m.append(name.as_str());
                m
            },
            ExecError::CreatedEntityMissingId => owned("Created entity missing id field"),
            ExecError::EntityMissingId => owned("Entity missing id field"),
            ExecError::EntityNotObject => owned("Entity is not an object"),
            ExecError::LinkTypeNotFound { source_type, target_type } => {
                let mut m = owned("No link configuration found for ");
                m.append(source_type.as_str());
                m.append(" -> ");
                m.append(target_type.as_str());
                m
            },
        }
    }
}

// ---------------------------------------------------------------------------
// Operation selection
// ---------------------------------------------------------------------------

/// The first operation definition of a document, by index.
pub open spec fn is_first_operation(defs: Seq<GqlDefinition>, i: int) -> bool {
    &&& 0 <= i < defs.len()
    &&& defs[i] is Operation
    &&& forall|j: int| 0 <= j < i ==> (#[trigger] defs[j]) is Fragment
}

/// The kind of an operation definition.
pub open spec fn def_kind(d: GqlDefinition) -> OperationKind {
    match d {
        GqlDefinition::Operation { kind, .. } => kind,
        GqlDefinition::Fragment => OperationKind::SelectionSet,
    }
}

/// The selection of an operation definition.
pub open spec fn def_selection(d: GqlDefinition) -> Vec<GqlSelection> {
    match d {
        GqlDefinition::Operation { selection_set, .. } => selection_set,
        GqlDefinition::Fragment => arbitrary(),
    }
}

/// The first operation of the definitions is a query (or a bare selection
/// set) or a mutation, `is_mutation` tells which, and `sel` is its
/// selection.
pub open spec fn spec_operation_runs(defs: Seq<GqlDefinition>, is_mutation: bool, sel: Vec<GqlSelection>) -> bool {
    exists|i: int|
        is_first_operation(defs, i) && sel == def_selection(defs[i]) && def_kind(defs[i])
            != OperationKind::Subscription && is_mutation == (def_kind(defs[i]) == OperationKind::Mutation)
}

/// No definition is an operation (`NoOperation`), or the first operation
/// is a subscription (`SubscriptionsNotSupported`).
pub open spec fn spec_operation_refused(defs: Seq<GqlDefinition>, e: ExecError) -> bool {
    (e is NoOperation && forall|j: int| 0 <= j < defs.len() ==> (#[trigger] defs[j]) is Fragment) || (
    e is SubscriptionsNotSupported && exists|i: int|
        is_first_operation(defs, i) && def_kind(defs[i]) == OperationKind::Subscription)
}

/// Which selection of a document runs: that of its first operation, as a
/// query (also for a bare selection set) or a mutation.
pub fn select_operation(doc: &GqlDocument) -> (r: Result<(bool, &Vec<GqlSelection>), ExecError>)
    ensures
        match r {
            Ok((is_mutation, sel)) => spec_operation_runs(doc.definitions@, is_mutation, *sel),
            Err(e) => spec_operation_refused(doc.definitions@, e),
        },
{
    let defs = &doc.definitions;
    let mut i: usize = 0;
    while i < defs.len()
        invariant
            defs@ == doc.definitions@,
            i <= defs@.len(),
            forall|j: int| 0 <= j < i ==> (#[trigger] defs@[j]) is Fragment,
        decreases defs@.len() - i,
    {
        match &defs[i] {
            GqlDefinition::Operation { kind, selection_set } => {
                assert(is_first_operation(defs@, i as int));
                assert(def_selection(defs@[i as int]) == *selection_set);
                assert(def_kind(defs@[i as int]) == *kind);
                let is_sub = match kind {
                    OperationKind::Subscription => true,
                    _ => false,
                };
                if is_sub {
                    return Err(ExecError::SubscriptionsNotSupported);
                }
                let is_mutation = match kind {
                    OperationKind::Mutation => true,
                    _ => false,
                };
                let res: (bool, &Vec<GqlSelection>) = (is_mutation, selection_set);
                assert(is_first_operation(doc.definitions@, i as int) && *res.1 == def_selection(
                    doc.definitions@[i as int],
                ) && def_kind(doc.definitions@[i as int]) != OperationKind::Subscription
                    && res.0 == (def_kind(doc.definitions@[i as int]) == OperationKind::Mutation));
                return Ok(res);
            },
            GqlDefinition::Fragment => {},
        }
        i = i + 1;
    }
    Err(ExecError::NoOperation)
}

/// What a request runs: a query text the parser refused fails with
/// "Failed to parse query: <the parser's message>"; a parsed document runs
/// the selection of its first operation.
pub fn plan_execution(parsed: &Result<GqlDocument, String>) -> (r: Result<(bool, &Vec<GqlSelection>), ExecError>)
    ensures
        match *parsed {
            Err(m) => r matches Err(ExecError::ParseFailed(x)) && x@ == m@,
            Ok(doc) => match r {
                Ok((is_mutation, sel)) => spec_operation_runs(doc.definitions@, is_mutation, *sel),
                Err(e) => spec_operation_refused(doc.definitions@, e),
            },
        },
{
    match parsed {
        Err(m) => Err(ExecError::ParseFailed(m.clone())),
        Ok(doc) => select_operation(doc),
    }
}

/// An object's members after setting `key` to `value`: the value replaces
/// that of the first member with this key, else the member is appended.
pub open spec fn spec_member_insert(m: Seq<(Seq<char>, JsonData)>, key: Seq<char>, value: JsonData) -> Seq<
    (Seq<char>, JsonData),
>
    decreases m.len(),
{
    if m.len() == 0 {
        seq![(key, value)]
    } else if m[0].0 == key {
        m.update(0, (key, value))
    } else {
        seq![m[0]] + spec_member_insert(m.drop_first(), key, value)
    }
}

/// The object the field results make, set one after the other.
pub open spec fn spec_results_members(results: Seq<(Seq<char>, JsonData)>) -> Seq<(Seq<char>, JsonData)>
    decreases results.len(),
{
    if results.len() == 0 {
        Seq::empty()
    } else {
        spec_member_insert(spec_results_members(results.drop_last()), results.last().0, results.last().1)
    }
}

proof fn lemma_member_insert_at(m: Seq<(Seq<char>, JsonData)>, key: Seq<char>, value: JsonData, i: int)
    requires
        0 <= i < m.len(),
        m[i].0 == key,
        forall|j: int| 0 <= j < i ==> (#[trigger] m[j]).0 != key,
    ensures
        spec_member_insert(m, key, value) == m.update(i, (key, value)),
    decreases m.len(),
{
    if i > 0 {
        assert(m[0].0 != key);
        let t = m.drop_first();
        assert forall|j: int| 0 <= j < i - 1 implies (#[trigger] t[j]).0 != key by {
            assert(t[j] == m[j + 1]);
        }
        lemma_member_insert_at(t, key, value, i - 1);
        assert(seq![m[0]] + t.update(i - 1, (key, value)) =~= m.update(i, (key, value)));
    }
}

proof fn lemma_member_insert_absent(m: Seq<(Seq<char>, JsonData)>, key: Seq<char>, value: JsonData)
    requires
        forall|j: int| 0 <= j < m.len() ==> (#[trigger] m[j]).0 != key,
    ensures
        spec_member_insert(m, key, value) == m.push((key, value)),
    decreases m.len(),
{
    if m.len() > 0 {
        assert(m[0].0 != key);
        let t = m.drop_first();
        assert forall|j: int| 0 <= j < t.len() implies (#[trigger] t[j]).0 != key by {
            assert(t[j] == m[j + 1]);
        }
        lemma_member_insert_absent(t, key, value);
        assert(seq![m[0]] + t.push((key, value)) =~= m.push((key, value)));
    }
}

/// Set `key` to `value` in an object's members (`serde_json::Map::insert`).
fn insert_member(members: &mut Vec<(String, JsonValue)>, key: String, value: JsonValue)
    ensures
        json_members_view(final(members)@) == spec_member_insert(
            json_members_view(old(members)@),
            key@,
            value@,
        ),
{
    let ghost m0 = members@;
    let ghost mv = json_members_view(m0);
    proof {
        lemma_members_view_index(m0);
    }
    let mut i: usize = 0;
    while i < members.len()
        invariant
            members@ == m0,
            old(members)@ == m0,
            mv == json_members_view(m0),
            mv.len() == m0.len(),
            forall|k: int| 0 <= k < m0.len() ==> #[trigger] mv[k] == (m0[k].0@, json_view(m0[k].1)),
            i <= members.len(),
            forall|j: int| 0 <= j < i ==> (#[trigger] mv[j]).0 != key@,
        decreases members.len() - i,
    {
        if str_eq(members[i].0.as_str(), key.as_str()) {
            proof {
                lemma_member_insert_at(mv, key@, value@, i as int);
            }
            let ghost kv = (key@, value@);
            let ghost target = spec_member_insert(mv, key@, value@);
            assert(target == mv.update(i as int, kv));
            members.set(i, (key, value));
            proof {
                lemma_members_view_index(members@);
                assert(members@[i as int].0@ == kv.0);
                assert(json_view(members@[i as int].1) == kv.1);
                assert(json_members_view(members@) =~= mv.update(i as int, kv));
                assert(json_members_view(members@) == target);
            }
            return;
        }
        i = i + 1;
    }
    proof {
        lemma_member_insert_absent(mv, key@, value@);
        lemma_members_push(members@, (key, value));
    }
    members.push((key, value));
}

/// The object of a set of field results (`{<field>: <value>, ...}`), set
/// one after the other: a repeated field name keeps its last value.
pub fn results_object(results: Vec<(String, JsonValue)>) -> (r: JsonValue)
    ensures
        r@ == JsonData::Object(spec_results_members(json_members_view(results@))),
{
    let ghost rv = json_members_view(results@);
    let mut members: Vec<(String, JsonValue)> = Vec::new();
    let rest = results;
    assert(json_members_view(members@) == spec_results_members(Seq::empty()));
    let n = rest.len();
    proof {
        lemma_members_view_index(rest@);
    }
    let mut i: usize = 0;
    while i < n
        invariant
            n == rest.len(),
            rv.len() == n,
            json_members_view(rest@) == rv,
            i <= n,
            json_members_view(members@) == spec_results_members(rv.subrange(0, i as int)),
        decreases n - i,
    {
        proof {
            lemma_members_view_index(rest@);
        }
        let key = rest[i].0.clone();
        let value = rest[i].1.clone_value();
        assert(rv.subrange(0, i + 1).drop_last() =~= rv.subrange(0, i as int));
        assert(rv.subrange(0, i + 1).last() == rv[i as int]);
        insert_member(&mut members, key, value);
        i = i + 1;
    }
    assert(rv.subrange(0, n as int) =~= rv);
    JsonValue::Object(members)
}

/// The answer of an executed request: `{"data": {<field>: <value>, ...}}`,
/// the results of the selected fields set one after the other.
pub fn data_response(results: Vec<(String, JsonValue)>) -> (r: JsonValue)
    ensures
        r@ == JsonData::Object(
            seq![("data"@, JsonData::Object(spec_results_members(json_members_view(results@))))],
        ),
{
    let inner = results_object(results);
    let mut outer: Vec<(String, JsonValue)> = Vec::new();
    assert(json_members_view(outer@) == Seq::<(Seq<char>, JsonData)>::empty());
    push_member(&mut outer, "data", inner);
    JsonValue::Object(outer)
}

// ---------------------------------------------------------------------------
// Query fields
// ---------------------------------------------------------------------------

/// `types[i]` is the first entity type satisfying `p`.
pub open spec fn is_first_type(types: Seq<String>, i: int, p: spec_fn(Seq<char>) -> bool) -> bool {
    &&& 0 <= i < types.len()
    &&& p(types[i]@)
    &&& forall|j: int| 0 <= j < i ==> !p(#[trigger] types[j]@)
}

/// The entity type whose plural is the field name (first in order).
pub fn get_entity_type_from_plural(entity_types: &Vec<String>, field_name: &str) -> (r: Option<String>)
    ensures
        match r {
            Some(t) => exists|i: int|
                is_first_type(entity_types@, i, |t: Seq<char>| spec_pluralize(t) == field_name@) && t@
                    == entity_types@[i]@,
            None => forall|i: int|
                0 <= i < entity_types@.len() ==> spec_pluralize(#[trigger] entity_types@[i]@)
                    != field_name@,
        },
{
    let mut i: usize = 0;
    while i < entity_types.len()
        invariant
            i <= entity_types@.len(),
            forall|j: int|
                0 <= j < i ==> spec_pluralize(#[trigger] entity_types@[j]@) != field_name@,
        decreases entity_types@.len() - i,
    {
        let p = pluralize(entity_types[i].as_str());
        if str_eq(p.as_str(), field_name) {
            assert(is_first_type(
                entity_types@,
                i as int,
                |t: Seq<char>| spec_pluralize(t) == field_name@,
            ));
            return Some(entity_types[i].clone());
        }
        i = i + 1;
    }
    None
}

/// The entity type equal to the field name.
pub fn get_entity_type_from_singular(entity_types: &Vec<String>, field_name: &str) -> (r: Option<
    String,
>)
    ensures
        match r {
            Some(t) => t@ == field_name@ && exists|i: int|
                0 <= i < entity_types@.len() && entity_types@[i]@ == field_name@,
            None => forall|i: int|
                0 <= i < entity_types@.len() ==> (#[trigger] entity_types@[i])@ != field_name@,
        },
{
    let mut i: usize = 0;
    while i < entity_types.len()
        invariant
            i <= entity_types@.len(),
            forall|j: int| 0 <= j < i ==> (#[trigger] entity_types@[j])@ != field_name@,
        decreases entity_types@.len() - i,
    {
        if str_eq(entity_types[i].as_str(), field_name) {
            return Some(entity_types[i].clone());
        }
        i = i + 1;
    }
    None
}

/// What a query field asks for.
#[derive(Debug)]
pub enum QueryPlan {
    /// List entities of a type (`orders(limit, offset)`)
    List { entity_type: String, limit: Option<i32>, offset: Option<i32> },
    /// Fetch one entity by id (`order(id: "...")`)
    Single { entity_type: String, id: u128 },
}

/// Some entity type pluralizes to the field name.
pub open spec fn some_plural(types: Seq<String>, name: Seq<char>) -> bool {
    exists|i: int| 0 <= i < types.len() && spec_pluralize(types[i]@) == name
}

/// Some entity type is the field name.
pub open spec fn some_singular(types: Seq<String>, name: Seq<char>) -> bool {
    exists|i: int| 0 <= i < types.len() && types[i]@ == name
}

/// Decide what a query field asks for. A plural name lists (with the
/// optional integer arguments `limit` and `offset`); a singular name
/// fetches by the required string argument `id`, which must be a UUID;
/// any other name is unknown.
pub fn plan_query_field(entity_types: &Vec<String>, field: &GqlField) -> (r: Result<QueryPlan, ExecError>)
    ensures
        some_plural(entity_types@, field.name@) ==> (r matches Ok(QueryPlan::List { entity_type, limit, offset })
            && exists|i: int|
            is_first_type(entity_types@, i, |t: Seq<char>| spec_pluralize(t) == field.name@)
                && entity_type@ == entity_types@[i]@ && limit == spec_int_arg(*field, "limit"@)
                && offset == spec_int_arg(*field, "offset"@)),
        !some_plural(entity_types@, field.name@) && some_singular(entity_types@, field.name@) ==> (
        match spec_string_arg(*field, "id"@) {
            None => r matches Err(ExecError::MissingArgument(n)) && n@ == "id"@,
            Some(s) => match spec_parse_uuid(s) {
                None => r matches Err(ExecError::InvalidUuid { text: t, reason }) && t@ == s && reason@ == spec_uuid_error_text(s),
                Some(id) => r matches Ok(QueryPlan::Single { entity_type, id: v }) && entity_type@
                    == field.name@ && v == id,
            },
        }),
        !some_plural(entity_types@, field.name@) && !some_singular(entity_types@, field.name@) ==> (
        r matches Err(ExecError::UnknownQueryField(n)) && n@ == field.name@),
{
    let name = field.name.as_str();
    if let Some(entity_type) = get_entity_type_from_plural(entity_types, name) {
        let limit = get_int_arg(field, "limit");
        let offset = get_int_arg(field, "offset");
        return Ok(QueryPlan::List { entity_type, limit, offset });
    }
    if let Some(entity_type) = get_entity_type_from_singular(entity_types, name) {
        let id = match get_string_arg(field, "id") {
            Some(s) => s,
            None => {
                return Err(ExecError::MissingArgument(owned("id")));
            },
        };
        return match parse_uuid(id.as_str()) {
            Some(u) => Ok(QueryPlan::Single { entity_type, id: u }),
            None => {
                let reason = uuid_error_text(id.as_str());
                Err(ExecError::InvalidUuid { text: id, reason })
            },
        };
    }
    Err(ExecError::UnknownQueryField(field.name.clone()))
}

// ---------------------------------------------------------------------------
// Mutation fields
// ---------------------------------------------------------------------------

/// Which mutation a field name selects.
#[derive(Clone, Copy, Debug, PartialEq, Eq, Structural)]
pub enum MutationKind {
    CreateLink,
    CreateAndLink,
    LinkEntities,
    UnlinkEntities,
    CreateEntity,
    UpdateEntity,
    DeleteEntity,
    DeleteLink,
}

/// The mutation a name selects, checked in this order: `createLink`;
/// `create…For…`; `link…To…`; `unlink…From…`; `create…`; `update…`;
/// `deleteLink` (the generic link deletion); `delete…`.
pub open spec fn spec_mutation_kind(n: Seq<char>) -> Option<MutationKind> {
    if n == "createLink"@ {
        Some(MutationKind::CreateLink)
    } else if spec_starts_with(n, "create"@) && spec_contains(n, "For"@) {
        Some(MutationKind::CreateAndLink)
    } else if spec_starts_with(n, "link"@) && spec_contains(n, "To"@) {
        Some(MutationKind::LinkEntities)
    } else if spec_starts_with(n, "unlink"@) && spec_contains(n, "From"@) {
        Some(MutationKind::UnlinkEntities)
    } else if spec_starts_with(n, "create"@) {
        Some(MutationKind::CreateEntity)
    } else if spec_starts_with(n, "update"@) {
        Some(MutationKind::UpdateEntity)
    } else if n == "deleteLink"@ {
        Some(MutationKind::DeleteLink)
    } else if spec_starts_with(n, "delete"@) {
        Some(MutationKind::DeleteEntity)
    } else {
        None
    }
}

/// Classify a mutation field name; an unknown name is an error.
pub fn classify_mutation(field_name: &str) -> (r: Result<MutationKind, ExecError>)
    ensures
        match spec_mutation_kind(field_name@) {
            Some(k) => r == Ok::<MutationKind, ExecError>(k),
            None => r matches Err(ExecError::UnknownMutationField(n)) && n@ == field_name@,
        },
{
    if str_eq(field_name, "createLink") {
        Ok(MutationKind::CreateLink)
    } else if starts_with(field_name, "create") && contains(field_name, "For") {
        Ok(MutationKind::CreateAndLink)
    } else if starts_with(field_name, "link") && contains(field_name, "To") {
        Ok(MutationKind::LinkEntities)
    } else if starts_with(field_name, "unlink") && contains(field_name, "From") {
        Ok(MutationKind::UnlinkEntities)
    } else if starts_with(field_name, "create") {
        Ok(MutationKind::CreateEntity)
    } else if starts_with(field_name, "update") {
        Ok(MutationKind::UpdateEntity)
    } else if str_eq(field_name, "deleteLink") {
        Ok(MutationKind::DeleteLink)
    } else if starts_with(field_name, "delete") {
        Ok(MutationKind::DeleteEntity)
    } else {
        Err(ExecError::UnknownMutationField(owned(field_name)))
    }
}

// ---------------------------------------------------------------------------
// Names of relation mutations ("createInvoiceForOrder", ...)
// ---------------------------------------------------------------------------

/// `p` first occurs in `s` at `i`.
pub open spec fn is_first_occurrence(s: Seq<char>, p: Seq<char>, i: int) -> bool {
    &&& spec_occurs_at(s, p, i)
    &&& forall|j: int| 0 <= j < i ==> !spec_occurs_at(s, p, j)
}

/// `s` splits at `p` into exactly two parts (`p` occurs once): the parts
/// before and after it.
pub open spec fn spec_split_two(s: Seq<char>, p: Seq<char>) -> Option<(Seq<char>, Seq<char>)> {
    if exists|i: int| is_first_occurrence(s, p, i) && !spec_contains(
        s.subrange(i + p.len(), s.len() as int),
        p,
    ) {
        let i = choose|i: int| is_first_occurrence(s, p, i) && !spec_contains(
            s.subrange(i + p.len(), s.len() as int),
            p,
        );
        Some((s.subrange(0, i), s.subrange(i + p.len(), s.len() as int)))
    } else {
        None
    }
}

proof fn lemma_first_occurrence_unique(s: Seq<char>, p: Seq<char>, i: int, k: int)
    requires
        is_first_occurrence(s, p, i),
        is_first_occurrence(s, p, k),
    ensures
        i == k,
{
    if i < k {
        assert(spec_occurs_at(s, p, i));
    } else if k < i {
        assert(spec_occurs_at(s, p, k));
    }
}

/// A separator that starts with an ASCII capital and has none after it
/// ("For", "To", "From") splits `t + sep + s` back into `t` and `s` when
/// neither holds it.
pub proof fn lemma_split_two_at_separator(t: Seq<char>, sep: Seq<char>, s: Seq<char>)
    requires
        sep.len() >= 1,
        is_ascii_upper(sep[0]),
        forall|k: int| 1 <= k < sep.len() ==> !is_ascii_upper(#[trigger] sep[k]),
        !spec_contains(t, sep),
        !spec_contains(s, sep),
    ensures
        spec_split_two(t + sep + s, sep) == Some((t, s)),
{
    let w = t + sep + s;
    let n = t.len() as int;
    let m = sep.len() as int;
    assert(w.subrange(n, n + m) =~= sep);
    assert forall|i: int| i != n implies !spec_occurs_at(w, sep, i) by {
        if spec_occurs_at(w, sep, i) {
            if i + m <= n {
                assert(t.subrange(i, i + m) =~= w.subrange(i, i + m));
                assert(spec_occurs_at(t, sep, i));
            } else if i < n {
                let d = n - i;
                assert(w.subrange(i, i + m)[d] == w[n]);
                assert(w[n] == sep[0]);
                assert(!is_ascii_upper(sep[d]));
            } else if i < n + m {
                assert(w.subrange(i, i + m)[0] == w[i]);
                assert(w[i] == sep[i - n]);
                assert(!is_ascii_upper(sep[i - n]));
            } else {
                assert(s.subrange(i - n - m, i - n) =~= w.subrange(i, i + m));
                assert(spec_occurs_at(s, sep, i - n - m));
            }
        }
    }
    assert(is_first_occurrence(w, sep, n));
    assert(w.subrange(n + m, w.len() as int) =~= s);
    assert(w.subrange(0, n) =~= t);
    let k = choose|k: int| is_first_occurrence(w, sep, k) && !spec_contains(
        w.subrange(k + sep.len(), w.len() as int),
        sep,
    );
    lemma_first_occurrence_unique(w, sep, k, n);
}

fn split_at_first(s: &str, p: &str, i: usize) -> (r: Option<(String, String)>)
    requires
        is_first_occurrence(s@, p@, i as int),
    ensures
        match r {
            Some((a, b)) => spec_split_two(s@, p@) == Some((a@, b@)),
            None => spec_split_two(s@, p@) is None,
        },
{
    let n = s.unicode_len();
    let m = p.unicode_len();
    let after = s.substring_char(i + m, n);
    if contains(after, p) {
        assert(!(exists|k: int| is_first_occurrence(s@, p@, k) && !spec_contains(
            s@.subrange(k + p@.len(), s@.len() as int),
            p@,
        ))) by {
            if exists|k: int| is_first_occurrence(s@, p@, k) && !spec_contains(
                s@.subrange(k + p@.len(), s@.len() as int),
                p@,
            ) {
                let k = choose|k: int| is_first_occurrence(s@, p@, k) && !spec_contains(
                    s@.subrange(k + p@.len(), s@.len() as int),
                    p@,
                );
                lemma_first_occurrence_unique(s@, p@, i as int, k);
            }
        }
        return None;
    }
    let before = s.substring_char(0, i);
    let ghost k = choose|k: int| is_first_occurrence(s@, p@, k) && !spec_contains(
        s@.subrange(k + p@.len(), s@.len() as int),
        p@,
    );
    proof {
        lemma_first_occurrence_unique(s@, p@, i as int, k);
    }
    Some((owned(before), owned(after)))
}

fn split_two(s: &str, p: &str) -> (r: Option<(String, String)>)
    ensures
        match r {
            Some((a, b)) => spec_split_two(s@, p@) == Some((a@, b@)),
            None => spec_split_two(s@, p@) is None,
        },
{
    let n = s.unicode_len();
    let mut i: usize = 0;
    while i < n
        invariant
            n == s@.len(),
            i <= n,
            forall|j: int| 0 <= j < i ==> !spec_occurs_at(s@, p@, j),
        decreases n - i,
    {
        if occurs_at(s, p, i) {
            return split_at_first(s, p, i);
        }
        i = i + 1;
    }
    if occurs_at(s, p, n) {
        return split_at_first(s, p, n);
    }
    assert(!(exists|k: int| is_first_occurrence(s@, p@, k) && !spec_contains(
        s@.subrange(k + p@.len(), s@.len() as int),
        p@,
    ))) by {
        if exists|k: int| is_first_occurrence(s@, p@, k) {
            let k = choose|k: int| is_first_occurrence(s@, p@, k);
            assert(spec_occurs_at(s@, p@, k));
            if k < n {
            } else if k > n {
            }
        }
    }
    None
}

/// The two entity types a relation mutation name designates: the name
/// without its prefix (or nothing when it lacks it) split at the
/// separator into exactly two parts, each turned to snake_case.
pub open spec fn spec_relation_types(name: Seq<char>, prefix: Seq<char>, sep: Seq<char>) -> Option<
    (Seq<char>, Seq<char>),
> {
    let rest = if spec_starts_with(name, prefix) {
        name.subrange(prefix.len() as int, name.len() as int)
    } else {
        Seq::<char>::empty()
    };
    match spec_split_two(rest, sep) {
        Some((a, b)) => Some((spec_to_snake(a), spec_to_snake(b))),
        None => None,
    }
}

fn relation_types(name: &str, prefix: &str, sep: &str, kind: &str) -> (r: Result<(String, String), ExecError>)
    ensures
        match spec_relation_types(name@, prefix@, sep@) {
            Some((a, b)) => r matches Ok((x, y)) && x@ == a && y@ == b,
            None => r matches Err(ExecError::InvalidMutationFormat { kind: k, name: n }) && k@ == kind@
                && n@ == name@,
        },
{
    let rest = match strip_prefix(name, prefix) {
        Some(r) => r,
        None => String::new(),
    };
    match split_two(rest.as_str(), sep) {
        Some((a, b)) => Ok((pascal_to_snake(a.as_str()), pascal_to_snake(b.as_str()))),
        None => Err(ExecError::InvalidMutationFormat { kind: owned(kind), name: owned(name) }),
    }
}

/// (entity type, parent type) of `create<Entity>For<Parent>`.
pub fn parse_create_and_link_name(name: &str) -> (r: Result<(String, String), ExecError>)
    ensures
        match spec_relation_types(name@, "create"@, "For"@) {
            Some((a, b)) => r matches Ok((x, y)) && x@ == a && y@ == b,
            None => r matches Err(ExecError::InvalidMutationFormat { kind: k, name: n }) && k@
                == "createAndLink"@ && n@ == name@,
        },
{
    relation_types(name, "create", "For", "createAndLink")
}

/// (source type, target type) of `link<Source>To<Target>`.
pub fn parse_link_name(name: &str) -> (r: Result<(String, String), ExecError>)
    ensures
        match spec_relation_types(name@, "link"@, "To"@) {
            Some((a, b)) => r matches Ok((x, y)) && x@ == a && y@ == b,
            None => r matches Err(ExecError::InvalidMutationFormat { kind: k, name: n }) && k@
                == "link"@ && n@ == name@,
        },
{
    relation_types(name, "link", "To", "link")
}

/// (source type, target type) of `unlink<Source>From<Target>`.
pub fn parse_unlink_name(name: &str) -> (r: Result<(String, String), ExecError>)
    ensures
        match spec_relation_types(name@, "unlink"@, "From"@) {
            Some((a, b)) => r matches Ok((x, y)) && x@ == a && y@ == b,
            None => r matches Err(ExecError::InvalidMutationFormat { kind: k, name: n }) && k@
                == "unlink"@ && n@ == name@,
        },
{
    relation_types(name, "unlink", "From", "unlink")
}

// ---------------------------------------------------------------------------
// Required arguments
// ---------------------------------------------------------------------------

/// A required string argument: its text, or the error naming it.
pub open spec fn spec_required(f: GqlField, name: Seq<char>, r: Result<String, ExecError>) -> bool {
    match spec_string_arg(f, name) {
        Some(s) => r matches Ok(v) && v@ == s,
        None => r matches Err(ExecError::MissingArgument(n)) && n@ == name,
    }
}

/// A required string argument of a field.
pub fn required_string_arg(field: &GqlField, name: &str) -> (r: Result<String, ExecError>)
    ensures
        spec_required(*field, name@, r),
{
    match get_string_arg(field, name) {
        Some(s) => Ok(s),
        None => Err(ExecError::MissingArgument(owned(name))),
    }
}

/// A required JSON argument of a field.
pub fn required_json_arg(field: &GqlField, name: &str) -> (r: Result<JsonValue, ExecError>)
    ensures
        match spec_json_arg(*field, name@) {
            Some(j) => r matches Ok(v) && v@ == j,
            None => r matches Err(ExecError::MissingArgument(n)) && n@ == name@,
        },
{
    match get_json_arg(field, name) {
        Some(j) => Ok(j),
        None => Err(ExecError::MissingArgument(owned(name))),
    }
}

/// A UUID given as text.
pub fn uuid_arg(text: String) -> (r: Result<u128, ExecError>)
    ensures
        match spec_parse_uuid(text@) {
            Some(id) => r == Ok::<u128, ExecError>(id),
            None => r matches Err(ExecError::InvalidUuid { text: t, reason }) && t@ == text@ && reason@ == spec_uuid_error_text(text@),
        },
{
    match parse_uuid(text.as_str()) {
        Some(id) => Ok(id),
        None => {
            let reason = uuid_error_text(text.as_str());
            Err(ExecError::InvalidUuid { text, reason })
        },
    }
}

/// The UUID in a required string argument: the missing argument, then a
/// malformed value, is the error.
pub open spec fn spec_required_uuid(f: GqlField, name: Seq<char>, r: Result<u128, ExecError>) -> bool {
    match spec_string_arg(f, name) {
        None => r matches Err(ExecError::MissingArgument(n)) && n@ == name,
        Some(s) => match spec_parse_uuid(s) {
            Some(id) => r == Ok::<u128, ExecError>(id),
            None => r matches Err(ExecError::InvalidUuid { text: t, reason }) && t@ == s && reason@ == spec_uuid_error_text(s),
        },
    }
}

/// A required argument holding a UUID.
pub fn required_uuid_arg(field: &GqlField, name: &str) -> (r: Result<u128, ExecError>)
    ensures
        spec_required_uuid(*field, name@, r),
{
    let s = required_string_arg(field, name)?;
    uuid_arg(s)
}

// ---------------------------------------------------------------------------
// Entity mutations
// ---------------------------------------------------------------------------

/// `create<Entity>(data: JSON!)`: the entity type and the data.
pub fn plan_create_entity(field: &GqlField) -> (r: Result<(String, JsonValue), ExecError>)
    ensures
        match spec_json_arg(*field, "data"@) {
            Some(d) => r matches Ok((t, v)) && t@ == spec_to_snake(
                spec_without_prefix(field.name@, "create"@),
            ) && v@ == d,
            None => r matches Err(ExecError::MissingArgument(n)) && n@ == "data"@,
        },
{
    let entity_type = mutation_name_to_entity_type(field.name.as_str(), "create");
    let data = required_json_arg(field, "data")?;
    Ok((entity_type, data))
}

/// `update<Entity>(id: ID!, data: JSON!)`: the entity type, id and data.
/// The id is checked (present, then a UUID) before the data.
pub fn plan_update_entity(field: &GqlField) -> (r: Result<(String, u128, JsonValue), ExecError>)
    ensures
        match spec_string_arg(*field, "id"@) {
            None => r matches Err(ExecError::MissingArgument(n)) && n@ == "id"@,
            Some(s) => match spec_parse_uuid(s) {
                None => r matches Err(ExecError::InvalidUuid { text: t, reason }) && t@ == s && reason@ == spec_uuid_error_text(s),
                Some(id) => match spec_json_arg(*field, "data"@) {
                    Some(d) => r matches Ok((t, i, v)) && t@ == spec_to_snake(
                        spec_without_prefix(field.name@, "update"@),
                    ) && i == id && v@ == d,
                    None => r matches Err(ExecError::MissingArgument(n)) && n@ == "data"@,
                },
            },
        },
{
    let entity_type = mutation_name_to_entity_type(field.name.as_str(), "update");
    let id = required_uuid_arg(field, "id")?;
    let data = required_json_arg(field, "data")?;
    Ok((entity_type, id, data))
}

/// `delete<Entity>(id: ID!)`: the entity type and id.
pub fn plan_delete_entity(field: &GqlField) -> (r: Result<(String, u128), ExecError>)
    ensures
        match spec_string_arg(*field, "id"@) {
            None => r matches Err(ExecError::MissingArgument(n)) && n@ == "id"@,
            Some(s) => match spec_parse_uuid(s) {
                None => r matches Err(ExecError::InvalidUuid { text: t, reason }) && t@ == s && reason@ == spec_uuid_error_text(s),
                Some(id) => r matches Ok((t, i)) && t@ == spec_to_snake(
                    spec_without_prefix(field.name@, "delete"@),
                ) && i == id,
            },
        },
{
    let entity_type = mutation_name_to_entity_type(field.name.as_str(), "delete");
    let id = required_uuid_arg(field, "id")?;
    Ok((entity_type, id))
}

/// `deleteLink(id: ID!)`: the link id.
pub fn plan_delete_link(field: &GqlField) -> (r: Result<u128, ExecError>)
    ensures
        spec_required_uuid(*field, "id"@, r),
{
    required_uuid_arg(field, "id")
}

// ---------------------------------------------------------------------------
// Link mutations
// ---------------------------------------------------------------------------

/// What `createLink` asks for.
#[derive(Debug)]
pub struct CreateLinkPlan {
    pub source_id: u128,
    pub target_id: u128,
    pub link_type: String,
    pub metadata: Option<JsonValue>,
}

/// `createLink(sourceId, targetId, linkType, metadata)`: the three string
/// arguments are required (checked in that order), then both ids must be
/// UUIDs; `metadata` is optional.
pub fn plan_create_link(field: &GqlField) -> (r: Result<CreateLinkPlan, ExecError>)
    ensures
        match (
            spec_string_arg(*field, "sourceId"@),
            spec_string_arg(*field, "targetId"@),
            spec_string_arg(*field, "linkType"@),
        ) {
            (None, _, _) => r matches Err(ExecError::MissingArgument(n)) && n@ == "sourceId"@,
            (Some(_), None, _) => r matches Err(ExecError::MissingArgument(n)) && n@ == "targetId"@,
            (Some(_), Some(_), None) => r matches Err(ExecError::MissingArgument(n)) && n@
                == "linkType"@,
            (Some(s), Some(t), Some(l)) => match (spec_parse_uuid(s), spec_parse_uuid(t)) {
                (None, _) => r matches Err(ExecError::InvalidUuid { text: x, reason }) && x@ == s && reason@ == spec_uuid_error_text(s),
                (Some(_), None) => r matches Err(ExecError::InvalidUuid { text: x, reason }) && x@ == t && reason@ == spec_uuid_error_text(t),
                (Some(a), Some(b)) => r matches Ok(p) && p.source_id == a && p.target_id == b
                    && p.link_type@ == l && match (p.metadata, spec_json_arg(*field, "metadata"@)) {
                    (Some(m), Some(j)) => m@ == j,
                    (None, None) => true,
                    _ => false,
                },
            },
        },
{
    let source = required_string_arg(field, "sourceId")?;
    let target = required_string_arg(field, "targetId")?;
    let link_type = required_string_arg(field, "linkType")?;
    let source_id = uuid_arg(source)?;
    let target_id = uuid_arg(target)?;
    let metadata = get_json_arg(field, "metadata");
    Ok(CreateLinkPlan { source_id, target_id, link_type, metadata })
}

/// The link type to use: the one given, else the configured one for the
/// pair of entity types (an error when none is configured).
pub fn resolve_link_type(
    given: Option<String>,
    links: &[LinkDefinition],
    source_type: &str,
    target_type: &str,
) -> (r: Result<String, ExecError>)
    ensures
        match given {
            Some(g) => r matches Ok(t) && t@ == g@,
            None => match r {
                Ok(t) => exists|i: int|
                    crate::config::is_first_link_match(links@, source_type@, target_type@, i) && t@
                        == links@[i].link_type@,
                Err(e) => (e matches ExecError::LinkTypeNotFound { source_type: s, target_type: t }
                    && s@ == source_type@ && t@ == target_type@) && forall|i: int|
                    0 <= i < links@.len() ==> !link_matches(#[trigger] links@[i], source_type@, target_type@),
            },
        },
{
    match given {
        Some(g) => Ok(g),
        None => match crate::config::find_link_type(links, source_type, target_type) {
            Ok(t) => Ok(t),
            Err(e) => Err(ExecError::LinkTypeNotFound { source_type: e.source_type, target_type: e.target_type }),
        },
    }
}

/// What `create<Entity>For<Parent>` asks for (the link type, when not
/// given, is resolved after the entity is created).
#[derive(Debug)]
pub struct CreateAndLinkPlan {
    pub entity_type: String,
    pub parent_type: String,
    pub parent_id: u128,
    pub data: JsonValue,
    pub link_type: Option<String>,
}

/// `create<Entity>For<Parent>(parentId, data, linkType)`: the name must
/// split into two types; `parentId` and `data` are required, `linkType`
/// optional; the parent id must be a UUID.
pub fn plan_create_and_link(field: &GqlField) -> (r: Result<CreateAndLinkPlan, ExecError>)
    ensures
        match spec_relation_types(field.name@, "create"@, "For"@) {
            None => r matches Err(ExecError::InvalidMutationFormat { kind, name }) && kind@
                == "createAndLink"@ && name@ == field.name@,
            Some((et, pt)) => match spec_string_arg(*field, "parentId"@) {
                None => r matches Err(ExecError::MissingArgument(n)) && n@ == "parentId"@,
                Some(pid) => match spec_json_arg(*field, "data"@) {
                    None => r matches Err(ExecError::MissingArgument(n)) && n@ == "data"@,
                    Some(d) => match spec_parse_uuid(pid) {
                        None => r matches Err(ExecError::InvalidUuid { text: t, reason }) && t@ == pid && reason@ == spec_uuid_error_text(pid),
                        Some(p) => r matches Ok(plan) && plan.entity_type@ == et && plan.parent_type@
                            == pt && plan.parent_id == p && plan.data@ == d && crate::ws_protocol::opt_view(
                            plan.link_type,
                        ) == spec_string_arg(*field, "linkType"@),
                    },
                },
            },
        },
{
    let (entity_type, parent_type) = parse_create_and_link_name(field.name.as_str())?;
    let parent = required_string_arg(field, "parentId")?;
    let data = required_json_arg(field, "data")?;
    let link_type = get_string_arg(field, "linkType");
    let parent_id = uuid_arg(parent)?;
    Ok(CreateAndLinkPlan { entity_type, parent_type, parent_id, data, link_type })
}

/// What `link<Source>To<Target>` and `unlink<Source>From<Target>` ask for.
#[derive(Debug)]
pub struct RelationPlan {
    pub source_type: String,
    pub target_type: String,
    pub source_id: u128,
    pub target_id: u128,
    pub link_type: Option<String>,
    pub metadata: Option<JsonValue>,
}

/// The plan of a link or unlink mutation before the link type is settled.
pub open spec fn spec_relation_plan(
    field: GqlField,
    prefix: Seq<char>,
    sep: Seq<char>,
    kind: Seq<char>,
    r: Result<RelationPlan, ExecError>,
) -> bool {
    match spec_relation_types(field.name@, prefix, sep) {
        None => r matches Err(ExecError::InvalidMutationFormat { kind: k, name }) && k@ == kind
            && name@ == field.name@,
        Some((st, tt)) => match (
            spec_string_arg(field, "sourceId"@),
            spec_string_arg(field, "targetId"@),
        ) {
            (None, _) => r matches Err(ExecError::MissingArgument(n)) && n@ == "sourceId"@,
            (Some(_), None) => r matches Err(ExecError::MissingArgument(n)) && n@ == "targetId"@,
            (Some(s), Some(t)) => match (spec_parse_uuid(s), spec_parse_uuid(t)) {
                (None, _) => r matches Err(ExecError::InvalidUuid { text: x, reason }) && x@ == s && reason@ == spec_uuid_error_text(s),
                (Some(_), None) => r matches Err(ExecError::InvalidUuid { text: x, reason }) && x@ == t && reason@ == spec_uuid_error_text(t),
                (Some(a), Some(b)) => r matches Ok(p) && p.source_type@ == st && p.target_type@
                    == tt && p.source_id == a && p.target_id == b
                    && crate::ws_protocol::opt_view(p.link_type) == spec_string_arg(
                    field,
                    "linkType"@,
                ) && match (p.metadata, spec_json_arg(field, "metadata"@)) {
                    (Some(m), Some(j)) => m@ == j,
                    (None, None) => true,
                    _ => false,
                },
            },
        },
    }
}

fn plan_relation(field: &GqlField, is_link: bool) -> (r: Result<RelationPlan, ExecError>)
    ensures
        is_link ==> spec_relation_plan(*field, "link"@, "To"@, "link"@, r),
        !is_link ==> spec_relation_plan(*field, "unlink"@, "From"@, "unlink"@, r),
{
    let (source_type, target_type) = if is_link {
        parse_link_name(field.name.as_str())?
    } else {
        parse_unlink_name(field.name.as_str())?
    };
    let source = required_string_arg(field, "sourceId")?;
    let target = required_string_arg(field, "targetId")?;
    let link_type = get_string_arg(field, "linkType");
    let source_id = uuid_arg(source)?;
    let target_id = uuid_arg(target)?;
    let metadata = get_json_arg(field, "metadata");
    Ok(RelationPlan { source_type, target_type, source_id, target_id, link_type, metadata })
}

/// `link<Source>To<Target>(sourceId, targetId, linkType, metadata)`.
pub fn plan_link_entities(field: &GqlField) -> (r: Result<RelationPlan, ExecError>)
    ensures
        spec_relation_plan(*field, "link"@, "To"@, "link"@, r),
{
    plan_relation(field, true)
}

/// `unlink<Source>From<Target>(sourceId, targetId, linkType)`.
pub fn plan_unlink_entities(field: &GqlField) -> (r: Result<RelationPlan, ExecError>)
    ensures
        spec_relation_plan(*field, "unlink"@, "From"@, "unlink"@, r),
{
    plan_relation(field, false)
}

// ---------------------------------------------------------------------------
// Entity fields
// ---------------------------------------------------------------------------

/// The identifier in the `id` member of an entity's JSON: the given
/// error when it is absent or not a string, a UUID error when malformed.
pub fn entity_id_of(entity: &JsonValue, missing: ExecError) -> (r: Result<u128, ExecError>)
    ensures
        match crate::json::spec_get(entity@, "id"@) {
            Some(JsonData::Str(s)) => match spec_parse_uuid(s) {
                Some(id) => r == Ok::<u128, ExecError>(id),
                None => r matches Err(ExecError::InvalidUuid { text: t, reason }) && t@ == s && reason@ == spec_uuid_error_text(s),
            },
            _ => r == Err::<u128, ExecError>(missing),
        },
{
    match crate::json::json_get(entity, "id") {
        Some(v) => match crate::json::json_as_str(v) {
            Some(s) => uuid_arg(owned(s)),
            None => Err(missing),
        },
        None => Err(missing),
    }
}

/// The fields of an entity can be resolved only when the entity is a JSON
/// object; anything else fails with "Entity is not an object".
pub fn check_entity_object(entity: &JsonValue) -> (r: Result<(), ExecError>)
    ensures
        r is Ok <==> entity is Object,
        r matches Err(e) ==> e is EntityNotObject,
{
    match entity {
        JsonValue::Object(_) => Ok(()),
        _ => Err(ExecError::EntityNotObject),
    }
}

/// Where the value of a selected field comes from.
#[derive(Debug)]
pub enum FieldStep {
    /// The entity's own data holds it.
    Own(JsonValue),
    /// It may be a relation: resolve it through the link definitions.
    Relation,
}

/// The first step of resolving a selected field of an entity: its own
/// value (under the field name, else under its snake_case form), else the
/// relation is to be tried.
pub fn field_step(entity: &JsonValue, field_name: &str) -> (r: FieldStep)
    ensures
        match crate::json::spec_get(entity@, field_name@) {
            Some(v) => r matches FieldStep::Own(x) && x@ == v,
            None => match crate::json::spec_get(entity@, spec_to_snake(field_name@)) {
                Some(v) => r matches FieldStep::Own(x) && x@ == v,
                None => r is Relation,
            },
        },
{
    match plain_field_value(entity, field_name) {
        Some(v) => FieldStep::Own(v),
        None => FieldStep::Relation,
    }
}

/// The value of a field that is not in the entity's own data: what the
/// relation resolved to, or `null` when no relation gave a value.
pub fn relation_or_null(relation: Option<JsonValue>) -> (r: JsonValue)
    ensures
        match relation {
            Some(v) => r@ == v@,
            None => r@ == JsonData::Null,
        },
{
    match relation {
        Some(v) => v,
        None => JsonValue::Null,
    }
}

/// The value of a selected field found in the entity's own data: under
/// the field name, else under its snake_case form. `None` when neither is
/// present (the field may then be a relation).
pub fn plain_field_value(entity: &JsonValue, field_name: &str) -> (r: Option<JsonValue>)
    ensures
        match crate::json::spec_get(entity@, field_name@) {
            Some(v) => r matches Some(x) && x@ == v,
            None => match crate::json::spec_get(entity@, spec_to_snake(field_name@)) {
                Some(v) => r matches Some(x) && x@ == v,
                None => r is None,
            },
        },
{
    match crate::json::json_get(entity, field_name) {
        Some(v) => Some(v.clone_value()),
        None => {
            let snake = camel_to_snake(field_name);
            match crate::json::json_get(entity, snake.as_str()) {
                Some(v) => Some(v.clone_value()),
                None => None,
            }
        },
    }
}

/// A relation a field may name: the link definition at `index`, seen from
/// its source (`forward`) or from its target.
#[derive(Clone, Copy, Debug, PartialEq, Eq, Structural)]
pub struct RelationRef {
    pub index: usize,
    pub forward: bool,
}

/// The relation the link definition gives the field, if any: forward when
/// the entity is the source and the field is the forward route name,
/// else reverse when the entity is the target and the field is the
/// reverse route name.
pub open spec fn spec_relation_of(l: LinkDefinition, entity_type: Seq<char>, field: Seq<char>) -> Option<bool> {
    if l.source_type@ == entity_type && l.forward_route_name@ == field {
        Some(true)
    } else if l.target_type@ == entity_type && l.reverse_route_name@ == field {
        Some(false)
    } else {
        None
    }
}

/// The relations a field of an entity type may resolve through, in
/// configuration order (the first that yields a value is used).
pub open spec fn spec_relation_candidates(links: Seq<LinkDefinition>, entity_type: Seq<char>, field: Seq<char>) -> Seq<
    (int, bool),
>
    decreases links.len(),
{
    if links.len() == 0 {
        Seq::empty()
    } else {
        let rest = spec_relation_candidates(links.drop_last(), entity_type, field);
        match spec_relation_of(links.last(), entity_type, field) {
            Some(fwd) => rest.push((links.len() - 1, fwd)),
            None => rest,
        }
    }
}

/// The link definitions through which a field of an entity may resolve.
pub fn relation_candidates(links: &[LinkDefinition], entity_type: &str, field_name: &str) -> (r: Vec<RelationRef>)
    ensures
        r@.map_values(|x: RelationRef| (x.index as int, x.forward)) == spec_relation_candidates(
            links@,
            entity_type@,
            field_name@,
        ),
{
    let mut out: Vec<RelationRef> = Vec::new();
    let mut i: usize = 0;
    assert(links@.subrange(0, 0) =~= Seq::<LinkDefinition>::empty());
    while i < links.len()
        invariant
            i <= links@.len(),
            out@.map_values(|x: RelationRef| (x.index as int, x.forward)) == spec_relation_candidates(
                links@.subrange(0, i as int),
                entity_type@,
                field_name@,
            ),
        decreases links@.len() - i,
    {
        let l = &links[i];
        assert(links@.subrange(0, i + 1).drop_last() =~= links@.subrange(0, i as int));
        assert(links@.subrange(0, i + 1).last() == *l);
        let ghost o0 = out@.map_values(|x: RelationRef| (x.index as int, x.forward));
        if str_eq(l.source_type.as_str(), entity_type) && str_eq(l.forward_route_name.as_str(), field_name) {
            out.push(RelationRef { index: i, forward: true });
            assert(out@.map_values(|x: RelationRef| (x.index as int, x.forward)) =~= o0.push((i as int, true)));
        } else if str_eq(l.target_type.as_str(), entity_type) && str_eq(l.reverse_route_name.as_str(), field_name) {
            out.push(RelationRef { index: i, forward: false });
            assert(out@.map_values(|x: RelationRef| (x.index as int, x.forward)) =~= o0.push((i as int, false)));
        }
        i = i + 1;
    }
    assert(links@.subrange(0, links@.len() as int) =~= links@);
    out
}

/// What a relation field yields once the fetches of one candidate are done.
#[derive(Debug)]
pub enum RelationStep {
    /// This candidate gives nothing: the next one is tried (when none is
    /// left, the field has no relation value).
    Next,
    /// A forward relation: the fetched targets, in link order, to resolve.
    Many(Vec<JsonValue>),
    /// A reverse relation: the fetched source, to resolve.
    One(JsonValue),
}

/// Content of fetch results (`None` for a failed fetch).
pub open spec fn spec_fetch_views(s: Seq<Option<JsonValue>>) -> Seq<Option<JsonData>> {
    s.map_values(|o: Option<JsonValue>| match o {
        Some(v) => Some(v@),
        None => None,
    })
}

/// The entities whose fetch succeeded, in order.
pub open spec fn spec_fetched(s: Seq<Option<JsonData>>) -> Seq<JsonData>
    decreases s.len(),
{
    if s.len() == 0 {
        Seq::empty()
    } else {
        let rest = spec_fetched(s.drop_last());
        match s.last() {
            Some(d) => rest.push(d),
            None => rest,
        }
    }
}

/// A forward relation after its fetches: without a fetcher for the target
/// type it gives nothing; with one, the targets whose fetch succeeded, in
/// the order of the links (a failed fetch is skipped).
pub fn forward_relation_step(has_fetcher: bool, fetched: Vec<Option<JsonValue>>) -> (r: RelationStep)
    ensures
        !has_fetcher ==> r is Next,
        has_fetcher ==> (r matches RelationStep::Many(v) && json_items_view(v@) == spec_fetched(
            spec_fetch_views(fetched@),
        )),
{
    if !has_fetcher {
        return RelationStep::Next;
    }
    let ghost fv = spec_fetch_views(fetched@);
    let mut out: Vec<JsonValue> = Vec::new();
    let mut i: usize = 0;
    assert(fv.subrange(0, 0) =~= Seq::<Option<JsonData>>::empty());
    while i < fetched.len()
        invariant
            fv == spec_fetch_views(fetched@),
            fv.len() == fetched@.len(),
            i <= fetched.len(),
            json_items_view(out@) == spec_fetched(fv.subrange(0, i as int)),
        decreases fetched.len() - i,
    {
        assert(fv.subrange(0, i + 1).drop_last() =~= fv.subrange(0, i as int));
        assert(fv.subrange(0, i + 1).last() == fv[i as int]);
        match &fetched[i] {
            Some(v) => {
                let c = v.clone_value();
                let ghost o0 = out@;
                out.push(c);
                assert(out@.drop_last() == o0);
            },
            None => {},
        }
        i = i + 1;
    }
    assert(fv.subrange(0, fetched@.len() as int) =~= fv);
    RelationStep::Many(out)
}

/// A reverse relation after its fetch: the source of the first link when
/// there is a link, a fetcher for the source type, and its fetch
/// succeeded; nothing otherwise.
pub fn reverse_relation_step(has_link: bool, has_fetcher: bool, fetched: Option<JsonValue>) -> (r:
    RelationStep)
    ensures
        (has_link && has_fetcher && fetched is Some) ==> (r matches RelationStep::One(e) && e@
            == fetched->0@),
        !(has_link && has_fetcher && fetched is Some) ==> r is Next,
{
    if has_link && has_fetcher {
        match fetched {
            Some(e) => RelationStep::One(e),
            None => RelationStep::Next,
        }
    } else {
        RelationStep::Next
    }
}

} // verus!
