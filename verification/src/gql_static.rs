//! The async-graphql schemas (the static one with its generic `Entity`
//! and `Link` objects, and the dynamic one answering raw JSON): the
//! objects built from fetched JSON and stored links, and the checks their
//! resolvers make before reaching the stores.

use vstd::prelude::*;
use crate::grpc_services::LinkRecord;
use crate::ids::{parse_uuid, spec_parse_uuid, spec_uuid_error_text, spec_uuid_hyphenated, uuid_error_text, uuid_to_string};
use crate::json::{
    json_as_str, json_get, json_members_view, json_str, lemma_lookup_at_apart, push_member, spec_get, JsonData,
    JsonValue,
};
use crate::sse::{opt_json, spec_opt_json};
use crate::text::owned;

verus! {

/// An entity as the static schema exposes it: the common fields read from
/// its JSON, and the JSON itself.
pub struct Entity {
    pub id: String,
    pub entity_type: String,
    pub name: String,
    pub created_at: String,
    pub updated_at: String,
    pub deleted_at: Option<String>,
    pub status: String,
    pub data: JsonValue,
}

/// A link as the static schema exposes it.
pub struct Link {
    pub id: String,
    pub source_id: String,
    pub target_id: String,
    pub link_type: String,
    pub metadata: JsonValue,
    pub created_at: String,
    pub target: Option<Entity>,
    pub source: Option<Entity>,
}

/// The text of a string member of a JSON object, if there is one.
pub open spec fn spec_str_member(v: JsonData, key: Seq<char>) -> Option<Seq<char>> {
    match spec_get(v, key) {
        Some(JsonData::Str(s)) => Some(s),
        _ => None,
    }
}

/// The text of a string member, or the empty string.
pub open spec fn spec_str_member_or_empty(v: JsonData, key: Seq<char>) -> Seq<char> {
    match spec_str_member(v, key) {
        Some(s) => s,
        None => Seq::empty(),
    }
}

fn str_member(v: &JsonValue, key: &str) -> (r: Option<String>)
    ensures
        match spec_str_member(v@, key@) {
            Some(s) => r matches Some(x) && x@ == s,
            None => r is None,
        },
{
    match json_get(v, key) {
        Some(m) => match json_as_str(m) {
            Some(s) => Some(owned(s)),
            None => None,
        },
        None => None,
    }
}

fn str_member_or_empty(v: &JsonValue, key: &str) -> (r: String)
    ensures
        r@ == spec_str_member_or_empty(v@, key@),
{
    match str_member(v, key) {
        Some(s) => s,
        None => String::new(),
    }
}

/// The entity for fetched JSON: `id`, `type`, `name`, `created_at`,
/// `updated_at` and `status` read as strings (empty when absent or not a
/// string), `deleted_at` only when it is a string, and the JSON kept whole.
pub fn entity_from_json(value: JsonValue) -> (r: Entity)
    ensures
        r.id@ == spec_str_member_or_empty(value@, "id"@),
        r.entity_type@ == spec_str_member_or_empty(value@, "type"@),
        r.name@ == spec_str_member_or_empty(value@, "name"@),
        r.created_at@ == spec_str_member_or_empty(value@, "created_at"@),
        r.updated_at@ == spec_str_member_or_empty(value@, "updated_at"@),
        match spec_str_member(value@, "deleted_at"@) {
            Some(s) => r.deleted_at matches Some(x) && x@ == s,
            None => r.deleted_at is None,
        },
        r.status@ == spec_str_member_or_empty(value@, "status"@),
        r.data@ == value@,
{
    Entity {
        id: str_member_or_empty(&value, "id"),
        entity_type: str_member_or_empty(&value, "type"),
        name: str_member_or_empty(&value, "name"),
        created_at: str_member_or_empty(&value, "created_at"),
        updated_at: str_member_or_empty(&value, "updated_at"),
        deleted_at: str_member(&value, "deleted_at"),
        status: str_member_or_empty(&value, "status"),
        data: value,
    }
}

/// The metadata a link shows: its own, or the empty object.
pub open spec fn spec_link_metadata(m: Option<JsonValue>) -> JsonData {
    match m {
        Some(j) => j@,
        None => JsonData::Object(Seq::empty()),
    }
}

/// The link object for a stored link, without its ends.
pub fn link_from_record(link: &LinkRecord) -> (r: Link)
    ensures
        r.id@ == spec_uuid_hyphenated(link.id),
        r.source_id@ == spec_uuid_hyphenated(link.source_id),
        r.target_id@ == spec_uuid_hyphenated(link.target_id),
        r.link_type@ == link.link_type@,
        r.metadata@ == spec_link_metadata(link.metadata),
        r.created_at@ == link.created_at.spec_text(),
        r.target is None,
        r.source is None,
{
    let metadata = match &link.metadata {
        Some(m) => m.clone_value(),
        None => {
            let v: Vec<(String, JsonValue)> = Vec::new();
            assert(json_members_view(v@) =~= Seq::<(Seq<char>, JsonData)>::empty());
            JsonValue::Object(v)
        },
    };
    Link {
        id: uuid_to_string(link.id),
        source_id: uuid_to_string(link.source_id),
        target_id: uuid_to_string(link.target_id),
        link_type: link.link_type.clone(),
        metadata,
        created_at: link.created_at.to_rfc3339(),
        target: None,
        source: None,
    }
}

/// The identifier held by `text`, or the resolver error
/// `Invalid <what>UUID: <why>`.
pub open spec fn spec_uuid_or_error(text: Seq<char>, what: Seq<char>, r: Result<u128, String>) -> bool {
    match spec_parse_uuid(text) {
        Some(id) => r == Ok::<u128, String>(id),
        None => r matches Err(m) && m@ == "Invalid "@ + what + "UUID: "@ + spec_uuid_error_text(text),
    }
}

/// Parses an id argument; `what` qualifies the error (`""`, `"source "`,
/// `"target "`).
pub fn uuid_or_error(text: &str, what: &str) -> (r: Result<u128, String>)
    ensures
        spec_uuid_or_error(text@, what@, r),
{
    match parse_uuid(text) {
        Some(id) => Ok(id),
        None => {
            let why = uuid_error_text(text);
            let mut m = owned("Invalid ");
            m.append(what);
            m.append("UUID: ");
            m.append(why.as_str());
            Err(m)
        },
    }
}

/// `entity(id, entityType)`: with no fetcher for the type the answer is
/// null before the id is looked at; otherwise the id to fetch, or the
/// error for a malformed id.
pub fn plan_entity_lookup(id: &str, registered: bool) -> (r: Result<Option<u128>, String>)
    ensures
        !registered ==> r == Ok::<Option<u128>, String>(None),
        registered ==> ({
            let checked = match r {
                Ok(Some(x)) => Ok::<u128, String>(x),
                Ok(None) => Ok::<u128, String>(0),
                Err(m) => Err(m),
            };
            &&& spec_uuid_or_error(id@, ""@, checked)
            &&& r matches Ok(o) ==> o is Some
        }),
{
    if !registered {
        return Ok(None);
    }
    let uuid = uuid_or_error(id, "")?;
    Ok(Some(uuid))
}

/// `createLink`: both ends, the source checked first, and the metadata to
/// store (the empty object when none was given).
pub fn plan_static_create_link(source_id: &str, target_id: &str, metadata: Option<JsonValue>) -> (r: Result<(u128, u128, JsonValue), String>)
    ensures
        match spec_parse_uuid(source_id@) {
            None => {
                let checked = match r {
                    Ok((s, _, _)) => Ok::<u128, String>(s),
                    Err(m) => Err(m),
                };
                spec_uuid_or_error(source_id@, "source "@, checked)
            },
            Some(s) => {
                let checked = match r {
                    Ok((_, t, _)) => Ok::<u128, String>(t),
                    Err(m) => Err(m),
                };
                &&& spec_uuid_or_error(target_id@, "target "@, checked)
                &&& r matches Ok((s2, _, _)) ==> s2 == s
            },
        },
        r matches Ok((_, _, m)) ==> m@ == spec_link_metadata(metadata),
{
    let s = uuid_or_error(source_id, "source ")?;
    let t = uuid_or_error(target_id, "target ")?;
    let m = match metadata {
        Some(m) => m,
        None => {
            let v: Vec<(String, JsonValue)> = Vec::new();
            assert(json_members_view(v@) =~= Seq::<(Seq<char>, JsonData)>::empty());
            JsonValue::Object(v)
        },
    };
    Ok((s, t, m))
}


// ---------------------------------------------------------------------------
// The dynamic schema
// ---------------------------------------------------------------------------

/// `Unknown entity type: <t>`.
pub open spec fn spec_unknown_type_message(entity_type: Seq<char>) -> Seq<char> {
    "Unknown entity type: "@ + entity_type
}

/// The resolver error for an entity type with no fetcher or creator.
pub fn unknown_entity_type(entity_type: &str) -> (r: String)
    ensures
        r@ == spec_unknown_type_message(entity_type@),
{
    let mut m = owned("Unknown entity type: ");
    m.append(entity_type);
    m
}

/// A call on an entity type: refused unless a fetcher (or creator) is
/// registered for it.
pub fn require_entity_type(entity_type: &str, registered: bool) -> (r: Result<(), String>)
    ensures
        registered ==> r is Ok,
        !registered ==> (r matches Err(m) && m@ == spec_unknown_type_message(entity_type@)),
{
    if registered {
        Ok(())
    } else {
        Err(unknown_entity_type(entity_type))
    }
}

/// A call on one entity (`entity`, `updateEntity`, `deleteEntity`): the
/// id is checked first, then the entity type.
pub fn plan_dynamic_entity_call(id: &str, entity_type: &str, registered: bool) -> (r: Result<u128, String>)
    ensures
        match spec_parse_uuid(id@) {
            None => spec_uuid_or_error(id@, ""@, r),
            Some(x) => if registered {
                r == Ok::<u128, String>(x)
            } else {
                r matches Err(m) && m@ == spec_unknown_type_message(entity_type@)
            },
        },
{
    let uuid = uuid_or_error(id, "")?;
    require_entity_type(entity_type, registered)?;
    Ok(uuid)
}

/// The JSON a link is answered with by the dynamic schema.
pub open spec fn spec_link_json(link: LinkRecord) -> JsonData {
    JsonData::Object(
        seq![
            ("id"@, JsonData::Str(spec_uuid_hyphenated(link.id))),
            ("sourceId"@, JsonData::Str(spec_uuid_hyphenated(link.source_id))),
            ("targetId"@, JsonData::Str(spec_uuid_hyphenated(link.target_id))),
            ("linkType"@, JsonData::Str(link.link_type@)),
            ("metadata"@, spec_opt_json(link.metadata)),
            ("createdAt"@, JsonData::Str(link.created_at.spec_text())),
        ],
    )
}

/// A stored link as the dynamic schema answers it (`metadata` is `null`
/// when the link has none).
pub fn link_json(link: &LinkRecord) -> (r: JsonValue)
    ensures
        r@ == spec_link_json(*link),
{
    let mut m: Vec<(String, JsonValue)> = Vec::new();
    assert(json_members_view(m@) == Seq::<(Seq<char>, JsonData)>::empty());
    push_member(&mut m, "id", JsonValue::String(uuid_to_string(link.id)));
    push_member(&mut m, "sourceId", JsonValue::String(uuid_to_string(link.source_id)));
    push_member(&mut m, "targetId", JsonValue::String(uuid_to_string(link.target_id)));
    push_member(&mut m, "linkType", json_str(link.link_type.as_str()));
    push_member(&mut m, "metadata", opt_json(&link.metadata));
    push_member(&mut m, "createdAt", JsonValue::String(link.created_at.to_rfc3339()));
    assert(json_members_view(m@) == seq![
        ("id"@, JsonData::Str(spec_uuid_hyphenated(link.id))),
        ("sourceId"@, JsonData::Str(spec_uuid_hyphenated(link.source_id))),
        ("targetId"@, JsonData::Str(spec_uuid_hyphenated(link.target_id))),
        ("linkType"@, JsonData::Str(link.link_type@)),
        ("metadata"@, spec_opt_json(link.metadata)),
        ("createdAt"@, JsonData::Str(link.created_at.spec_text())),
    ]);
    JsonValue::Object(m)
}

/// The JSON of a stored link names the link's own identifier and its own
/// endpoints, in the direction the link was made: `sourceId` is the text of
/// its source, `targetId` that of its target; `linkType` is its type and
/// `metadata` its metadata (`null` when it has none).
pub proof fn law_link_json_names_its_endpoints(link: LinkRecord)
    ensures
        spec_get(spec_link_json(link), "id"@) == Some(JsonData::Str(spec_uuid_hyphenated(link.id))),
        spec_get(spec_link_json(link), "sourceId"@) == Some(JsonData::Str(spec_uuid_hyphenated(link.source_id))),
        spec_get(spec_link_json(link), "targetId"@) == Some(JsonData::Str(spec_uuid_hyphenated(link.target_id))),
        spec_get(spec_link_json(link), "linkType"@) == Some(JsonData::Str(link.link_type@)),
        spec_get(spec_link_json(link), "metadata"@) == Some(
            match link.metadata {
                Some(m) => m@,
                None => JsonData::Null,
            },
        ),
{
    reveal_strlit("id");
    reveal_strlit("sourceId");
    reveal_strlit("targetId");
    reveal_strlit("linkType");
    reveal_strlit("metadata");
    let m = match spec_link_json(link) {
        JsonData::Object(m) => m,
        _ => Seq::empty(),
    };
    lemma_lookup_at_apart(m, "id"@, 0);
    lemma_lookup_at_apart(m, "sourceId"@, 1);
    lemma_lookup_at_apart(m, "targetId"@, 2);
    lemma_lookup_at_apart(m, "linkType"@, 3);
    lemma_lookup_at_apart(m, "metadata"@, 4);
}

} // verus!
