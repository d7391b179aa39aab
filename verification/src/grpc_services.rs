//! The gRPC entity and link services: what each call checks before it
//! reaches the stores, in which order, what it answers when a check
//! fails, which event it publishes and what its response holds.
//!
//! The stores themselves, and the conversion between JSON and
//! `google.protobuf.Struct`, stay with the caller.

use vstd::prelude::*;
use crate::events::{EntityEvent, FrameworkEvent, LinkEvent};
use crate::ids::{
    parse_uuid, spec_parse_uuid, spec_uuid_error_text, spec_uuid_hyphenated, uuid_error_text,
    uuid_to_string,
};
use crate::json::{json_get, json_as_str, json_members_view, json_to_struct_fields, spec_get, spec_struct_fields, JsonData, JsonValue};
use crate::status::{Code, Status};
use crate::text::owned;
use crate::timestamp::Timestamp;

verus! {

// ---------------------------------------------------------------------------
// Requests
// ---------------------------------------------------------------------------

/// `GetEntity`: the entity type and the entity's id as text.
pub struct GetEntityRequest {
    pub entity_type: String,
    pub entity_id: String,
}

/// `ListEntities`: the entity type and the page asked for.
pub struct ListEntitiesRequest {
    pub entity_type: String,
    pub limit: i32,
    pub offset: i32,
}

/// `CreateEntity`: the entity type and its data, if any was sent.
pub struct CreateEntityRequest {
    pub entity_type: String,
    pub data: Option<JsonValue>,
}

/// `UpdateEntity`: the entity type, the id as text, and the new data.
pub struct UpdateEntityRequest {
    pub entity_type: String,
    pub entity_id: String,
    pub data: Option<JsonValue>,
}

/// `DeleteEntity`: the entity type and the id as text.
pub struct DeleteEntityRequest {
    pub entity_type: String,
    pub entity_id: String,
}

/// `CreateLink`: the link type, both ends as text, and optional metadata.
pub struct CreateLinkRequest {
    pub link_type: String,
    pub source_id: String,
    pub target_id: String,
    pub metadata: Option<JsonValue>,
}

/// `GetLink` and `DeleteLink`: the link's id as text.
pub struct LinkIdRequest {
    pub link_id: String,
}

/// `FindLinksBySource` / `FindLinksByTarget`: the entity's id as text and
/// optional filters (empty means none).
pub struct FindLinksRequest {
    pub entity_id: String,
    pub link_type: String,
    pub entity_type: String,
}

// ---------------------------------------------------------------------------
// Refusals
// ---------------------------------------------------------------------------

/// The message refusing an identifier that is not a UUID:
/// `Invalid <field>: <why>`.
pub open spec fn spec_invalid_id_message(field: Seq<char>, text: Seq<char>) -> Seq<char> {
    "Invalid "@ + field + ": "@ + spec_uuid_error_text(text)
}

/// The identifier held by `text`, or `INVALID_ARGUMENT` naming the field.
pub open spec fn spec_id_field(text: Seq<char>, field: Seq<char>, r: Result<u128, Status>) -> bool {
    match spec_parse_uuid(text) {
        Some(id) => r == Ok::<u128, Status>(id),
        None => r matches Err(s) && s.code == Code::InvalidArgument && s.message@
            == spec_invalid_id_message(field, text),
    }
}

/// Parses the identifier of a request field.
pub fn parse_id_field(text: &str, field: &str) -> (r: Result<u128, Status>)
    ensures
        spec_id_field(text@, field@, r),
{
    match parse_uuid(text) {
        Some(id) => Ok(id),
        None => {
            let why = uuid_error_text(text);
            let mut m = owned("Invalid ");
            m.append(field);
            m.append(": ");
            m.append(why.as_str());
            Err(Status { code: Code::InvalidArgument, message: m })
        },
    }
}

/// `NOT_FOUND "Entity type '<t>' not registered"`.
pub open spec fn spec_not_registered_message(entity_type: Seq<char>) -> Seq<char> {
    "Entity type '"@ + entity_type + "' not registered"@
}

/// The refusal of a call on an entity type without fetcher or creator.
pub fn not_registered(entity_type: &str) -> (r: Status)
    ensures
        r.code == Code::NotFound,
        r.message@ == spec_not_registered_message(entity_type@),
{
    let mut m = owned("Entity type '");
    m.append(entity_type);
    m.append("' not registered");
    Status { code: Code::NotFound, message: m }
}

/// `NOT_FOUND "Link '<id>' not found"`, with the id as the client sent it.
pub fn link_not_found(link_id: &str) -> (r: Status)
    ensures
        r.code == Code::NotFound,
        r.message@ == "Link '"@ + link_id@ + "' not found"@,
{
    let mut m = owned("Link '");
    m.append(link_id);
    m.append("' not found");
    Status { code: Code::NotFound, message: m }
}

/// `INTERNAL "<what failed>: <the store's error>"`.
pub fn internal_failure(what: &str, detail: &str) -> (r: Status)
    ensures
        r.code == Code::Internal,
        r.message@ == what@ + ": "@ + detail@,
{
    let mut m = owned(what);
    m.append(": ");
    m.append(detail);
    Status { code: Code::Internal, message: m }
}

// ---------------------------------------------------------------------------
// Entity service
// ---------------------------------------------------------------------------

/// An id check then a registration check: the id is checked first.
pub open spec fn spec_id_then_registered(
    text: Seq<char>,
    field: Seq<char>,
    entity_type: Seq<char>,
    registered: bool,
    r: Result<u128, Status>,
) -> bool {
    match spec_parse_uuid(text) {
        None => spec_id_field(text, field, r),
        Some(id) => if registered {
            r == Ok::<u128, Status>(id)
        } else {
            r matches Err(s) && s.code == Code::NotFound && s.message@
                == spec_not_registered_message(entity_type)
        },
    }
}

fn id_then_registered(text: &str, field: &str, entity_type: &str, registered: bool) -> (r: Result<u128, Status>)
    ensures
        spec_id_then_registered(text@, field@, entity_type@, registered, r),
{
    let id = parse_id_field(text, field)?;
    if registered {
        Ok(id)
    } else {
        Err(not_registered(entity_type))
    }
}

/// `GetEntity`: the id to fetch. The id is checked before the entity
/// type (`registered`: a fetcher exists for it).
pub fn plan_get_entity(req: &GetEntityRequest, registered: bool) -> (r: Result<u128, Status>)
    ensures
        spec_id_then_registered(req.entity_id@, "entity_id"@, req.entity_type@, registered, r),
{
    id_then_registered(req.entity_id.as_str(), "entity_id", req.entity_type.as_str(), registered)
}

/// A positive page bound is passed on; zero or less means none.
pub open spec fn spec_positive(v: i32) -> Option<i32> {
    if v > 0 {
        Some(v)
    } else {
        None
    }
}

/// `ListEntities`: the limit and offset to list with, when a fetcher
/// exists for the entity type.
pub fn plan_list_entities(req: &ListEntitiesRequest, registered: bool) -> (r: Result<(Option<i32>, Option<i32>), Status>)
    ensures
        registered ==> r == Ok::<(Option<i32>, Option<i32>), Status>(
            (spec_positive(req.limit), spec_positive(req.offset)),
        ),
        !registered ==> (r matches Err(s) && s.code == Code::NotFound && s.message@
            == spec_not_registered_message(req.entity_type@)),
{
    if !registered {
        return Err(not_registered(req.entity_type.as_str()));
    }
    let limit = if req.limit > 0 {
        Some(req.limit)
    } else {
        None
    };
    let offset = if req.offset > 0 {
        Some(req.offset)
    } else {
        None
    };
    Ok((limit, offset))
}

/// The `total` of a listing: the number of entities returned, as the
/// message's 32-bit integer (wrapping as `as i32` does).
pub fn list_total(count: usize) -> (r: i32)
    ensures
        r == count as i32,
{
    count as i32
}

/// The data of a create or update call: what was sent, or an empty
/// object.
pub open spec fn spec_request_data(data: Option<JsonValue>) -> JsonData {
    match data {
        Some(d) => d@,
        None => JsonData::Object(Seq::empty()),
    }
}

fn request_data(data: Option<JsonValue>) -> (r: JsonValue)
    ensures
        r@ == spec_request_data(data),
{
    match data {
        Some(d) => d,
        None => {
            let m: Vec<(String, JsonValue)> = Vec::new();
            assert(json_members_view(m@) =~= Seq::<(Seq<char>, JsonData)>::empty());
            JsonValue::Object(m)
        },
    }
}

/// `CreateEntity`: the data to create from, when a creator exists.
pub fn plan_create_entity(req: CreateEntityRequest, registered: bool) -> (r: Result<JsonValue, Status>)
    ensures
        registered ==> (r matches Ok(d) && d@ == spec_request_data(req.data)),
        !registered ==> (r matches Err(s) && s.code == Code::NotFound && s.message@
            == spec_not_registered_message(req.entity_type@)),
{
    if !registered {
        return Err(not_registered(req.entity_type.as_str()));
    }
    Ok(request_data(req.data))
}

/// The id a created entity reports: its `id` member, when that is a
/// string holding a UUID.
pub open spec fn spec_created_id(result: JsonData) -> Option<u128> {
    match spec_get(result, "id"@) {
        Some(JsonData::Str(s)) => spec_parse_uuid(s),
        _ => None,
    }
}

/// The event announcing a created entity: published only when the
/// created entity reports a UUID as its `id`.
pub fn created_entity_event(entity_type: &str, result: &JsonValue) -> (r: Option<FrameworkEvent>)
    ensures
        match spec_created_id(result@) {
            Some(id) => r matches Some(FrameworkEvent::Entity(
                EntityEvent::Created { entity_type: t, entity_id, data },
            )) && t@ == entity_type@ && entity_id == id && data@ == result@,
            None => r is None,
        },
{
    match json_get(result, "id") {
        Some(v) => match json_as_str(v) {
            Some(s) => match parse_uuid(s) {
                Some(id) => Some(
                    FrameworkEvent::Entity(
                        EntityEvent::Created {
                            entity_type: owned(entity_type),
                            entity_id: id,
                            data: result.clone_value(),
                        },
                    ),
                ),
                None => None,
            },
            None => None,
        },
        None => None,
    }
}

/// `UpdateEntity`: the id and the data, the id checked before the entity
/// type.
pub fn plan_update_entity(req: UpdateEntityRequest, registered: bool) -> (r: Result<(u128, JsonValue), Status>)
    ensures
        ({
            let checked = match r {
                Ok((id, _)) => Ok::<u128, Status>(id),
                Err(s) => Err(s),
            };
            spec_id_then_registered(req.entity_id@, "entity_id"@, req.entity_type@, registered, checked)
        }),
        r matches Ok((_, d)) ==> d@ == spec_request_data(req.data),
{
    let id = id_then_registered(req.entity_id.as_str(), "entity_id", req.entity_type.as_str(), registered)?;
    Ok((id, request_data(req.data)))
}

/// The event announcing an updated entity.
pub fn updated_entity_event(entity_type: &str, entity_id: u128, result: &JsonValue) -> (r: FrameworkEvent)
    ensures
        r matches FrameworkEvent::Entity(EntityEvent::Updated { entity_type: t, entity_id: i, data })
            && t@ == entity_type@ && i == entity_id && data@ == result@,
{
    FrameworkEvent::Entity(
        EntityEvent::Updated {
            entity_type: owned(entity_type),
            entity_id,
            data: result.clone_value(),
        },
    )
}

/// `DeleteEntity`: the id to delete, checked before the entity type.
pub fn plan_delete_entity(req: &DeleteEntityRequest, registered: bool) -> (r: Result<u128, Status>)
    ensures
        spec_id_then_registered(req.entity_id@, "entity_id"@, req.entity_type@, registered, r),
{
    id_then_registered(req.entity_id.as_str(), "entity_id", req.entity_type.as_str(), registered)
}

/// The event announcing a deleted entity.
pub fn deleted_entity_event(entity_type: &str, entity_id: u128) -> (r: FrameworkEvent)
    ensures
        r matches FrameworkEvent::Entity(EntityEvent::Deleted { entity_type: t, entity_id: i })
            && t@ == entity_type@ && i == entity_id,
{
    FrameworkEvent::Entity(EntityEvent::Deleted { entity_type: owned(entity_type), entity_id })
}

/// The data of an entity response: the members of the entity when it
/// is an object, none otherwise.
pub fn entity_response_data(entity: &JsonValue) -> (r: Vec<(String, JsonValue)>)
    ensures
        json_members_view(r@) == spec_struct_fields(entity@),
{
    json_to_struct_fields(entity)
}

// ---------------------------------------------------------------------------
// Link service
// ---------------------------------------------------------------------------

/// A stored link, as the link service returns it.
pub struct LinkRecord {
    pub id: u128,
    pub link_type: String,
    pub source_id: u128,
    pub target_id: u128,
    pub metadata: Option<JsonValue>,
    pub created_at: Timestamp,
    pub updated_at: Timestamp,
}

/// A link as the link service answers it, with the data of both ends when
/// they could be fetched.
pub struct LinkResponse {
    pub id: String,
    pub link_type: String,
    pub source_id: String,
    pub target_id: String,
    pub metadata: Option<Vec<(String, JsonValue)>>,
    pub created_at: String,
    pub updated_at: String,
    pub source_data: Option<Vec<(String, JsonValue)>>,
    pub target_data: Option<Vec<(String, JsonValue)>>,
}

/// An optional JSON value turned into optional `Struct` members.
pub open spec fn spec_opt_struct(v: Option<JsonData>, r: Option<Vec<(String, JsonValue)>>) -> bool {
    match v {
        Some(d) => r matches Some(m) && json_members_view(m@) == spec_struct_fields(d),
        None => r is None,
    }
}

fn opt_struct(v: &Option<JsonValue>) -> (r: Option<Vec<(String, JsonValue)>>)
    ensures
        spec_opt_struct(
            match v {
                Some(j) => Some(j@),
                None => None,
            },
            r,
        ),
{
    match v {
        Some(j) => Some(json_to_struct_fields(j)),
        None => None,
    }
}

/// The response for a link: ids as hyphenated UUIDs, times in RFC 3339,
/// metadata and end data as `Struct` members.
pub fn link_to_response(
    link: &LinkRecord,
    source_data: &Option<JsonValue>,
    target_data: &Option<JsonValue>,
) -> (r: LinkResponse)
    ensures
        r.id@ == spec_uuid_hyphenated(link.id),
        r.link_type@ == link.link_type@,
        r.source_id@ == spec_uuid_hyphenated(link.source_id),
        r.target_id@ == spec_uuid_hyphenated(link.target_id),
        spec_opt_struct(
            match link.metadata {
                Some(j) => Some(j@),
                None => None,
            },
            r.metadata,
        ),
        r.created_at@ == link.created_at.spec_text(),
        r.updated_at@ == link.updated_at.spec_text(),
        spec_opt_struct(
            match *source_data {
                Some(j) => Some(j@),
                None => None,
            },
            r.source_data,
        ),
        spec_opt_struct(
            match *target_data {
                Some(j) => Some(j@),
                None => None,
            },
            r.target_data,
        ),
{
    LinkResponse {
        id: uuid_to_string(link.id),
        link_type: link.link_type.clone(),
        source_id: uuid_to_string(link.source_id),
        target_id: uuid_to_string(link.target_id),
        metadata: opt_struct(&link.metadata),
        created_at: link.created_at.to_rfc3339(),
        updated_at: link.updated_at.to_rfc3339(),
        source_data: opt_struct(source_data),
        target_data: opt_struct(target_data),
    }
}

/// `CreateLink`: both ends, the source checked first.
pub fn plan_create_link(req: &CreateLinkRequest) -> (r: Result<(u128, u128), Status>)
    ensures
        match spec_parse_uuid(req.source_id@) {
            None => {
                let checked = match r {
                    Ok((s, _)) => Ok::<u128, Status>(s),
                    Err(e) => Err(e),
                };
                spec_id_field(req.source_id@, "source_id"@, checked)
            },
            Some(s) => {
                let checked = match r {
                    Ok((_, t)) => Ok::<u128, Status>(t),
                    Err(e) => Err(e),
                };
                &&& spec_id_field(req.target_id@, "target_id"@, checked)
                &&& r matches Ok((s2, _)) ==> s2 == s
            },
        },
{
    let source = parse_id_field(req.source_id.as_str(), "source_id")?;
    let target = parse_id_field(req.target_id.as_str(), "target_id")?;
    Ok((source, target))
}

/// The event announcing a created link: the link type asked for, the
/// stored link's id and metadata, and both ends.
pub fn created_link_event(link_type: &str, created: &LinkRecord, source_id: u128, target_id: u128) -> (r: FrameworkEvent)
    ensures
        r matches FrameworkEvent::Link(
            LinkEvent::Created { link_type: t, link_id, source_id: s, target_id: g, metadata },
        ) && t@ == link_type@ && link_id == created.id && s == source_id && g == target_id && (
        match (metadata, created.metadata) {
            (Some(a), Some(b)) => a@ == b@,
            (None, None) => true,
            _ => false,
        }),
{
    let metadata = match &created.metadata {
        Some(m) => Some(m.clone_value()),
        None => None,
    };
    FrameworkEvent::Link(
        LinkEvent::Created {
            link_type: owned(link_type),
            link_id: created.id,
            source_id,
            target_id,
            metadata,
        },
    )
}

/// `GetLink` and `DeleteLink`: the link's id.
pub fn plan_link_id(req: &LinkIdRequest) -> (r: Result<u128, Status>)
    ensures
        spec_id_field(req.link_id@, "link_id"@, r),
{
    parse_id_field(req.link_id.as_str(), "link_id")
}

/// An optional filter: an empty string means none.
pub open spec fn spec_optional_filter(s: Seq<char>) -> Option<Seq<char>> {
    if s.len() == 0 {
        None
    } else {
        Some(s)
    }
}

fn optional_filter(s: &str) -> (r: Option<String>)
    ensures
        match spec_optional_filter(s@) {
            Some(v) => r matches Some(x) && x@ == v,
            None => r is None,
        },
{
    if s.unicode_len() == 0 {
        None
    } else {
        Some(owned(s))
    }
}

/// `FindLinksBy*`: the entity's id, the link type filter and the entity
/// type filter.
pub fn plan_find_links(req: &FindLinksRequest) -> (r: Result<(u128, Option<String>, Option<String>), Status>)
    ensures
        ({
            let checked = match r {
                Ok((id, _, _)) => Ok::<u128, Status>(id),
                Err(e) => Err(e),
            };
            spec_id_field(req.entity_id@, "entity_id"@, checked)
        }),
        r matches Ok((_, lt, et)) ==> (match spec_optional_filter(req.link_type@) {
            Some(v) => lt matches Some(x) && x@ == v,
            None => lt is None,
        }) && (match spec_optional_filter(req.entity_type@) {
            Some(v) => et matches Some(x) && x@ == v,
            None => et is None,
        }),
{
    let id = parse_id_field(req.entity_id.as_str(), "entity_id")?;
    Ok((id, optional_filter(req.link_type.as_str()), optional_filter(req.entity_type.as_str())))
}

/// The event announcing a deleted link: published only when the link
/// existed before the deletion, with its type and ends.
pub fn deleted_link_event(link_id: u128, existing: &Option<LinkRecord>) -> (r: Option<FrameworkEvent>)
    ensures
        match *existing {
            Some(l) => r matches Some(FrameworkEvent::Link(
                LinkEvent::Deleted { link_type, link_id: i, source_id, target_id },
            )) && link_type@ == l.link_type@ && i == link_id && source_id == l.source_id
                && target_id == l.target_id,
            None => r is None,
        },
{
    match existing {
        Some(l) => Some(
            FrameworkEvent::Link(
                LinkEvent::Deleted {
                    link_type: l.link_type.clone(),
                    link_id,
                    source_id: l.source_id,
                    target_id: l.target_id,
                },
            ),
        ),
        None => None,
    }
}

} // verus!
