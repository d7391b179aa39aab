//! gRPC event streaming: the server-side filter of a `Subscribe` request and
//! the `EventResponse` message each event becomes.

use vstd::prelude::*;
use crate::events::{
    spec_action, spec_entity_id, spec_entity_type, spec_event_kind, spec_link_type, EntityEvent,
    EventEnvelope, FrameworkEvent, LinkEvent,
};
use crate::ids::{parse_uuid, spec_parse_uuid, spec_uuid_hyphenated, uuid_to_string};
use crate::json::{json_members_view, json_to_struct_fields, spec_struct_fields, JsonData, JsonValue};
use crate::text::{owned, str_eq};

verus! {

/// Filters of a `Subscribe` call. Every field is an AND condition; an
/// absent or empty field matches anything.
#[derive(Debug, Default)]
pub struct SubscribeRequest {
    pub entity_type: Option<String>,
    pub entity_id: Option<String>,
    pub event_type: Option<String>,
    pub kind: Option<String>,
    pub link_type: Option<String>,
}

/// The filter field is set to a non-empty value.
pub open spec fn is_set(f: Option<String>) -> bool {
    f matches Some(v) && v@.len() > 0
}

/// The event passes every set filter of the request.
pub open spec fn spec_subscribe_matches(e: FrameworkEvent, f: SubscribeRequest) -> bool {
    &&& is_set(f.kind) ==> spec_event_kind(e) == f.kind->0@
    &&& is_set(f.entity_type) ==> spec_entity_type(e) == Some(f.entity_type->0@)
    &&& is_set(f.entity_id) ==> (spec_parse_uuid(f.entity_id->0@) matches Some(id)
        && spec_entity_id(e) == Some(id))
    &&& is_set(f.event_type) ==> spec_action(e) == f.event_type->0@
    &&& is_set(f.link_type) ==> spec_link_type(e) == Some(f.link_type->0@)
}

fn is_set_exec(f: &Option<String>) -> (r: bool)
    ensures
        r == is_set(*f),
{
    match f {
        Some(v) => v.as_str().unicode_len() > 0,
        None => false,
    }
}

/// Check if an event matches the subscribe request filters.
pub fn matches_filter(event: &FrameworkEvent, filter: &SubscribeRequest) -> (r: bool)
    ensures
        r == spec_subscribe_matches(*event, *filter),
{
    if is_set_exec(&filter.kind) {
        let kind = filter.kind.as_ref().unwrap();
        if !str_eq(event.event_kind(), kind.as_str()) {
            return false;
        }
    }
    if is_set_exec(&filter.entity_type) {
        let et = filter.entity_type.as_ref().unwrap();
        match event.entity_type() {
            Some(t) => {
                if !str_eq(t, et.as_str()) {
                    return false;
                }
            },
            None => {
                return false;
            },
        }
    }
    if is_set_exec(&filter.entity_id) {
        let eid = filter.entity_id.as_ref().unwrap();
        match (parse_uuid(eid.as_str()), event.entity_id()) {
            (Some(a), Some(b)) => {
                if a != b {
                    return false;
                }
            },
            _ => {
                return false;
            },
        }
    }
    if is_set_exec(&filter.event_type) {
        let at = filter.event_type.as_ref().unwrap();
        if !str_eq(event.action(), at.as_str()) {
            return false;
        }
    }
    if is_set_exec(&filter.link_type) {
        let lt = filter.link_type.as_ref().unwrap();
        match extract_link_type(event) {
            Some(t) => {
                if !str_eq(t, lt.as_str()) {
                    return false;
                }
            },
            None => {
                return false;
            },
        }
    }
    true
}

/// Extract the link_type from an event, if it is a link event.
pub fn extract_link_type(event: &FrameworkEvent) -> (r: Option<&str>)
    ensures
        match r {
            Some(t) => spec_link_type(*event) == Some(t@),
            None => spec_link_type(*event) is None,
        },
{
    event.link_type()
}

/// The `EventResponse` message streamed to gRPC clients. `data` and
/// `metadata` are the fields of the `google.protobuf.Struct` sent.
#[derive(Debug)]
pub struct EventResponse {
    pub event_id: String,
    pub event_kind: String,
    pub event_type: String,
    pub entity_type: String,
    pub entity_id: String,
    pub link_type: String,
    pub source_id: String,
    pub target_id: String,
    pub data: Option<Vec<(String, JsonValue)>>,
    pub metadata: Option<Vec<(String, JsonValue)>>,
    pub timestamp: String,
    pub seq_no: u64,
}

/// Content of an optional struct's fields.
pub open spec fn spec_opt_fields(f: Option<Vec<(String, JsonValue)>>) -> Option<
    Seq<(Seq<char>, JsonData)>,
> {
    match f {
        Some(v) => Some(json_members_view(v@)),
        None => None,
    }
}

/// What the response of an envelope says, field by field.
pub open spec fn spec_event_response(env: EventEnvelope, r: EventResponse) -> bool {
    let e = env.event;
    &&& r.event_id@ == spec_uuid_hyphenated(env.id)
    &&& r.event_kind@ == spec_event_kind(e)
    &&& r.event_type@ == spec_action(e)
    &&& r.timestamp@ == env.timestamp.spec_text()
    &&& r.seq_no == (match env.seq_no {
        Some(s) => s,
        None => 0u64,
    })
    &&& match e {
        FrameworkEvent::Entity(EntityEvent::Created { entity_type, entity_id, data })
        | FrameworkEvent::Entity(EntityEvent::Updated { entity_type, entity_id, data }) => {
            &&& r.entity_type@ == entity_type@
            &&& r.entity_id@ == spec_uuid_hyphenated(entity_id)
            &&& r.link_type@.len() == 0 && r.source_id@.len() == 0 && r.target_id@.len() == 0
            &&& spec_opt_fields(r.data) == Some(spec_struct_fields(data@))
            &&& r.metadata is None
        },
        FrameworkEvent::Entity(EntityEvent::Deleted { entity_type, entity_id }) => {
            &&& r.entity_type@ == entity_type@
            &&& r.entity_id@ == spec_uuid_hyphenated(entity_id)
            &&& r.link_type@.len() == 0 && r.source_id@.len() == 0 && r.target_id@.len() == 0
            &&& r.data is None
            &&& r.metadata is None
        },
        FrameworkEvent::Link(LinkEvent::Created { link_type, link_id, source_id, target_id, metadata }) => {
            &&& r.entity_type@.len() == 0
            &&& r.entity_id@ == spec_uuid_hyphenated(link_id)
            &&& r.link_type@ == link_type@
            &&& r.source_id@ == spec_uuid_hyphenated(source_id)
            &&& r.target_id@ == spec_uuid_hyphenated(target_id)
            &&& r.data is None
            &&& spec_opt_fields(r.metadata) == (match metadata {
                Some(m) => Some(spec_struct_fields(m@)),
                None => None,
            })
        },
        FrameworkEvent::Link(LinkEvent::Deleted { link_type, link_id, source_id, target_id }) => {
            &&& r.entity_type@.len() == 0
            &&& r.entity_id@ == spec_uuid_hyphenated(link_id)
            &&& r.link_type@ == link_type@
            &&& r.source_id@ == spec_uuid_hyphenated(source_id)
            &&& r.target_id@ == spec_uuid_hyphenated(target_id)
            &&& r.data is None
            &&& r.metadata is None
        },
    }
}

/// Convert an `EventEnvelope` into an `EventResponse`.
pub fn envelope_to_response(envelope: &EventEnvelope) -> (r: EventResponse)
    ensures
        spec_event_response(*envelope, r),
{
    let event = &envelope.event;
    let (entity_type, entity_id, link_type, source_id, target_id, data, metadata) = match event {
        FrameworkEvent::Entity(EntityEvent::Created { entity_type, entity_id, data })
        | FrameworkEvent::Entity(EntityEvent::Updated { entity_type, entity_id, data }) => (
            entity_type.clone(),
            uuid_to_string(*entity_id),
            String::new(),
            String::new(),
            String::new(),
            Some(json_to_struct_fields(data)),
            None,
        ),
        FrameworkEvent::Entity(EntityEvent::Deleted { entity_type, entity_id }) => (
            entity_type.clone(),
            uuid_to_string(*entity_id),
            String::new(),
            String::new(),
            String::new(),
            None,
            None,
        ),
        FrameworkEvent::Link(LinkEvent::Created { link_type, link_id, source_id, target_id, metadata }) => (
            String::new(),
            uuid_to_string(*link_id),
            link_type.clone(),
            uuid_to_string(*source_id),
            uuid_to_string(*target_id),
            None,
            match metadata {
                Some(m) => Some(json_to_struct_fields(m)),
                None => None,
            },
        ),
        FrameworkEvent::Link(LinkEvent::Deleted { link_type, link_id, source_id, target_id }) => (
            String::new(),
            uuid_to_string(*link_id),
            link_type.clone(),
            uuid_to_string(*source_id),
            uuid_to_string(*target_id),
            None,
            None,
        ),
    };
    EventResponse {
        event_id: uuid_to_string(envelope.id),
        event_kind: owned(event.event_kind()),
        event_type: owned(event.action()),
        entity_type,
        entity_id,
        link_type,
        source_id,
        target_id,
        data,
        metadata,
        timestamp: envelope.timestamp.to_rfc3339(),
        seq_no: match envelope.seq_no {
            Some(s) => s,
            None => 0,
        },
    }
}


/// A `Subscribe` call with no filter set (absent or empty) receives every
/// event.
pub proof fn law_unfiltered_subscription_receives_all(e: FrameworkEvent, f: SubscribeRequest)
    requires
        !is_set(f.kind),
        !is_set(f.entity_type),
        !is_set(f.entity_id),
        !is_set(f.event_type),
        !is_set(f.link_type),
    ensures
        spec_subscribe_matches(e, f),
{
}

/// A link type filter lets no entity event through, and a filter on an
/// entity id lets no link event through.
pub proof fn law_entity_and_link_filters_exclude(e: FrameworkEvent, f: SubscribeRequest)
    ensures
        (is_set(f.link_type) && e is Entity) ==> !spec_subscribe_matches(e, f),
        (is_set(f.entity_id) && e is Link) ==> !spec_subscribe_matches(e, f),
{
}

/// The filters of a `Subscribe` call combine with AND: an event passes
/// exactly when it passes each filter set alone.
pub proof fn law_subscribe_filters_combine_with_and(e: FrameworkEvent, f: SubscribeRequest)
    ensures
        spec_subscribe_matches(e, f) == (spec_subscribe_matches(
            e,
            SubscribeRequest { kind: f.kind, entity_type: None, entity_id: None, event_type: None, link_type: None },
        ) && spec_subscribe_matches(
            e,
            SubscribeRequest { kind: None, entity_type: f.entity_type, entity_id: None, event_type: None, link_type: None },
        ) && spec_subscribe_matches(
            e,
            SubscribeRequest { kind: None, entity_type: None, entity_id: f.entity_id, event_type: None, link_type: None },
        ) && spec_subscribe_matches(
            e,
            SubscribeRequest { kind: None, entity_type: None, entity_id: None, event_type: f.event_type, link_type: None },
        ) && spec_subscribe_matches(
            e,
            SubscribeRequest { kind: None, entity_type: None, entity_id: None, event_type: None, link_type: f.link_type },
        )),
{
}

/// The response sent for an event names the event itself: its identifier,
/// kind and action; the identifier of its subject (the entity, or the
/// link); for an entity event the entity's type and no endpoints; for a
/// link event the link's type and its source and target in the link's own
/// direction, and for a created link its metadata as struct fields.
pub proof fn law_event_response_names_the_event(env: EventEnvelope, r: EventResponse)
    requires
        spec_event_response(env, r),
    ensures
        r.event_id@ == spec_uuid_hyphenated(env.id),
        r.event_kind@ == spec_event_kind(env.event),
        r.event_type@ == spec_action(env.event),
        env.event is Entity ==> {
            &&& r.entity_type@ == spec_entity_type(env.event).unwrap()
            &&& r.entity_id@ == spec_uuid_hyphenated(spec_entity_id(env.event).unwrap())
            &&& r.source_id@.len() == 0 && r.target_id@.len() == 0
        },
        match env.event {
            FrameworkEvent::Link(LinkEvent::Created { link_type, link_id, source_id, target_id, metadata }) => {
                &&& r.entity_id@ == spec_uuid_hyphenated(link_id)
                &&& r.link_type@ == link_type@
                &&& r.source_id@ == spec_uuid_hyphenated(source_id)
                &&& r.target_id@ == spec_uuid_hyphenated(target_id)
                &&& (metadata matches Some(m) ==> spec_opt_fields(r.metadata) == Some(spec_struct_fields(m@)))
                &&& (metadata is None ==> r.metadata is None)
            },
            FrameworkEvent::Link(LinkEvent::Deleted { link_type, link_id, source_id, target_id }) => {
                &&& r.entity_id@ == spec_uuid_hyphenated(link_id)
                &&& r.link_type@ == link_type@
                &&& r.source_id@ == spec_uuid_hyphenated(source_id)
                &&& r.target_id@ == spec_uuid_hyphenated(target_id)
            },
            _ => true,
        },
{
}

} // verus!
