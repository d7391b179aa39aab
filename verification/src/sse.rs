//! Server-Sent Events stream: which events a client asked for, and the JSON
//! document each event is sent as.

use vstd::prelude::*;
use crate::events::{spec_action, spec_event_kind, spec_subject_type, EntityEvent, EventEnvelope, FrameworkEvent, LinkEvent};
use crate::ids::{spec_uuid_hyphenated, uuid_to_string};
use crate::json::{json_members_view, json_str, lemma_lookup_at_apart, push_member, spec_get, JsonData, JsonValue};
use crate::text::{decimal, owned, spec_decimal, str_eq};

verus! {

/// Query parameters of `GET /events/stream`; an absent field matches all.
#[derive(Debug, Default)]
pub struct SseFilter {
    /// "entity" or "link"
    pub kind: Option<String>,
    /// Entity type for entity events, link type for link events
    pub entity_type: Option<String>,
    /// "created", "updated" or "deleted"
    pub event_type: Option<String>,
}

/// The event passes every filter that is set.
pub open spec fn spec_sse_matches(e: FrameworkEvent, f: SseFilter) -> bool {
    &&& (f.kind matches Some(k) ==> spec_event_kind(e) == k@)
    &&& (f.entity_type matches Some(t) ==> spec_subject_type(e) == t@)
    &&& (f.event_type matches Some(a) ==> spec_action(e) == a@)
}

/// Check if an event envelope matches the SSE filter.
pub fn matches_filter(envelope: &EventEnvelope, filter: &SseFilter) -> (r: bool)
    ensures
        r == spec_sse_matches(envelope.event, *filter),
{
    if let Some(kind) = &filter.kind {
        if !str_eq(envelope.event.event_kind(), kind.as_str()) {
            return false;
        }
    }
    if let Some(entity_type) = &filter.entity_type {
        if !str_eq(envelope.event.subject_type(), entity_type.as_str()) {
            return false;
        }
    }
    if let Some(event_type) = &filter.event_type {
        if !str_eq(envelope.event.action(), event_type.as_str()) {
            return false;
        }
    }
    true
}

/// Content of an optional JSON value: `null` when absent.
pub open spec fn spec_opt_json(v: Option<JsonValue>) -> JsonData {
    match v {
        Some(j) => j@,
        None => JsonData::Null,
    }
}

/// The JSON document sent for an event on the SSE stream.
pub open spec fn spec_sse_data(env: EventEnvelope) -> JsonData {
    let ts = JsonData::Str(env.timestamp.spec_text());
    match env.event {
        FrameworkEvent::Entity(EntityEvent::Created { entity_type, entity_id, data })
        | FrameworkEvent::Entity(EntityEvent::Updated { entity_type, entity_id, data }) =>
            JsonData::Object(
            seq![
                ("kind"@, JsonData::Str("entity"@)),
                ("action"@, JsonData::Str(spec_action(env.event))),
                ("entity_type"@, JsonData::Str(entity_type@)),
                ("entity_id"@, JsonData::Str(spec_uuid_hyphenated(entity_id))),
                ("data"@, data@),
                ("timestamp"@, ts),
            ],
        ),
        FrameworkEvent::Entity(EntityEvent::Deleted { entity_type, entity_id }) => JsonData::Object(
            seq![
                ("kind"@, JsonData::Str("entity"@)),
                ("action"@, JsonData::Str("deleted"@)),
                ("entity_type"@, JsonData::Str(entity_type@)),
                ("entity_id"@, JsonData::Str(spec_uuid_hyphenated(entity_id))),
                ("timestamp"@, ts),
            ],
        ),
        FrameworkEvent::Link(LinkEvent::Created { link_type, link_id, source_id, target_id, metadata }) =>
            JsonData::Object(
            seq![
                ("kind"@, JsonData::Str("link"@)),
                ("action"@, JsonData::Str("created"@)),
                ("link_type"@, JsonData::Str(link_type@)),
                ("link_id"@, JsonData::Str(spec_uuid_hyphenated(link_id))),
                ("source_id"@, JsonData::Str(spec_uuid_hyphenated(source_id))),
                ("target_id"@, JsonData::Str(spec_uuid_hyphenated(target_id))),
                ("metadata"@, spec_opt_json(metadata)),
                ("timestamp"@, ts),
            ],
        ),
        FrameworkEvent::Link(LinkEvent::Deleted { link_type, link_id, source_id, target_id }) =>
            JsonData::Object(
            seq![
                ("kind"@, JsonData::Str("link"@)),
                ("action"@, JsonData::Str("deleted"@)),
                ("link_type"@, JsonData::Str(link_type@)),
                ("link_id"@, JsonData::Str(spec_uuid_hyphenated(link_id))),
                ("source_id"@, JsonData::Str(spec_uuid_hyphenated(source_id))),
                ("target_id"@, JsonData::Str(spec_uuid_hyphenated(target_id))),
                ("timestamp"@, ts),
            ],
        ),
    }
}

/// The content of an optional JSON value, copied (`null` when absent).
pub fn opt_json(v: &Option<JsonValue>) -> (r: JsonValue)
    ensures
        r@ == spec_opt_json(*v),
{
    match v {
        Some(j) => j.clone_value(),
        None => JsonValue::Null,
    }
}

/// The JSON document an event is streamed as (the `data:` line of the SSE
/// event, before serialization).
pub fn envelope_to_sse_data(envelope: &EventEnvelope) -> (r: JsonValue)
    ensures
        r@ == spec_sse_data(*envelope),
{
    let mut m: Vec<(String, JsonValue)> = Vec::new();
    let ts = envelope.timestamp.to_rfc3339();
    assert(json_members_view(m@) == Seq::<(Seq<char>, JsonData)>::empty());
    match &envelope.event {
        FrameworkEvent::Entity(EntityEvent::Created { entity_type, entity_id, data })
        | FrameworkEvent::Entity(EntityEvent::Updated { entity_type, entity_id, data }) => {
            push_member(&mut m, "kind", json_str("entity"));
            push_member(&mut m, "action", json_str(envelope.event.action()));
            push_member(&mut m, "entity_type", json_str(entity_type.as_str()));
            push_member(&mut m, "entity_id", JsonValue::String(uuid_to_string(*entity_id)));
            push_member(&mut m, "data", data.clone_value());
            push_member(&mut m, "timestamp", JsonValue::String(ts));
            assert(json_members_view(m@) == seq![
                ("kind"@, JsonData::Str("entity"@)),
                ("action"@, JsonData::Str(spec_action(envelope.event))),
                ("entity_type"@, JsonData::Str(entity_type@)),
                ("entity_id"@, JsonData::Str(spec_uuid_hyphenated(*entity_id))),
                ("data"@, data@),
                ("timestamp"@, JsonData::Str(envelope.timestamp.spec_text())),
            ]);
            assert(JsonData::Object(json_members_view(m@)) == spec_sse_data(*envelope));
        },
        FrameworkEvent::Entity(EntityEvent::Deleted { entity_type, entity_id }) => {
            push_member(&mut m, "kind", json_str("entity"));
            push_member(&mut m, "action", json_str("deleted"));
            push_member(&mut m, "entity_type", json_str(entity_type.as_str()));
            push_member(&mut m, "entity_id", JsonValue::String(uuid_to_string(*entity_id)));
            push_member(&mut m, "timestamp", JsonValue::String(ts));
            assert(json_members_view(m@) == seq![
                ("kind"@, JsonData::Str("entity"@)),
                ("action"@, JsonData::Str("deleted"@)),
                ("entity_type"@, JsonData::Str(entity_type@)),
                ("entity_id"@, JsonData::Str(spec_uuid_hyphenated(*entity_id))),
                ("timestamp"@, JsonData::Str(envelope.timestamp.spec_text())),
            ]);
            assert(JsonData::Object(json_members_view(m@)) == spec_sse_data(*envelope));
        },
        FrameworkEvent::Link(LinkEvent::Created { link_type, link_id, source_id, target_id, metadata }) => {
            push_member(&mut m, "kind", json_str("link"));
            push_member(&mut m, "action", json_str("created"));
            push_member(&mut m, "link_type", json_str(link_type.as_str()));
            push_member(&mut m, "link_id", JsonValue::String(uuid_to_string(*link_id)));
            push_member(&mut m, "source_id", JsonValue::String(uuid_to_string(*source_id)));
            push_member(&mut m, "target_id", JsonValue::String(uuid_to_string(*target_id)));
            push_member(&mut m, "metadata", opt_json(metadata));
            push_member(&mut m, "timestamp", JsonValue::String(ts));
            assert(json_members_view(m@) == seq![
                ("kind"@, JsonData::Str("link"@)),
                ("action"@, JsonData::Str("created"@)),
                ("link_type"@, JsonData::Str(link_type@)),
                ("link_id"@, JsonData::Str(spec_uuid_hyphenated(*link_id))),
                ("source_id"@, JsonData::Str(spec_uuid_hyphenated(*source_id))),
                ("target_id"@, JsonData::Str(spec_uuid_hyphenated(*target_id))),
                ("metadata"@, spec_opt_json(*metadata)),
                ("timestamp"@, JsonData::Str(envelope.timestamp.spec_text())),
            ]);
            assert(JsonData::Object(json_members_view(m@)) == spec_sse_data(*envelope));
        },
        FrameworkEvent::Link(LinkEvent::Deleted { link_type, link_id, source_id, target_id }) => {
            push_member(&mut m, "kind", json_str("link"));
            push_member(&mut m, "action", json_str("deleted"));
            push_member(&mut m, "link_type", json_str(link_type.as_str()));
            push_member(&mut m, "link_id", JsonValue::String(uuid_to_string(*link_id)));
            push_member(&mut m, "source_id", JsonValue::String(uuid_to_string(*source_id)));
            push_member(&mut m, "target_id", JsonValue::String(uuid_to_string(*target_id)));
            push_member(&mut m, "timestamp", JsonValue::String(ts));
            assert(json_members_view(m@) == seq![
                ("kind"@, JsonData::Str("link"@)),
                ("action"@, JsonData::Str("deleted"@)),
                ("link_type"@, JsonData::Str(link_type@)),
                ("link_id"@, JsonData::Str(spec_uuid_hyphenated(*link_id))),
                ("source_id"@, JsonData::Str(spec_uuid_hyphenated(*source_id))),
                ("target_id"@, JsonData::Str(spec_uuid_hyphenated(*target_id))),
                ("timestamp"@, JsonData::Str(envelope.timestamp.spec_text())),
            ]);
            assert(JsonData::Object(json_members_view(m@)) == spec_sse_data(*envelope));
        },
    }
    let r = JsonValue::Object(m);
    r
}


/// Seconds between two heartbeat comments on an idle stream.
pub const HEARTBEAT_INTERVAL_SECS: u64 = 30;

/// Text of the heartbeat comment.
pub const HEARTBEAT_TEXT: &'static str = "heartbeat";

/// Name of the event that tells a slow client it lost events.
pub const LAG_EVENT_NAME: &'static str = "warning";

/// `missed <n> events due to slow consumption`.
pub open spec fn spec_lag_warning(missed: nat) -> Seq<char> {
    "missed "@ + spec_decimal(missed) + " events due to slow consumption"@
}

/// The data of the warning sent when a client fell behind and `missed`
/// events were dropped for it.
pub fn lag_warning(missed: u64) -> (r: String)
    ensures
        r@ == spec_lag_warning(missed as nat),
{
    let mut m = owned("missed ");
    let n = decimal(missed as u128);
    m.append(n.as_str());
    m.append(" events due to slow consumption");
    m
}


/// A stream opened without query parameters receives every event; each
/// parameter narrows it: an event passes exactly when it passes each
/// parameter alone.
pub proof fn law_sse_filters_narrow(e: FrameworkEvent, f: SseFilter)
    ensures
        spec_sse_matches(e, SseFilter { kind: None, entity_type: None, event_type: None }),
        spec_sse_matches(e, f) == (spec_sse_matches(
            e,
            SseFilter { kind: f.kind, entity_type: None, event_type: None },
        ) && spec_sse_matches(e, SseFilter { kind: None, entity_type: f.entity_type, event_type: None })
            && spec_sse_matches(e, SseFilter { kind: None, entity_type: None, event_type: f.event_type })),
{
}

/// The SSE document of an event describes that event: its `kind` and
/// `action`; for an entity event the entity's type and identifier, and for
/// a created or updated entity its data; for a link event the link's type,
/// identifier, source and target in the link's own direction, and for a
/// created link its metadata (`null` only when the event carries none).
pub proof fn law_sse_data_describes_the_event(env: EventEnvelope)
    ensures
        spec_get(spec_sse_data(env), "kind"@) == Some(JsonData::Str(spec_event_kind(env.event))),
        spec_get(spec_sse_data(env), "action"@) == Some(JsonData::Str(spec_action(env.event))),
        match env.event {
            FrameworkEvent::Entity(EntityEvent::Created { entity_type, entity_id, data })
            | FrameworkEvent::Entity(EntityEvent::Updated { entity_type, entity_id, data }) => {
                &&& spec_get(spec_sse_data(env), "entity_type"@) == Some(JsonData::Str(entity_type@))
                &&& spec_get(spec_sse_data(env), "entity_id"@) == Some(JsonData::Str(spec_uuid_hyphenated(entity_id)))
                &&& spec_get(spec_sse_data(env), "data"@) == Some(data@)
            },
            FrameworkEvent::Entity(EntityEvent::Deleted { entity_type, entity_id }) => {
                &&& spec_get(spec_sse_data(env), "entity_type"@) == Some(JsonData::Str(entity_type@))
                &&& spec_get(spec_sse_data(env), "entity_id"@) == Some(JsonData::Str(spec_uuid_hyphenated(entity_id)))
            },
            FrameworkEvent::Link(LinkEvent::Created { link_type, link_id, source_id, target_id, metadata }) => {
                &&& spec_get(spec_sse_data(env), "link_type"@) == Some(JsonData::Str(link_type@))
                &&& spec_get(spec_sse_data(env), "link_id"@) == Some(JsonData::Str(spec_uuid_hyphenated(link_id)))
                &&& spec_get(spec_sse_data(env), "source_id"@) == Some(JsonData::Str(spec_uuid_hyphenated(source_id)))
                &&& spec_get(spec_sse_data(env), "target_id"@) == Some(JsonData::Str(spec_uuid_hyphenated(target_id)))
                &&& spec_get(spec_sse_data(env), "metadata"@) == Some(
                    match metadata {
                        Some(m) => m@,
                        None => JsonData::Null,
                    },
                )
            },
            FrameworkEvent::Link(LinkEvent::Deleted { link_type, link_id, source_id, target_id }) => {
                &&& spec_get(spec_sse_data(env), "link_type"@) == Some(JsonData::Str(link_type@))
                &&& spec_get(spec_sse_data(env), "link_id"@) == Some(JsonData::Str(spec_uuid_hyphenated(link_id)))
                &&& spec_get(spec_sse_data(env), "source_id"@) == Some(JsonData::Str(spec_uuid_hyphenated(source_id)))
                &&& spec_get(spec_sse_data(env), "target_id"@) == Some(JsonData::Str(spec_uuid_hyphenated(target_id)))
            },
        },
{
    reveal_strlit("action");
    reveal_strlit("data");
    reveal_strlit("entity_id");
    reveal_strlit("entity_type");
    reveal_strlit("kind");
    reveal_strlit("link_id");
    reveal_strlit("link_type");
    reveal_strlit("metadata");
    reveal_strlit("source_id");
    reveal_strlit("target_id");
    let m = match spec_sse_data(env) {
        JsonData::Object(m) => m,
        _ => Seq::empty(),
    };
    lemma_lookup_at_apart(m, "kind"@, 0);
    lemma_lookup_at_apart(m, "action"@, 1);
    match env.event {
        FrameworkEvent::Entity(EntityEvent::Created { .. })
        | FrameworkEvent::Entity(EntityEvent::Updated { .. }) => {
            lemma_lookup_at_apart(m, "entity_type"@, 2);
            lemma_lookup_at_apart(m, "entity_id"@, 3);
            lemma_lookup_at_apart(m, "data"@, 4);
        },
        FrameworkEvent::Entity(EntityEvent::Deleted { .. }) => {
            lemma_lookup_at_apart(m, "entity_type"@, 2);
            lemma_lookup_at_apart(m, "entity_id"@, 3);
        },
        FrameworkEvent::Link(LinkEvent::Created { .. }) => {
            lemma_lookup_at_apart(m, "link_type"@, 2);
            lemma_lookup_at_apart(m, "link_id"@, 3);
            lemma_lookup_at_apart(m, "source_id"@, 4);
            lemma_lookup_at_apart(m, "target_id"@, 5);
            lemma_lookup_at_apart(m, "metadata"@, 6);
        },
        FrameworkEvent::Link(LinkEvent::Deleted { .. }) => {
            lemma_lookup_at_apart(m, "link_type"@, 2);
            lemma_lookup_at_apart(m, "link_id"@, 3);
            lemma_lookup_at_apart(m, "source_id"@, 4);
            lemma_lookup_at_apart(m, "target_id"@, 5);
        },
    }
}

} // verus!
