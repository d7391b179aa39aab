//! GraphQL subscriptions over WebSocket (`graphql-transport-ws`): which
//! subscription a query asks for, its event filter, the payloads sent,
//! and the answer to each protocol message.

use vstd::prelude::*;
use crate::events::{
    spec_action, spec_entity_id, spec_event_kind, spec_subject_type, EntityEvent, EventEnvelope,
    FrameworkEvent, LinkEvent,
};
use crate::gql::{find_arg, spec_arg, GqlDefinition, GqlDocument, GqlField, GqlSelection, GqlValue, OperationKind};
use crate::ids::{spec_uuid_hyphenated, uuid_to_string};
use crate::json::{
    json_items_view, json_members_view, json_str, lemma_lookup_at_apart, push_member, spec_get, JsonData,
    JsonValue,
};
use crate::notifications::{
    notification_passes, notification_to_graphql_value, spec_notification_graphql,
    spec_notification_passes, StoredNotification,
};
use crate::sse::{opt_json, spec_opt_json};
use crate::text::{owned, str_eq};
use crate::ws_protocol::opt_view;

verus! {

/// Event filter given as arguments of `onEvent(...)`.
#[derive(Debug, Default)]
pub struct GqlEventFilter {
    pub kind: Option<String>,
    pub entity_type: Option<String>,
    pub event_type: Option<String>,
    pub entity_id: Option<String>,
}

/// Content of an event filter.
pub struct GqlFilterView {
    pub kind: Option<Seq<char>>,
    pub entity_type: Option<Seq<char>>,
    pub event_type: Option<Seq<char>>,
    pub entity_id: Option<Seq<char>>,
}

impl View for GqlEventFilter {
    type V = GqlFilterView;

    open spec fn view(&self) -> GqlFilterView {
        GqlFilterView {
            kind: opt_view(self.kind),
            entity_type: opt_view(self.entity_type),
            event_type: opt_view(self.event_type),
            entity_id: opt_view(self.entity_id),
        }
    }
}

/// The filter with no criterion.
pub open spec fn empty_filter() -> GqlFilterView {
    GqlFilterView { kind: None, entity_type: None, event_type: None, entity_id: None }
}

/// One argument applied to a filter: a string value of `kind`,
/// `entityType`, `eventType` or `entityId` sets that criterion; anything
/// else is ignored.
pub open spec fn spec_apply_arg(f: GqlFilterView, arg: (String, GqlValue)) -> GqlFilterView {
    match arg.1 {
        GqlValue::String(v) => if arg.0@ == "kind"@ {
            GqlFilterView { kind: Some(v@), ..f }
        } else if arg.0@ == "entityType"@ {
            GqlFilterView { entity_type: Some(v@), ..f }
        } else if arg.0@ == "eventType"@ {
            GqlFilterView { event_type: Some(v@), ..f }
        } else if arg.0@ == "entityId"@ {
            GqlFilterView { entity_id: Some(v@), ..f }
        } else {
            f
        },
        _ => f,
    }
}

/// The filter after applying arguments in order.
pub open spec fn spec_apply_args(f: GqlFilterView, args: Seq<(String, GqlValue)>) -> GqlFilterView
    decreases args.len(),
{
    if args.len() == 0 {
        f
    } else {
        spec_apply_arg(spec_apply_args(f, args.drop_last()), args.last())
    }
}

/// The filter after the arguments of every `onEvent` field among `items`.
pub open spec fn spec_apply_items(f: GqlFilterView, items: Seq<GqlSelection>) -> GqlFilterView
    decreases items.len(),
{
    if items.len() == 0 {
        f
    } else {
        let acc = spec_apply_items(f, items.drop_last());
        match items.last() {
            GqlSelection::Field(field) => if field.name@ == "onEvent"@ {
                spec_apply_args(acc, field.arguments@)
            } else {
                acc
            },
            _ => acc,
        }
    }
}

/// The filter after every subscription operation among `defs`.
pub open spec fn spec_apply_defs(f: GqlFilterView, defs: Seq<GqlDefinition>) -> GqlFilterView
    decreases defs.len(),
{
    if defs.len() == 0 {
        f
    } else {
        let acc = spec_apply_defs(f, defs.drop_last());
        match defs.last() {
            GqlDefinition::Operation { kind: OperationKind::Subscription, selection_set } =>
                spec_apply_items(acc, selection_set@),
            _ => acc,
        }
    }
}

/// The filter of a subscription query: no criterion when it did not parse.
pub open spec fn spec_subscription_filter(parsed: Option<GqlDocument>) -> GqlFilterView {
    match parsed {
        Some(doc) => spec_apply_defs(empty_filter(), doc.definitions@),
        None => empty_filter(),
    }
}

fn apply_arg(f: &mut GqlEventFilter, arg: &(String, GqlValue))
    ensures
        final(f)@ == spec_apply_arg(old(f)@, *arg),
{
    match &arg.1 {
        GqlValue::String(v) => {
            if str_eq(arg.0.as_str(), "kind") {
                f.kind = Some(v.clone());
            } else if str_eq(arg.0.as_str(), "entityType") {
                f.entity_type = Some(v.clone());
            } else if str_eq(arg.0.as_str(), "eventType") {
                f.event_type = Some(v.clone());
            } else if str_eq(arg.0.as_str(), "entityId") {
                f.entity_id = Some(v.clone());
            }
        },
        _ => {},
    }
}

fn apply_items(f: &mut GqlEventFilter, items: &Vec<GqlSelection>)
    ensures
        final(f)@ == spec_apply_items(old(f)@, items@),
{
    let ghost f0 = f@;
    let mut i: usize = 0;
    assert(items@.subrange(0, 0) =~= Seq::<GqlSelection>::empty());
    while i < items.len()
        invariant
            i <= items@.len(),
            f@ == spec_apply_items(f0, items@.subrange(0, i as int)),
        decreases items@.len() - i,
    {
        assert(items@.subrange(0, i + 1).drop_last() =~= items@.subrange(0, i as int));
        assert(items@.subrange(0, i + 1).last() == items@[i as int]);
        match &items[i] {
            GqlSelection::Field(field) => {
                if str_eq(field.name.as_str(), "onEvent") {
                    let ghost fa = f@;
                    let mut k: usize = 0;
                    assert(field.arguments@.subrange(0, 0) =~= Seq::<(String, GqlValue)>::empty());
                    while k < field.arguments.len()
                        invariant
                            k <= field.arguments@.len(),
                            f@ == spec_apply_args(fa, field.arguments@.subrange(0, k as int)),
                        decreases field.arguments@.len() - k,
                    {
                        assert(field.arguments@.subrange(0, k + 1).drop_last()
                            =~= field.arguments@.subrange(0, k as int));
                        apply_arg(f, &field.arguments[k]);
                        k = k + 1;
                    }
                    assert(field.arguments@.subrange(0, field.arguments@.len() as int)
                        =~= field.arguments@);
                }
            },
            _ => {},
        }
        i = i + 1;
    }
    assert(items@.subrange(0, items@.len() as int) =~= items@);
}

/// Parse the `onEvent` filter arguments of a subscription query, e.g.
/// `subscription { onEvent(kind: "entity", entityType: "order") { ... } }`.
/// A query that did not parse gives the empty filter.
pub fn parse_subscription_filter(parsed: &Option<GqlDocument>) -> (r: GqlEventFilter)
    ensures
        r@ == spec_subscription_filter(*parsed),
{
    let mut filter = GqlEventFilter { kind: None, entity_type: None, event_type: None, entity_id: None };
    assert(filter@ == empty_filter());
    match parsed {
        None => filter,
        Some(doc) => {
            let defs = &doc.definitions;
            let mut i: usize = 0;
            assert(defs@.subrange(0, 0) =~= Seq::<GqlDefinition>::empty());
            while i < defs.len()
                invariant
                    i <= defs@.len(),
                    filter@ == spec_apply_defs(empty_filter(), defs@.subrange(0, i as int)),
                decreases defs@.len() - i,
            {
                assert(defs@.subrange(0, i + 1).drop_last() =~= defs@.subrange(0, i as int));
                assert(defs@.subrange(0, i + 1).last() == defs@[i as int]);
                match &defs[i] {
                    GqlDefinition::Operation { kind, selection_set } => {
                        match kind {
                            OperationKind::Subscription => {
                                apply_items(&mut filter, selection_set);
                            },
                            _ => {},
                        }
                    },
                    _ => {},
                }
                i = i + 1;
            }
            assert(defs@.subrange(0, defs@.len() as int) =~= defs@);
            filter
        },
    }
}

/// The first field selected by `items`, skipping fragments.
pub open spec fn spec_first_field(items: Seq<GqlSelection>) -> Option<GqlField>
    decreases items.len(),
{
    if items.len() == 0 {
        None
    } else {
        match items[0] {
            GqlSelection::Field(f) => Some(f),
            _ => spec_first_field(items.drop_first()),
        }
    }
}

/// The first field of the first subscription operation that selects one.
pub open spec fn spec_first_subscription_field(defs: Seq<GqlDefinition>) -> Option<GqlField>
    decreases defs.len(),
{
    if defs.len() == 0 {
        None
    } else {
        match defs[0] {
            GqlDefinition::Operation { kind: OperationKind::Subscription, selection_set } => {
                match spec_first_field(selection_set@) {
                    Some(f) => Some(f),
                    None => spec_first_subscription_field(defs.drop_first()),
                }
            },
            _ => spec_first_subscription_field(defs.drop_first()),
        }
    }
}

fn first_field(items: &Vec<GqlSelection>) -> (r: Option<&GqlField>)
    ensures
        match r {
            Some(f) => spec_first_field(items@) == Some(*f),
            None => spec_first_field(items@) is None,
        },
{
    let mut i: usize = 0;
    assert(items@.subrange(0, items@.len() as int) =~= items@);
    while i < items.len()
        invariant
            i <= items@.len(),
            spec_first_field(items@) == spec_first_field(items@.subrange(i as int, items@.len() as int)),
        decreases items@.len() - i,
    {
        let ghost rest = items@.subrange(i as int, items@.len() as int);
        assert(rest[0] == items@[i as int]);
        assert(rest.drop_first() =~= items@.subrange(i + 1, items@.len() as int));
        match &items[i] {
            GqlSelection::Field(f) => {
                return Some(f);
            },
            _ => {},
        }
        i = i + 1;
    }
    assert(items@.subrange(items@.len() as int, items@.len() as int) =~= Seq::<GqlSelection>::empty());
    None
}

fn first_subscription_field(defs: &Vec<GqlDefinition>) -> (r: Option<&GqlField>)
    ensures
        match r {
            Some(f) => spec_first_subscription_field(defs@) == Some(*f),
            None => spec_first_subscription_field(defs@) is None,
        },
{
    let mut i: usize = 0;
    assert(defs@.subrange(0, defs@.len() as int) =~= defs@);
    while i < defs.len()
        invariant
            i <= defs@.len(),
            spec_first_subscription_field(defs@) == spec_first_subscription_field(
                defs@.subrange(i as int, defs@.len() as int),
            ),
        decreases defs@.len() - i,
    {
        let ghost rest = defs@.subrange(i as int, defs@.len() as int);
        assert(rest[0] == defs@[i as int]);
        assert(rest.drop_first() =~= defs@.subrange(i + 1, defs@.len() as int));
        match &defs[i] {
            GqlDefinition::Operation { kind: OperationKind::Subscription, selection_set } => {
                match first_field(selection_set) {
                    Some(f) => {
                        return Some(f);
                    },
                    None => {},
                }
            },
            _ => {},
        }
        i = i + 1;
    }
    assert(defs@.subrange(defs@.len() as int, defs@.len() as int) =~= Seq::<GqlDefinition>::empty());
    None
}

/// The kind of subscription a query asks for.
#[derive(Debug)]
pub enum SubscriptionType {
    /// `subscription { onEvent(...) { ... } }`
    OnEvent(GqlEventFilter),
    /// `subscription { onNotification(userId: "...") { ... } }`
    OnNotification(Option<String>),
    /// Unknown subscription field (or a reason in parentheses)
    Unknown(String),
}

/// The string value of the argument `userId`, if it is a string.
pub open spec fn spec_user_id_arg(f: GqlField) -> Option<Seq<char>> {
    match spec_arg(f.arguments@, "userId"@) {
        Some(GqlValue::String(s)) => Some(s@),
        _ => None,
    }
}

/// The subscription a query asks for: decided by the first field of the
/// first subscription operation.
pub open spec fn spec_detect(parsed: Option<GqlDocument>, r: SubscriptionType) -> bool {
    match parsed {
        None => r matches SubscriptionType::Unknown(s) && s@ == "(parse error)"@,
        Some(doc) => match spec_first_subscription_field(doc.definitions@) {
            None => r matches SubscriptionType::Unknown(s) && s@ == "(no subscription field)"@,
            Some(f) => if f.name@ == "onEvent"@ {
                r matches SubscriptionType::OnEvent(filter) && filter@ == spec_subscription_filter(
                    parsed,
                )
            } else if f.name@ == "onNotification"@ {
                r matches SubscriptionType::OnNotification(u) && opt_view(u) == spec_user_id_arg(f)
            } else {
                r matches SubscriptionType::Unknown(s) && s@ == f.name@
            },
        },
    }
}

/// Detect the subscription type from a parsed query (`None` when the
/// query did not parse).
pub fn detect_subscription_type(parsed: &Option<GqlDocument>) -> (r: SubscriptionType)
    ensures
        spec_detect(*parsed, r),
{
    match parsed {
        None => SubscriptionType::Unknown(owned("(parse error)")),
        Some(doc) => match first_subscription_field(&doc.definitions) {
            None => SubscriptionType::Unknown(owned("(no subscription field)")),
            Some(field) => {
                if str_eq(field.name.as_str(), "onEvent") {
                    SubscriptionType::OnEvent(parse_subscription_filter(parsed))
                } else if str_eq(field.name.as_str(), "onNotification") {
                    let user_id = match find_arg(&field.arguments, "userId") {
                        Some(i) => match &field.arguments[i].1 {
                            GqlValue::String(s) => Some(s.clone()),
                            _ => None,
                        },
                        None => None,
                    };
                    SubscriptionType::OnNotification(user_id)
                } else {
                    SubscriptionType::Unknown(field.name.clone())
                }
            },
        },
    }
}

/// The event passes every set criterion; the entity id is compared with
/// the identifier's hyphenated text, and link events have none.
pub open spec fn spec_gql_matches(e: FrameworkEvent, f: GqlFilterView) -> bool {
    &&& f.kind matches Some(k) ==> spec_event_kind(e) == k
    &&& f.entity_type matches Some(t) ==> spec_subject_type(e) == t
    &&& f.event_type matches Some(a) ==> spec_action(e) == a
    &&& f.entity_id matches Some(id) ==> (spec_entity_id(e) matches Some(eid)
        && spec_uuid_hyphenated(eid) == id)
}

/// Check if an event envelope matches the subscription filter.
pub fn matches_filter(envelope: &EventEnvelope, filter: &GqlEventFilter) -> (r: bool)
    ensures
        r == spec_gql_matches(envelope.event, filter@),
{
    if let Some(kind) = &filter.kind {
        if !str_eq(envelope.event.event_kind(), kind.as_str()) {
            return false;
        }
    }
    if let Some(entity_type) = &filter.entity_type {
        if !str_eq(envelope.event.subject_type(), entity_type.as_str()) {
            return false;
        }
    }
    if let Some(event_type) = &filter.event_type {
        if !str_eq(envelope.event.action(), event_type.as_str()) {
            return false;
        }
    }
    if let Some(entity_id) = &filter.entity_id {
        match envelope.event.entity_id() {
            Some(id) => {
                if !str_eq(uuid_to_string(id).as_str(), entity_id.as_str()) {
                    return false;
                }
            },
            None => {
                return false;
            },
        }
    }
    true
}

/// The JSON an event is delivered as to `onEvent` subscribers.
pub open spec fn spec_event_graphql(env: EventEnvelope) -> JsonData {
    let id = ("id"@, JsonData::Str(spec_uuid_hyphenated(env.id)));
    let ts = ("timestamp"@, JsonData::Str(env.timestamp.spec_text()));
    match env.event {
        FrameworkEvent::Entity(EntityEvent::Created { entity_type, entity_id, data })
        | FrameworkEvent::Entity(EntityEvent::Updated { entity_type, entity_id, data }) =>
            JsonData::Object(
            seq![
                id,
                ts,
                ("kind"@, JsonData::Str("entity"@)),
                ("action"@, JsonData::Str(spec_action(env.event))),
                ("entityType"@, JsonData::Str(entity_type@)),
                ("entityId"@, JsonData::Str(spec_uuid_hyphenated(entity_id))),
                ("data"@, data@),
            ],
        ),
        FrameworkEvent::Entity(EntityEvent::Deleted { entity_type, entity_id }) => JsonData::Object(
            seq![
                id,
                ts,
                ("kind"@, JsonData::Str("entity"@)),
                ("action"@, JsonData::Str("deleted"@)),
                ("entityType"@, JsonData::Str(entity_type@)),
                ("entityId"@, JsonData::Str(spec_uuid_hyphenated(entity_id))),
            ],
        ),
        FrameworkEvent::Link(LinkEvent::Created { link_type, link_id, source_id, target_id, metadata }) =>
            JsonData::Object(
            seq![
                id,
                ts,
                ("kind"@, JsonData::Str("link"@)),
                ("action"@, JsonData::Str("created"@)),
                ("linkType"@, JsonData::Str(link_type@)),
                ("linkId"@, JsonData::Str(spec_uuid_hyphenated(link_id))),
                ("sourceId"@, JsonData::Str(spec_uuid_hyphenated(source_id))),
                ("targetId"@, JsonData::Str(spec_uuid_hyphenated(target_id))),
                ("metadata"@, spec_opt_json(metadata)),
            ],
        ),
        FrameworkEvent::Link(LinkEvent::Deleted { link_type, link_id, source_id, target_id }) =>
            JsonData::Object(
            seq![
                id,
                ts,
                ("kind"@, JsonData::Str("link"@)),
                ("action"@, JsonData::Str("deleted"@)),
                ("linkType"@, JsonData::Str(link_type@)),
                ("linkId"@, JsonData::Str(spec_uuid_hyphenated(link_id))),
                ("sourceId"@, JsonData::Str(spec_uuid_hyphenated(source_id))),
                ("targetId"@, JsonData::Str(spec_uuid_hyphenated(target_id))),
            ],
        ),
    }
}

/// Convert an event envelope to a GraphQL-friendly JSON value.
pub fn envelope_to_graphql_value(envelope: &EventEnvelope) -> (r: JsonValue)
    ensures
        r@ == spec_event_graphql(*envelope),
{
    let mut m: Vec<(String, JsonValue)> = Vec::new();
    assert(json_members_view(m@) == Seq::<(Seq<char>, JsonData)>::empty());
    push_member(&mut m, "id", JsonValue::String(uuid_to_string(envelope.id)));
    push_member(&mut m, "timestamp", JsonValue::String(envelope.timestamp.to_rfc3339()));
    let ghost id = ("id"@, JsonData::Str(spec_uuid_hyphenated(envelope.id)));
    let ghost ts = ("timestamp"@, JsonData::Str(envelope.timestamp.spec_text()));
    match &envelope.event {
        FrameworkEvent::Entity(EntityEvent::Created { entity_type, entity_id, data })
        | FrameworkEvent::Entity(EntityEvent::Updated { entity_type, entity_id, data }) => {
            push_member(&mut m, "kind", json_str("entity"));
            push_member(&mut m, "action", json_str(envelope.event.action()));
            push_member(&mut m, "entityType", json_str(entity_type.as_str()));
            push_member(&mut m, "entityId", JsonValue::String(uuid_to_string(*entity_id)));
            push_member(&mut m, "data", data.clone_value());
            assert(json_members_view(m@) == seq![
                id,
                ts,
                ("kind"@, JsonData::Str("entity"@)),
                ("action"@, JsonData::Str(spec_action(envelope.event))),
                ("entityType"@, JsonData::Str(entity_type@)),
                ("entityId"@, JsonData::Str(spec_uuid_hyphenated(*entity_id))),
                ("data"@, data@),
            ]);
            assert(JsonData::Object(json_members_view(m@)) == spec_event_graphql(*envelope));
        },
        FrameworkEvent::Entity(EntityEvent::Deleted { entity_type, entity_id }) => {
            push_member(&mut m, "kind", json_str("entity"));
            push_member(&mut m, "action", json_str("deleted"));
            push_member(&mut m, "entityType", json_str(entity_type.as_str()));
            push_member(&mut m, "entityId", JsonValue::String(uuid_to_string(*entity_id)));
            assert(json_members_view(m@) == seq![
                id,
                ts,
                ("kind"@, JsonData::Str("entity"@)),
                ("action"@, JsonData::Str("deleted"@)),
                ("entityType"@, JsonData::Str(entity_type@)),
                ("entityId"@, JsonData::Str(spec_uuid_hyphenated(*entity_id))),
            ]);
            assert(JsonData::Object(json_members_view(m@)) == spec_event_graphql(*envelope));
        },
        FrameworkEvent::Link(LinkEvent::Created { link_type, link_id, source_id, target_id, metadata }) => {
            push_member(&mut m, "kind", json_str("link"));
            push_member(&mut m, "action", json_str("created"));
            push_member(&mut m, "linkType", json_str(link_type.as_str()));
            push_member(&mut m, "linkId", JsonValue::String(uuid_to_string(*link_id)));
            push_member(&mut m, "sourceId", JsonValue::String(uuid_to_string(*source_id)));
            push_member(&mut m, "targetId", JsonValue::String(uuid_to_string(*target_id)));
            push_member(&mut m, "metadata", opt_json(metadata));
            assert(json_members_view(m@) == seq![
                id,
                ts,
                ("kind"@, JsonData::Str("link"@)),
                ("action"@, JsonData::Str("created"@)),
                ("linkType"@, JsonData::Str(link_type@)),
                ("linkId"@, JsonData::Str(spec_uuid_hyphenated(*link_id))),
                ("sourceId"@, JsonData::Str(spec_uuid_hyphenated(*source_id))),
                ("targetId"@, JsonData::Str(spec_uuid_hyphenated(*target_id))),
                ("metadata"@, spec_opt_json(*metadata)),
            ]);
            assert(JsonData::Object(json_members_view(m@)) == spec_event_graphql(*envelope));
        },
        FrameworkEvent::Link(LinkEvent::Deleted { link_type, link_id, source_id, target_id }) => {
            push_member(&mut m, "kind", json_str("link"));
            push_member(&mut m, "action", json_str("deleted"));
            push_member(&mut m, "linkType", json_str(link_type.as_str()));
            push_member(&mut m, "linkId", JsonValue::String(uuid_to_string(*link_id)));
            push_member(&mut m, "sourceId", JsonValue::String(uuid_to_string(*source_id)));
            push_member(&mut m, "targetId", JsonValue::String(uuid_to_string(*target_id)));
            assert(json_members_view(m@) == seq![
                id,
                ts,
                ("kind"@, JsonData::Str("link"@)),
                ("action"@, JsonData::Str("deleted"@)),
                ("linkType"@, JsonData::Str(link_type@)),
                ("linkId"@, JsonData::Str(spec_uuid_hyphenated(*link_id))),
                ("sourceId"@, JsonData::Str(spec_uuid_hyphenated(*source_id))),
                ("targetId"@, JsonData::Str(spec_uuid_hyphenated(*target_id))),
            ]);
            assert(JsonData::Object(json_members_view(m@)) == spec_event_graphql(*envelope));
        },
    }
    JsonValue::Object(m)
}

/// Client-to-server messages of `graphql-transport-ws`; the query of a
/// `subscribe` is given parsed (`None` when it did not parse).
#[derive(Debug)]
pub enum GqlWsClientMsg {
    ConnectionInit,
    Subscribe { id: String, parsed: Option<GqlDocument> },
    Complete { id: String },
    Ping,
}

/// Server-to-client messages of `graphql-transport-ws`.
#[derive(Debug)]
pub enum GqlWsServerMsg {
    ConnectionAck,
    Next { id: String, payload: JsonValue },
    Error { id: String, payload: JsonValue },
    Complete { id: String },
    Pong,
}

/// What the connection handler does next.
#[derive(Debug)]
pub enum GqlWsAction {
    /// Send a message to the client
    Send(GqlWsServerMsg),
    /// Start streaming matching bus events under this subscription id
    StartEvents { id: String, filter: GqlEventFilter },
    /// Start streaming notifications (for one user, or all) under this id
    StartNotifications { id: String, user_id: Option<String> },
    /// Stop the stream running under this subscription id
    Abort { id: String },
}

/// The error payload of the protocol: `[{"message": <text>}]`.
pub open spec fn spec_error_payload(message: Seq<char>) -> JsonData {
    JsonData::Array(seq![JsonData::Object(seq![("message"@, JsonData::Str(message))])])
}

/// Build the error payload `[{"message": <text>}]`.
pub fn error_payload(message: &str) -> (r: JsonValue)
    ensures
        r@ == spec_error_payload(message@),
{
    let mut m: Vec<(String, JsonValue)> = Vec::new();
    assert(json_members_view(m@) == Seq::<(Seq<char>, JsonData)>::empty());
    push_member(&mut m, "message", json_str(message));
    assert(json_members_view(m@) == seq![("message"@, JsonData::Str(message@))]);
    let obj = JsonValue::Object(m);
    assert(obj@ == JsonData::Object(seq![("message"@, JsonData::Str(message@))]));
    let mut items: Vec<JsonValue> = Vec::new();
    let ghost i0 = items@;
    items.push(obj);
    assert(items@.drop_last() == i0);
    assert(json_items_view(i0) == Seq::<JsonData>::empty());
    assert(json_items_view(items@) == seq![JsonData::Object(seq![("message"@, JsonData::Str(message@))])]);
    JsonValue::Array(items)
}

/// `{"data": {<field>: <payload>}}`, the payload of a `next` message.
pub open spec fn spec_next_payload(field: Seq<char>, payload: JsonData) -> JsonData {
    JsonData::Object(seq![("data"@, JsonData::Object(seq![(field, payload)]))])
}

fn next_payload(field: &str, payload: JsonValue) -> (r: JsonValue)
    ensures
        r@ == spec_next_payload(field@, payload@),
{
    let ghost pv = payload@;
    let mut inner: Vec<(String, JsonValue)> = Vec::new();
    assert(json_members_view(inner@) == Seq::<(Seq<char>, JsonData)>::empty());
    push_member(&mut inner, field, payload);
    assert(json_members_view(inner@) == seq![(field@, pv)]);
    let inner_obj = JsonValue::Object(inner);
    let mut outer: Vec<(String, JsonValue)> = Vec::new();
    assert(json_members_view(outer@) == Seq::<(Seq<char>, JsonData)>::empty());
    push_member(&mut outer, "data", inner_obj);
    assert(json_members_view(outer@) == seq![("data"@, JsonData::Object(seq![(field@, pv)]))]);
    JsonValue::Object(outer)
}

/// The message an `onEvent` subscription sends for a bus event: `next`
/// with `{"data": {"onEvent": ...}}` when the event matches, nothing else.
pub fn event_next_message(sub_id: &str, filter: &GqlEventFilter, envelope: &EventEnvelope) -> (r:
    Option<GqlWsServerMsg>)
    ensures
        spec_gql_matches(envelope.event, filter@) ==> (r matches Some(GqlWsServerMsg::Next { id, payload })
            && id@ == sub_id@ && payload@ == spec_next_payload("onEvent"@, spec_event_graphql(*envelope))),
        !spec_gql_matches(envelope.event, filter@) ==> r is None,
{
    if matches_filter(envelope, filter) {
        let payload = next_payload("onEvent", envelope_to_graphql_value(envelope));
        Some(GqlWsServerMsg::Next { id: owned(sub_id), payload })
    } else {
        None
    }
}

/// The message an `onNotification` subscription sends for a stored
/// notification: `next` with `{"data": {"onNotification": ...}}` when it
/// passes the user filter, nothing else.
pub fn notification_next_message(
    sub_id: &str,
    user_filter: &Option<String>,
    n: &StoredNotification,
) -> (r: Option<GqlWsServerMsg>)
    ensures
        spec_notification_passes(n.recipient_id@, *user_filter) ==> (r matches Some(
            GqlWsServerMsg::Next { id, payload },
        ) && id@ == sub_id@ && payload@ == spec_next_payload(
            "onNotification"@,
            spec_notification_graphql(*n),
        )),
        !spec_notification_passes(n.recipient_id@, *user_filter) ==> r is None,
{
    if notification_passes(n, user_filter) {
        let payload = next_payload("onNotification", notification_to_graphql_value(n));
        Some(GqlWsServerMsg::Next { id: owned(sub_id), payload })
    } else {
        None
    }
}

/// Set of subscription ids with a running stream on one connection.
#[derive(Debug)]
pub struct GqlWsSession {
    active: Vec<String>,
}

impl GqlWsSession {
    /// The ids with a running stream.
    pub closed spec fn spec_active(&self) -> Set<Seq<char>> {
        self.active@.map_values(|s: String| s@).to_set()
    }

    /// A fresh session with no stream.
    pub fn new() -> (r: GqlWsSession)
        ensures
            r.spec_active() == Set::<Seq<char>>::empty(),
    {
        let r = GqlWsSession { active: Vec::new() };
        assert(r.spec_active() =~= Set::<Seq<char>>::empty());
        r
    }

    fn position(&self, id: &str) -> (r: Option<usize>)
        ensures
            match r {
                Some(i) => i < self.active@.len() && self.active@[i as int]@ == id@,
                None => !self.spec_active().contains(id@),
            },
    {
        let mut i: usize = 0;
        while i < self.active.len()
            invariant
                i <= self.active@.len(),
                forall|j: int| 0 <= j < i ==> (#[trigger] self.active@[j])@ != id@,
            decreases self.active@.len() - i,
        {
            if str_eq(self.active[i].as_str(), id) {
                return Some(i);
            }
            i = i + 1;
        }
        assert(!self.spec_active().contains(id@)) by {
            if self.spec_active().contains(id@) {
                let ghost v = self.active@.map_values(|s: String| s@);
                let k = choose|k: int| 0 <= k < v.len() && v[k] == id@;
                assert(self.active@[k]@ == id@);
            }
        }
        None
    }

    fn insert(&mut self, id: &str)
        ensures
            final(self).spec_active() == old(self).spec_active().insert(id@),
    {
        match self.position(id) {
            Some(i) => {
                let ghost v = self.active@.map_values(|s: String| s@);
                assert(v[i as int] == id@);
                assert(self.spec_active().contains(id@));
                assert(self.spec_active().insert(id@) =~= self.spec_active());
            },
            None => {
                let ghost v0 = self.active@.map_values(|s: String| s@);
                self.active.push(owned(id));
                let ghost v1 = self.active@.map_values(|s: String| s@);
                assert(v1 =~= v0.push(id@));
                assert(v1.to_set() =~= v0.to_set().insert(id@)) by {
                    assert forall|x: Seq<char>| v1.to_set().contains(x) <==> v0.to_set().insert(
                        id@,
                    ).contains(x) by {
                        if v1.to_set().contains(x) {
                            let k = choose|k: int| 0 <= k < v1.len() && v1[k] == x;
                            if k < v0.len() {
                                assert(v0[k] == x);
                            }
                        }
                        if v0.to_set().contains(x) {
                            let k = choose|k: int| 0 <= k < v0.len() && v0[k] == x;
                            assert(v1[k] == x);
                        }
                        if x == id@ {
                            assert(v1[v0.len() as int] == x);
                        }
                    }
                }
            },
        }
    }

    /// Remove `id`; whether it was running.
    fn remove(&mut self, id: &str) -> (r: bool)
        ensures
            r == old(self).spec_active().contains(id@),
            final(self).spec_active() == old(self).spec_active().remove(id@),
        decreases old(self).active@.len(),
    {
        match self.position(id) {
            Some(i) => {
                let ghost v0 = self.active@.map_values(|s: String| s@);
                assert(v0[i as int] == id@);
                assert(self.spec_active().contains(id@));
                self.active.remove(i);
                let ghost v1 = self.active@.map_values(|s: String| s@);
                assert(v1 =~= v0.remove(i as int));
                let _ = self.remove(id);
                proof {
                    assert forall|x: Seq<char>| #![auto] x != id@ implies (v1.to_set().contains(x)
                        <==> v0.to_set().contains(x)) by {
                        if v1.to_set().contains(x) {
                            let k = choose|k: int| 0 <= k < v1.len() && v1[k] == x;
                            if k < i {
                                assert(v0[k] == x);
                            } else {
                                assert(v0[k + 1] == x);
                            }
                        }
                        if v0.to_set().contains(x) {
                            let k = choose|k: int| 0 <= k < v0.len() && v0[k] == x;
                            assert(k != i);
                            if k < i {
                                assert(v1[k] == x);
                            } else {
                                assert(v1[k - 1] == x);
                            }
                        }
                    }
                    assert(self.spec_active() =~= v0.to_set().remove(id@));
                }
                true
            },
            None => {
                assert(self.spec_active().remove(id@) =~= self.spec_active());
                false
            },
        }
    }

    /// Handle one protocol message: `connection_init` is acknowledged,
    /// `ping` answered with `pong`; `subscribe` starts the stream the
    /// query asks for (or answers `error` then `complete` when the
    /// subscription is unknown or its source is not configured);
    /// `complete` stops the stream of that id.
    pub fn handle(&mut self, msg: GqlWsClientMsg, has_event_bus: bool, has_notification_store: bool) -> (r:
        Vec<GqlWsAction>)
        ensures
            match msg {
                GqlWsClientMsg::ConnectionInit => r@.len() == 1 && (r@[0] matches GqlWsAction::Send(
                    GqlWsServerMsg::ConnectionAck,
                )) && final(self).spec_active() == old(self).spec_active(),
                GqlWsClientMsg::Ping => r@.len() == 1 && (r@[0] matches GqlWsAction::Send(
                    GqlWsServerMsg::Pong,
                )) && final(self).spec_active() == old(self).spec_active(),
                GqlWsClientMsg::Complete { id } => spec_complete_actions(
                    id@,
                    old(self).spec_active(),
                    final(self).spec_active(),
                    r@,
                ),
                GqlWsClientMsg::Subscribe { id, parsed } => spec_subscribe_actions(
                    id@,
                    parsed,
                    has_event_bus,
                    has_notification_store,
                    old(self).spec_active(),
                    final(self).spec_active(),
                    r@,
                ),
            },
    {
        match msg {
            GqlWsClientMsg::ConnectionInit => vec![GqlWsAction::Send(GqlWsServerMsg::ConnectionAck)],
            GqlWsClientMsg::Ping => vec![GqlWsAction::Send(GqlWsServerMsg::Pong)],
            GqlWsClientMsg::Complete { id } => {
                let ghost before = self.spec_active();
                if self.remove(id.as_str()) {
                    vec![GqlWsAction::Abort { id }]
                } else {
                    assert(self.spec_active() =~= before);
                    Vec::new()
                }
            },
            GqlWsClientMsg::Subscribe { id, parsed } => {
                match detect_subscription_type(&parsed) {
                    SubscriptionType::OnEvent(filter) => {
                        if has_event_bus {
                            self.insert(id.as_str());
                            vec![GqlWsAction::StartEvents { id, filter }]
                        } else {
                            let e = error_payload("EventBus not configured");
                            vec![
                                GqlWsAction::Send(GqlWsServerMsg::Error { id: id.clone(), payload: e }),
                                GqlWsAction::Send(GqlWsServerMsg::Complete { id }),
                            ]
                        }
                    },
                    SubscriptionType::OnNotification(user_id) => {
                        if has_notification_store {
                            self.insert(id.as_str());
                            vec![GqlWsAction::StartNotifications { id, user_id }]
                        } else {
                            let e = error_payload("NotificationStore not configured");
                            vec![
                                GqlWsAction::Send(GqlWsServerMsg::Error { id: id.clone(), payload: e }),
                                GqlWsAction::Send(GqlWsServerMsg::Complete { id }),
                            ]
                        }
                    },
                    SubscriptionType::Unknown(field) => {
                        let mut text = owned("Unknown subscription field: ");
                        text.append(field.as_str());
                        let e = error_payload(text.as_str());
                        vec![
                            GqlWsAction::Send(GqlWsServerMsg::Error { id: id.clone(), payload: e }),
                            GqlWsAction::Send(GqlWsServerMsg::Complete { id }),
                        ]
                    },
                }
            },
        }
    }

    /// The connection closed: every running stream must be stopped.
    pub fn close(self) -> (r: Vec<String>)
        ensures
            r@.map_values(|s: String| s@).to_set() == self.spec_active(),
    {
        self.active
    }
}

/// What a `complete` message leads to: the stream running under `id` is
/// aborted and forgotten; when none runs, nothing happens.
pub open spec fn spec_complete_actions(
    id: Seq<char>,
    before: Set<Seq<char>>,
    after: Set<Seq<char>>,
    r: Seq<GqlWsAction>,
) -> bool {
    if before.contains(id) {
        r.len() == 1 && (r[0] matches GqlWsAction::Abort { id: a } && a@ == id) && after
            == before.remove(id)
    } else {
        r.len() == 0 && after == before
    }
}

/// `error` then `complete` for the subscription `id`.
pub open spec fn spec_refusal(id: Seq<char>, message: Seq<char>, r: Seq<GqlWsAction>) -> bool {
    &&& r.len() == 2
    &&& r[0] matches GqlWsAction::Send(GqlWsServerMsg::Error { id: a, payload }) && a@ == id
        && payload@ == spec_error_payload(message)
    &&& r[1] matches GqlWsAction::Send(GqlWsServerMsg::Complete { id: b }) && b@ == id
}

/// What a `subscribe` message leads to.
pub open spec fn spec_subscribe_actions(
    id: Seq<char>,
    parsed: Option<GqlDocument>,
    has_event_bus: bool,
    has_notification_store: bool,
    before: Set<Seq<char>>,
    after: Set<Seq<char>>,
    r: Seq<GqlWsAction>,
) -> bool {
    let reason = match parsed {
        None => "(parse error)"@,
        Some(doc) => match spec_first_subscription_field(doc.definitions@) {
            None => "(no subscription field)"@,
            Some(field) => field.name@,
        },
    };
    if reason == "onEvent"@ && parsed is Some && spec_first_subscription_field(
        parsed->0.definitions@,
    ) is Some {
        if has_event_bus {
            r.len() == 1 && (r[0] matches GqlWsAction::StartEvents { id: a, filter } && a@ == id
                && filter@ == spec_subscription_filter(parsed)) && after == before.insert(id)
        } else {
            spec_refusal(id, "EventBus not configured"@, r) && after == before
        }
    } else if reason == "onNotification"@ && parsed is Some && spec_first_subscription_field(
        parsed->0.definitions@,
    ) is Some {
        if has_notification_store {
            r.len() == 1 && (r[0] matches GqlWsAction::StartNotifications { id: a, user_id } && a@
                == id && opt_view(user_id) == spec_user_id_arg(
                spec_first_subscription_field(parsed->0.definitions@)->0,
            )) && after == before.insert(id)
        } else {
            spec_refusal(id, "NotificationStore not configured"@, r) && after == before
        }
    } else {
        spec_refusal(id, "Unknown subscription field: "@ + reason, r) && after == before
    }
}


/// An `onEvent` subscription without arguments receives every event.
pub proof fn law_gql_empty_filter_matches_all(e: FrameworkEvent)
    ensures
        spec_gql_matches(e, empty_filter()),
{
}

/// A stream started by `subscribe` under an id that was not running is
/// stopped by `complete` with that id: over what `handle` promises for the
/// two messages, the running set is what it was before and the stream is
/// aborted; a second `complete` finds nothing to stop.
pub proof fn law_subscribe_then_complete(
    id: Seq<char>,
    parsed: Option<GqlDocument>,
    has_event_bus: bool,
    has_notification_store: bool,
    before: Set<Seq<char>>,
    subscribed: Set<Seq<char>>,
    completed: Set<Seq<char>>,
    again: Set<Seq<char>>,
    started: Seq<GqlWsAction>,
    stopped: Seq<GqlWsAction>,
    nothing: Seq<GqlWsAction>,
)
    requires
        !before.contains(id),
        spec_subscribe_actions(id, parsed, has_event_bus, has_notification_store, before, subscribed, started),
        started.len() == 1 && (started[0] is StartEvents || started[0] is StartNotifications),
        spec_complete_actions(id, subscribed, completed, stopped),
        spec_complete_actions(id, completed, again, nothing),
    ensures
        completed == before,
        stopped.len() == 1 && (stopped[0] matches GqlWsAction::Abort { id: a } && a@ == id),
        nothing.len() == 0,
        again == completed,
{
    assert(subscribed == before.insert(id));
    assert(before.insert(id).remove(id) =~= before);
}

/// The JSON an `onEvent` subscriber receives describes that event: its
/// identifier and time, its `kind` and `action`; for an entity event the
/// entity's type and identifier, and for a created or updated entity its
/// data; for a link event the link's type, identifier, source and target in
/// the link's own direction, and for a created link its metadata (`null`
/// only when the event carries none).
pub proof fn law_event_graphql_describes_the_event(env: EventEnvelope)
    ensures
        spec_get(spec_event_graphql(env), "id"@) == Some(JsonData::Str(spec_uuid_hyphenated(env.id))),
        spec_get(spec_event_graphql(env), "timestamp"@) == Some(JsonData::Str(env.timestamp.spec_text())),
        spec_get(spec_event_graphql(env), "kind"@) == Some(JsonData::Str(spec_event_kind(env.event))),
        spec_get(spec_event_graphql(env), "action"@) == Some(JsonData::Str(spec_action(env.event))),
        match env.event {
            FrameworkEvent::Entity(EntityEvent::Created { entity_type, entity_id, data })
            | FrameworkEvent::Entity(EntityEvent::Updated { entity_type, entity_id, data }) => {
                &&& spec_get(spec_event_graphql(env), "entityType"@) == Some(JsonData::Str(entity_type@))
                &&& spec_get(spec_event_graphql(env), "entityId"@) == Some(
                    JsonData::Str(spec_uuid_hyphenated(entity_id)),
                )
                &&& spec_get(spec_event_graphql(env), "data"@) == Some(data@)
            },
            FrameworkEvent::Entity(EntityEvent::Deleted { entity_type, entity_id }) => {
                &&& spec_get(spec_event_graphql(env), "entityType"@) == Some(JsonData::Str(entity_type@))
                &&& spec_get(spec_event_graphql(env), "entityId"@) == Some(
                    JsonData::Str(spec_uuid_hyphenated(entity_id)),
                )
            },
            FrameworkEvent::Link(LinkEvent::Created { link_type, link_id, source_id, target_id, metadata }) => {
                &&& spec_get(spec_event_graphql(env), "linkType"@) == Some(JsonData::Str(link_type@))
                &&& spec_get(spec_event_graphql(env), "linkId"@) == Some(JsonData::Str(spec_uuid_hyphenated(link_id)))
                &&& spec_get(spec_event_graphql(env), "sourceId"@) == Some(
                    JsonData::Str(spec_uuid_hyphenated(source_id)),
                )
                &&& spec_get(spec_event_graphql(env), "targetId"@) == Some(
                    JsonData::Str(spec_uuid_hyphenated(target_id)),
                )
                &&& spec_get(spec_event_graphql(env), "metadata"@) == Some(
                    match metadata {
                        Some(m) => m@,
                        None => JsonData::Null,
                    },
                )
            },
            FrameworkEvent::Link(LinkEvent::Deleted { link_type, link_id, source_id, target_id }) => {
                &&& spec_get(spec_event_graphql(env), "linkType"@) == Some(JsonData::Str(link_type@))
                &&& spec_get(spec_event_graphql(env), "linkId"@) == Some(JsonData::Str(spec_uuid_hyphenated(link_id)))
                &&& spec_get(spec_event_graphql(env), "sourceId"@) == Some(
                    JsonData::Str(spec_uuid_hyphenated(source_id)),
                )
                &&& spec_get(spec_event_graphql(env), "targetId"@) == Some(
                    JsonData::Str(spec_uuid_hyphenated(target_id)),
                )
            },
        },
{
    reveal_strlit("id");
    reveal_strlit("timestamp");
    reveal_strlit("kind");
    reveal_strlit("action");
    reveal_strlit("entityType");
    reveal_strlit("entityId");
    reveal_strlit("data");
    reveal_strlit("linkType");
    reveal_strlit("linkId");
    reveal_strlit("sourceId");
    reveal_strlit("targetId");
    reveal_strlit("metadata");
    let m = match spec_event_graphql(env) {
        JsonData::Object(m) => m,
        _ => Seq::empty(),
    };
    lemma_lookup_at_apart(m, "id"@, 0);
    lemma_lookup_at_apart(m, "timestamp"@, 1);
    lemma_lookup_at_apart(m, "kind"@, 2);
    lemma_lookup_at_apart(m, "action"@, 3);
    match env.event {
        FrameworkEvent::Entity(EntityEvent::Created { .. })
        | FrameworkEvent::Entity(EntityEvent::Updated { .. }) => {
            lemma_lookup_at_apart(m, "entityType"@, 4);
            lemma_lookup_at_apart(m, "entityId"@, 5);
            lemma_lookup_at_apart(m, "data"@, 6);
        },
        FrameworkEvent::Entity(EntityEvent::Deleted { .. }) => {
            lemma_lookup_at_apart(m, "entityType"@, 4);
            lemma_lookup_at_apart(m, "entityId"@, 5);
        },
        FrameworkEvent::Link(LinkEvent::Created { .. }) => {
            lemma_lookup_at_apart(m, "linkType"@, 4);
            lemma_lookup_at_apart(m, "linkId"@, 5);
            lemma_lookup_at_apart(m, "sourceId"@, 6);
            lemma_lookup_at_apart(m, "targetId"@, 7);
            lemma_lookup_at_apart(m, "metadata"@, 8);
        },
        FrameworkEvent::Link(LinkEvent::Deleted { .. }) => {
            lemma_lookup_at_apart(m, "linkType"@, 4);
            lemma_lookup_at_apart(m, "linkId"@, 5);
            lemma_lookup_at_apart(m, "sourceId"@, 6);
            lemma_lookup_at_apart(m, "targetId"@, 7);
        },
    }
}

} // verus!
