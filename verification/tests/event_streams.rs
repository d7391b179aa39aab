use graphql_parser::query as q;
use this_rs::events::{EntityEvent, EventEnvelope, FrameworkEvent, LinkEvent};
use this_rs::gql::{GqlDefinition, GqlDocument, GqlField, GqlSelection, GqlValue, OperationKind};
use this_rs::gql_subscriptions::{
    detect_subscription_type, envelope_to_graphql_value, event_next_message, matches_filter as gql_matches_filter,
    notification_next_message, parse_subscription_filter, GqlEventFilter, GqlWsAction, GqlWsClientMsg,
    GqlWsServerMsg, GqlWsSession, SubscriptionType,
};
use this_rs::grpc_events::{envelope_to_response, matches_filter as grpc_matches_filter, SubscribeRequest};
use this_rs::json::{json_get, JsonValue};
use this_rs::notifications::{notification_to_graphql_value, stored_to_response, StoredNotification};
use this_rs::sse::{envelope_to_sse_data, lag_warning, matches_filter as sse_matches_filter, SseFilter};
use this_rs::timestamp::Timestamp;
use this_rs::ws_protocol::{Subscription, SubscriptionFilter};

fn random_uuid() -> u128 {
    uuid::Uuid::new_v4().as_u128()
}

fn uuid_to_string(id: u128) -> String {
    uuid::Uuid::from_u128(id).to_string()
}

fn s(x: &str) -> String {
    x.to_string()
}

fn obj(members: Vec<(&str, JsonValue)>) -> JsonValue {
    JsonValue::Object(members.into_iter().map(|(k, v)| (s(k), v)).collect())
}

fn text(x: &str) -> JsonValue {
    JsonValue::String(s(x))
}

fn member<'a>(v: &'a JsonValue, key: &str) -> &'a JsonValue {
    json_get(v, key).expect("member should be present")
}

fn envelope(event: FrameworkEvent) -> EventEnvelope {
    EventEnvelope::new(event)
}

fn entity_event(entity_type: &str, action: &str, data_name: &str) -> FrameworkEvent {
    match action {
        "created" => FrameworkEvent::Entity(EntityEvent::Created {
            entity_type: s(entity_type),
            entity_id: random_uuid(),
            data: obj(vec![("name", text(data_name))]),
        }),
        "updated" => FrameworkEvent::Entity(EntityEvent::Updated {
            entity_type: s(entity_type),
            entity_id: random_uuid(),
            data: obj(vec![("name", text(data_name))]),
        }),
        "deleted" => FrameworkEvent::Entity(EntityEvent::Deleted {
            entity_type: s(entity_type),
            entity_id: random_uuid(),
        }),
        _ => unreachable!(),
    }
}

fn link_event(link_type: &str, action: &str) -> FrameworkEvent {
    match action {
        "created" => FrameworkEvent::Link(LinkEvent::Created {
            link_type: s(link_type),
            link_id: random_uuid(),
            source_id: random_uuid(),
            target_id: random_uuid(),
            metadata: None,
        }),
        "deleted" => FrameworkEvent::Link(LinkEvent::Deleted {
            link_type: s(link_type),
            link_id: random_uuid(),
            source_id: random_uuid(),
            target_id: random_uuid(),
        }),
        _ => unreachable!(),
    }
}

fn make_entity_envelope(entity_type: &str, action: &str) -> EventEnvelope {
    let name = if action == "updated" { "updated" } else { "test" };
    envelope(entity_event(entity_type, action, name))
}

fn make_link_envelope(link_type: &str, action: &str) -> EventEnvelope {
    envelope(link_event(link_type, action))
}

fn created_with_empty_data(entity_type: &str) -> FrameworkEvent {
    FrameworkEvent::Entity(EntityEvent::Created {
        entity_type: s(entity_type),
        entity_id: random_uuid(),
        data: obj(vec![]),
    })
}

// Conversion of a parsed query into the library's document, as the server
// does it before handing the query to the subscription logic.
fn value_of(v: &q::Value<'_, String>) -> GqlValue {
    match v {
        q::Value::Variable(n) => GqlValue::Variable(n.clone()),
        q::Value::Int(n) => GqlValue::Int(n.as_i64().unwrap_or(0)),
        q::Value::Float(f) => GqlValue::Float(f.to_bits()),
        q::Value::String(x) => GqlValue::String(x.clone()),
        q::Value::Boolean(b) => GqlValue::Boolean(*b),
        q::Value::Null => GqlValue::Null,
        q::Value::Enum(e) => GqlValue::Enum(e.clone()),
        q::Value::List(l) => GqlValue::List(l.iter().map(value_of).collect()),
        q::Value::Object(o) => GqlValue::Object(o.iter().map(|(k, v)| (k.clone(), value_of(v))).collect()),
    }
}

fn selections_of(set: &q::SelectionSet<'_, String>) -> Vec<GqlSelection> {
    set.items
        .iter()
        .map(|item| match item {
            q::Selection::Field(f) => GqlSelection::Field(GqlField {
                name: f.name.clone(),
                arguments: f.arguments.iter().map(|(k, v)| (k.clone(), value_of(v))).collect(),
                selection_set: selections_of(&f.selection_set),
            }),
            q::Selection::FragmentSpread(_) => GqlSelection::FragmentSpread,
            q::Selection::InlineFragment(_) => GqlSelection::InlineFragment,
        })
        .collect()
}

fn parse(query: &str) -> Option<GqlDocument> {
    let doc = q::parse_query::<String>(query).ok()?;
    let definitions = doc
        .definitions
        .iter()
        .map(|d| match d {
            q::Definition::Operation(q::OperationDefinition::SelectionSet(ss)) => GqlDefinition::Operation {
                kind: OperationKind::SelectionSet,
                selection_set: selections_of(ss),
            },
            q::Definition::Operation(q::OperationDefinition::Query(x)) => GqlDefinition::Operation {
                kind: OperationKind::Query,
                selection_set: selections_of(&x.selection_set),
            },
            q::Definition::Operation(q::OperationDefinition::Mutation(x)) => GqlDefinition::Operation {
                kind: OperationKind::Mutation,
                selection_set: selections_of(&x.selection_set),
            },
            q::Definition::Operation(q::OperationDefinition::Subscription(x)) => GqlDefinition::Operation {
                kind: OperationKind::Subscription,
                selection_set: selections_of(&x.selection_set),
            },
            q::Definition::Fragment(_) => GqlDefinition::Fragment,
        })
        .collect();
    Some(GqlDocument { definitions })
}

// ---- SSE ----

#[test]
fn sse_test_matches_filter_no_filter() {
    let envelope = make_entity_envelope("user", "created");
    assert!(sse_matches_filter(&envelope, &SseFilter::default()));
}

#[test]
fn sse_test_matches_filter_kind_entity() {
    let envelope = make_entity_envelope("user", "created");
    assert!(sse_matches_filter(&envelope, &SseFilter { kind: Some(s("entity")), ..Default::default() }));
    assert!(!sse_matches_filter(&envelope, &SseFilter { kind: Some(s("link")), ..Default::default() }));
}

#[test]
fn sse_test_matches_filter_kind_link() {
    let envelope = make_link_envelope("follows", "created");
    assert!(sse_matches_filter(&envelope, &SseFilter { kind: Some(s("link")), ..Default::default() }));
    assert!(!sse_matches_filter(&envelope, &SseFilter { kind: Some(s("entity")), ..Default::default() }));
}

#[test]
fn sse_test_matches_filter_entity_type() {
    let envelope = make_entity_envelope("user", "created");
    assert!(sse_matches_filter(&envelope, &SseFilter { entity_type: Some(s("user")), ..Default::default() }));
    assert!(!sse_matches_filter(&envelope, &SseFilter { entity_type: Some(s("order")), ..Default::default() }));
}

#[test]
fn sse_test_matches_filter_event_type() {
    let envelope = make_entity_envelope("user", "created");
    assert!(sse_matches_filter(&envelope, &SseFilter { event_type: Some(s("created")), ..Default::default() }));
    assert!(!sse_matches_filter(&envelope, &SseFilter { event_type: Some(s("deleted")), ..Default::default() }));
}

#[test]
fn sse_test_matches_filter_combined() {
    let envelope = make_entity_envelope("user", "created");
    let filter = SseFilter { kind: Some(s("entity")), entity_type: Some(s("user")), event_type: Some(s("created")) };
    assert!(sse_matches_filter(&envelope, &filter));
    let filter = SseFilter { kind: Some(s("entity")), entity_type: Some(s("user")), event_type: Some(s("deleted")) };
    assert!(!sse_matches_filter(&envelope, &filter));
}

#[test]
fn test_envelope_to_sse_event_entity_created() {
    let envelope = make_entity_envelope("user", "created");
    let data = envelope_to_sse_data(&envelope);
    assert_eq!(member(&data, "kind"), &text("entity"));
    assert_eq!(member(&data, "action"), &text("created"));
    assert_eq!(member(&data, "entity_type"), &text("user"));
    assert_eq!(member(&data, "data"), &obj(vec![("name", text("test"))]));
    assert_eq!(member(&data, "timestamp"), &JsonValue::String(envelope.timestamp.to_rfc3339()));
}

#[test]
fn test_envelope_to_sse_event_entity_deleted() {
    let envelope = make_entity_envelope("user", "deleted");
    let data = envelope_to_sse_data(&envelope);
    assert_eq!(member(&data, "action"), &text("deleted"));
    assert!(json_get(&data, "data").is_none());
}

#[test]
fn test_envelope_to_sse_event_link_created() {
    let envelope = make_link_envelope("follows", "created");
    let data = envelope_to_sse_data(&envelope);
    assert_eq!(member(&data, "kind"), &text("link"));
    assert_eq!(member(&data, "link_type"), &text("follows"));
    assert_eq!(member(&data, "metadata"), &JsonValue::Null);
}

#[test]
fn test_envelope_to_sse_event_link_deleted() {
    let envelope = make_link_envelope("follows", "deleted");
    let data = envelope_to_sse_data(&envelope);
    assert_eq!(member(&data, "action"), &text("deleted"));
    assert!(json_get(&data, "metadata").is_none());
}

#[test]
fn test_link_filter_by_link_type() {
    let envelope = make_link_envelope("follows", "created");
    assert!(sse_matches_filter(&envelope, &SseFilter { entity_type: Some(s("follows")), ..Default::default() }));
    assert!(!sse_matches_filter(&envelope, &SseFilter { entity_type: Some(s("owns")), ..Default::default() }));
}

#[test]
fn test_link_event_type_filter() {
    let created = make_link_envelope("follows", "created");
    let deleted = make_link_envelope("follows", "deleted");
    let filter = SseFilter { event_type: Some(s("created")), ..Default::default() };
    assert!(sse_matches_filter(&created, &filter));
    assert!(!sse_matches_filter(&deleted, &filter));
}

#[test]
fn sse_lag_warning_counts_missed_events() {
    assert_eq!(lag_warning(0), "missed 0 events due to slow consumption");
    assert_eq!(lag_warning(1234), "missed 1234 events due to slow consumption");
}

// ---- gRPC event service ----

fn req() -> SubscribeRequest {
    SubscribeRequest::default()
}

#[test]
fn event_service_test_filter_empty_matches_everything() {
    let filter = req();
    assert!(grpc_matches_filter(&created_with_empty_data("user"), &filter));
    assert!(grpc_matches_filter(&link_event("follow", "created"), &filter));
}

#[test]
fn event_service_test_filter_by_entity_type() {
    let filter = SubscribeRequest { entity_type: Some(s("user")), ..req() };
    assert!(grpc_matches_filter(&created_with_empty_data("user"), &filter));
    assert!(!grpc_matches_filter(&created_with_empty_data("capture"), &filter));
}

#[test]
fn test_filter_by_kind_entity() {
    let filter = SubscribeRequest { kind: Some(s("entity")), ..req() };
    assert!(grpc_matches_filter(&created_with_empty_data("user"), &filter));
    assert!(!grpc_matches_filter(&link_event("follow", "created"), &filter));
}

#[test]
fn test_filter_by_kind_link() {
    let filter = SubscribeRequest { kind: Some(s("link")), ..req() };
    assert!(!grpc_matches_filter(&created_with_empty_data("user"), &filter));
    assert!(grpc_matches_filter(&link_event("follow", "created"), &filter));
}

#[test]
fn event_service_test_filter_by_event_type() {
    let filter = SubscribeRequest { event_type: Some(s("deleted")), ..req() };
    let created = created_with_empty_data("user");
    let deleted = FrameworkEvent::Entity(EntityEvent::Deleted { entity_type: s("user"), entity_id: random_uuid() });
    assert!(!grpc_matches_filter(&created, &filter));
    assert!(grpc_matches_filter(&deleted, &filter));
}

#[test]
fn test_filter_by_link_type() {
    let filter = SubscribeRequest { link_type: Some(s("follow")), ..req() };
    assert!(grpc_matches_filter(&link_event("follow", "created"), &filter));
    assert!(!grpc_matches_filter(&link_event("like", "created"), &filter));
    assert!(!grpc_matches_filter(&created_with_empty_data("user"), &filter));
}

#[test]
fn test_filter_combined() {
    let filter = SubscribeRequest {
        entity_type: Some(s("user")),
        event_type: Some(s("created")),
        kind: Some(s("entity")),
        ..req()
    };
    let user_deleted = FrameworkEvent::Entity(EntityEvent::Deleted { entity_type: s("user"), entity_id: random_uuid() });
    assert!(grpc_matches_filter(&created_with_empty_data("user"), &filter));
    assert!(!grpc_matches_filter(&user_deleted, &filter));
    assert!(!grpc_matches_filter(&created_with_empty_data("capture"), &filter));
}

#[test]
fn event_service_test_filter_by_entity_id() {
    let target = random_uuid();
    let other = random_uuid();
    let filter = SubscribeRequest { entity_id: Some(uuid_to_string(target)), ..req() };
    let matching = FrameworkEvent::Entity(EntityEvent::Updated { entity_type: s("user"), entity_id: target, data: obj(vec![]) });
    let not_matching = FrameworkEvent::Entity(EntityEvent::Updated { entity_type: s("user"), entity_id: other, data: obj(vec![]) });
    assert!(grpc_matches_filter(&matching, &filter));
    assert!(!grpc_matches_filter(&not_matching, &filter));
}

#[test]
fn empty_filter_strings_match_everything() {
    let filter = SubscribeRequest { kind: Some(s("")), entity_type: Some(s("")), link_type: Some(s("")), ..req() };
    assert!(grpc_matches_filter(&created_with_empty_data("user"), &filter));
    assert!(grpc_matches_filter(&link_event("follow", "deleted"), &filter));
}

#[test]
fn test_envelope_to_response_entity_created() {
    let entity_id = random_uuid();
    let envelope = envelope(FrameworkEvent::Entity(EntityEvent::Created {
        entity_type: s("user"),
        entity_id,
        data: obj(vec![("name", text("Alice"))]),
    }));
    let resp = envelope_to_response(&envelope);
    assert_eq!(resp.event_id, uuid_to_string(envelope.id));
    assert_eq!(resp.event_kind, "entity");
    assert_eq!(resp.event_type, "created");
    assert_eq!(resp.entity_type, "user");
    assert_eq!(resp.entity_id, uuid_to_string(entity_id));
    assert!(resp.link_type.is_empty());
    assert!(resp.source_id.is_empty());
    assert!(resp.target_id.is_empty());
    assert!(resp.data.is_some());
    assert!(resp.metadata.is_none());
}

#[test]
fn test_envelope_to_response_link_created() {
    let link_id = random_uuid();
    let source = random_uuid();
    let target = random_uuid();
    let envelope = envelope(FrameworkEvent::Link(LinkEvent::Created {
        link_type: s("follow"),
        link_id,
        source_id: source,
        target_id: target,
        metadata: Some(obj(vec![("via", text("mobile"))])),
    }));
    let resp = envelope_to_response(&envelope);
    assert_eq!(resp.event_kind, "link");
    assert_eq!(resp.event_type, "created");
    assert!(resp.entity_type.is_empty());
    assert_eq!(resp.entity_id, uuid_to_string(link_id));
    assert_eq!(resp.link_type, "follow");
    assert_eq!(resp.source_id, uuid_to_string(source));
    assert_eq!(resp.target_id, uuid_to_string(target));
    assert!(resp.data.is_none());
    assert!(resp.metadata.is_some());
}

#[test]
fn test_envelope_to_response_entity_deleted() {
    let envelope = envelope(FrameworkEvent::Entity(EntityEvent::Deleted { entity_type: s("capture"), entity_id: random_uuid() }));
    let resp = envelope_to_response(&envelope);
    assert_eq!(resp.event_kind, "entity");
    assert_eq!(resp.event_type, "deleted");
    assert_eq!(resp.entity_type, "capture");
    assert!(resp.data.is_none());
    assert!(resp.metadata.is_none());
}

// ---- GraphQL subscriptions ----

fn gfilter() -> GqlEventFilter {
    GqlEventFilter::default()
}

#[test]
fn subscription_handler_test_matches_filter_no_filter() {
    assert!(gql_matches_filter(&make_entity_envelope("order", "created"), &gfilter()));
}

#[test]
fn subscription_handler_test_matches_filter_kind_entity() {
    let envelope = make_entity_envelope("order", "created");
    assert!(gql_matches_filter(&envelope, &GqlEventFilter { kind: Some(s("entity")), ..gfilter() }));
    assert!(!gql_matches_filter(&envelope, &GqlEventFilter { kind: Some(s("link")), ..gfilter() }));
}

#[test]
fn subscription_handler_test_matches_filter_kind_link() {
    let envelope = make_link_envelope("has_invoice", "created");
    assert!(gql_matches_filter(&envelope, &GqlEventFilter { kind: Some(s("link")), ..gfilter() }));
    assert!(!gql_matches_filter(&envelope, &GqlEventFilter { kind: Some(s("entity")), ..gfilter() }));
}

#[test]
fn subscription_handler_test_matches_filter_entity_type() {
    let envelope = make_entity_envelope("order", "created");
    assert!(gql_matches_filter(&envelope, &GqlEventFilter { entity_type: Some(s("order")), ..gfilter() }));
    assert!(!gql_matches_filter(&envelope, &GqlEventFilter { entity_type: Some(s("invoice")), ..gfilter() }));
}

#[test]
fn subscription_handler_test_matches_filter_event_type() {
    let envelope = make_entity_envelope("order", "created");
    assert!(gql_matches_filter(&envelope, &GqlEventFilter { event_type: Some(s("created")), ..gfilter() }));
    assert!(!gql_matches_filter(&envelope, &GqlEventFilter { event_type: Some(s("deleted")), ..gfilter() }));
}

#[test]
fn test_matches_filter_entity_id() {
    let entity_id = random_uuid();
    let envelope = envelope(FrameworkEvent::Entity(EntityEvent::Created { entity_type: s("order"), entity_id, data: obj(vec![]) }));
    assert!(gql_matches_filter(&envelope, &GqlEventFilter { entity_id: Some(uuid_to_string(entity_id)), ..gfilter() }));
    assert!(!gql_matches_filter(&envelope, &GqlEventFilter { entity_id: Some(uuid_to_string(random_uuid())), ..gfilter() }));
}

#[test]
fn subscription_handler_test_matches_filter_combined() {
    let envelope = make_entity_envelope("order", "created");
    let ok = GqlEventFilter { kind: Some(s("entity")), entity_type: Some(s("order")), event_type: Some(s("created")), ..gfilter() };
    assert!(gql_matches_filter(&envelope, &ok));
    let wrong = GqlEventFilter { kind: Some(s("entity")), entity_type: Some(s("order")), event_type: Some(s("deleted")), ..gfilter() };
    assert!(!gql_matches_filter(&envelope, &wrong));
}

#[test]
fn test_matches_filter_link_by_link_type() {
    let envelope = make_link_envelope("has_invoice", "created");
    assert!(gql_matches_filter(&envelope, &GqlEventFilter { entity_type: Some(s("has_invoice")), ..gfilter() }));
    assert!(!gql_matches_filter(&envelope, &GqlEventFilter { entity_type: Some(s("other_type")), ..gfilter() }));
}

#[test]
fn test_parse_subscription_filter_all_args() {
    let query = r#"subscription { onEvent(kind: "entity", entityType: "order", eventType: "created", entityId: "abc-123") { id kind } }"#;
    let filter = parse_subscription_filter(&parse(query));
    assert_eq!(filter.kind.as_deref(), Some("entity"));
    assert_eq!(filter.entity_type.as_deref(), Some("order"));
    assert_eq!(filter.event_type.as_deref(), Some("created"));
    assert_eq!(filter.entity_id.as_deref(), Some("abc-123"));
}

#[test]
fn test_parse_subscription_filter_partial_args() {
    let query = r#"subscription { onEvent(entityType: "order") { id kind action entityType } }"#;
    let filter = parse_subscription_filter(&parse(query));
    assert_eq!(filter.kind, None);
    assert_eq!(filter.entity_type.as_deref(), Some("order"));
    assert_eq!(filter.event_type, None);
    assert_eq!(filter.entity_id, None);
}

#[test]
fn test_parse_subscription_filter_no_args() {
    let query = r#"subscription { onEvent { id kind action } }"#;
    let filter = parse_subscription_filter(&parse(query));
    assert_eq!(filter.kind, None);
    assert_eq!(filter.entity_type, None);
    assert_eq!(filter.event_type, None);
    assert_eq!(filter.entity_id, None);
}

#[test]
fn test_parse_subscription_filter_invalid_query() {
    let parsed = parse("not valid graphql {{{{");
    assert!(parsed.is_none());
    let filter = parse_subscription_filter(&parsed);
    assert_eq!(filter.kind, None);
    assert_eq!(filter.entity_type, None);
}

#[test]
fn test_envelope_to_graphql_value_entity_created() {
    let entity_id = random_uuid();
    let envelope = envelope(FrameworkEvent::Entity(EntityEvent::Created {
        entity_type: s("order"),
        entity_id,
        data: obj(vec![("name", text("Test"))]),
    }));
    let value = envelope_to_graphql_value(&envelope);
    assert_eq!(member(&value, "kind"), &text("entity"));
    assert_eq!(member(&value, "action"), &text("created"));
    assert_eq!(member(&value, "entityType"), &text("order"));
    assert_eq!(member(&value, "entityId"), &JsonValue::String(uuid_to_string(entity_id)));
    assert_eq!(member(member(&value, "data"), "name"), &text("Test"));
    assert!(matches!(member(&value, "timestamp"), JsonValue::String(_)));
}

#[test]
fn test_envelope_to_graphql_value_entity_deleted() {
    let envelope = envelope(FrameworkEvent::Entity(EntityEvent::Deleted { entity_type: s("order"), entity_id: random_uuid() }));
    let value = envelope_to_graphql_value(&envelope);
    assert_eq!(member(&value, "kind"), &text("entity"));
    assert_eq!(member(&value, "action"), &text("deleted"));
    assert_eq!(member(&value, "entityType"), &text("order"));
    assert!(json_get(&value, "data").is_none());
}

#[test]
fn test_envelope_to_graphql_value_link_created() {
    let link_id = random_uuid();
    let source_id = random_uuid();
    let target_id = random_uuid();
    let envelope = envelope(FrameworkEvent::Link(LinkEvent::Created {
        link_type: s("has_invoice"),
        link_id,
        source_id,
        target_id,
        metadata: Some(obj(vec![("priority", text("high"))])),
    }));
    let value = envelope_to_graphql_value(&envelope);
    assert_eq!(member(&value, "kind"), &text("link"));
    assert_eq!(member(&value, "action"), &text("created"));
    assert_eq!(member(&value, "linkType"), &text("has_invoice"));
    assert_eq!(member(&value, "linkId"), &JsonValue::String(uuid_to_string(link_id)));
    assert_eq!(member(&value, "sourceId"), &JsonValue::String(uuid_to_string(source_id)));
    assert_eq!(member(&value, "targetId"), &JsonValue::String(uuid_to_string(target_id)));
    assert_eq!(member(member(&value, "metadata"), "priority"), &text("high"));
}

#[test]
fn test_envelope_to_graphql_value_link_deleted() {
    let envelope = make_link_envelope("has_invoice", "deleted");
    let value = envelope_to_graphql_value(&envelope);
    assert_eq!(member(&value, "kind"), &text("link"));
    assert_eq!(member(&value, "action"), &text("deleted"));
    assert!(json_get(&value, "metadata").is_none());
}

#[test]
fn test_detect_subscription_type_on_event() {
    let sub_type = detect_subscription_type(&parse(r#"subscription { onEvent(kind: "entity") { id kind } }"#));
    assert!(matches!(sub_type, SubscriptionType::OnEvent(_)), "should detect onEvent");
}

#[test]
fn test_detect_subscription_type_on_notification() {
    let sub_type = detect_subscription_type(&parse(r#"subscription { onNotification(userId: "user-A") { id title } }"#));
    match sub_type {
        SubscriptionType::OnNotification(user_id) => assert_eq!(user_id.as_deref(), Some("user-A")),
        other => panic!("expected OnNotification, got {:?}", other),
    }
}

#[test]
fn test_detect_subscription_type_on_notification_no_user_id() {
    let sub_type = detect_subscription_type(&parse(r#"subscription { onNotification { id title } }"#));
    match sub_type {
        SubscriptionType::OnNotification(user_id) => assert_eq!(user_id, None),
        other => panic!("expected OnNotification, got {:?}", other),
    }
}

#[test]
fn test_detect_subscription_type_unknown() {
    let sub_type = detect_subscription_type(&parse(r#"subscription { unknownField { id } }"#));
    match sub_type {
        SubscriptionType::Unknown(name) => assert_eq!(name, "unknownField"),
        other => panic!("expected Unknown, got {:?}", other),
    }
}

#[test]
fn test_detect_subscription_type_parse_error() {
    let sub_type = detect_subscription_type(&parse("not valid {{{{"));
    match sub_type {
        SubscriptionType::Unknown(reason) => assert_eq!(reason, "(parse error)"),
        other => panic!("expected Unknown, got {:?}", other),
    }
}

#[test]
fn detect_subscription_type_without_subscription_operation() {
    let sub_type = detect_subscription_type(&parse("query { orders { id } }"));
    match sub_type {
        SubscriptionType::Unknown(reason) => assert_eq!(reason, "(no subscription field)"),
        other => panic!("expected Unknown, got {:?}", other),
    }
}

fn notification(recipient: &str, data: JsonValue, read: bool) -> StoredNotification {
    StoredNotification {
        id: random_uuid(),
        recipient_id: s(recipient),
        notification_type: s("new_follower"),
        title: s("New follower"),
        body: s("Alice followed you"),
        data,
        read,
        created_at: Timestamp::from_unix(1_700_000_000, 0).unwrap(),
    }
}

#[test]
fn test_notification_to_graphql_value() {
    let n = notification("user-A", obj(vec![("follower", text("Alice"))]), false);
    let value = notification_to_graphql_value(&n);
    assert_eq!(member(&value, "id"), &JsonValue::String(uuid_to_string(n.id)));
    assert_eq!(member(&value, "recipientId"), &text("user-A"));
    assert_eq!(member(&value, "notificationType"), &text("new_follower"));
    assert_eq!(member(&value, "title"), &text("New follower"));
    assert_eq!(member(&value, "body"), &text("Alice followed you"));
    assert_eq!(member(member(&value, "data"), "follower"), &text("Alice"));
    assert_eq!(member(&value, "read"), &JsonValue::Bool(false));
    assert_eq!(member(&value, "createdAt"), &text("2023-11-14T22:13:20+00:00"));
}

// ---- notification service ----

#[test]
fn test_stored_to_response_with_data() {
    let n = notification("user-A", obj(vec![("follower_name", text("Alice"))]), false);
    let resp = stored_to_response(&n);
    assert_eq!(resp.id, uuid_to_string(n.id));
    assert_eq!(resp.recipient_id, "user-A");
    assert_eq!(resp.notification_type, "new_follower");
    assert_eq!(resp.title, "New follower");
    assert_eq!(resp.body, "Alice followed you");
    assert!(!resp.read);
    assert!(resp.data.is_some());
    assert!(!resp.created_at.is_empty());
}

#[test]
fn test_stored_to_response_null_data() {
    let mut n = notification("user-B", JsonValue::Null, true);
    n.notification_type = s("test");
    n.title = s("Test");
    n.body = String::new();
    let resp = stored_to_response(&n);
    assert_eq!(resp.recipient_id, "user-B");
    assert!(resp.read);
    assert!(resp.data.is_none(), "null data should map to None");
}

// ---- WebSocket protocol filters ----

#[test]
fn protocol_test_filter_empty_matches_everything() {
    let filter = SubscriptionFilter::default();
    assert!(filter.matches(&created_with_empty_data("order")));
    assert!(filter.matches(&link_event("has_invoice", "created")));
}

#[test]
fn protocol_test_filter_by_entity_type() {
    let filter = SubscriptionFilter { entity_type: Some(s("order")), ..Default::default() };
    assert!(filter.matches(&created_with_empty_data("order")));
    assert!(!filter.matches(&created_with_empty_data("invoice")));
    assert!(!filter.matches(&link_event("has_invoice", "created")));
}

#[test]
fn protocol_test_filter_by_entity_id() {
    let target_id = random_uuid();
    let other_id = random_uuid();
    let filter = SubscriptionFilter { entity_id: Some(target_id), ..Default::default() };
    let matching = FrameworkEvent::Entity(EntityEvent::Updated { entity_type: s("order"), entity_id: target_id, data: obj(vec![]) });
    let not_matching = FrameworkEvent::Entity(EntityEvent::Updated { entity_type: s("order"), entity_id: other_id, data: obj(vec![]) });
    assert!(filter.matches(&matching));
    assert!(!filter.matches(&not_matching));
}

#[test]
fn protocol_test_filter_by_event_type() {
    let filter = SubscriptionFilter { event_type: Some(s("deleted")), ..Default::default() };
    let deleted = FrameworkEvent::Entity(EntityEvent::Deleted { entity_type: s("order"), entity_id: random_uuid() });
    assert!(filter.matches(&deleted));
    assert!(!filter.matches(&created_with_empty_data("order")));
}

#[test]
fn test_filter_by_kind() {
    let filter = SubscriptionFilter { kind: Some(s("link")), ..Default::default() };
    assert!(!filter.matches(&created_with_empty_data("order")));
    assert!(filter.matches(&link_event("has_invoice", "created")));
}

#[test]
fn test_filter_combined_entity_type_and_action() {
    let filter = SubscriptionFilter { entity_type: Some(s("order")), event_type: Some(s("created")), ..Default::default() };
    let order_deleted = FrameworkEvent::Entity(EntityEvent::Deleted { entity_type: s("order"), entity_id: random_uuid() });
    assert!(filter.matches(&created_with_empty_data("order")));
    assert!(!filter.matches(&order_deleted));
    assert!(!filter.matches(&created_with_empty_data("invoice")));
}

#[test]
fn test_subscription_generates_unique_id() {
    let sub1 = Subscription::new(SubscriptionFilter::default());
    let sub2 = Subscription::new(SubscriptionFilter::default());
    assert_ne!(sub1.id, sub2.id);
    assert!(sub1.id.starts_with("sub_"));
    assert!(sub2.id.starts_with("sub_"));
    assert_eq!(sub1.id.len(), 36);
}

// ---- graphql-transport-ws session ----

fn error_message(payload: &JsonValue) -> String {
    match payload {
        JsonValue::Array(items) => match member(&items[0], "message") {
            JsonValue::String(m) => m.clone(),
            other => panic!("message is not a string: {:?}", other),
        },
        other => panic!("error payload is not an array: {:?}", other),
    }
}

#[test]
fn gql_ws_session_acknowledges_and_answers_ping() {
    let mut session = GqlWsSession::new();
    let acts = session.handle(GqlWsClientMsg::ConnectionInit, true, true);
    assert!(matches!(acts.as_slice(), [GqlWsAction::Send(GqlWsServerMsg::ConnectionAck)]));
    let acts = session.handle(GqlWsClientMsg::Ping, true, true);
    assert!(matches!(acts.as_slice(), [GqlWsAction::Send(GqlWsServerMsg::Pong)]));
    assert!(session.close().is_empty());
}

#[test]
fn gql_ws_session_starts_and_stops_event_streams() {
    let mut session = GqlWsSession::new();
    let parsed = parse("subscription { onEvent(entityType: \"order\") { action } }");
    let acts = session.handle(GqlWsClientMsg::Subscribe { id: s("1"), parsed }, true, false);
    match acts.as_slice() {
        [GqlWsAction::StartEvents { id, filter }] => {
            assert_eq!(id, "1");
            assert_eq!(filter.entity_type.as_deref(), Some("order"));
        }
        other => panic!("expected StartEvents, got {:?}", other),
    }
    let acts = session.handle(GqlWsClientMsg::Complete { id: s("1") }, true, false);
    assert!(matches!(acts.as_slice(), [GqlWsAction::Abort { id }] if id == "1"));
    let acts = session.handle(GqlWsClientMsg::Complete { id: s("1") }, true, false);
    assert!(acts.is_empty(), "a second complete stops nothing");
    assert!(session.close().is_empty());
}

#[test]
fn gql_ws_session_refuses_unconfigured_and_unknown_subscriptions() {
    let mut session = GqlWsSession::new();
    let acts = session.handle(
        GqlWsClientMsg::Subscribe { id: s("a"), parsed: parse("subscription { onEvent { action } }") },
        false,
        true,
    );
    match acts.as_slice() {
        [GqlWsAction::Send(GqlWsServerMsg::Error { id, payload }), GqlWsAction::Send(GqlWsServerMsg::Complete { id: id2 })] => {
            assert_eq!((id.as_str(), id2.as_str()), ("a", "a"));
            assert_eq!(error_message(payload), "EventBus not configured");
        }
        other => panic!("expected error then complete, got {:?}", other),
    }
    let acts = session.handle(
        GqlWsClientMsg::Subscribe { id: s("b"), parsed: parse("subscription { onNotification { id } }") },
        true,
        false,
    );
    match acts.as_slice() {
        [GqlWsAction::Send(GqlWsServerMsg::Error { payload, .. }), GqlWsAction::Send(GqlWsServerMsg::Complete { .. })] => {
            assert_eq!(error_message(payload), "NotificationStore not configured");
        }
        other => panic!("expected error then complete, got {:?}", other),
    }
    let acts = session.handle(
        GqlWsClientMsg::Subscribe { id: s("c"), parsed: parse("subscription { onSomething { id } }") },
        true,
        true,
    );
    match acts.as_slice() {
        [GqlWsAction::Send(GqlWsServerMsg::Error { payload, .. }), GqlWsAction::Send(GqlWsServerMsg::Complete { .. })] => {
            assert_eq!(error_message(payload), "Unknown subscription field: onSomething");
        }
        other => panic!("expected error then complete, got {:?}", other),
    }
    assert!(session.close().is_empty(), "refused subscriptions do not run");
}

#[test]
fn gql_ws_session_close_lists_running_streams() {
    let mut session = GqlWsSession::new();
    let acts = session.handle(
        GqlWsClientMsg::Subscribe { id: s("n"), parsed: parse("subscription { onNotification(userId: \"u1\") { id } }") },
        false,
        true,
    );
    match acts.as_slice() {
        [GqlWsAction::StartNotifications { id, user_id }] => {
            assert_eq!(id, "n");
            assert_eq!(user_id.as_deref(), Some("u1"));
        }
        other => panic!("expected StartNotifications, got {:?}", other),
    }
    session.handle(GqlWsClientMsg::Subscribe { id: s("e"), parsed: parse("subscription { onEvent { action } }") }, true, true);
    let mut running = session.close();
    running.sort();
    assert_eq!(running, vec![s("e"), s("n")]);
}

#[test]
fn gql_event_next_message_wraps_matching_events_only() {
    let env = make_entity_envelope("order", "created");
    let filter = GqlEventFilter { entity_type: Some(s("order")), event_type: None, kind: None, entity_id: None };
    match event_next_message("7", &filter, &env) {
        Some(GqlWsServerMsg::Next { id, payload }) => {
            assert_eq!(id, "7");
            assert_eq!(member(member(&payload, "data"), "onEvent"), &envelope_to_graphql_value(&env));
        }
        other => panic!("expected next, got {:?}", other),
    }
    let other = GqlEventFilter { entity_type: Some(s("invoice")), event_type: None, kind: None, entity_id: None };
    assert!(event_next_message("7", &other, &env).is_none());
}

#[test]
fn gql_notification_next_message_filters_by_user() {
    let n = notification("user-A", JsonValue::Null, false);
    match notification_next_message("9", &Some(s("user-A")), &n) {
        Some(GqlWsServerMsg::Next { id, payload }) => {
            assert_eq!(id, "9");
            assert_eq!(member(member(&payload, "data"), "onNotification"), &notification_to_graphql_value(&n));
        }
        other => panic!("expected next, got {:?}", other),
    }
    assert!(notification_next_message("9", &Some(s("user-B")), &n).is_none());
    assert!(notification_next_message("9", &None, &n).is_some());
}
