use this_rs::auth::{auth_decision, build_auth_layer, AuthContext, AuthOutcome};
use this_rs::events::{EntityEvent, FrameworkEvent, LinkEvent};
use this_rs::exposures::{sts_failure, revoked_body, GraphQLExposure, GrpcExposure, RestExposure, StsCall};
use this_rs::gdpr::{
    admin_required_body, erasure_permitted, ErasureAction, ErasureCascade, ErasureInput, GdprServices,
    GdprState, LinkPurge,
};
use this_rs::gql_static::{
    entity_from_json, link_from_record, link_json, plan_dynamic_entity_call, plan_entity_lookup, plan_static_create_link,
    Entity, Link,
};
use this_rs::grpc_services::{
    created_entity_event, created_link_event, deleted_entity_event, entity_response_data, internal_failure,
    link_not_found, updated_entity_event, deleted_link_event, link_to_response, list_total, plan_create_entity,
    plan_create_link, plan_find_links, plan_get_entity, plan_link_id, plan_list_entities,
    plan_update_entity, CreateEntityRequest, CreateLinkRequest, FindLinksRequest, GetEntityRequest,
    LinkIdRequest, LinkRecord, ListEntitiesRequest, UpdateEntityRequest,
};
use this_rs::json::{json_get, JsonNumber, JsonValue};
use this_rs::notifications::{
    count_body, delete_answer, grpc_page, list_body, muted_body, non_empty_filter, parse_notification_id,
    parse_notification_ids,
    register_answer, require_user_id, unregister_answer, PaginationParams,
};
use this_rs::status::Code;
use this_rs::tenant::resolve_tenant_id;
use this_rs::text::decimal;
use this_rs::timestamp::Timestamp;
use this_rs::ws_connections::ConnectionManager;
use this_rs::ws_protocol::{ClientMessage, ServerMessage, SubscriptionFilter};

fn random_uuid() -> u128 {
    uuid::Uuid::new_v4().as_u128()
}

fn uuid_to_string(id: u128) -> String {
    uuid::Uuid::from_u128(id).to_string()
}

fn uuid_to_simple_string(id: u128) -> String {
    uuid::Uuid::from_u128(id).simple().to_string()
}

fn parse_uuid(s: &str) -> Option<u128> {
    uuid::Uuid::parse_str(s).ok().map(|u| u.as_u128())
}

fn s(x: &str) -> String {
    x.to_string()
}

fn obj(members: Vec<(&str, JsonValue)>) -> JsonValue {
    JsonValue::Object(members.into_iter().map(|(k, v)| (s(k), v)).collect())
}

fn text(x: &str) -> JsonValue {
    JsonValue::String(s(x))
}

fn created(entity_type: &str) -> FrameworkEvent {
    FrameworkEvent::Entity(EntityEvent::Created { entity_type: s(entity_type), entity_id: random_uuid(), data: obj(vec![]) })
}

fn at(secs: i64) -> Timestamp {
    Timestamp::from_unix(secs, 0).unwrap()
}

// ---- WebSocket connection table ----

#[test]
fn test_connect_and_disconnect() {
    let mut cm = ConnectionManager::new();
    let conn_id = cm.connect();
    assert!(conn_id.starts_with("conn_"));
    assert_eq!(conn_id.len(), 37);
    assert_eq!(cm.connection_count(), 1);
    cm.disconnect(&conn_id);
    assert_eq!(cm.connection_count(), 0);
}

#[test]
fn test_subscribe_and_unsubscribe() {
    let mut cm = ConnectionManager::new();
    let conn_id = cm.connect();
    let filter = SubscriptionFilter { entity_type: Some(s("order")), ..Default::default() };
    let sub_id = cm.subscribe(&conn_id, filter).unwrap();
    assert!(sub_id.starts_with("sub_"));
    assert!(cm.unsubscribe(&conn_id, &sub_id).unwrap());
    assert!(!cm.unsubscribe(&conn_id, &sub_id).unwrap());
}

#[test]
fn test_subscribe_nonexistent_connection() {
    let mut cm = ConnectionManager::new();
    let result = cm.subscribe("nonexistent", SubscriptionFilter::default());
    assert_eq!(result.err(), Some(s("Connection nonexistent not found")));
}

#[test]
fn test_dispatch_event_matches() {
    let mut cm = ConnectionManager::new();
    let conn_id = cm.connect();
    let sub_id = cm.subscribe(&conn_id, SubscriptionFilter { entity_type: Some(s("order")), ..Default::default() }).unwrap();
    assert_eq!(cm.dispatch_targets(&created("order")), vec![(conn_id, sub_id)]);
}

#[test]
fn test_dispatch_event_no_match() {
    let mut cm = ConnectionManager::new();
    let conn_id = cm.connect();
    cm.subscribe(&conn_id, SubscriptionFilter { entity_type: Some(s("order")), ..Default::default() }).unwrap();
    assert!(cm.dispatch_targets(&created("invoice")).is_empty());
}

#[test]
fn test_multiple_subscriptions_same_connection() {
    let mut cm = ConnectionManager::new();
    let conn_id = cm.connect();
    cm.subscribe(&conn_id, SubscriptionFilter { entity_type: Some(s("order")), ..Default::default() }).unwrap();
    cm.subscribe(&conn_id, SubscriptionFilter { entity_type: Some(s("invoice")), ..Default::default() }).unwrap();
    assert_eq!(cm.dispatch_targets(&created("order")).len(), 1);
    assert_eq!(cm.dispatch_targets(&created("invoice")).len(), 1);
    assert!(cm.dispatch_targets(&created("user")).is_empty());
}

#[test]
fn test_concurrent_subscriptions_same_event_different_connections() {
    let mut cm = ConnectionManager::new();
    let c1 = cm.connect();
    let c2 = cm.connect();
    let filter = || SubscriptionFilter { entity_type: Some(s("order")), event_type: Some(s("created")), ..Default::default() };
    let s1 = cm.subscribe(&c1, filter()).expect("conn1 subscribe should succeed");
    let s2 = cm.subscribe(&c2, filter()).expect("conn2 subscribe should succeed");
    assert_eq!(cm.dispatch_targets(&created("order")), vec![(c1, s1), (c2, s2)]);
}

#[test]
fn test_dispatch_event_with_multiple_matching_subscriptions() {
    let mut cm = ConnectionManager::new();
    let conn_id = cm.connect();
    let a = cm.subscribe(&conn_id, SubscriptionFilter { entity_type: Some(s("order")), ..Default::default() }).unwrap();
    let b = cm.subscribe(&conn_id, SubscriptionFilter { event_type: Some(s("created")), ..Default::default() }).unwrap();
    assert_eq!(cm.dispatch_targets(&created("order")), vec![(conn_id.clone(), a), (conn_id, b)]);
}

#[test]
fn disconnect_drops_the_subscriptions_of_the_connection() {
    let mut cm = ConnectionManager::new();
    let c1 = cm.connect();
    let c2 = cm.connect();
    cm.subscribe(&c1, SubscriptionFilter::default()).unwrap();
    let keep = cm.subscribe(&c2, SubscriptionFilter::default()).unwrap();
    cm.disconnect(&c1);
    assert_eq!(cm.connection_count(), 1);
    assert_eq!(cm.dispatch_targets(&created("order")), vec![(c2, keep)]);
    cm.disconnect("unknown");
    assert_eq!(cm.connection_count(), 1);
}

#[test]
fn client_messages_are_answered() {
    let mut cm = ConnectionManager::new();
    let conn = cm.connect();
    let sub_id = match cm.handle_client_message(&conn, ClientMessage::Subscribe { filter: SubscriptionFilter { kind: Some(s("link")), ..Default::default() } }) {
        ServerMessage::Subscribed { subscription_id, filter } => {
            assert_eq!(filter.kind, Some(s("link")));
            subscription_id
        }
        other => panic!("unexpected reply {:?}", other),
    };
    match cm.handle_client_message(&conn, ClientMessage::Unsubscribe { subscription_id: sub_id.clone() }) {
        ServerMessage::Unsubscribed { subscription_id } => assert_eq!(subscription_id, sub_id),
        other => panic!("unexpected reply {:?}", other),
    }
    match cm.handle_client_message(&conn, ClientMessage::Unsubscribe { subscription_id: sub_id.clone() }) {
        ServerMessage::Error { message } => assert_eq!(message, format!("Subscription {} not found", sub_id)),
        other => panic!("unexpected reply {:?}", other),
    }
    assert!(matches!(cm.handle_client_message(&conn, ClientMessage::Ping), ServerMessage::Pong));
    match cm.handle_client_message("ghost", ClientMessage::Ping) {
        ServerMessage::Pong => {}
        other => panic!("unexpected reply {:?}", other),
    }
    match cm.handle_client_message("ghost", ClientMessage::Subscribe { filter: SubscriptionFilter::default() }) {
        ServerMessage::Error { message } => assert_eq!(message, "Connection ghost not found"),
        other => panic!("unexpected reply {:?}", other),
    }
}

// ---- authentication and tenants ----

#[test]
fn test_no_auth_provider_returns_anonymous() {
    match auth_decision(Err(s("no token")), "public") {
        AuthOutcome::Proceed(ctx) => assert!(matches!(ctx, AuthContext::Anonymous)),
        other => panic!("unexpected outcome {:?}", other),
    }
}

#[test]
fn test_failed_auth_returns_401_when_not_public() {
    match auth_decision(Err(s("bad signature")), "authenticated") {
        AuthOutcome::Unauthorized { message } => assert_eq!(message, "Unauthorized: bad signature"),
        other => panic!("unexpected outcome {:?}", other),
    }
}

#[test]
fn test_middleware_injects_auth_context() {
    let layer = build_auth_layer((), s("authenticated"));
    assert_eq!(layer.default_policy(), "authenticated");
    match layer.decide(Ok(AuthContext::Admin { admin_id: 7 })) {
        AuthOutcome::Proceed(AuthContext::Admin { admin_id }) => assert_eq!(admin_id, 7),
        other => panic!("unexpected outcome {:?}", other),
    }
}

#[test]
fn test_tenant_from_header() {
    let tid = random_uuid();
    assert_eq!(resolve_tenant_id(Some(&uuid_to_string(tid)), None, None), Some(tid));
}

#[test]
fn test_no_tenant_returns_no_tenant() {
    assert_eq!(resolve_tenant_id(None, None, None), None);
}

#[test]
fn test_tenant_from_query_param() {
    let tid = random_uuid();
    let q = format!("tenant_id={}", uuid_to_string(tid));
    assert_eq!(resolve_tenant_id(None, None, Some(&q)), Some(tid));
    let q = format!("a=1&tenant_id=nope&tenant_id={}", uuid_to_simple_string(tid));
    assert_eq!(resolve_tenant_id(None, None, Some(&q)), Some(tid));
}

#[test]
fn test_tenant_from_auth_context() {
    let tid = random_uuid();
    let auth = AuthContext::User { user_id: random_uuid(), tenant_id: tid, roles: vec![] };
    assert_eq!(resolve_tenant_id(None, Some(&auth), None), Some(tid));
}

#[test]
fn test_header_takes_priority_over_query() {
    let header_tid = random_uuid();
    let query_tid = random_uuid();
    let q = format!("tenant_id={}", uuid_to_string(query_tid));
    assert_eq!(resolve_tenant_id(Some(&uuid_to_string(header_tid)), None, Some(&q)), Some(header_tid));
}

#[test]
fn test_invalid_header_falls_through() {
    assert_eq!(resolve_tenant_id(Some("not-a-uuid"), None, None), None);
}

#[test]
fn test_anonymous_auth_context_no_tenant() {
    assert_eq!(resolve_tenant_id(None, Some(&AuthContext::Anonymous), None), None);
}

// ---- GDPR erasure cascade ----

fn all_services() -> GdprServices {
    GdprServices { has_link_service: true, has_sink_registry: true, has_event_bus: true }
}

#[test]
fn test_erasure_requires_admin() {
    let mut c = ErasureCascade::new(random_uuid(), all_services());
    match c.step(ErasureInput::Request { auth: None, now: at(1) }) {
        ErasureAction::Refuse(body) => assert_eq!(body, admin_required_body()),
        _ => panic!("a request without identity must be refused"),
    }
    assert!(matches!(c.step(ErasureInput::NotificationsPurged(3)), ErasureAction::Ignore));
}

#[test]
fn test_erasure_rejects_non_admin_user() {
    let auth = Some(AuthContext::User { user_id: random_uuid(), tenant_id: random_uuid(), roles: vec![s("admin")] });
    assert!(!erasure_permitted(&auth));
    let mut c = ErasureCascade::new(random_uuid(), all_services());
    assert!(matches!(c.step(ErasureInput::Request { auth, now: at(1) }), ErasureAction::Refuse(_)));
}

#[test]
fn test_erasure_succeeds_for_admin() {
    let tenant = random_uuid();
    let services = GdprServices { has_link_service: false, has_sink_registry: false, has_event_bus: false };
    let mut c = ErasureCascade::new(tenant, services);
    assert!(matches!(
        c.step(ErasureInput::Request { auth: Some(AuthContext::Admin { admin_id: 1 }), now: at(1_700_000_000) }),
        ErasureAction::PurgeNotifications
    ));
    match c.step(ErasureInput::NotificationsPurged(4)) {
        ErasureAction::Respond(r) => {
            assert_eq!(r.tenant_id, tenant);
            assert_eq!(r.notifications_deleted, 4);
            assert_eq!(r.links_deleted, 0);
            assert_eq!(r.status, "erased");
            assert_eq!(r.erased_at.to_rfc3339(), "2023-11-14T22:13:20+00:00");
        }
        _ => panic!("expected the answer"),
    }
}

#[test]
fn test_erasure_cascades_links() {
    let tenant = random_uuid();
    let mut c = ErasureCascade::new(tenant, all_services());
    let admin = Some(AuthContext::Admin { admin_id: 1 });
    assert!(matches!(c.step(ErasureInput::Request { auth: admin, now: at(5) }), ErasureAction::PurgeNotifications));
    assert!(matches!(c.step(ErasureInput::NotificationsPurged(2)), ErasureAction::PurgeLinks));
    assert!(matches!(c.step(ErasureInput::LinksPurged(LinkPurge::Deleted(3))), ErasureAction::RemoveSinks));
    match c.step(ErasureInput::SinksRemoved) {
        ErasureAction::Publish(e) => {
            assert_eq!(e.tenant_id, tenant);
            assert_eq!(e.entities_deleted, 0);
            assert_eq!(e.links_deleted, 3);
            assert_eq!(e.notifications_deleted, 2);
            assert_eq!(e.erased_at.secs(), 5);
        }
        _ => panic!("expected the event"),
    }
    match c.step(ErasureInput::EventPublished) {
        ErasureAction::Respond(r) => {
            assert_eq!(r.links_deleted, 3);
            assert_eq!(r.notifications_deleted, 2);
        }
        _ => panic!("expected the answer"),
    }
    assert!(matches!(c.step(ErasureInput::EventPublished), ErasureAction::Ignore));
}

#[test]
fn failed_link_purge_counts_no_links_and_goes_on() {
    let services = GdprServices { has_link_service: true, has_sink_registry: false, has_event_bus: true };
    let mut c = ErasureCascade::new(random_uuid(), services);
    c.step(ErasureInput::Request { auth: Some(AuthContext::Admin { admin_id: 1 }), now: at(9) });
    c.step(ErasureInput::NotificationsPurged(1));
    match c.step(ErasureInput::LinksPurged(LinkPurge::Failed)) {
        ErasureAction::Publish(e) => assert_eq!(e.links_deleted, 0),
        _ => panic!("without a sink registry the event comes next"),
    }
}

#[test]
fn unexpected_inputs_are_ignored() {
    let mut c = ErasureCascade::new(random_uuid(), all_services());
    assert!(matches!(c.step(ErasureInput::SinksRemoved), ErasureAction::Ignore));
    c.step(ErasureInput::Request { auth: Some(AuthContext::Admin { admin_id: 1 }), now: at(9) });
    assert!(matches!(c.step(ErasureInput::EventPublished), ErasureAction::Ignore));
    assert!(matches!(c.step(ErasureInput::NotificationsPurged(0)), ErasureAction::PurgeLinks));
}

#[test]
fn gdpr_state_reports_configured_services() {
    let state: GdprState<u8, u8, u8, u8> = GdprState { notification_store: 0, link_service: Some(1), sink_registry: None, event_bus: Some(2) };
    let services = state.services();
    assert!(services.has_link_service);
    assert!(!services.has_sink_registry);
    assert!(services.has_event_bus);
}

#[test]
fn admin_required_body_text() {
    assert_eq!(
        admin_required_body(),
        obj(vec![("error", text("admin_required")), ("message", text("GDPR erasure requires admin access"))])
    );
}

// ---- gRPC entity and link services ----

#[test]
fn get_entity_invalid_uuid_returns_invalid_argument() {
    let req = GetEntityRequest { entity_type: s("order"), entity_id: s("not-a-uuid") };
    let status = plan_get_entity(&req, true).err().unwrap();
    assert_eq!(status.code, Code::InvalidArgument);
    let why = uuid::Uuid::parse_str("not-a-uuid").unwrap_err().to_string();
    assert_eq!(status.message, format!("Invalid entity_id: {}", why));
}

#[test]
fn get_entity_unregistered_type_returns_not_found() {
    let id = random_uuid();
    let req = GetEntityRequest { entity_type: s("widget"), entity_id: uuid_to_string(id) };
    let status = plan_get_entity(&req, false).err().unwrap();
    assert_eq!(status.code, Code::NotFound);
    assert_eq!(status.message, "Entity type 'widget' not registered");
    assert_eq!(plan_get_entity(&req, true).ok(), Some(id));
}

#[test]
fn invalid_id_is_reported_before_the_entity_type() {
    let req = GetEntityRequest { entity_type: s("widget"), entity_id: s("x") };
    assert_eq!(plan_get_entity(&req, false).err().unwrap().code, Code::InvalidArgument);
}

#[test]
fn list_entities_with_limit_and_offset() {
    let req = ListEntitiesRequest { entity_type: s("order"), limit: 5, offset: 0 };
    assert_eq!(plan_list_entities(&req, true).ok(), Some((Some(5), None)));
    let req = ListEntitiesRequest { entity_type: s("order"), limit: -1, offset: 3 };
    assert_eq!(plan_list_entities(&req, true).ok(), Some((None, Some(3))));
    assert_eq!(list_total(2), 2);
    assert_eq!(list_total((i32::MAX as usize) + 1), i32::MIN);
}

#[test]
fn list_entities_unknown_type_returns_not_found() {
    let req = ListEntitiesRequest { entity_type: s("widget"), limit: 0, offset: 0 };
    assert_eq!(plan_list_entities(&req, false).err().unwrap().code, Code::NotFound);
}

#[test]
fn create_entity_no_data_uses_empty_map() {
    let req = CreateEntityRequest { entity_type: s("order"), data: None };
    assert_eq!(plan_create_entity(req, true).ok(), Some(obj(vec![])));
}

#[test]
fn create_entity_publishes_event() {
    let id = random_uuid();
    let result = obj(vec![("id", JsonValue::String(uuid_to_string(id))), ("name", text("x"))]);
    match created_entity_event("order", &result) {
        Some(FrameworkEvent::Entity(EntityEvent::Created { entity_type, entity_id, data })) => {
            assert_eq!(entity_type, "order");
            assert_eq!(entity_id, id);
            assert_eq!(data, result);
        }
        other => panic!("unexpected event {:?}", other),
    }
    assert!(created_entity_event("order", &obj(vec![("id", text("nope"))])).is_none());
    assert!(created_entity_event("order", &obj(vec![("id", JsonValue::Number(JsonNumber::PosInt(1)))])).is_none());
}

#[test]
fn update_entity_invalid_uuid_returns_invalid_argument() {
    let req = UpdateEntityRequest { entity_type: s("order"), entity_id: s("bad"), data: Some(obj(vec![])) };
    assert_eq!(plan_update_entity(req, true).err().unwrap().code, Code::InvalidArgument);
}

#[test]
fn create_link_invalid_source_id_returns_invalid_argument() {
    let req = CreateLinkRequest { link_type: s("owns"), source_id: s("bad"), target_id: s("also-bad"), metadata: None };
    let status = plan_create_link(&req).err().unwrap();
    assert_eq!(status.code, Code::InvalidArgument);
    assert!(status.message.starts_with("Invalid source_id: "));
}

#[test]
fn create_link_invalid_target_id_returns_invalid_argument() {
    let req = CreateLinkRequest { link_type: s("owns"), source_id: uuid_to_string(random_uuid()), target_id: s("bad"), metadata: None };
    let status = plan_create_link(&req).err().unwrap();
    assert!(status.message.starts_with("Invalid target_id: "));
}

#[test]
fn find_links_filters_empty_strings_out() {
    let id = random_uuid();
    let req = FindLinksRequest { entity_id: uuid_to_string(id), link_type: s(""), entity_type: s("car") };
    match plan_find_links(&req) {
        Ok((got, lt, et)) => {
            assert_eq!(got, id);
            assert_eq!(lt, None);
            assert_eq!(et, Some(s("car")));
        }
        Err(e) => panic!("unexpected error {:?}", e),
    }
    let bad = LinkIdRequest { link_id: s("zzz") };
    assert!(plan_link_id(&bad).err().unwrap().message.starts_with("Invalid link_id: "));
}

fn record() -> LinkRecord {
    LinkRecord {
        id: random_uuid(),
        link_type: s("owner"),
        source_id: random_uuid(),
        target_id: random_uuid(),
        metadata: None,
        created_at: at(0),
        updated_at: at(60),
    }
}

#[test]
fn link_to_response_enriches_with_entity_data() {
    let link = record();
    let resp = link_to_response(&link, &Some(obj(vec![("name", text("Alice"))])), &None);
    assert_eq!(resp.id, uuid_to_string(link.id));
    assert_eq!(parse_uuid(&resp.source_id), Some(link.source_id));
    assert_eq!(resp.created_at, "1970-01-01T00:00:00+00:00");
    assert_eq!(resp.updated_at, "1970-01-01T00:01:00+00:00");
    assert!(resp.metadata.is_none());
    assert_eq!(resp.source_data, Some(vec![(s("name"), text("Alice"))]));
    assert!(resp.target_data.is_none());
}

#[test]
fn delete_link_publishes_event() {
    let link = record();
    match deleted_link_event(link.id, &Some(record())) {
        Some(FrameworkEvent::Link(LinkEvent::Deleted { link_type, link_id, .. })) => {
            assert_eq!(link_type, "owner");
            assert_eq!(link_id, link.id);
        }
        other => panic!("unexpected event {:?}", other),
    }
    assert!(deleted_link_event(link.id, &None).is_none());
}

// ---- async-graphql schemas ----

#[test]
fn entity_from_json_reads_common_fields() {
    let value = obj(vec![("id", text("e1")), ("type", text("order")), ("name", JsonValue::Number(JsonNumber::PosInt(3))), ("deleted_at", text("2024-01-01"))]);
    let e = entity_from_json(value);
    assert_eq!(e.id, "e1");
    assert_eq!(e.entity_type, "order");
    assert_eq!(e.name, "");
    assert_eq!(e.created_at, "");
    assert_eq!(e.deleted_at, Some(s("2024-01-01")));
    assert_eq!(e.status, "");
}

#[test]
fn static_link_metadata_defaults_to_empty_object() {
    let l = link_from_record(&record());
    assert_eq!(l.metadata, obj(vec![]));
    assert_eq!(l.link_type, "owner");
    assert!(l.target.is_none());
    let j = link_json(&record());
    assert_eq!(json_get(&j, "metadata"), Some(&JsonValue::Null));
    assert_eq!(json_get(&j, "linkType"), Some(&text("owner")));
}

#[test]
fn schema_resolvers_check_ids_and_types() {
    assert_eq!(plan_entity_lookup("not-a-uuid", false), Ok(None));
    assert!(plan_entity_lookup("not-a-uuid", true).unwrap_err().starts_with("Invalid UUID: "));
    let id = random_uuid();
    assert_eq!(plan_entity_lookup(&uuid_to_string(id), true), Ok(Some(id)));
    assert_eq!(plan_dynamic_entity_call(&uuid_to_string(id), "widget", false), Err(s("Unknown entity type: widget")));
    assert!(plan_dynamic_entity_call("x", "widget", false).unwrap_err().starts_with("Invalid UUID: "));
    let err = plan_static_create_link("bad", "bad", None).unwrap_err();
    assert!(err.starts_with("Invalid source UUID: "));
    match plan_static_create_link(&uuid_to_string(id), &uuid_to_string(id), None) {
        Ok((a, b, m)) => {
            assert_eq!((a, b), (id, id));
            assert_eq!(m, obj(vec![]));
        }
        Err(e) => panic!("unexpected error {}", e),
    }
}

// ---- REST answers ----

#[test]
fn health_check_body() {
    assert_eq!(RestExposure::health_check(), obj(vec![("status", text("ok")), ("service", text("this-rs"))]));
    assert_eq!(GrpcExposure::service_route("this_grpc.EntityService"), "/this_grpc.EntityService/{*rest}");
    assert_eq!(
        GraphQLExposure::execution_error_body("boom"),
        obj(vec![("errors", JsonValue::Array(vec![obj(vec![("message", text("boom"))])]))])
    );
}

#[test]
fn sts_failures_and_revocation() {
    let (status, body) = sts_failure(StsCall::Login);
    assert_eq!(status, 401);
    assert_eq!(body, obj(vec![("error", text("invalid_credentials"))]));
    assert_eq!(sts_failure(StsCall::Keys).0, 500);
    assert_eq!(sts_failure(StsCall::Refresh).1, obj(vec![("error", text("invalid_refresh_token"))]));
    assert_eq!(revoked_body(), obj(vec![("status", text("revoked"))]));
}

#[test]
fn notification_answers() {
    assert_eq!(delete_answer(true), (200, obj(vec![("deleted", JsonValue::Bool(true))])));
    assert_eq!(delete_answer(false), (404, obj(vec![("error", text("notification not found"))])));
    assert_eq!(unregister_answer(false), (404, obj(vec![("error", text("token not found"))])));
    assert_eq!(unregister_answer(true).0, 200);
    assert_eq!(register_answer(), (201, obj(vec![("registered", JsonValue::Bool(true))])));
    assert_eq!(muted_body(false), obj(vec![("muted", JsonValue::Bool(false))]));
    assert_eq!(count_body("unread_count", 3), obj(vec![("unread_count", JsonValue::Number(JsonNumber::PosInt(3)))]));
    let body = list_body(vec![], 0, 0, 20, 0);
    assert_eq!(json_get(&body, "limit"), Some(&JsonValue::Number(JsonNumber::PosInt(20))));
    assert_eq!(json_get(&body, "notifications"), Some(&JsonValue::Array(vec![])));
}

#[test]
fn pagination_defaults_and_caps() {
    assert_eq!(PaginationParams { limit: None, offset: None }.resolve(), (20, 0));
    assert_eq!(PaginationParams { limit: Some(500), offset: Some(7) }.resolve(), (100, 7));
    assert_eq!(grpc_page(0, -4), (20, 0));
    assert_eq!(grpc_page(101, 2), (100, 2));
    assert_eq!(grpc_page(10, 0), (10, 0));
    assert_eq!(PaginationParams { limit: Some(50), offset: Some(10) }.resolve(), grpc_page(50, 10));
    assert_eq!(PaginationParams { limit: Some(250), offset: Some(3) }.resolve(), grpc_page(250, 3));
}

#[test]
fn notification_requests_are_validated() {
    assert_eq!(require_user_id("").err().unwrap().message, "user_id is required");
    assert!(require_user_id("u").is_ok());
    assert_eq!(parse_notification_ids(&vec![]).err().unwrap().message, "At least one notification_id is required");
    let id = random_uuid();
    assert_eq!(parse_notification_ids(&vec![uuid_to_string(id)]).ok(), Some(vec![id]));
    assert_eq!(parse_notification_ids(&vec![uuid_to_string(id), s("bad")]).err().unwrap().message, "Invalid UUID: bad");
}

#[test]
fn decimal_rendering() {
    assert_eq!(decimal(0), "0");
    assert_eq!(decimal(7), "7");
    assert_eq!(decimal(10), "10");
    assert_eq!(decimal(u128::MAX), u128::MAX.to_string());
}

// ---- entity registry ----

#[test]
fn registry_keeps_one_descriptor_per_type() {
    let mut registry = this_rs::registry::EntityRegistry::new();
    registry.register(s("order"), "orders");
    registry.register(s("invoice"), "invoices");
    registry.register(s("order"), "purchase_orders");
    assert_eq!(registry.len(), 2);
    assert_eq!(registry.entity_types(), vec![s("order"), s("invoice")]);
    assert_eq!(registry.get("order"), Some(&"purchase_orders"));
    assert!(registry.get("payment").is_none());
}

// ---- service answers and events ----

#[test]
fn link_not_found_and_internal_failure_statuses() {
    let st = link_not_found("abc");
    assert_eq!(st.code, Code::NotFound);
    assert_eq!(st.message, "Link 'abc' not found");
    let st = internal_failure("Failed to create link", "disk full");
    assert_eq!(st.code, Code::Internal);
    assert_eq!(st.message, "Failed to create link: disk full");
}

#[test]
fn entity_events_carry_type_id_and_data() {
    let id = random_uuid();
    match updated_entity_event("order", id, &obj(vec![("name", text("A"))])) {
        FrameworkEvent::Entity(EntityEvent::Updated { entity_type, entity_id, data }) => {
            assert_eq!(entity_type, "order");
            assert_eq!(entity_id, id);
            assert_eq!(data, obj(vec![("name", text("A"))]));
        }
        other => panic!("expected an update event, got {:?}", other),
    }
    match deleted_entity_event("order", id) {
        FrameworkEvent::Entity(EntityEvent::Deleted { entity_type, entity_id }) => {
            assert_eq!(entity_type, "order");
            assert_eq!(entity_id, id);
        }
        other => panic!("expected a delete event, got {:?}", other),
    }
}

#[test]
fn created_link_event_takes_metadata_of_the_stored_link() {
    let mut rec = record();
    rec.metadata = Some(obj(vec![("role", text("admin"))]));
    let (src, dst) = (random_uuid(), random_uuid());
    match created_link_event("owner", &rec, src, dst) {
        FrameworkEvent::Link(LinkEvent::Created { link_type, link_id, source_id, target_id, metadata }) => {
            assert_eq!(link_type, "owner");
            assert_eq!(link_id, rec.id);
            assert_eq!((source_id, target_id), (src, dst));
            assert_eq!(metadata, Some(obj(vec![("role", text("admin"))])));
        }
        other => panic!("expected a link creation event, got {:?}", other),
    }
}

#[test]
fn entity_response_data_keeps_object_members_only() {
    let fields = entity_response_data(&obj(vec![("a", text("x")), ("b", JsonValue::Bool(true))]));
    assert_eq!(fields, vec![(s("a"), text("x")), (s("b"), JsonValue::Bool(true))]);
    assert!(entity_response_data(&text("scalar")).is_empty());
}

#[test]
fn notification_filters_and_ids() {
    assert_eq!(non_empty_filter(&Some(s("u1"))), Some(s("u1")));
    assert_eq!(non_empty_filter(&Some(String::new())), None);
    assert_eq!(non_empty_filter(&None), None);
    let id = random_uuid();
    assert_eq!(parse_notification_id(&uuid_to_string(id)).ok(), Some(id));
    let st = parse_notification_id("nope").err().unwrap();
    assert_eq!(st.code, Code::InvalidArgument);
    assert_eq!(st.message, "Invalid notification_id UUID");
}

// ---- static GraphQL objects ----

#[test]
fn test_entity_struct_fields() {
    let entity = Entity {
        id: s("abc-123"),
        entity_type: s("order"),
        name: s("Test Order"),
        created_at: s("2024-01-01T00:00:00Z"),
        updated_at: s("2024-01-02T00:00:00Z"),
        deleted_at: Some(s("2024-01-03T00:00:00Z")),
        status: s("active"),
        data: obj(vec![("custom", text("field"))]),
    };

    assert_eq!(entity.id, "abc-123");
    assert_eq!(entity.entity_type, "order");
    assert_eq!(entity.name, "Test Order");
    assert_eq!(entity.created_at, "2024-01-01T00:00:00Z");
    assert_eq!(entity.updated_at, "2024-01-02T00:00:00Z");
    assert_eq!(entity.deleted_at.as_deref(), Some("2024-01-03T00:00:00Z"));
    assert_eq!(entity.status, "active");
    assert_eq!(entity.data, obj(vec![("custom", text("field"))]));
}

#[test]
fn test_entity_deleted_at_none() {
    let entity = Entity {
        id: s("x"),
        entity_type: s("order"),
        name: String::new(),
        created_at: String::new(),
        updated_at: String::new(),
        deleted_at: None,
        status: String::new(),
        data: JsonValue::Null,
    };

    assert!(entity.deleted_at.is_none());
}

#[test]
fn test_link_struct_fields() {
    let link = Link {
        id: s("link-1"),
        source_id: s("src-1"),
        target_id: s("tgt-1"),
        link_type: s("has_invoice"),
        metadata: obj(vec![("key", text("val"))]),
        created_at: s("2024-01-01"),
        target: None,
        source: None,
    };

    assert_eq!(link.id, "link-1");
    assert_eq!(link.source_id, "src-1");
    assert_eq!(link.target_id, "tgt-1");
    assert_eq!(link.link_type, "has_invoice");
    assert!(link.target.is_none());
    assert!(link.source.is_none());
}
