use this_rs::config::LinkDefinition;
use this_rs::gql::{GqlDefinition, GqlDocument, GqlField, GqlSelection, GqlValue, OperationKind};
use this_rs::gql_exec::{
    classify_mutation, entity_id_of, parse_create_and_link_name, parse_link_name,
    parse_unlink_name, plain_field_value, plan_create_and_link, plan_create_entity,
    plan_create_link, plan_delete_entity, plan_delete_link, plan_link_entities, plan_query_field,
    plan_unlink_entities, plan_update_entity, relation_candidates, resolve_link_type,
    select_operation, ExecError, MutationKind, QueryPlan, RelationRef, plan_execution, data_response,
    forward_relation_step, reverse_relation_step, RelationStep, check_entity_object, field_step,
    relation_or_null, results_object, FieldStep,
};
use this_rs::json::{JsonNumber, JsonValue};

fn random_uuid() -> u128 {
    uuid::Uuid::new_v4().as_u128()
}

fn uuid_to_string(id: u128) -> String {
    uuid::Uuid::from_u128(id).to_string()
}

fn s(x: &str) -> String {
    x.to_string()
}

fn text(x: &str) -> JsonValue {
    JsonValue::String(s(x))
}

fn field(name: &str, arguments: Vec<(&str, GqlValue)>) -> GqlField {
    GqlField {
        name: s(name),
        arguments: arguments.into_iter().map(|(k, v)| (s(k), v)).collect(),
        selection_set: vec![],
    }
}

fn gstr(x: &str) -> GqlValue {
    GqlValue::String(s(x))
}

fn op(kind: OperationKind, fields: Vec<GqlField>) -> GqlDefinition {
    GqlDefinition::Operation { kind, selection_set: fields.into_iter().map(GqlSelection::Field).collect() }
}

fn link_def(link_type: &str, source: &str, target: &str, fwd: &str, rev: &str) -> LinkDefinition {
    LinkDefinition {
        link_type: s(link_type),
        source_type: s(source),
        target_type: s(target),
        forward_route_name: s(fwd),
        reverse_route_name: s(rev),
        description: None,
        required_fields: None,
    }
}

fn uuid_reason(x: &str) -> String {
    uuid::Uuid::parse_str(x).unwrap_err().to_string()
}

#[test]
fn first_operation_runs_and_subscriptions_are_refused() {
    let doc = GqlDocument { definitions: vec![GqlDefinition::Fragment, op(OperationKind::Mutation, vec![field("createOrder", vec![])])] };
    match select_operation(&doc) {
        Ok((is_mutation, sel)) => {
            assert!(is_mutation);
            assert_eq!(sel.len(), 1);
        }
        Err(e) => panic!("unexpected {:?}", e),
    }
    let shorthand = GqlDocument { definitions: vec![op(OperationKind::SelectionSet, vec![])] };
    assert!(matches!(select_operation(&shorthand), Ok((false, _))));
    let sub = GqlDocument { definitions: vec![op(OperationKind::Subscription, vec![])] };
    match select_operation(&sub) {
        Err(e) => assert_eq!(e.message(), "Subscriptions are not supported"),
        Ok(_) => panic!("subscriptions must be refused"),
    }
    let empty = GqlDocument { definitions: vec![GqlDefinition::Fragment] };
    match select_operation(&empty) {
        Err(e) => assert_eq!(e.message(), "No operation found in query"),
        Ok(_) => panic!("no operation"),
    }
}

#[test]
fn query_fields_list_fetch_or_fail() {
    let types = vec![s("order"), s("invoice")];
    match plan_query_field(&types, &field("orders", vec![("limit", GqlValue::Int(5))])) {
        Ok(QueryPlan::List { entity_type, limit, offset }) => {
            assert_eq!(entity_type, "order");
            assert_eq!(limit, Some(5));
            assert_eq!(offset, None);
        }
        other => panic!("unexpected {:?}", other),
    }
    let id = random_uuid();
    match plan_query_field(&types, &field("invoice", vec![("id", GqlValue::String(uuid_to_string(id)))])) {
        Ok(QueryPlan::Single { entity_type, id: got }) => {
            assert_eq!(entity_type, "invoice");
            assert_eq!(got, id);
        }
        other => panic!("unexpected {:?}", other),
    }
    match plan_query_field(&types, &field("invoice", vec![])) {
        Err(e) => assert_eq!(e.message(), "Missing required argument 'id'"),
        other => panic!("unexpected {:?}", other),
    }
    match plan_query_field(&types, &field("invoice", vec![("id", gstr("nope"))])) {
        Err(e) => assert_eq!(e.message(), uuid_reason("nope")),
        other => panic!("unexpected {:?}", other),
    }
    match plan_query_field(&types, &field("widgets", vec![])) {
        Err(e) => assert_eq!(e.message(), "Unknown query field: widgets"),
        other => panic!("unexpected {:?}", other),
    }
}

#[test]
fn mutation_names_are_classified_in_order() {
    assert_eq!(classify_mutation("createLink").ok(), Some(MutationKind::CreateLink));
    assert_eq!(classify_mutation("createInvoiceForOrder").ok(), Some(MutationKind::CreateAndLink));
    assert_eq!(classify_mutation("linkInvoiceToOrder").ok(), Some(MutationKind::LinkEntities));
    assert_eq!(classify_mutation("unlinkInvoiceFromOrder").ok(), Some(MutationKind::UnlinkEntities));
    assert_eq!(classify_mutation("createOrder").ok(), Some(MutationKind::CreateEntity));
    assert_eq!(classify_mutation("updateOrder").ok(), Some(MutationKind::UpdateEntity));
    assert_eq!(classify_mutation("deleteLink").ok(), Some(MutationKind::DeleteLink));
    assert_eq!(classify_mutation("deleteOrder").ok(), Some(MutationKind::DeleteEntity));
    match classify_mutation("archiveOrder") {
        Err(e) => assert_eq!(e.message(), "Unknown mutation field: archiveOrder"),
        other => panic!("unexpected {:?}", other),
    }
}

#[test]
fn relation_mutation_names_split_into_types() {
    let (a, b) = parse_create_and_link_name("createOrderItemForOrder").ok().unwrap();
    assert_eq!((a.as_str(), b.as_str()), ("order_item", "order"));
    let (a, b) = parse_link_name("linkInvoiceToOrder").ok().unwrap();
    assert_eq!((a.as_str(), b.as_str()), ("invoice", "order"));
    let (a, b) = parse_unlink_name("unlinkInvoiceFromOrder").ok().unwrap();
    assert_eq!((a.as_str(), b.as_str()), ("invoice", "order"));
    match parse_link_name("linkAToBToC") {
        Err(e) => assert_eq!(e.message(), "Invalid link mutation format: linkAToBToC"),
        other => panic!("unexpected {:?}", other),
    }
}

#[test]
fn entity_mutations_need_their_arguments() {
    let data = GqlValue::Object(vec![(s("name"), gstr("x"))]);
    let (t, d) = plan_create_entity(&field("createOrderItem", vec![("data", data)])).ok().unwrap();
    assert_eq!(t, "order_item");
    assert_eq!(d, JsonValue::Object(vec![(s("name"), text("x"))]));
    match plan_create_entity(&field("createOrder", vec![])) {
        Err(e) => assert_eq!(e.message(), "Missing required argument 'data'"),
        other => panic!("unexpected {:?}", other),
    }
    let id = random_uuid();
    let (t, got, _) = plan_update_entity(&field("updateOrder", vec![("id", GqlValue::String(uuid_to_string(id))), ("data", GqlValue::Null)])).ok().unwrap();
    assert_eq!((t.as_str(), got), ("order", id));
    match plan_update_entity(&field("updateOrder", vec![("data", GqlValue::Null)])) {
        Err(e) => assert_eq!(e.message(), "Missing required argument 'id'"),
        other => panic!("unexpected {:?}", other),
    }
    match plan_delete_entity(&field("deleteOrder", vec![("id", gstr("bad"))])) {
        Err(ExecError::InvalidUuid { text: t, reason }) => {
            assert_eq!(t, "bad");
            assert_eq!(reason, uuid_reason("bad"));
        }
        other => panic!("unexpected {:?}", other),
    }
    assert_eq!(plan_delete_link(&field("deleteLink", vec![("id", GqlValue::String(uuid_to_string(id)))])).ok(), Some(id));
}

#[test]
fn link_mutations_check_ids_and_resolve_types() {
    let (a, b) = (random_uuid(), random_uuid());
    let plan = plan_create_link(&field(
        "createLink",
        vec![("sourceId", GqlValue::String(uuid_to_string(a))), ("targetId", GqlValue::String(uuid_to_string(b))), ("linkType", gstr("owns"))],
    ))
    .ok()
    .unwrap();
    assert_eq!((plan.source_id, plan.target_id, plan.link_type.as_str()), (a, b, "owns"));
    assert!(plan.metadata.is_none());
    match plan_create_link(&field("createLink", vec![("sourceId", GqlValue::String(uuid_to_string(a)))])) {
        Err(e) => assert_eq!(e.message(), "Missing required argument 'targetId'"),
        other => panic!("unexpected {:?}", other),
    }
    let links = vec![link_def("has_invoice", "order", "invoice", "invoices", "order")];
    assert_eq!(resolve_link_type(None, &links, "order", "invoice").ok(), Some(s("has_invoice")));
    assert_eq!(resolve_link_type(Some(s("custom")), &links, "user", "car").ok(), Some(s("custom")));
    match resolve_link_type(None, &links, "user", "car") {
        Err(e) => assert_eq!(e.message(), "No link configuration found for user -> car"),
        other => panic!("unexpected {:?}", other),
    }
}

#[test]
fn create_and_link_and_relation_plans() {
    let parent = random_uuid();
    let plan = plan_create_and_link(&field(
        "createInvoiceForOrder",
        vec![("parentId", GqlValue::String(uuid_to_string(parent))), ("data", GqlValue::Object(vec![]))],
    ))
    .ok()
    .unwrap();
    assert_eq!(plan.entity_type, "invoice");
    assert_eq!(plan.parent_type, "order");
    assert_eq!(plan.parent_id, parent);
    assert_eq!(plan.link_type, None);
    let (a, b) = (random_uuid(), random_uuid());
    let rel = plan_link_entities(&field(
        "linkInvoiceToOrder",
        vec![("sourceId", GqlValue::String(uuid_to_string(a))), ("targetId", GqlValue::String(uuid_to_string(b)))],
    ))
    .ok()
    .unwrap();
    assert_eq!((rel.source_type.as_str(), rel.target_type.as_str()), ("invoice", "order"));
    assert_eq!((rel.source_id, rel.target_id), (a, b));
    match plan_unlink_entities(&field("unlinkInvoiceFromOrder", vec![("sourceId", GqlValue::String(uuid_to_string(a)))])) {
        Err(e) => assert_eq!(e.message(), "Missing required argument 'targetId'"),
        other => panic!("unexpected {:?}", other),
    }
}

#[test]
fn entity_fields_and_relations_resolve() {
    let id = random_uuid();
    let entity = JsonValue::Object(vec![
        (s("id"), JsonValue::String(uuid_to_string(id))),
        (s("created_at"), text("yesterday")),
        (s("total"), JsonValue::Number(JsonNumber::PosInt(3))),
    ]);
    assert_eq!(entity_id_of(&entity, ExecError::EntityMissingId).ok(), Some(id));
    match entity_id_of(&JsonValue::Object(vec![]), ExecError::CreatedEntityMissingId) {
        Err(e) => assert_eq!(e.message(), "Created entity missing id field"),
        other => panic!("unexpected {:?}", other),
    }
    assert_eq!(plain_field_value(&entity, "createdAt"), Some(text("yesterday")));
    assert_eq!(plain_field_value(&entity, "total"), Some(JsonValue::Number(JsonNumber::PosInt(3))));
    assert_eq!(plain_field_value(&entity, "invoices"), None);
    let links = vec![
        link_def("has_invoice", "order", "invoice", "invoices", "order"),
        link_def("billed_to", "invoice", "order", "orders", "invoices"),
    ];
    assert_eq!(
        relation_candidates(&links, "order", "invoices"),
        vec![RelationRef { index: 0, forward: true }, RelationRef { index: 1, forward: false }]
    );
    assert!(relation_candidates(&links, "payment", "invoices").is_empty());
}

#[test]
fn execution_fails_on_unparsed_query_and_runs_the_first_operation() {
    let refused: Result<GqlDocument, String> = Err(s("Unexpected `}`"));
    match plan_execution(&refused) {
        Err(e) => assert_eq!(e.message(), "Failed to parse query: Unexpected `}`"),
        Ok(_) => panic!("a parse failure must be reported"),
    }
    let doc: Result<GqlDocument, String> =
        Ok(GqlDocument { definitions: vec![op(OperationKind::Query, vec![field("orders", vec![])])] });
    match plan_execution(&doc) {
        Ok((is_mutation, sel)) => {
            assert!(!is_mutation);
            assert_eq!(sel.len(), 1);
        }
        Err(e) => panic!("unexpected {:?}", e),
    }
}

#[test]
fn data_response_wraps_field_results_and_keeps_the_last_value_of_a_name() {
    let body = data_response(vec![(s("orders"), JsonValue::Array(vec![])), (s("order"), JsonValue::Null)]);
    assert_eq!(
        body,
        JsonValue::Object(vec![(
            s("data"),
            JsonValue::Object(vec![(s("orders"), JsonValue::Array(vec![])), (s("order"), JsonValue::Null)])
        )])
    );
    let twice = data_response(vec![(s("a"), text("x")), (s("b"), text("y")), (s("a"), text("z"))]);
    assert_eq!(
        twice,
        JsonValue::Object(vec![(s("data"), JsonValue::Object(vec![(s("a"), text("z")), (s("b"), text("y"))]))])
    );
    assert_eq!(data_response(vec![]), JsonValue::Object(vec![(s("data"), JsonValue::Object(vec![]))]));
}

#[test]
fn relation_steps_after_fetching() {
    assert!(matches!(forward_relation_step(false, vec![Some(text("a"))]), RelationStep::Next));
    match forward_relation_step(true, vec![Some(text("a")), None, Some(text("c"))]) {
        RelationStep::Many(v) => assert_eq!(v, vec![text("a"), text("c")]),
        other => panic!("unexpected {:?}", other),
    }
    match forward_relation_step(true, vec![]) {
        RelationStep::Many(v) => assert!(v.is_empty()),
        other => panic!("unexpected {:?}", other),
    }
    match reverse_relation_step(true, true, Some(text("order"))) {
        RelationStep::One(e) => assert_eq!(e, text("order")),
        other => panic!("unexpected {:?}", other),
    }
    assert!(matches!(reverse_relation_step(false, true, None), RelationStep::Next));
    assert!(matches!(reverse_relation_step(true, false, None), RelationStep::Next));
    assert!(matches!(reverse_relation_step(true, true, None), RelationStep::Next));
}

#[test]
fn entity_fields_are_assembled_step_by_step() {
    let entity = JsonValue::Object(vec![(s("name"), text("A")), (s("created_at"), text("2024"))]);
    assert!(check_entity_object(&entity).is_ok());
    match check_entity_object(&text("scalar")) {
        Err(e) => assert_eq!(e.message(), "Entity is not an object"),
        Ok(_) => panic!("a scalar entity must be refused"),
    }
    assert!(matches!(field_step(&entity, "name"), FieldStep::Own(v) if v == text("A")));
    assert!(matches!(field_step(&entity, "createdAt"), FieldStep::Own(v) if v == text("2024")));
    assert!(matches!(field_step(&entity, "invoices"), FieldStep::Relation));
    assert_eq!(relation_or_null(None), JsonValue::Null);
    assert_eq!(relation_or_null(Some(JsonValue::Array(vec![]))), JsonValue::Array(vec![]));
    assert_eq!(
        results_object(vec![(s("name"), text("A")), (s("invoices"), JsonValue::Null)]),
        JsonValue::Object(vec![(s("name"), text("A")), (s("invoices"), JsonValue::Null)])
    );
}
