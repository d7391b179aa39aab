use this_rs::config::{merge_configs, require_link_service, EntityConfig, LinkDefinition, LinksConfig};
use this_rs::json::{JsonNumber, JsonValue};
use this_rs::proto_gen::{
    extract_fields_from_json, generate_entity_messages, generate_entity_service,
    generate_link_messages, generate_link_service, is_auto_field, json_type_to_proto,
    to_pascal_case, ProtoGenerator, LINK_MESSAGES, LINK_SERVICE, PROTO_HEADER,
};
use this_rs::gql::GqlField;
use this_rs::gql_exec::{parse_create_and_link_name, parse_link_name, parse_unlink_name, plan_query_field, QueryPlan};
use this_rs::naming::{mutation_name_to_entity_type, pascal_to_snake};
use this_rs::sdl_gen::{effective_sample, needs_listed_sample, SampleSource, SchemaGenerator};

fn s(x: &str) -> String {
    x.to_string()
}

fn obj(members: Vec<(&str, JsonValue)>) -> JsonValue {
    JsonValue::Object(members.into_iter().map(|(k, v)| (s(k), v)).collect())
}

fn text(x: &str) -> JsonValue {
    JsonValue::String(s(x))
}

fn num(n: u64) -> JsonValue {
    JsonValue::Number(JsonNumber::PosInt(n))
}

fn float(x: f64) -> JsonValue {
    JsonValue::Number(JsonNumber::Float(x.to_bits()))
}

fn link(link_type: &str, source: &str, target: &str, fwd: &str, rev: &str) -> LinkDefinition {
    LinkDefinition {
        link_type: s(link_type),
        source_type: s(source),
        target_type: s(target),
        forward_route_name: s(fwd),
        reverse_route_name: s(rev),
        description: None,
        required_fields: None,
    }
}

fn generator(entities: Vec<(&str, &str, SampleSource)>, links: Vec<LinkDefinition>) -> SchemaGenerator {
    let configs = entities
        .iter()
        .map(|(singular, plural, _)| EntityConfig { singular: s(singular), plural: s(plural) })
        .collect();
    let list = entities.into_iter().map(|(singular, _, src)| (s(singular), src)).collect();
    SchemaGenerator::new(list, LinksConfig { entities: configs, links })
}

// ---- proto generator ----

#[test]
fn test_to_pascal_case() {
    assert_eq!(to_pascal_case("order"), "Order");
    assert_eq!(to_pascal_case("user_profile"), "UserProfile");
    assert_eq!(to_pascal_case("payment_method"), "PaymentMethod");
    assert_eq!(to_pascal_case("a"), "A");
}

#[test]
fn proto_pascal_case_lowercases_the_rest_of_each_part() {
    assert_eq!(to_pascal_case("ORDER_ITEM"), "OrderItem");
    assert_eq!(to_pascal_case("order__item_"), "OrderItem");
    assert_eq!(to_pascal_case(""), "");
}

#[test]
fn test_is_auto_field() {
    assert!(is_auto_field("id"));
    assert!(is_auto_field("created_at"));
    assert!(is_auto_field("updated_at"));
    assert!(is_auto_field("deleted_at"));
    assert!(!is_auto_field("name"));
    assert!(!is_auto_field("email"));
}

#[test]
fn entity_type_and_type_are_auto_fields() {
    assert!(is_auto_field("entity_type"));
    assert!(is_auto_field("type"));
    assert!(!is_auto_field("types"));
}

#[test]
fn test_json_type_to_proto() {
    assert_eq!(json_type_to_proto(&JsonValue::Bool(true)), "bool");
    assert_eq!(json_type_to_proto(&float(42.5)), "double");
    assert_eq!(json_type_to_proto(&text("hello")), "string");
    assert_eq!(json_type_to_proto(&JsonValue::Null), "string");
    assert_eq!(json_type_to_proto(&JsonValue::Array(vec![text("a"), text("b")])), "repeated string");
}

#[test]
fn json_type_to_proto_integers_and_objects() {
    assert_eq!(json_type_to_proto(&num(42)), "int64");
    assert_eq!(json_type_to_proto(&JsonValue::Number(JsonNumber::NegInt(-3))), "int64");
    assert_eq!(json_type_to_proto(&obj(vec![])), "string");
}

#[test]
fn test_extract_fields_from_json() {
    let sample = obj(vec![
        ("id", text("uuid-here")),
        ("name", text("Test")),
        ("amount", float(42.5)),
        ("active", JsonValue::Bool(true)),
    ]);
    let fields = extract_fields_from_json(&sample);
    assert!(!fields.is_empty());
    let field_names: Vec<&str> = fields.iter().map(|(n, _)| n.as_str()).collect();
    assert!(field_names.contains(&"id"));
    assert!(field_names.contains(&"name"));
    assert!(field_names.contains(&"amount"));
    assert!(field_names.contains(&"active"));
}

#[test]
fn extract_fields_keeps_member_order_and_types() {
    let sample = obj(vec![("amount", float(1.5)), ("count", num(3))]);
    let fields = extract_fields_from_json(&sample);
    assert_eq!(fields, vec![(s("amount"), s("double")), (s("count"), s("int64"))]);
    assert!(extract_fields_from_json(&text("not an object")).is_empty());
}

#[test]
fn entity_messages_number_fields_and_skip_auto_fields() {
    let sample = obj(vec![("id", text("x")), ("name", text("n")), ("total", num(3))]);
    let mut proto = String::new();
    generate_entity_messages(&mut proto, "order_item", Some(&sample));
    let expected = "// OrderItem entity\n\
message OrderItem {\n  string id = 1;\n  string name = 2;\n  int64 total = 3;\n}\n\n\
message GetOrderItemRequest {\n  string id = 1;\n}\n\n\
message ListOrderItemRequest {\n  int32 limit = 1;\n  int32 offset = 2;\n}\n\n\
message ListOrderItemResponse {\n  repeated OrderItem items = 1;\n  int32 total = 2;\n}\n\n\
message CreateOrderItemRequest {\n  string name = 2;\n  int64 total = 3;\n}\n\n\
message UpdateOrderItemRequest {\n  string id = 1;\n  string name = 3;\n  int64 total = 4;\n}\n\n\
message DeleteOrderItemRequest {\n  string id = 1;\n}\n\n\
message DeleteOrderItemResponse {\n  bool success = 1;\n}\n\n";
    assert_eq!(proto, expected);
}

#[test]
fn entity_messages_without_sample_have_no_fields() {
    let mut proto = s("prefix\n");
    generate_entity_messages(&mut proto, "order", None);
    assert!(proto.starts_with("prefix\n// Order entity\nmessage Order {\n}\n\n"));
    assert!(proto.contains("message CreateOrderRequest {\n}\n\n"));
    assert!(proto.contains("message UpdateOrderRequest {\n  string id = 1;\n}\n\n"));
}

#[test]
fn entity_service_names_every_rpc() {
    let mut proto = String::new();
    generate_entity_service(&mut proto, "invoice");
    assert_eq!(
        proto,
        "service InvoiceService {\n  rpc GetInvoice(GetInvoiceRequest) returns (Invoice);\n  rpc ListInvoice(ListInvoiceRequest) returns (ListInvoiceResponse);\n  rpc CreateInvoice(CreateInvoiceRequest) returns (Invoice);\n  rpc UpdateInvoice(UpdateInvoiceRequest) returns (Invoice);\n  rpc DeleteInvoice(DeleteInvoiceRequest) returns (DeleteInvoiceResponse);\n}\n\n"
    );
}

#[test]
fn generate_proto_orders_header_entities_and_link_service() {
    let gen = ProtoGenerator::new(vec![(s("order"), None), (s("invoice"), Some(obj(vec![("name", text("x"))])))]);
    let proto = gen.generate_proto();
    assert!(proto.starts_with(PROTO_HEADER));
    assert!(proto.ends_with(LINK_SERVICE));
    let order = proto.find("message Order {").unwrap();
    let invoice = proto.find("message Invoice {").unwrap();
    let links = proto.find(LINK_MESSAGES).unwrap();
    assert!(order < invoice && invoice < links);
    assert!(proto.contains("message Invoice {\n  string name = 1;\n}\n\n"));
    let mut only_links = String::new();
    generate_link_messages(&mut only_links);
    generate_link_service(&mut only_links);
    assert_eq!(ProtoGenerator::new(vec![]).generate_proto(), format!("{}{}", PROTO_HEADER, only_links));
}

// ---- schema generator: names and types ----

#[test]
fn test_to_pascal_case_snake_case() {
    assert_eq!(SchemaGenerator::to_pascal_case("order_item"), "OrderItem");
}

#[test]
fn test_to_pascal_case_single_word() {
    assert_eq!(SchemaGenerator::to_pascal_case("order"), "Order");
}

#[test]
fn test_to_pascal_case_empty() {
    assert_eq!(SchemaGenerator::to_pascal_case(""), "");
}

#[test]
fn test_to_pascal_case_multiple_underscores() {
    assert_eq!(SchemaGenerator::to_pascal_case("user_order_item"), "UserOrderItem");
}

#[test]
fn test_to_pascal_case_trailing_underscore() {
    assert_eq!(SchemaGenerator::to_pascal_case("order_"), "Order");
}

#[test]
fn schema_pascal_case_keeps_the_rest_of_each_part() {
    assert_eq!(SchemaGenerator::to_pascal_case("oRDER_iTEM"), "ORDERITEM");
}

#[test]
fn test_json_type_to_graphql_string() {
    assert_eq!(SchemaGenerator::json_type_to_graphql(&text("hello")), "String");
}

#[test]
fn test_json_type_to_graphql_int() {
    assert_eq!(SchemaGenerator::json_type_to_graphql(&num(42)), "Int");
}

#[test]
fn test_json_type_to_graphql_float() {
    assert_eq!(SchemaGenerator::json_type_to_graphql(&float(3.15)), "Float");
}

#[test]
fn test_json_type_to_graphql_bool() {
    assert_eq!(SchemaGenerator::json_type_to_graphql(&JsonValue::Bool(true)), "Boolean");
}

#[test]
fn test_json_type_to_graphql_array() {
    let val = JsonValue::Array(vec![num(1), num(2), num(3)]);
    assert_eq!(SchemaGenerator::json_type_to_graphql(&val), "[String]");
}

#[test]
fn test_json_type_to_graphql_object() {
    let val = obj(vec![("key", text("value"))]);
    assert_eq!(SchemaGenerator::json_type_to_graphql(&val), "JSON");
}

#[test]
fn test_json_type_to_graphql_null() {
    assert_eq!(SchemaGenerator::json_type_to_graphql(&JsonValue::Null), "String");
}

// ---- schema generator: fields ----

#[test]
fn test_extract_fields_from_json_flat_object() {
    let json = obj(vec![("id", text("abc-123")), ("name", text("Alice")), ("active", JsonValue::Bool(true))]);
    let fields = SchemaGenerator::extract_fields_from_json(&json);
    assert_eq!(fields.len(), 3);
    let id_field = fields.iter().find(|f| f.name == "id").expect("should have 'id' field");
    assert_eq!(id_field.graphql_type, "String");
    assert!(!id_field.nullable);
    let active_field = fields.iter().find(|f| f.name == "active").expect("should have 'active' field");
    assert_eq!(active_field.graphql_type, "Boolean");
}

#[test]
fn test_extract_fields_from_json_nested_object() {
    let json = obj(vec![("id", text("abc")), ("metadata", obj(vec![("key", text("value"))]))]);
    let fields = SchemaGenerator::extract_fields_from_json(&json);
    let meta_field = fields.iter().find(|f| f.name == "metadata").expect("should have 'metadata' field");
    assert_eq!(meta_field.graphql_type, "JSON");
}

#[test]
fn test_extract_fields_from_json_skips_host() {
    let json = obj(vec![("id", text("abc")), ("host", text("should-be-skipped")), ("name", text("test"))]);
    let fields = SchemaGenerator::extract_fields_from_json(&json);
    assert_eq!(fields.len(), 2);
    assert!(fields.iter().all(|f| f.name != "host"), "host field should be skipped");
}

#[test]
fn test_extract_fields_from_json_null_field_is_nullable() {
    let json = obj(vec![("id", text("abc")), ("deleted_at", JsonValue::Null)]);
    let fields = SchemaGenerator::extract_fields_from_json(&json);
    let deleted_field = fields.iter().find(|f| f.name == "deleted_at").expect("should have 'deleted_at' field");
    assert!(deleted_field.nullable);
    assert_eq!(deleted_field.graphql_type, "String");
}

#[test]
fn test_extract_fields_from_json_non_object() {
    let fields = SchemaGenerator::extract_fields_from_json(&text("just a string"));
    assert!(fields.is_empty());
}

#[test]
fn listed_entity_replaces_an_empty_sample() {
    let empty = obj(vec![]);
    let listed = obj(vec![("name", text("first"))]);
    assert!(needs_listed_sample(&empty));
    assert!(needs_listed_sample(&text("not an object")));
    assert!(!needs_listed_sample(&listed));
    assert_eq!(effective_sample(&empty, Some(&listed)), &listed);
    assert_eq!(effective_sample(&listed, Some(&empty)), &listed);
    assert_eq!(effective_sample(&empty, None), &empty);
}

// ---- schema generator: relations and plurals ----

#[test]
fn test_get_relations_for_forward() {
    let gen = generator(
        vec![("order", "orders", SampleSource::NoFetcher), ("invoice", "invoices", SampleSource::NoFetcher)],
        vec![link("has_invoice", "order", "invoice", "invoices", "order")],
    );
    let rels = gen.get_relations_for("order");
    assert_eq!(rels.len(), 1, "order should have one forward relation");
    assert_eq!(rels[0].name, "invoices");
    assert_eq!(rels[0].target_type, "invoice");
    assert!(rels[0].is_list, "forward relation should be a list");
}

#[test]
fn test_get_relations_for_reverse() {
    let gen = generator(
        vec![("order", "orders", SampleSource::NoFetcher), ("invoice", "invoices", SampleSource::NoFetcher)],
        vec![link("has_invoice", "order", "invoice", "invoices", "order")],
    );
    let rels = gen.get_relations_for("invoice");
    assert_eq!(rels.len(), 1, "invoice should have one reverse relation");
    assert_eq!(rels[0].name, "order");
    assert_eq!(rels[0].target_type, "order");
    assert!(!rels[0].is_list, "reverse relation should not be a list");
}

#[test]
fn test_get_relations_for_both_directions() {
    let gen = generator(
        vec![
            ("order", "orders", SampleSource::NoFetcher),
            ("invoice", "invoices", SampleSource::NoFetcher),
            ("payment", "payments", SampleSource::NoFetcher),
        ],
        vec![
            link("has_invoice", "order", "invoice", "invoices", "parent_order"),
            link("has_payment", "invoice", "payment", "payments", "parent_invoice"),
        ],
    );
    let rels = gen.get_relations_for("invoice");
    assert_eq!(rels.len(), 2, "invoice should have both forward and reverse relations");
    let names: Vec<&str> = rels.iter().map(|r| r.name.as_str()).collect();
    assert!(names.contains(&"parent_order"), "should have reverse to order");
    assert!(names.contains(&"payments"), "should have forward to payment");
}

#[test]
fn test_get_relations_for_none() {
    let gen = generator(vec![("order", "orders", SampleSource::NoFetcher)], vec![]);
    assert!(gen.get_relations_for("order").is_empty(), "no links means no relations");
}

#[test]
fn self_link_gives_forward_then_reverse() {
    let gen = generator(
        vec![("user", "users", SampleSource::NoFetcher)],
        vec![link("follows", "user", "user", "following", "followers")],
    );
    let rels = gen.get_relations_for("user");
    let names: Vec<&str> = rels.iter().map(|r| r.name.as_str()).collect();
    assert_eq!(names, vec!["following", "followers"]);
    assert_eq!(rels[0].link_type, "follows");
}

#[test]
fn test_get_plural_known_entity() {
    let gen = generator(vec![("order", "orders", SampleSource::NoFetcher)], vec![]);
    assert_eq!(gen.get_plural("order"), "orders");
}

#[test]
fn test_get_plural_unknown_entity_uses_fallback() {
    let gen = generator(vec![("order", "orders", SampleSource::NoFetcher)], vec![]);
    assert_eq!(gen.get_plural("widget"), "widgets");
}

// ---- schema generator: roots and SDL ----

#[test]
fn test_generate_query_root_contains_singular_and_plural() {
    let gen = generator(
        vec![("order", "orders", SampleSource::NoFetcher), ("invoice", "invoices", SampleSource::NoFetcher)],
        vec![],
    );
    let query_root = gen.generate_query_root();
    assert!(query_root.contains("type Query {"), "should start with type Query");
    assert!(query_root.contains("order(id: ID!): Order"), "should have singular query");
    assert!(query_root.contains("orders(limit: Int, offset: Int): [Order!]!"), "should have plural query");
    assert!(query_root.contains("invoice(id: ID!): Invoice"), "should have invoice singular query");
}

#[test]
fn test_generate_mutation_root_contains_crud() {
    let gen = generator(
        vec![("order", "orders", SampleSource::NoFetcher), ("invoice", "invoices", SampleSource::NoFetcher)],
        vec![link("has_invoice", "order", "invoice", "invoices", "order")],
    );
    let mutation_root = gen.generate_mutation_root();
    assert!(mutation_root.contains("type Mutation {"), "should start with type Mutation");
    assert!(mutation_root.contains("createOrder(data: JSON!): Order!"), "should have createOrder");
    assert!(mutation_root.contains("updateOrder(id: ID!, data: JSON!): Order!"), "should have updateOrder");
    assert!(mutation_root.contains("deleteOrder(id: ID!): Boolean!"), "should have deleteOrder");
    assert!(
        mutation_root.contains("createLink(sourceId: ID!, targetId: ID!, linkType: String!, metadata: JSON): Link!"),
        "should have generic createLink"
    );
    assert!(mutation_root.contains("deleteLink(id: ID!): Boolean!"), "should have generic deleteLink");
    assert!(mutation_root.contains("createInvoiceForOrder"), "should have typed link creation");
    assert!(mutation_root.contains("linkInvoiceToOrder"), "should have typed link mutation");
    assert!(mutation_root.contains("unlinkInvoiceFromOrder"), "should have typed unlink mutation");
}

#[test]
fn test_generate_sdl_end_to_end() {
    let order_sample = obj(vec![
        ("id", text("uuid-1")),
        ("name", text("Sample Order")),
        ("total", num(42)),
        ("active", JsonValue::Bool(true)),
        ("deleted_at", JsonValue::Null),
    ]);
    let gen = generator(
        vec![
            ("order", "orders", SampleSource::Fetched(order_sample, None)),
            ("invoice", "invoices", SampleSource::Fetched(obj(vec![]), None)),
        ],
        vec![link("has_invoice", "order", "invoice", "invoices", "parent_order")],
    );
    let sdl = gen.generate_sdl();
    assert!(sdl.contains("schema {"), "should have schema definition");
    assert!(sdl.contains("query: Query"), "schema should reference Query");
    assert!(sdl.contains("mutation: Mutation"), "schema should reference Mutation");
    assert!(sdl.contains("type Order {"), "should have Order type: {}", sdl);
    assert!(sdl.contains("id: String!"), "Order should have non-nullable id field: {}", sdl);
    assert!(sdl.contains("name: String!"), "Order should have name field: {}", sdl);
    assert!(sdl.contains("total: Int!"), "Order should have total field: {}", sdl);
    assert!(sdl.contains("active: Boolean!"), "Order should have active field: {}", sdl);
    assert!(sdl.contains("deleted_at: String\n"), "Order should have nullable deleted_at: {}", sdl);
    assert!(sdl.contains("invoices: [Invoice!]!"), "Order should have invoices relation: {}", sdl);
    assert!(sdl.contains("type Query {"), "should have Query root: {}", sdl);
    assert!(sdl.contains("type Mutation {"), "should have Mutation root: {}", sdl);
}

#[test]
fn test_generate_sdl_empty_host() {
    let gen = generator(vec![], vec![]);
    let sdl = gen.generate_sdl();
    assert!(sdl.contains("type Query {"), "should have Query root");
    assert!(sdl.contains("type Mutation {"), "should have Mutation root");
    assert!(sdl.contains("schema {"), "should have schema definition");
}

#[test]
fn entity_type_definition_exact_text() {
    let gen = generator(
        vec![("invoice", "invoices", SampleSource::NoFetcher)],
        vec![link("has_invoice", "order", "invoice", "invoices", "parent_order")],
    );
    assert_eq!(
        gen.generate_entity_type("invoice", &SampleSource::NoFetcher),
        Some(s("type Invoice {\n  parent_order: Order\n}"))
    );
    assert_eq!(gen.generate_entity_type("invoice", &SampleSource::Failed), None);
}

#[test]
fn failed_sample_leaves_the_type_out_of_the_sdl() {
    let gen = generator(
        vec![("order", "orders", SampleSource::Failed), ("invoice", "invoices", SampleSource::NoFetcher)],
        vec![],
    );
    let sdl = gen.generate_sdl();
    assert!(!sdl.contains("type Order {"));
    assert!(sdl.starts_with("type Invoice {\n}\n\ntype Query {\n"));
    assert!(sdl.ends_with("}\n\nschema {\n  query: Query\n  mutation: Mutation\n}\n"));
}

#[test]
fn generated_mutation_names_resolve_to_their_entity_type() {
    let gen = generator(vec![("order_item", "order_items", SampleSource::NoFetcher)], vec![]);
    let mutation_root = gen.generate_mutation_root();
    for verb in ["create", "update", "delete"] {
        let name = format!("{}OrderItem", verb);
        assert!(mutation_root.contains(&format!("  {}(", name)), "missing {}", name);
        assert_eq!(mutation_name_to_entity_type(&name, verb), "order_item");
    }
    assert_eq!(pascal_to_snake(&SchemaGenerator::to_pascal_case("payment_method2")), "payment_method2");
}

#[test]
fn generated_typed_link_mutations_resolve_to_their_types() {
    let gen = generator(
        vec![("order", "orders", SampleSource::NoFetcher), ("line_item", "line_items", SampleSource::NoFetcher)],
        vec![link("has_item", "order", "line_item", "items", "order")],
    );
    let mutation_root = gen.generate_mutation_root();
    for name in ["createLineItemForOrder", "linkLineItemToOrder", "unlinkLineItemFromOrder"] {
        assert!(mutation_root.contains(&format!("  {}(", name)), "missing {}", name);
    }
    let pair = (s("line_item"), s("order"));
    assert_eq!(parse_create_and_link_name("createLineItemForOrder").ok(), Some(pair.clone()));
    assert_eq!(parse_link_name("linkLineItemToOrder").ok(), Some(pair.clone()));
    assert_eq!(parse_unlink_name("unlinkLineItemFromOrder").ok(), Some(pair));
}

#[test]
fn typed_link_mutation_name_holding_the_separator_is_refused() {
    // "Form" holds "For": the generated name splits in three.
    let gen = generator(
        vec![("order", "orders", SampleSource::NoFetcher), ("form", "forms", SampleSource::NoFetcher)],
        vec![link("has_form", "order", "form", "forms", "order")],
    );
    assert!(gen.generate_mutation_root().contains("  createFormForOrder("));
    let err = parse_create_and_link_name("createFormForOrder").err().unwrap();
    assert_eq!(err.message(), "Invalid createAndLink mutation format: createFormForOrder");
}

#[test]
fn listed_plural_query_resolves_when_it_is_the_simple_plural() {
    let gen = generator(vec![("category", "categories", SampleSource::NoFetcher)], vec![]);
    assert!(gen.generate_query_root().contains("  categories(limit: Int, offset: Int): [Category!]!"));
    let field = GqlField { name: s("categories"), arguments: vec![], selection_set: vec![] };
    match plan_query_field(&vec![s("category")], &field) {
        Ok(QueryPlan::List { entity_type, .. }) => assert_eq!(entity_type, "category"),
        other => panic!("expected a list plan, got {:?}", other),
    }
}

#[test]
fn proto_pascal_case_of_ascii_has_no_underscore() {
    assert_eq!(to_pascal_case("ORDER_ITEM"), "OrderItem");
    assert_eq!(to_pascal_case("order_"), "Order");
    assert_eq!(to_pascal_case("_order__item_"), "OrderItem");
    assert!(!to_pascal_case("a_b_c_d").contains('_'));
}

#[test]
fn module_configs_merge_in_registration_order() {
    let first = LinksConfig { entities: vec![EntityConfig { singular: s("order"), plural: s("orders") }], links: vec![] };
    let second = LinksConfig {
        entities: vec![
            EntityConfig { singular: s("user"), plural: s("users") },
            EntityConfig { singular: s("car"), plural: s("cars") },
        ],
        links: vec![link("owns", "user", "car", "cars", "owner")],
    };
    let merged = merge_configs(vec![first, second]);
    let names: Vec<&str> = merged.entities.iter().map(|e| e.singular.as_str()).collect();
    assert_eq!(names, vec!["order", "user", "car"]);
    assert_eq!(merged.links.len(), 1);
    let empty = merge_configs(vec![]);
    assert!(empty.entities.is_empty() && empty.links.is_empty());
}

#[test]
fn building_without_a_link_service_fails() {
    assert_eq!(require_link_service(Some(7u8)).ok(), Some(7u8));
    let err = require_link_service::<u8>(None).err().unwrap();
    assert!(err.contains("LinkService is required"), "error should mention LinkService: {}", err);
}
