use this_rs::config::LinkDefinition;
use this_rs::config::find_link_type;
use this_rs::gql::{get_int_arg, get_json_arg, get_string_arg, gql_value_to_json, GqlField, GqlValue};
use this_rs::gql_exec::{get_entity_type_from_plural, get_entity_type_from_singular};
use this_rs::json::{JsonNumber, JsonValue};
use this_rs::naming::{camel_to_snake, mutation_name_to_entity_type, pascal_to_snake, pluralize};

fn s(x: &str) -> String {
    x.to_string()
}

fn make_link_def(source: &str, target: &str, link_type: &str) -> LinkDefinition {
    LinkDefinition {
        link_type: s(link_type),
        source_type: s(source),
        target_type: s(target),
        forward_route_name: format!("{}s", target),
        reverse_route_name: s(source),
        description: None,
        required_fields: None,
    }
}

fn make_field(arguments: Vec<(String, GqlValue)>) -> GqlField {
    GqlField { name: s("test_field"), arguments, selection_set: vec![] }
}

// ---- gql_value_to_json ----

#[test]
fn test_gql_value_to_json_null() {
    assert_eq!(gql_value_to_json(&GqlValue::Null), JsonValue::Null);
}

#[test]
fn test_gql_value_to_json_int() {
    assert_eq!(
        gql_value_to_json(&GqlValue::Int(42)),
        JsonValue::Number(JsonNumber::PosInt(42))
    );
}

#[test]
fn test_gql_value_to_json_float() {
    assert_eq!(
        gql_value_to_json(&GqlValue::Float(3.15f64.to_bits())),
        JsonValue::Number(JsonNumber::Float(3.15f64.to_bits()))
    );
}

#[test]
fn test_gql_value_to_json_string() {
    assert_eq!(
        gql_value_to_json(&GqlValue::String(s("hello"))),
        JsonValue::String(s("hello"))
    );
}

#[test]
fn test_gql_value_to_json_boolean() {
    assert_eq!(gql_value_to_json(&GqlValue::Boolean(true)), JsonValue::Bool(true));
    assert_eq!(gql_value_to_json(&GqlValue::Boolean(false)), JsonValue::Bool(false));
}

#[test]
fn test_gql_value_to_json_enum() {
    assert_eq!(
        gql_value_to_json(&GqlValue::Enum(s("ACTIVE"))),
        JsonValue::String(s("ACTIVE"))
    );
}

#[test]
fn test_gql_value_to_json_list() {
    let list = GqlValue::List(vec![GqlValue::Int(1), GqlValue::Int(2)]);
    assert_eq!(
        gql_value_to_json(&list),
        JsonValue::Array(vec![
            JsonValue::Number(JsonNumber::PosInt(1)),
            JsonValue::Number(JsonNumber::PosInt(2)),
        ])
    );
}

#[test]
fn test_gql_value_to_json_object() {
    // The parser hands object members in key order.
    let obj = GqlValue::Object(vec![
        (s("age"), GqlValue::Int(30)),
        (s("name"), GqlValue::String(s("Alice"))),
    ]);
    assert_eq!(
        gql_value_to_json(&obj),
        JsonValue::Object(vec![
            (s("age"), JsonValue::Number(JsonNumber::PosInt(30))),
            (s("name"), JsonValue::String(s("Alice"))),
        ])
    );
}

#[test]
fn test_gql_value_to_json_variable() {
    assert_eq!(gql_value_to_json(&GqlValue::Variable(s("myVar"))), JsonValue::Null);
}

#[test]
fn gql_value_to_json_negative_int_and_infinite_float() {
    assert_eq!(
        gql_value_to_json(&GqlValue::Int(-7)),
        JsonValue::Number(JsonNumber::NegInt(-7))
    );
    assert_eq!(gql_value_to_json(&GqlValue::Float(f64::INFINITY.to_bits())), JsonValue::Null);
}

// ---- pluralize ----

#[test]
fn test_pluralize_regular() {
    assert_eq!(pluralize("order"), "orders");
}

#[test]
fn test_pluralize_ending_in_y() {
    assert_eq!(pluralize("baby"), "babies");
}

#[test]
fn test_pluralize_ending_in_s() {
    assert_eq!(pluralize("bus"), "buses");
}

#[test]
fn test_pluralize_ending_in_ch() {
    assert_eq!(pluralize("church"), "churches");
}

#[test]
fn test_pluralize_ending_in_sh() {
    assert_eq!(pluralize("dish"), "dishes");
}

#[test]
fn pluralize_has_no_rule_for_x_and_handles_empty() {
    assert_eq!(pluralize("box"), "boxs");
    assert_eq!(pluralize(""), "s");
}

// ---- pascal_to_snake / camel_to_snake ----

#[test]
fn test_pascal_to_snake_multi_word() {
    assert_eq!(pascal_to_snake("OrderItem"), "order_item");
}

#[test]
fn test_pascal_to_snake_single_char() {
    assert_eq!(pascal_to_snake("A"), "a");
}

#[test]
fn test_pascal_to_snake_empty() {
    assert_eq!(pascal_to_snake(""), "");
}

#[test]
fn test_pascal_to_snake_already_lower() {
    assert_eq!(pascal_to_snake("order"), "order");
}

#[test]
fn test_camel_to_snake_multi_word() {
    assert_eq!(camel_to_snake("createdAt"), "created_at");
}

#[test]
fn test_camel_to_snake_single_word() {
    assert_eq!(camel_to_snake("id"), "id");
}

#[test]
fn snake_case_is_left_unchanged() {
    assert_eq!(pascal_to_snake("user_profile"), "user_profile");
    assert_eq!(camel_to_snake("user_profile"), "user_profile");
}

// ---- mutation_name_to_entity_type ----

#[test]
fn test_mutation_name_to_entity_type_create() {
    assert_eq!(mutation_name_to_entity_type("createOrder", "create"), "order");
}

#[test]
fn test_mutation_name_to_entity_type_delete_pascal() {
    assert_eq!(mutation_name_to_entity_type("deleteUserProfile", "delete"), "user_profile");
}

#[test]
fn test_mutation_name_to_entity_type_no_prefix_match() {
    assert_eq!(mutation_name_to_entity_type("createOrder", "delete"), "create_order");
}

// ---- find_link_type ----

#[test]
fn test_find_link_type_found() {
    let links = vec![make_link_def("order", "invoice", "has_invoice")];
    let result = find_link_type(&links, "order", "invoice").ok().expect("should find link type");
    assert_eq!(result, "has_invoice");
}

#[test]
fn test_find_link_type_not_found() {
    let links = vec![make_link_def("order", "invoice", "has_invoice")];
    let result = find_link_type(&links, "user", "car");
    assert!(result.is_err());
}

#[test]
fn test_find_link_type_multiple_configs() {
    let links = vec![
        make_link_def("order", "invoice", "has_invoice"),
        make_link_def("user", "car", "owner"),
    ];
    let result = find_link_type(&links, "user", "car")
        .ok()
        .expect("should find link type among multiple configs");
    assert_eq!(result, "owner");
}

#[test]
fn find_link_type_error_names_both_types() {
    let links = vec![make_link_def("order", "invoice", "has_invoice")];
    match find_link_type(&links, "user", "car") {
        Err(e) => assert_eq!(e.message(), "No link configuration found for user -> car"),
        Ok(_) => panic!("no link should match"),
    }
}

#[test]
fn find_link_type_first_definition_wins() {
    let links = vec![
        make_link_def("order", "invoice", "has_invoice"),
        make_link_def("order", "invoice", "billed_by"),
    ];
    assert_eq!(find_link_type(&links, "order", "invoice").ok(), Some(s("has_invoice")));
}

// ---- argument accessors ----

#[test]
fn test_get_string_arg_present() {
    let field = make_field(vec![(s("name"), GqlValue::String(s("Alice")))]);
    assert_eq!(get_string_arg(&field, "name"), Some(s("Alice")));
}

#[test]
fn test_get_string_arg_missing() {
    let field = make_field(vec![]);
    assert_eq!(get_string_arg(&field, "name"), None);
}

#[test]
fn test_get_string_arg_wrong_type() {
    let field = make_field(vec![(s("name"), GqlValue::Int(42))]);
    assert_eq!(get_string_arg(&field, "name"), None);
}

#[test]
fn test_get_int_arg_present() {
    let field = make_field(vec![(s("limit"), GqlValue::Int(10))]);
    assert_eq!(get_int_arg(&field, "limit"), Some(10));
}

#[test]
fn test_get_int_arg_missing() {
    let field = make_field(vec![]);
    assert_eq!(get_int_arg(&field, "limit"), None);
}

#[test]
fn test_get_int_arg_wrong_type() {
    let field = make_field(vec![(s("limit"), GqlValue::String(s("not_a_number")))]);
    assert_eq!(get_int_arg(&field, "limit"), None);
}

#[test]
fn test_get_json_arg_present() {
    let field = make_field(vec![(s("data"), GqlValue::String(s("hello")))]);
    assert_eq!(get_json_arg(&field, "data"), Some(JsonValue::String(s("hello"))));
}

#[test]
fn test_get_json_arg_missing() {
    let field = make_field(vec![]);
    assert_eq!(get_json_arg(&field, "data"), None);
}

#[test]
fn argument_lookup_takes_the_first_match() {
    let field = make_field(vec![
        (s("limit"), GqlValue::Int(5)),
        (s("limit"), GqlValue::Int(9)),
    ]);
    assert_eq!(get_int_arg(&field, "limit"), Some(5));
}

// ---- entity type resolution of query fields ----

#[test]
fn test_get_entity_type_from_plural_known() {
    let types = vec![s("order"), s("invoice")];
    assert_eq!(get_entity_type_from_plural(&types, "orders"), Some(s("order")));
    assert_eq!(get_entity_type_from_plural(&types, "invoices"), Some(s("invoice")));
}

#[test]
fn test_get_entity_type_from_plural_unknown() {
    let types = vec![s("order")];
    assert_eq!(get_entity_type_from_plural(&types, "widgets"), None);
}

#[test]
fn test_get_entity_type_from_singular_known() {
    let types = vec![s("order"), s("invoice")];
    assert_eq!(get_entity_type_from_singular(&types, "order"), Some(s("order")));
    assert_eq!(get_entity_type_from_singular(&types, "invoice"), Some(s("invoice")));
}

#[test]
fn test_get_entity_type_from_singular_unknown() {
    let types = vec![s("order")];
    assert_eq!(get_entity_type_from_singular(&types, "widget"), None);
}

#[test]
fn snake_case_of_ascii_names_is_stable_and_keeps_the_letters() {
    for name in ["OrderItem", "HTTPServer", "createdAt", "already_snake", "A1b2C3", ""] {
        let r = pascal_to_snake(name);
        assert!(!r.chars().any(|c| c.is_ascii_uppercase()), "{} -> {}", name, r);
        assert_eq!(pascal_to_snake(&r), r);
        assert_eq!(r.replace('_', ""), name.to_ascii_lowercase().replace('_', ""));
    }
    assert_eq!(pascal_to_snake("HTTPServer"), "h_t_t_p_server");
}

#[test]
fn uuid_texts_are_lower_case_hex_with_hyphens() {
    let id: u128 = 0x0123_4567_89ab_cdef_fedc_ba98_7654_3210;
    assert_eq!(uuid::Uuid::from_u128(id).to_string(), "01234567-89ab-cdef-fedc-ba9876543210");
    assert_eq!(uuid::Uuid::from_u128(id).simple().to_string(), "0123456789abcdeffedcba9876543210");
}
