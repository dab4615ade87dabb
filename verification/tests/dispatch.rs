// Scenarios against mock server replies: the request is planned by the
// library, the reply body is parsed here with serde_json, handed over as a
// plain JSON tree, and interpreted by the library.

use sellix_rs::api::Blacklist;
use sellix_rs::envelope::ApiFailure;
use sellix_rs::envelope::EnvelopeError;
use sellix_rs::envelope::interpret_create;
use sellix_rs::envelope::interpret_delete;
use sellix_rs::envelope::interpret_edit;
use sellix_rs::envelope::interpret_get;
use sellix_rs::envelope::interpret_list;
use sellix_rs::envelope::read_envelope;
use sellix_rs::json::JsonValue;
use sellix_rs::models::SellixHttpCode;
use sellix_rs::models::transport_status;
use sellix_rs::models::blacklist::BlacklistCreatePayload;
use sellix_rs::models::blacklist::BlacklistTypes;
use sellix_rs::request::HttpMethod;
use sellix_rs::request::Operation;

fn to_json_value(v: &serde_json::Value) -> JsonValue {
    match v {
        serde_json::Value::Null => JsonValue::Null,
        serde_json::Value::Bool(b) => JsonValue::Bool(*b),
        serde_json::Value::Number(n) => match (n.as_u64(), n.as_i64()) {
            (Some(u), _) => JsonValue::UInt(u),
            (None, Some(i)) => JsonValue::Int(i),
            _ => panic!("fractional numbers do not occur in these replies"),
        },
        serde_json::Value::String(s) => JsonValue::Str(s.clone()),
        serde_json::Value::Array(a) => JsonValue::Arr(a.iter().map(to_json_value).collect()),
        serde_json::Value::Object(o) => JsonValue::Obj(
            o.iter().map(|(k, inner)| (k.clone(), to_json_value(inner))).collect(),
        ),
    }
}

fn parse_body(body: &str) -> JsonValue {
    let v: serde_json::Value = serde_json::from_str(body).expect("mock body is JSON");
    to_json_value(&v)
}

#[test]
fn create_blacklist_against_mock() {
    // Dispatch a create for a blacklist; the mock server answers with the
    // assigned identifier.
    let client = Blacklist::client("key", None);
    let payload = BlacklistCreatePayload {
        type_field: BlacklistTypes::Email,
        data: "test@example.com".to_owned(),
        note: Some("Testing".to_owned()),
    };
    let plan = client
        .plan(Operation::Create, "", None, Some(payload.to_json()))
        .expect("blacklists offer create");
    assert_eq!(plan.method, HttpMethod::Post);
    assert_eq!(plan.path, "/blacklists");
    assert_eq!(plan.authorization, "Bearer key");
    assert_eq!(plan.merchant, "");

    // The payload body carries the documented fields.
    let body = plan.body.expect("create carries a body");
    assert!(matches!(body.get("type"), Some(JsonValue::Str(s)) if s == "EMAIL"));
    assert!(matches!(body.get("data"), Some(JsonValue::Str(s)) if s == "test@example.com"));
    assert!(matches!(body.get("note"), Some(JsonValue::Str(s)) if s == "Testing"));

    let reply = parse_body("{\"status\":200,\"data\":{\"uniqid\":\"abc123\"}}");
    let dict = interpret_create(&reply).expect("create succeeds");
    assert_eq!(dict.uniqid, "abc123");
}

#[test]
fn round_trip_create_identifier_non_empty() {
    // Encoding a create payload and decoding the documented mock reply for
    // that operation yields a non-empty identifier.
    let payload = BlacklistCreatePayload {
        type_field: BlacklistTypes::Email,
        data: "test@example.com".to_owned(),
        note: None,
    };
    let body = payload.to_json();
    let text = match body.get("data") {
        Some(JsonValue::Str(s)) => s.clone(),
        _ => panic!("payload carries its data"),
    };
    assert_eq!(text, "test@example.com");
    let reply = parse_body("{\"status\":200,\"data\":{\"uniqid\":\"abc123\"}}");
    let dict = interpret_create(&reply).expect("create succeeds");
    assert!(!dict.uniqid.is_empty());
}

#[test]
fn get_unknown_identifier_is_not_found() {
    // A get for an unknown identifier: the mock answers 404 and the
    // library yields a typed not-found error, not a panic.
    let reply = parse_body("{\"status\":404,\"data\":null,\"message\":null,\"log\":null,\"error\":\"404\",\"env\":\"production\"}");
    match interpret_get(&reply, "blacklist") {
        Err(ApiFailure::Remote(e)) => {
            assert_eq!(e.kind, SellixHttpCode::NotFound);
            assert_eq!(e.message, "Not Found - The specified resource could not be found.");
        },
        _ => panic!("a 404 reply is a typed not-found error"),
    }
}

#[test]
fn edit_with_null_data_succeeds() {
    // An edit only inspects the status: a success with a null payload is
    // boolean success.
    let reply = parse_body("{\"status\":200,\"data\":null}");
    assert_eq!(interpret_edit(&reply).expect("edit succeeds"), true);
}

#[test]
fn delete_twice_same_error_category() {
    // Deleting an already-deleted identifier: both attempts see the same
    // not-found reply and yield the same error category.
    let reply = parse_body("{\"status\":404,\"data\":null}");
    let first = interpret_delete(&reply);
    let second = interpret_delete(&reply);
    let first_kind = match first {
        Err(ApiFailure::Remote(e)) => e.kind,
        _ => panic!("first delete reports the remote failure"),
    };
    let second_kind = match second {
        Err(ApiFailure::Remote(e)) => e.kind,
        _ => panic!("second delete reports the remote failure"),
    };
    assert_eq!(first_kind, SellixHttpCode::NotFound);
    assert_eq!(second_kind, SellixHttpCode::NotFound);
    assert_eq!(first_kind, second_kind);
}

#[test]
fn list_with_page_absent_defaults_to_first() {
    // With no page given nothing is substituted: the server sees the bare
    // page parameter and serves the first page.
    let client = Blacklist::client("key", Some("merchant1"));
    let plan = client.plan(Operation::List, "", None, None).expect("blacklists offer list");
    assert_eq!(plan.method, HttpMethod::Get);
    assert_eq!(plan.path, "/blacklists?page=");
    assert_eq!(plan.merchant, "merchant1");
}

#[test]
fn list_out_of_range_page_is_empty_not_error() {
    let client = Blacklist::client("key", None);
    let plan = client.plan(Operation::List, "", Some(999), None).expect("blacklists offer list");
    assert_eq!(plan.path, "/blacklists?page=999");
    let reply = parse_body("{\"status\":200,\"data\":{\"blacklists\":[]}}");
    let items = interpret_list(&reply, "blacklists").expect("an empty page is a success");
    assert!(items.is_empty());
}

#[test]
fn get_unwraps_the_inner_record() {
    let reply = parse_body(
        "{\"status\":200,\"data\":{\"blacklist\":{\"uniqid\":\"bl1\",\"data\":\"test@example.com\"}}}",
    );
    let record = interpret_get(&reply, "blacklist").expect("get succeeds");
    assert!(matches!(record.get("uniqid"), Some(JsonValue::Str(s)) if s == "bl1"));
}

#[test]
fn malformed_envelopes_are_typed_errors() {
    let not_object = parse_body("[1,2,3]");
    assert!(matches!(read_envelope(&not_object), Err(EnvelopeError::NotAnObject)));

    let missing_status = parse_body("{\"data\":null}");
    assert!(matches!(read_envelope(&missing_status), Err(EnvelopeError::MissingStatus)));

    let status_not_number = parse_body("{\"status\":\"ok\"}");
    assert!(matches!(read_envelope(&status_not_number), Err(EnvelopeError::StatusNotANumber)));

    let unrecognized = parse_body("{\"status\":418}");
    assert!(matches!(
        read_envelope(&unrecognized),
        Err(EnvelopeError::UnrecognizedStatus { code: 418 })
    ));

    let success_without_payload = parse_body("{\"status\":200}");
    assert!(matches!(
        interpret_create(&success_without_payload),
        Err(ApiFailure::Malformed(EnvelopeError::MissingPayload))
    ));
}

#[test]
fn envelope_carries_diagnostics() {
    let reply = parse_body(
        "{\"status\":200,\"data\":{\"uniqid\":\"u\"},\"message\":\"fine\",\"log\":\"l\",\"error\":null,\"env\":\"production\"}",
    );
    let envelope = read_envelope(&reply).expect("the envelope decodes");
    assert_eq!(envelope.status, SellixHttpCode::Success);
    assert_eq!(envelope.message.as_deref(), Some("fine"));
    assert_eq!(envelope.log.as_deref(), Some("l"));
    assert!(envelope.error.is_none());
    assert_eq!(envelope.env, "production");
}

#[test]
fn feedback_reply_plan_uses_the_reply_endpoint() {
    let client = sellix_rs::api::Feedback::client("key", None);
    let plan = client.reply_plan("fb1", "thanks!");
    assert_eq!(plan.method, HttpMethod::Post);
    assert_eq!(plan.path, "/feedback/reply/fb1");
    let body = plan.body.expect("the reply rides in the body");
    assert!(matches!(body.get("reply"), Some(JsonValue::Str(s)) if s == "thanks!"));
}

#[test]
fn blacklist_record_decodes_typed() {
    let reply = parse_body(
        "{\"status\":200,\"data\":{\"blacklist\":{\"id\":1,\"uniqid\":\"bl1\",\"scope\":\"PRIVATE\",\"shop_id\":7,\"type\":\"EMAIL\",\"data\":\"test@example.com\",\"note\":\"Testing\",\"created_at\":1650000000,\"updated_at\":1650000001,\"updated_by\":3}}}",
    );
    let record_json = interpret_get(&reply, "blacklist").expect("get succeeds");
    let record = sellix_rs::models::blacklist::BlacklistRaw::from_json(record_json)
        .expect("the record decodes");
    assert_eq!(record.id, 1);
    assert_eq!(record.uniqid, "bl1");
    assert!(matches!(record.scope, sellix_rs::models::blacklist::BlacklistScope::Private));
    assert_eq!(record.shop_id, 7);
    assert!(matches!(record.type_field, BlacklistTypes::Email));
    assert_eq!(record.data, "test@example.com");
    assert_eq!(record.note, "Testing");
    assert_eq!(record.created_at, 1650000000);
    assert_eq!(record.updated_at, 1650000001);
    assert_eq!(record.updated_by, 3);
}

#[test]
fn blacklist_record_with_missing_field_does_not_decode() {
    let record_json = parse_body("{\"id\":1,\"uniqid\":\"bl1\",\"scope\":\"ELSEWHERE\"}");
    assert!(sellix_rs::models::blacklist::BlacklistRaw::from_json(&record_json).is_none());
}

#[test]
fn whitelist_record_decodes_typed() {
    let record_json = parse_body(
        "{\"id\":2,\"uniqid\":\"wl1\",\"shop_id\":7,\"type\":\"IP\",\"data\":\"127.0.0.1\",\"note\":\"\",\"created_at\":1650000000,\"updated_at\":1650000000,\"updated_by\":0}",
    );
    let record = sellix_rs::models::whitelist::WhitelistRaw::from_json(&record_json)
        .expect("the record decodes");
    assert_eq!(record.uniqid, "wl1");
    assert!(matches!(record.type_field, sellix_rs::models::whitelist::WhitelistTypes::IP));
    assert_eq!(record.data, "127.0.0.1");
}

#[test]
fn customer_record_decodes_typed() {
    let record_json = parse_body(
        "{\"id\":\"cst_1\",\"shop_id\":7,\"name\":\"Ada\",\"surname\":\"L\",\"phone\":\"\",\"phone_country_code\":\"\",\"country_code\":\"GB\",\"address\":\"\",\"additional_address_info\":\"\",\"city\":\"London\",\"postal_code\":\"\",\"state\":\"\",\"email\":\"ada@example.com\"}",
    );
    let record = sellix_rs::models::customer::CustomerRaw::from_json(&record_json)
        .expect("the record decodes");
    assert_eq!(record.id, "cst_1");
    assert_eq!(record.city, "London");
    assert_eq!(record.email, "ada@example.com");
}

#[test]
fn coupon_payload_encodes_every_field() {
    let payload = sellix_rs::models::coupon::CouponCreatePayload {
        code: "test_coupon".to_owned(),
        discount_value: 10,
        max_uses: Some(-1),
        products_bound: Some(vec!["p1".to_owned(), "p2".to_owned()]),
        discount_type: Some(sellix_rs::models::payment::DiscountType::Percentage),
        discount_order_type: None,
        disabled_with_volume_discounts: Some(false),
        all_recurring_bill_invoices: None,
        expire_at: Some(1700000000),
    };
    let body = payload.to_json();
    assert!(matches!(body.get("code"), Some(JsonValue::Str(s)) if s == "test_coupon"));
    assert!(matches!(body.get("discount_value"), Some(JsonValue::UInt(10))));
    assert!(matches!(body.get("max_uses"), Some(JsonValue::Int(-1))));
    assert!(matches!(body.get("discount_type"), Some(JsonValue::Str(s)) if s == "PERCENTAGE"));
    assert!(matches!(body.get("discount_order_type"), Some(JsonValue::Null)));
    assert!(matches!(body.get("disabled_with_volume_discounts"), Some(JsonValue::Bool(false))));
    assert!(matches!(body.get("all_recurring_bill_invoices"), Some(JsonValue::Null)));
    assert!(matches!(body.get("expire_at"), Some(JsonValue::UInt(1700000000))));
    match body.get("products_bound") {
        Some(JsonValue::Arr(items)) => {
            assert_eq!(items.len(), 2);
            assert!(matches!(&items[0], JsonValue::Str(s) if s == "p1"));
            assert!(matches!(&items[1], JsonValue::Str(s) if s == "p2"));
        },
        _ => panic!("the bound products ride as an array"),
    }
}

#[test]
fn subscription_payload_encodes_custom_fields_object() {
    let payload = sellix_rs::models::subscription::SubscriptionCreatePayload {
        product_id: "prod1".to_owned(),
        coupon_code: None,
        custom_fields: vec![("plan".to_owned(), "gold".to_owned())],
        customer_id: "cst_1".to_owned(),
        gateway: sellix_rs::models::payment::PaymentGateway::Stripe,
    };
    let body = payload.to_json();
    assert!(matches!(body.get("product_id"), Some(JsonValue::Str(s)) if s == "prod1"));
    assert!(matches!(body.get("coupon_code"), Some(JsonValue::Null)));
    assert!(matches!(body.get("gateway"), Some(JsonValue::Str(s)) if s == "STRIPE"));
    match body.get("custom_fields") {
        Some(custom) => {
            assert!(matches!(custom.get("plan"), Some(JsonValue::Str(s)) if s == "gold"));
        },
        _ => panic!("the custom fields ride as an object"),
    }
}

#[test]
fn category_payload_encodes_title_and_options() {
    let payload = sellix_rs::models::category::CategoryCreatePayload {
        title: "Software".to_owned(),
        unlisted: Some(true),
        products_bound: None,
        groups_array: None,
        sort_priority: Some(1),
    };
    let body = payload.to_json();
    assert!(matches!(body.get("title"), Some(JsonValue::Str(s)) if s == "Software"));
    assert!(matches!(body.get("unlisted"), Some(JsonValue::Bool(true))));
    assert!(matches!(body.get("products_bound"), Some(JsonValue::Null)));
    assert!(matches!(body.get("sort_priority"), Some(JsonValue::UInt(1))));
}

#[test]
fn transport_status_keeps_recognized_codes() {
    assert_eq!(transport_status(Some(403)), SellixHttpCode::Forbidden);
    assert_eq!(transport_status(Some(999)), SellixHttpCode::ServiceUnavailable);
    assert_eq!(transport_status(None), SellixHttpCode::ServiceUnavailable);
}
