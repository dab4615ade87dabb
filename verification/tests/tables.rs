// The request table, the per-resource configurations, and the smaller
// wire-name mappings.

use sellix_rs::client::Client;
use sellix_rs::json::u64_to_string;
use sellix_rs::models::SellixHttpCode;
use sellix_rs::models::events::Order;
use sellix_rs::models::events::Product;
use sellix_rs::models::events::Query;
use sellix_rs::models::events::Subscription;
use sellix_rs::request::HttpMethod;
use sellix_rs::request::Operation;
use sellix_rs::request::RequestType;
use sellix_rs::request::ResourceKind;
use sellix_rs::request::api_methods;
use sellix_rs::request::request_type_for;

#[test]
fn feedback_offers_only_get_and_list() {
    // The generator emits exactly the configured methods and no others.
    let config = api_methods(ResourceKind::Feedback);
    assert!(config.get && config.list);
    assert!(!config.create && !config.edit && !config.delete);
    assert!(request_type_for(ResourceKind::Feedback, Operation::Get).is_some());
    assert!(request_type_for(ResourceKind::Feedback, Operation::List).is_some());
    assert!(request_type_for(ResourceKind::Feedback, Operation::Create).is_none());
    assert!(request_type_for(ResourceKind::Feedback, Operation::Update).is_none());
    assert!(request_type_for(ResourceKind::Feedback, Operation::Destroy).is_none());
}

#[test]
fn subscription_offers_no_edit() {
    assert!(request_type_for(ResourceKind::Subscription, Operation::Create).is_some());
    assert!(request_type_for(ResourceKind::Subscription, Operation::Update).is_none());
    assert!(request_type_for(ResourceKind::Subscription, Operation::Destroy).is_some());
}

#[test]
fn blacklist_offers_all_five() {
    assert_eq!(
        request_type_for(ResourceKind::Blacklist, Operation::Get),
        Some(RequestType::BlacklistGet)
    );
    assert_eq!(
        request_type_for(ResourceKind::Blacklist, Operation::List),
        Some(RequestType::BlacklistList)
    );
    assert_eq!(
        request_type_for(ResourceKind::Blacklist, Operation::Create),
        Some(RequestType::BlacklistCreate)
    );
    assert_eq!(
        request_type_for(ResourceKind::Blacklist, Operation::Update),
        Some(RequestType::BlacklistUpdate)
    );
    assert_eq!(
        request_type_for(ResourceKind::Blacklist, Operation::Destroy),
        Some(RequestType::BlacklistDestroy)
    );
}

#[test]
fn excluded_methods_are_absent_for_every_resource() {
    let kinds = vec![
        ResourceKind::Blacklist,
        ResourceKind::Whitelist,
        ResourceKind::Category,
        ResourceKind::Coupon,
        ResourceKind::Feedback,
        ResourceKind::Order,
        ResourceKind::Group,
        ResourceKind::Customer,
        ResourceKind::Query,
        ResourceKind::Subscription,
    ];
    let ops = vec![
        Operation::Get,
        Operation::List,
        Operation::Create,
        Operation::Update,
        Operation::Destroy,
    ];
    for kind in &kinds {
        let config = api_methods(*kind);
        for op in &ops {
            assert_eq!(request_type_for(*kind, *op).is_some(), config.allows(*op));
        }
    }
}

#[test]
fn rendered_paths_leave_no_marker() {
    // Substituting the placeholder yields a path with no template marker
    // left in it.
    let (_, template) = RequestType::CouponUpdate.request_details();
    let rendered = template.render("c4x", None);
    assert_eq!(rendered, "/coupons/c4x");
    assert!(!rendered.contains('{'));
    let (_, listing) = RequestType::CategoryList.request_details();
    let listed = listing.render("", Some(12));
    assert_eq!(listed, "/categories?page=12");
    assert!(!listed.contains('{'));
}

#[test]
fn request_details_match_the_documented_table() {
    let (method, template) = RequestType::BlacklistGet.request_details();
    assert_eq!(method, HttpMethod::Get);
    assert_eq!(template.render("u1", None), "/blacklists/u1");
    let (method, template) = RequestType::WhitelistCreate.request_details();
    assert_eq!(method, HttpMethod::Post);
    assert_eq!(template.render("", None), "/whitelists");
    let (method, template) = RequestType::QueryDestroy.request_details();
    assert_eq!(method, HttpMethod::Delete);
    assert_eq!(template.render("q9", None), "/queries/q9");
    let (method, template) = RequestType::FeedbackReply.request_details();
    assert_eq!(method, HttpMethod::Post);
    assert_eq!(template.render("f2", None), "/feedback/reply/f2");
}

#[test]
fn status_codes_map_both_ways() {
    assert_eq!(SellixHttpCode::from_code(200), Some(SellixHttpCode::Success));
    assert_eq!(SellixHttpCode::from_code(404), Some(SellixHttpCode::NotFound));
    assert_eq!(SellixHttpCode::from_code(429), Some(SellixHttpCode::TooManyRequests));
    assert_eq!(SellixHttpCode::from_code(418), None);
    assert_eq!(SellixHttpCode::NotFound.code(), 404);
    assert_eq!(SellixHttpCode::NotFound.name(), "Not Found");
    assert_eq!(
        SellixHttpCode::NotFound.description(),
        "The specified resource could not be found."
    );
    assert_eq!(
        SellixHttpCode::NotFound.to_message(),
        "Not Found - The specified resource could not be found."
    );
}

#[test]
fn decimal_rendering_is_exact() {
    assert_eq!(u64_to_string(0), "0");
    assert_eq!(u64_to_string(7), "7");
    assert_eq!(u64_to_string(50), "50");
    assert_eq!(u64_to_string(1203), "1203");
    assert_eq!(u64_to_string(u64::MAX), "18446744073709551615");
}

#[test]
fn event_names_map_to_variants() {
    assert!(matches!(Order::from_str("order:paid"), Order::Paid));
    assert!(matches!(Order::from_str("order:created:product"), Order::CreatedProduct));
    assert!(matches!(Query::from_str("query:replied"), Query::Replied));
    assert!(matches!(Product::from_str("product:stock"), Product::Stock));
    assert!(matches!(
        Subscription::from_str("subscription:trial:started"),
        Subscription::TrialStarted
    ));
    assert!(matches!(
        sellix_rs::models::events::Feedback::from_str("feedback:created"),
        sellix_rs::models::events::Feedback::Created
    ));
}

#[test]
fn aggregate_client_shares_credentials() {
    let client = Client::new("key123", Some("merchant9"));
    assert_eq!(client.blacklist.api_key, "key123");
    assert_eq!(client.subscription.api_key, "key123");
    assert_eq!(client.coupon.merchant.as_deref(), Some("merchant9"));
    let plan = client
        .whitelist
        .plan(Operation::Get, "w1", None, None)
        .expect("whitelists offer get");
    assert_eq!(plan.path, "/whitelists/w1");
    assert_eq!(plan.authorization, "Bearer key123");
    assert_eq!(plan.merchant, "merchant9");
}
