// Entrypoint
use sellix_rs::ProductQuerystringBuilder;

#[test]
fn product_query_string() {
    // Initialise the builder and add all of the stuff
    let builder = ProductQuerystringBuilder::new("test_store", "uniqid")
        .quantity(50)
        .email("example@example.com")
        .add_custom_field("customField", "hello");

    // Log it
    println!("built: {}", builder.build());
}

#[test]
fn product_query_string_exact() {
    let builder = ProductQuerystringBuilder::new("test_store", "uniqid")
        .quantity(50)
        .email("example@example.com")
        .add_custom_field("customField", "hello");
    assert_eq!(
        builder.build(),
        "https://test_store.mysellix.io/product/uniqid?quantity=50&email=example@example.com&customField=hello"
    );
}

#[test]
fn product_query_string_bare() {
    let builder = ProductQuerystringBuilder::new("shop", "demobde8a50");
    assert_eq!(builder.build(), "https://shop.mysellix.io/product/demobde8a50");
}

#[test]
fn product_query_string_gateway_and_step() {
    let builder = sellix_rs::ProductQuerystringBuilder::new("shop", "id1")
        .gateway(sellix_rs::models::payment::PaymentGateway::Litecoin)
        .step(sellix_rs::QueryStep::Choice)
        .coupon_code("SAVE10");
    assert_eq!(
        builder.build(),
        "https://shop.mysellix.io/product/id1?gateway=LITECOIN&step=1&couponCode=SAVE10"
    );
}

#[test]
fn product_query_string_repeated_custom_field_overwrites() {
    let builder = ProductQuerystringBuilder::new("shop", "id1")
        .add_custom_field("customField", "first")
        .add_custom_field("other", "kept")
        .add_custom_field("customField", "second");
    assert_eq!(
        builder.build(),
        "https://shop.mysellix.io/product/id1?customField=second&other=kept"
    );
}
