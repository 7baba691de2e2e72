use woo_client::codec::JsonCodec;
use woo_client::common::{Link, Links, MetaData};
use woo_client::coupon::{Coupon, DiscountType, UpdateCoupon};
use woo_client::json::{json_to_string, parse_json, JsonValue};
use woo_client::order::{ContactDetails, CreateLineItem, CreateOrder, Order, OrderStatus};

fn sample_links() -> Links {
    Links {
        self_link: vec![Link { href: String::from("https://shop.example/wp-json/wc/v3/coupons/7") }],
        collection: vec![Link { href: String::from("https://shop.example/wp-json/wc/v3/coupons") }],
    }
}

fn sample_coupon() -> Coupon {
    Coupon {
        id: 7,
        code: String::from("spring-sale"),
        amount: String::from("10.0"),
        date_created: String::from("2024-03-01T10:00:00"),
        date_created_gmt: String::from("2024-03-01T09:00:00"),
        date_modified: String::from("2024-03-02T10:00:00"),
        date_modified_gmt: String::from("2024-03-02T09:00:00"),
        discount_type: DiscountType::Percent,
        description: String::from("spring promotion"),
        date_expires: Some(String::from("2024-06-01T00:00:00")),
        date_expires_gmt: None,
        usage_count: 3,
        individual_use: true,
        product_ids: vec![335, 1915],
        excluded_product_ids: vec![],
        usage_limit: Some(100),
        usage_limit_per_user: Some(1),
        limit_usage_to_x_items: None,
        free_shipping: false,
        product_categories: vec![5],
        excluded_product_categories: vec![9, 12],
        exclude_sale_items: true,
        minimum_amount: String::from("25.00"),
        maximum_amount: String::from("500.00"),
        email_restrictions: vec![String::from("a@example.com")],
        used_by: vec![String::from("41"), String::from("plain@example.com")],
        meta_data: vec![
            MetaData {
                id: 379,
                key: String::from("campaign"),
                value: JsonValue::Str(String::from("spring")),
            },
            MetaData {
                id: 380,
                key: String::from("priority"),
                value: JsonValue::Num(String::from("2")),
            },
        ],
        _links: sample_links(),
    }
}

fn assert_coupon_eq(a: &Coupon, b: &Coupon) {
    assert_eq!(a.id, b.id);
    assert_eq!(a.code, b.code);
    assert_shared_eq(a, b);
}

fn assert_shared_eq(a: &Coupon, b: &Coupon) {
    assert_eq!(a.amount, b.amount);
    assert_eq!(a.date_created, b.date_created);
    assert_eq!(a.date_created_gmt, b.date_created_gmt);
    assert_eq!(a.date_modified, b.date_modified);
    assert_eq!(a.date_modified_gmt, b.date_modified_gmt);
    assert_eq!(a.discount_type, b.discount_type);
    assert_eq!(a.description, b.description);
    assert_eq!(a.date_expires, b.date_expires);
    assert_eq!(a.date_expires_gmt, b.date_expires_gmt);
    assert_eq!(a.usage_count, b.usage_count);
    assert_eq!(a.individual_use, b.individual_use);
    assert_eq!(a.product_ids, b.product_ids);
    assert_eq!(a.excluded_product_ids, b.excluded_product_ids);
    assert_eq!(a.usage_limit, b.usage_limit);
    assert_eq!(a.usage_limit_per_user, b.usage_limit_per_user);
    assert_eq!(a.limit_usage_to_x_items, b.limit_usage_to_x_items);
    assert_eq!(a.free_shipping, b.free_shipping);
    assert_eq!(a.product_categories, b.product_categories);
    assert_eq!(a.excluded_product_categories, b.excluded_product_categories);
    assert_eq!(a.exclude_sale_items, b.exclude_sale_items);
    assert_eq!(a.minimum_amount, b.minimum_amount);
    assert_eq!(a.maximum_amount, b.maximum_amount);
    assert_eq!(a.email_restrictions, b.email_restrictions);
    assert_eq!(a.used_by, b.used_by);
    assert_eq!(a.meta_data.len(), b.meta_data.len());
    for (x, y) in a.meta_data.iter().zip(b.meta_data.iter()) {
        assert_eq!(x.id, y.id);
        assert_eq!(x.key, y.key);
        assert_eq!(json_to_string(&x.value), json_to_string(&y.value));
    }
    assert_eq!(a._links.self_link.len(), b._links.self_link.len());
    assert_eq!(a._links.self_link[0].href, b._links.self_link[0].href);
    assert_eq!(a._links.collection[0].href, b._links.collection[0].href);
}

#[test]
fn coupon_round_trip() {
    let c = sample_coupon();
    let v = c.to_json();
    let back = Coupon::from_json(&v).expect("decode");
    assert_coupon_eq(&c, &back);
}

#[test]
fn coupon_text_round_trip() {
    let c = sample_coupon();
    let text = json_to_string(&c.to_json());
    let v = parse_json(&text).expect("parse");
    let back = Coupon::from_json(&v).expect("decode");
    assert_coupon_eq(&c, &back);
}

#[test]
fn coupon_narrowing_drops_code_only() {
    let c = sample_coupon();
    let reference = sample_coupon();
    let u: UpdateCoupon = c.into();
    // every shared field is preserved
    assert_eq!(u.id, reference.id);
    assert_eq!(u.amount, reference.amount);
    assert_eq!(u.discount_type, reference.discount_type);
    assert_eq!(u.description, reference.description);
    assert_eq!(u.usage_count, reference.usage_count);
    assert_eq!(u.product_ids, reference.product_ids);
    assert_eq!(u.minimum_amount, reference.minimum_amount);
    assert_eq!(u.used_by, reference.used_by);
    // the encoded update carries no `code` member
    let v = u.to_json();
    assert!(v.get("code").is_none());
    assert!(v.get("id").is_some());
    // and it decodes back with the shared fields intact
    let back = UpdateCoupon::from_json(&v).expect("decode");
    assert_eq!(back.id, reference.id);
    assert_eq!(back.amount, reference.amount);
    assert_eq!(back.description, reference.description);
}

#[test]
fn discount_type_tags() {
    for (d, tag) in [
        (DiscountType::FixedCart, "fixed_cart"),
        (DiscountType::Percent, "percent"),
        (DiscountType::FixedProduct, "fixed_product"),
    ] {
        let v = d.to_json();
        match &v {
            JsonValue::Str(s) => assert_eq!(s, tag),
            _ => panic!("tag must be a string"),
        }
        assert_eq!(DiscountType::from_json(&v), Some(d));
    }
    assert_eq!(
        DiscountType::from_json(&JsonValue::Str(String::from("bogus"))),
        None
    );
    assert_eq!(DiscountType::default(), DiscountType::FixedCart);
}

#[test]
fn order_status_tags() {
    for (d, tag) in [
        (OrderStatus::Pending, "pending"),
        (OrderStatus::Processing, "processing"),
        (OrderStatus::OnHold, "on-hold"),
        (OrderStatus::Completed, "completed"),
        (OrderStatus::Cancelled, "cancelled"),
        (OrderStatus::Refunded, "refunded"),
        (OrderStatus::Failed, "failed"),
        (OrderStatus::Trash, "trash"),
        (OrderStatus::CheckoutDraft, "checkout-draft"),
    ] {
        let v = d.to_json();
        match &v {
            JsonValue::Str(s) => assert_eq!(s, tag),
            _ => panic!("tag must be a string"),
        }
        assert_eq!(OrderStatus::from_json(&v), Some(d));
    }
    assert_eq!(OrderStatus::from_json(&JsonValue::Str(String::from("unknown"))), None);
    // declaration order gives the comparison order
    assert!(OrderStatus::Pending < OrderStatus::Completed);
    assert!(OrderStatus::Completed < OrderStatus::Trash);
    assert_eq!(OrderStatus::default(), OrderStatus::Pending);
}

#[test]
fn metadata_accepts_heterogeneous_values() {
    let entries = vec![
        MetaData { id: 1, key: String::from("s"), value: JsonValue::Str(String::from("x")) },
        MetaData { id: 2, key: String::from("n"), value: JsonValue::Num(String::from("42")) },
        MetaData {
            id: 3,
            key: String::from("a"),
            value: JsonValue::Arr(vec![JsonValue::Bool(true), JsonValue::Null]),
        },
    ];
    for m in &entries {
        let v = m.to_json();
        let back = MetaData::from_json(&v).expect("decode");
        assert_eq!(back.id, m.id);
        assert_eq!(back.key, m.key);
        assert_eq!(json_to_string(&back.value), json_to_string(&m.value));
    }
}

fn contact() -> ContactDetails {
    ContactDetails {
        first_name: String::from("John"),
        last_name: String::from("Doe"),
        company: String::from("Boring LTD"),
        address_1: String::from("123 Main St"),
        address_2: String::from(""),
        city: String::from("New York"),
        state: String::from(""),
        postcode: String::from("10001"),
        country: String::from("US"),
        email: String::from("john.doe@example.com"),
        phone: String::from("(555) 555-5555"),
    }
}

fn sample_create_order() -> CreateOrder {
    CreateOrder {
        set_paid: false,
        billing: contact(),
        meta_data: vec![],
        line_items: vec![CreateLineItem { product_id: 1915, quantity: 1 }],
        customer_id: 0,
        coupon_lines: vec![],
    }
}

fn sample_order(id: i32) -> Order {
    Order {
        id,
        parent_id: 0,
        status: OrderStatus::Pending,
        currency: String::from("USD"),
        version: String::from("8.5.2"),
        prices_include_tax: false,
        date_created: String::from("2024-03-01T10:00:00"),
        date_modified: String::from("2024-03-01T10:00:00"),
        discount_total: String::from("0.00"),
        discount_tax: String::from("0.00"),
        shipping_total: String::from("0.00"),
        shipping_tax: String::from("0.00"),
        cart_tax: String::from("0.00"),
        total: String::from("100.00"),
        total_tax: String::from("0.00"),
        customer_id: 0,
        order_key: String::from("wc_order_abc123"),
        billing: contact(),
        shipping: contact(),
        payment_method: String::from(""),
        payment_method_title: String::from(""),
        transaction_id: String::from(""),
        customer_ip_address: String::from(""),
        customer_user_agent: String::from(""),
        created_via: String::from("rest-api"),
        customer_note: String::from(""),
        date_completed: None,
        date_paid: None,
        cart_hash: String::from(""),
        number: String::from("1916"),
        meta_data: vec![],
        line_items: vec![],
        tax_lines: vec![],
        shipping_lines: vec![],
        fee_lines: vec![],
        coupon_lines: vec![],
        refunds: vec![],
        payment_url: String::from("https://shop.example/checkout/order-pay/1916"),
        is_editable: true,
        needs_payment: true,
        needs_processing: true,
        date_created_gmt: String::from("2024-03-01T09:00:00"),
        date_modified_gmt: String::from("2024-03-01T09:00:00"),
        date_completed_gmt: None,
        date_paid_gmt: None,
        gift_cards: None,
        currency_symbol: String::from("$"),
        _links: Links { self_link: vec![], collection: vec![] },
    }
}

#[test]
fn order_creation_round_trip() {
    // the creation payload of the original order scenario posts to the
    // orders endpoint, and a well-formed 201 body decodes to a record
    // whose id keys the follow-up lookup
    let client = woo_client::client::WooHttpClient::new(
        "ck_test",
        "cs_test",
        "https://shop.example/wp-json",
    );
    let create = sample_create_order();
    let req = client.create_order_request(&create);
    assert_eq!(req.url, "https://shop.example/wp-json/wc/v3/orders");
    let body = req.body.expect("body");
    let sv: serde_json::Value = serde_json::from_str(&body).expect("valid JSON");
    assert_eq!(sv["set_paid"], serde_json::Value::from(false));
    assert_eq!(sv["customer_id"], serde_json::Value::from(0i64));
    assert_eq!(sv["line_items"][0]["product_id"], serde_json::Value::from(1915i64));
    assert_eq!(sv["line_items"][0]["quantity"], serde_json::Value::from(1i64));
    assert_eq!(sv["billing"]["first_name"], serde_json::Value::from("John"));

    let response_body = json_to_string(&sample_order(1916).to_json());
    let order = client.create_order_response(201, response_body).expect("decode");
    assert_eq!(order.id, 1916);
    assert_eq!(order.status, OrderStatus::Pending);
    assert_eq!(order.billing.email, "john.doe@example.com");

    let follow_up = client.get_order_request(order.id);
    assert_eq!(follow_up.url, "https://shop.example/wp-json/wc/v3/orders/1916");
}

#[test]
fn missing_order_reads_as_absent() {
    let client = woo_client::client::WooHttpClient::new(
        "ck_test",
        "cs_test",
        "https://shop.example/wp-json",
    );
    let body = "{\"code\":\"woocommerce_rest_shop_order_invalid_id\",\
                \"message\":\"Invalid ID.\",\"data\":{\"status\":404}}";
    let r = client.get_order_response(404, String::from(body)).expect("not an error");
    assert!(r.is_none());
}

#[test]
fn full_order_round_trip() {
    let o = sample_order(42);
    let text = json_to_string(&o.to_json());
    let v = parse_json(&text).expect("parse");
    let back = Order::from_json(&v).expect("decode");
    assert_eq!(back.id, 42);
    assert_eq!(back.status, o.status);
    assert_eq!(back.total, o.total);
    assert_eq!(back.billing.city, o.billing.city);
    assert_eq!(back.number, o.number);
    assert!(back.gift_cards.is_none());
}

fn sample_product() -> woo_client::product::Product {
    woo_client::product::Product {
        id: 42,
        name: String::from("Widget"),
        slug: String::from("widget"),
        permalink: String::from("https://shop.example/product/widget"),
        date_created: String::from("2024-01-01T00:00:00"),
        date_created_gmt: String::from("2024-01-01T00:00:00"),
        date_modified: String::from("2024-01-02T00:00:00"),
        date_modified_gmt: String::from("2024-01-02T00:00:00"),
        product_type: String::from("simple"),
        status: String::from("publish"),
        featured: false,
        catalog_visibility: String::from("visible"),
        description: String::from("A fine widget"),
        short_description: String::from("widget"),
        sku: String::from("W-42"),
        price: String::from("100.00"),
        regular_price: String::from("100.00"),
        sale_price: String::from(""),
        price_html: String::from("<span>100</span>"),
        on_sale: false,
        purchasable: true,
        total_sales: 7,
        virtual_type: true,
        downloadable: false,
        download_limit: -1,
        download_expiry: -1,
        external_url: String::from(""),
        button_text: String::from(""),
        tax_status: String::from("taxable"),
        tax_class: String::from(""),
        manage_stock: false,
        stock_status: String::from("instock"),
        backorders: String::from("no"),
        backorders_allowed: false,
        backordered: false,
        sold_individually: false,
        weight: String::from(""),
        shipping_required: true,
        shipping_taxable: true,
        shipping_class: String::from(""),
        shipping_class_id: 0,
        reviews_allowed: true,
        average_rating: String::from("4.50"),
        rating_count: 2,
        parent_id: 0,
        purchase_note: String::from(""),
        menu_order: 0,
        date_on_sale_from: None,
        date_on_sale_from_gmt: None,
        date_on_sale_to: None,
        date_on_sale_to_gmt: None,
        downloads: vec![],
        stock_quantity: Some(25),
        dimensions: woo_client::product::Dimensions {
            length: String::from("10"),
            width: String::from("5"),
            height: String::from("2"),
        },
        related_ids: vec![1, 2],
        upsell_ids: vec![],
        cross_sell_ids: vec![],
        categories: vec![woo_client::product::Category {
            id: 5,
            name: String::from("Tools"),
            slug: String::from("tools"),
        }],
        tags: vec![],
        images: vec![],
        attributes: vec![woo_client::product::Attribute {
            id: 1,
            name: String::from("Color"),
            position: 0,
            visible: true,
            variation: false,
            options: vec![String::from("red"), String::from("blue")],
        }],
        default_attributes: vec![],
        variations: vec![],
        grouped_products: vec![],
        meta_data: vec![],
        _links: Links { self_link: vec![], collection: vec![] },
    }
}

#[test]
fn full_product_round_trip() {
    let p = sample_product();
    let text = json_to_string(&p.to_json());
    // the wire names differ from the field names
    let sv: serde_json::Value = serde_json::from_str(&text).expect("valid JSON");
    assert_eq!(sv["type"], serde_json::Value::from("simple"));
    assert_eq!(sv["virtual"], serde_json::Value::from(true));
    let v = parse_json(&text).expect("parse");
    let back = woo_client::product::Product::from_json(&v).expect("decode");
    assert_eq!(back.id, 42);
    assert_eq!(back.product_type, "simple");
    assert_eq!(back.virtual_type, true);
    assert_eq!(back.stock_quantity, Some(25));
    assert_eq!(back.dimensions.width, "5");
    assert_eq!(back.attributes[0].options, vec![String::from("red"), String::from("blue")]);
    assert_eq!(back.sale_price, "");
}

#[test]
fn product_update_confirms_without_record() {
    let client = woo_client::client::WooHttpClient::new(
        "ck_test",
        "cs_test",
        "https://shop.example/wp-json",
    );
    let p = sample_product();
    let req = client.update_product_request(&p);
    assert_eq!(req.url, "https://shop.example/wp-json/wc/v3/products/42");
    assert!(client.update_product_response(200, String::from("{}")).is_ok());
    assert!(client.update_product_response(500, String::from("boom")).is_err());
    let req = client.get_products_request(1, 10);
    assert_eq!(req.url, "https://shop.example/wp-json/wc/v3/products?page=1&per_page=10");
}
