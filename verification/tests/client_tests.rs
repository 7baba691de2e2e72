use woo_client::client::{
    ResponseStatusCheck, WooCommerceHttpError, WooHttpClient,
};

fn client() -> WooHttpClient {
    WooHttpClient::new("ck_test", "cs_test", "https://shop.example/wp-json")
}

#[test]
fn client_construction() {
    let c = client();
    assert_eq!(c.base_url, "https://shop.example/wp-json");
    assert!(c.auth_header.starts_with("Basic "));
    assert!(!c.debug);
    let mut c = c;
    c.set_debug(true);
    assert!(c.debug);
}

#[test]
fn success_passes_body_unmodified() {
    let c = client();
    for status in [200u16, 201, 204, 299] {
        match c.check_for_failed_status_code::<()>(status, String::from("{\"x\":1}")) {
            ResponseStatusCheck::Success(b) => assert_eq!(b, "{\"x\":1}"),
            ResponseStatusCheck::Failure(_) => panic!("status {} must pass", status),
        }
    }
}

#[test]
fn structured_error_body_yields_error_response() {
    let c = client();
    let body = "{\"code\":\"woocommerce_rest_shop_coupon_invalid_id\",\
                \"message\":\"Invalid ID.\",\"data\":{\"status\":404}}";
    match c.check_for_failed_status_code::<()>(404, String::from(body)) {
        ResponseStatusCheck::Failure(Err(WooCommerceHttpError::ErrorResponse(er))) => {
            assert_eq!(er.code, "woocommerce_rest_shop_coupon_invalid_id");
            assert_eq!(er.message, "Invalid ID.");
            assert_eq!(er.data.status, 404);
        },
        other => panic!("unexpected: {:?}", kind_of(&other)),
    }
}

#[test]
fn unstructured_error_body_yields_raw_body() {
    let c = client();
    let body = "<html>Bad Gateway</html>";
    match c.check_for_failed_status_code::<()>(502, String::from(body)) {
        ResponseStatusCheck::Failure(Err(WooCommerceHttpError::RawBodyError(b))) => {
            assert_eq!(b, body);
        },
        other => panic!("unexpected: {:?}", kind_of(&other)),
    }
}

#[test]
fn incomplete_schema_falls_back_to_raw_body() {
    let c = client();
    // valid JSON, but the nested status is missing
    let body = "{\"code\":\"x\",\"message\":\"y\",\"data\":{}}";
    match c.check_for_failed_status_code::<()>(400, String::from(body)) {
        ResponseStatusCheck::Failure(Err(WooCommerceHttpError::RawBodyError(b))) => {
            assert_eq!(b, body);
        },
        other => panic!("unexpected: {:?}", kind_of(&other)),
    }
}

#[test]
fn body_read_placeholder_is_fixed() {
    assert_eq!(
        woo_client::client::body_read_failure_message(),
        "Failed to get response body"
    );
}

#[test]
fn transport_errors_stay_distinct() {
    let e = woo_client::client::transport_error(String::from("connection reset"));
    match e {
        WooCommerceHttpError::TransportError(m) => assert_eq!(m, "connection reset"),
        _ => panic!("wrong variant"),
    }
}

fn kind_of(r: &ResponseStatusCheck<()>) -> &'static str {
    match r {
        ResponseStatusCheck::Success(_) => "success",
        ResponseStatusCheck::Failure(Ok(_)) => "failure-ok",
        ResponseStatusCheck::Failure(Err(WooCommerceHttpError::TransportError(_))) => "transport",
        ResponseStatusCheck::Failure(Err(WooCommerceHttpError::ErrorResponse(_))) => "structured",
        ResponseStatusCheck::Failure(Err(WooCommerceHttpError::RawBodyError(_))) => "raw",
        ResponseStatusCheck::Failure(Err(WooCommerceHttpError::SerdeError(_))) => "serde",
    }
}

#[test]
fn schema_mismatch_on_success_body() {
    let c = client();
    // 200 with a body that is JSON but no coupon
    match c.create_coupon_response(200, String::from("123")) {
        Err(WooCommerceHttpError::SerdeError(_)) => {},
        _ => panic!("expected a schema error"),
    }
    // 200 with a body that is not JSON at all
    match c.create_coupon_response(200, String::from("not json")) {
        Err(WooCommerceHttpError::SerdeError(_)) => {},
        _ => panic!("expected a schema error"),
    }
}

#[test]
fn coupon_urls() {
    let c = client();
    let coupon = sample_create_coupon();
    let req = c.create_coupon_request(&coupon);
    assert_eq!(req.url, "https://shop.example/wp-json/wc/v3/coupons");
    assert!(req.body.is_some());

    let req = c.get_coupons_request(1, 10);
    assert_eq!(req.url, "https://shop.example/wp-json/wc/v3/coupons?page=1&per_page=10");
    assert!(req.body.is_none());

    let req = c.get_coupon_request(335);
    assert_eq!(req.url, "https://shop.example/wp-json/wc/v3/coupons/335");

    let req = c.delete_coupon_request(335);
    assert_eq!(req.url, "https://shop.example/wp-json/wc/v3/coupons/335?force=true");
}

fn sample_create_coupon() -> woo_client::coupon::CreateCoupon {
    woo_client::coupon::CreateCoupon {
        code: String::from("test1234"),
        amount: String::from("10.0"),
        discount_type: woo_client::coupon::DiscountType::Percent,
        description: String::from("test1"),
        date_expires_gmt: Some(String::from("2030-01-01T00:00:00")),
        individual_use: false,
        product_ids: vec![335],
        usage_limit: None,
        usage_limit_per_user: None,
        limit_usage_to_x_items: None,
    }
}

#[test]
fn create_coupon_body_is_wire_json() {
    let c = client();
    let req = c.create_coupon_request(&sample_create_coupon());
    let body = req.body.expect("body");
    let sv: serde_json::Value = serde_json::from_str(&body).expect("valid JSON");
    assert_eq!(sv["code"], serde_json::Value::from("test1234"));
    assert_eq!(sv["discount_type"], serde_json::Value::from("percent"));
    assert_eq!(sv["product_ids"][0], serde_json::Value::from(335i64));
    assert_eq!(sv["usage_limit"], serde_json::Value::Null);
    assert_eq!(sv["individual_use"], serde_json::Value::from(false));
}
