use connectify::common::ConnectifyError;
use connectify::config::{AppConfig, FulfillmentConfig, PriceTier, ServerConfig, StripeConfig};
use connectify::stripe::{
    api_error_message, checkout_form, checkout_price, checkout_session_reply, confirm_payment_intent,
    create_checkout_session, create_payment_intent, create_refund, fulfillment_outcome, get_checkout_session_details,
    list_checkout_sessions_admin, lookup, process_stripe_webhook, session_details_reply, stripe_reply, CheckoutPrice,
    CreateCheckoutSessionRequest, FulfillmentReply, ListSessionsAdminQuery, StripeCheckoutSessionApiResponse,
    StripeCheckoutSessionData, StripeCheckoutSessionObject, StripeError, WebhookAction,
};
use connectify::stripe_signature::{constant_time_eq, verify_stripe_signature};
use hmac::Mac;

fn sign(secret: &str, ts: &str, body: &str) -> String {
    let mut mac = hmac::Hmac::<sha2::Sha256>::new_from_slice(secret.as_bytes()).unwrap();
    mac.update(format!("{}.{}", ts, body).as_bytes());
    hex::encode(mac.finalize().into_bytes())
}

fn signature_message(r: Result<(), StripeError>) -> String {
    match r {
        Err(StripeError::WebhookSignatureError(m)) => m,
        other => panic!("unexpected {:?}", other),
    }
}

#[test]
fn valid_signature_is_accepted() {
    let body = "{\"id\":\"evt_1\"}";
    let sig = sign("whsec_test", "1700000000", body);
    let header = format!("t=1700000000,v1={}", sig);
    assert!(verify_stripe_signature(body.as_bytes(), Some(&header), "whsec_test").is_ok());
}

#[test]
fn second_v1_signature_and_spaces_are_accepted() {
    let body = "payload";
    let sig = sign("k", "42", body);
    let header = format!("t=42, v0=abc, v1=deadbeef , v1={}", sig);
    assert!(verify_stripe_signature(body.as_bytes(), Some(&header), "k").is_ok());
}

#[test]
fn wrong_secret_is_a_mismatch() {
    let body = "payload";
    let sig = sign("k", "42", body);
    let header = format!("t=42,v1={}", sig);
    assert_eq!(signature_message(verify_stripe_signature(body.as_bytes(), Some(&header), "other")), "Signature mismatch");
}

#[test]
fn signature_header_errors() {
    assert_eq!(signature_message(verify_stripe_signature(b"x", None, "k")), "Missing Stripe-Signature header");
    assert_eq!(
        signature_message(verify_stripe_signature(b"x", Some("v1=ab"), "k")),
        "Missing timestamp 't' in Stripe-Signature"
    );
    assert_eq!(
        signature_message(verify_stripe_signature(b"x", Some("t=12a,v1=ab"), "k")),
        "Invalid timestamp format in Stripe-Signature"
    );
    assert_eq!(
        signature_message(verify_stripe_signature(b"x", Some("t=99999999999999999999,v1=ab"), "k")),
        "Invalid timestamp format in Stripe-Signature"
    );
    assert_eq!(
        signature_message(verify_stripe_signature(b"x", Some("t=12,v0=ab"), "k")),
        "Missing v1 signature in Stripe-Signature"
    );
}

#[test]
fn constant_time_eq_compares_bytes() {
    assert!(constant_time_eq(b"abc", b"abc"));
    assert!(!constant_time_eq(b"abc", b"abd"));
    assert!(!constant_time_eq(b"abc", b"ab"));
    assert!(constant_time_eq(b"", b""));
}

#[test]
fn stripe_error_status_codes() {
    assert_eq!(StripeError::RequestError("x".into()).status_code(), 500);
    assert_eq!(StripeError::ApiError { status_code: 418, message: "t".into() }.status_code(), 418);
    assert_eq!(StripeError::ParseError("x".into()).status_code(), 400);
    assert_eq!(StripeError::ConfigError.status_code(), 500);
    assert_eq!(StripeError::WebhookSignatureError("x".into()).status_code(), 401);
    assert_eq!(StripeError::WebhookProcessingError("x".into()).status_code(), 500);
    assert_eq!(StripeError::FulfillmentError("x".into()).status_code(), 502);
    assert_eq!(StripeError::MissingFulfillmentData.status_code(), 400);
    assert_eq!(StripeError::SessionNotFoundOrNotPaid.status_code(), 404);
    assert_eq!(StripeError::InvalidFulfillmentDataForPricing("x".into()).status_code(), 400);
    assert_eq!(StripeError::NoMatchingPriceTier(5).status_code(), 400);
    assert_eq!(StripeError::InternalError("x".into()).status_code(), 500);
}

#[test]
fn stripe_errors_become_service_errors() {
    match (StripeError::ApiError { status_code: 402, message: "card declined".into() }).into_connectify() {
        ConnectifyError::ExternalServiceError { service, message } => {
            assert_eq!(service, "Stripe API");
            assert_eq!(message, "Status: 402, Message: card declined");
        },
        other => panic!("{:?}", other),
    }
    match StripeError::NoMatchingPriceTier(45).into_connectify() {
        ConnectifyError::ValidationError(m) => assert_eq!(m, "No matching price tier found for duration: 45 minutes"),
        other => panic!("{:?}", other),
    }
    match StripeError::WebhookSignatureError("Signature mismatch".into()).into_connectify() {
        ConnectifyError::AuthError(m) => assert_eq!(m, "Stripe webhook signature error: Signature mismatch"),
        other => panic!("{:?}", other),
    }
    match StripeError::ConfigError.into_connectify() {
        ConnectifyError::ConfigError(m) => assert_eq!(m, "Stripe configuration missing or incomplete"),
        other => panic!("{:?}", other),
    }
}

fn stripe_config(tiers: Vec<PriceTier>, default_currency: Option<&str>) -> StripeConfig {
    StripeConfig {
        success_url: "https://ex.com/ok".into(),
        cancel_url: "https://ex.com/no".into(),
        unit_amount: None,
        product_name: None,
        payment_success_url: "https://ex.com/paid".into(),
        price_tiers: tiers,
        default_currency: default_currency.map(|s| s.to_string()),
    }
}

fn tier(minutes: i64, amount: i64, currency: Option<&str>, name: Option<&str>) -> PriceTier {
    PriceTier {
        duration_minutes: minutes,
        unit_amount: amount,
        currency: currency.map(|s| s.to_string()),
        product_name: name.map(|s| s.to_string()),
    }
}

fn request(kind: &str, data: &str) -> CreateCheckoutSessionRequest {
    CreateCheckoutSessionRequest {
        product_name_override: None,
        amount_override: None,
        currency_override: None,
        fulfillment_type: kind.into(),
        fulfillment_data: data.into(),
        client_reference_id: None,
    }
}

fn pricing_message(r: Result<CheckoutPrice, StripeError>) -> String {
    match r {
        Err(StripeError::InvalidFulfillmentDataForPricing(m)) => m,
        other => panic!("unexpected {:?}", other),
    }
}

#[test]
fn checkout_price_uses_the_matching_tier() {
    let cfg = stripe_config(vec![tier(30, 5000, Some("USD"), Some("Short")), tier(60, 9000, Some("EUR"), Some("Long"))], None);
    let req = request("gcal_booking", r#"{"start_time":"2025-07-15T10:00:00Z","end_time":"2025-07-15T11:00:00Z"}"#);
    let p = checkout_price(&cfg, &req).unwrap();
    assert_eq!(p.unit_amount, 9000);
    assert_eq!(p.product_name, "Long");
    assert_eq!(p.currency, "eur");
}

#[test]
fn checkout_price_falls_back_to_summary_and_default_currency() {
    let cfg = stripe_config(vec![tier(45, 7000, None, None)], Some("CHF"));
    let req = request(
        "adhoc_gcal_twilio",
        r#"{"start_time":"2025-07-15T10:00:00+02:00","end_time":"2025-07-15T08:45:00Z","summary":"Call"}"#,
    );
    let p = checkout_price(&cfg, &req).unwrap();
    assert_eq!(p.product_name, "Call");
    assert_eq!(p.currency, "chf");
    let req = request("gcal_booking", r#"{"start_time":"2025-07-15T10:00:00Z","end_time":"2025-07-15T10:45:30Z"}"#);
    let p = checkout_price(&stripe_config(vec![tier(45, 7000, None, None)], None), &req).unwrap();
    assert_eq!(p.product_name, "Service - 45 min");
    assert_eq!(p.currency, "chf");
}

#[test]
fn checkout_price_errors() {
    let cfg = stripe_config(vec![tier(30, 5000, None, None)], None);
    assert_eq!(
        pricing_message(checkout_price(&cfg, &request("payment", "{}"))),
        "Unsupported fulfillment_type for dynamic pricing: payment"
    );
    assert_eq!(
        pricing_message(checkout_price(&cfg, &request("gcal_booking", r#"{"end_time":"2025-07-15T10:00:00Z"}"#))),
        "Missing start_time in fulfillment_data for GCal-based booking"
    );
    assert_eq!(
        pricing_message(checkout_price(&cfg, &request("gcal_booking", r#"{"start_time":"2025-07-15T10:00:00Z"}"#))),
        "Missing end_time in fulfillment_data for GCal-based booking"
    );
    assert!(pricing_message(checkout_price(
        &cfg,
        &request("gcal_booking", r#"{"start_time":"tomorrow","end_time":"2025-07-15T10:00:00Z"}"#)
    ))
    .starts_with("Invalid start_time format: "));
    assert_eq!(
        pricing_message(checkout_price(
            &cfg,
            &request("gcal_booking", r#"{"start_time":"2025-07-15T10:00:00Z","end_time":"2025-07-15T10:00:00Z"}"#)
        )),
        "End time must be after start time."
    );
    match checkout_price(
        &cfg,
        &request("gcal_booking", r#"{"start_time":"2025-07-15T10:00:00Z","end_time":"2025-07-15T11:30:00Z"}"#),
    ) {
        Err(StripeError::NoMatchingPriceTier(90)) => {},
        other => panic!("{:?}", other),
    }
}

#[test]
fn checkout_form_lists_the_line_item_and_metadata() {
    let cfg = stripe_config(vec![], None);
    let mut req = request("gcal_booking", "{\"a\":1}");
    req.client_reference_id = Some("order-7".into());
    let price = CheckoutPrice { unit_amount: 4200, product_name: "Talk".into(), currency: "chf".into() };
    let form = checkout_form(&cfg, &req, &price);
    let expected: Vec<(String, String)> = vec![
        ("payment_method_types[]", "card"),
        ("mode", "payment"),
        ("success_url", "https://ex.com/ok"),
        ("cancel_url", "https://ex.com/no"),
        ("line_items[0][price_data][currency]", "chf"),
        ("line_items[0][price_data][product_data][name]", "Talk"),
        ("line_items[0][price_data][unit_amount]", "4200"),
        ("line_items[0][quantity]", "1"),
        ("client_reference_id", "order-7"),
        ("metadata[ff_type]", "gcal_booking"),
        ("metadata[ff_data_json]", "{\"a\":1}"),
    ]
    .into_iter()
    .map(|(a, b)| (a.to_string(), b.to_string()))
    .collect();
    assert_eq!(form, expected);
}

#[test]
fn checkout_session_needs_the_secret_key() {
    let cfg = stripe_config(vec![tier(60, 1, None, None)], None);
    let req = request("gcal_booking", r#"{"start_time":"2025-07-15T10:00:00Z","end_time":"2025-07-15T11:00:00Z"}"#);
    assert!(matches!(create_checkout_session(&cfg, &req, None), Err(StripeError::ConfigError)));
    let call = create_checkout_session(&cfg, &req, Some("sk_test".into())).unwrap();
    assert_eq!(call.url, "https://api.stripe.com/v1/checkout/sessions");
    assert_eq!(call.secret_key, "sk_test");
    assert_eq!(call.params[6], ("line_items[0][price_data][unit_amount]".to_string(), "1".to_string()));
}

#[test]
fn replies_of_the_stripe_api() {
    assert_eq!(api_error_message(r#"{"error":{"message":"No such session"}}"#), "No such session");
    assert_eq!(api_error_message("gateway down"), "gateway down");
    let ok = checkout_session_reply(
        200,
        "",
        Ok(StripeCheckoutSessionApiResponse { id: "cs_1".into(), url: Some("https://pay".into()) }),
    )
    .unwrap();
    assert_eq!(ok.url, "https://pay");
    assert_eq!(ok.session_id, "cs_1");
    match checkout_session_reply(200, "", Ok(StripeCheckoutSessionApiResponse { id: "cs_1".into(), url: None })) {
        Err(StripeError::InternalError(m)) => assert_eq!(m, "Stripe response missing checkout URL"),
        other => panic!("{:?}", other),
    }
    match checkout_session_reply(400, r#"{"error":{"message":"bad"}}"#, Err("ignored".into())) {
        Err(StripeError::ApiError { status_code, message }) => {
            assert_eq!(status_code, 400);
            assert_eq!(message, "bad");
        },
        other => panic!("{:?}", other),
    }
    match stripe_reply::<u8>(201, "", Err("expected value".into())) {
        Err(StripeError::ParseError(m)) => assert_eq!(m, "expected value"),
        other => panic!("{:?}", other),
    }
}

#[test]
fn session_details_and_listing_requests() {
    assert!(matches!(get_checkout_session_details("cs_1", None), Err(StripeError::ConfigError)));
    let call = get_checkout_session_details("cs_1", Some("sk".into())).unwrap();
    assert_eq!(call.url, "https://api.stripe.com/v1/checkout/sessions/cs_1");
    let q = ListSessionsAdminQuery { limit: Some(10), starting_after: None, ending_before: Some("cs_9".into()) };
    let call = list_checkout_sessions_admin(q, Some("sk".into())).unwrap();
    assert_eq!(
        call.params,
        vec![("limit".to_string(), "10".to_string()), ("ending_before".to_string(), "cs_9".to_string())]
    );
}

fn app_config(secret: Option<&str>) -> AppConfig {
    AppConfig {
        use_gcal: false,
        use_stripe: true,
        use_twilio: false,
        use_payrexx: false,
        use_fulfillment: true,
        use_calendly: false,
        use_adhoc: false,
        server: ServerConfig { host: "127.0.0.1".into(), port: 8080 },
        database: None,
        gcal: None,
        stripe: None,
        twilio: None,
        payrexx: None,
        fulfillment: Some(FulfillmentConfig { shared_secret: secret.map(|s| s.to_string()) }),
    }
}

fn session(paid: bool, metadata: Option<Vec<(&str, &str)>>) -> StripeCheckoutSessionObject {
    StripeCheckoutSessionObject {
        id: "cs_1".into(),
        object: "checkout.session".into(),
        amount_total: Some(100),
        currency: Some("chf".into()),
        customer: None,
        customer_details: None,
        metadata: metadata.map(|m| m.into_iter().map(|(a, b)| (a.to_string(), b.to_string())).collect()),
        payment_intent: None,
        payment_status: Some(if paid { "paid" } else { "unpaid" }.into()),
        status: Some("complete".into()),
        success_url: None,
        cancel_url: None,
        client_reference_id: None,
    }
}

#[test]
fn webhook_of_a_paid_booking_calls_fulfillment() {
    let s = session(true, Some(vec![("ff_type", "gcal_booking"), ("ff_data_json", "{ \"a\": 1, \"b\": 2 }")]));
    match process_stripe_webhook("checkout.session.completed", Ok(s), &app_config(Some("shh"))).unwrap() {
        WebhookAction::CallFulfillment { url, secret, body } => {
            assert_eq!(url, "http://127.0.0.1:8080/api/fulfill/gcal-booking");
            assert_eq!(secret, "shh");
            assert_eq!(body, "{\"a\":1,\"b\":2}");
        },
        other => panic!("{:?}", other),
    }
}

#[test]
fn webhook_decisions() {
    let cfg = app_config(Some("shh"));
    assert!(matches!(
        process_stripe_webhook("payment_intent.succeeded", Err("x".into()), &cfg),
        Ok(WebhookAction::Done)
    ));
    assert!(matches!(
        process_stripe_webhook("checkout.session.completed", Ok(session(false, None)), &cfg),
        Ok(WebhookAction::Done)
    ));
    assert!(matches!(
        process_stripe_webhook("checkout.session.completed", Ok(session(true, None)), &cfg),
        Err(StripeError::MissingFulfillmentData)
    ));
    let s = session(true, Some(vec![("ff_type", "pizza"), ("ff_data_json", "{}")]));
    match process_stripe_webhook("checkout.session.completed", Ok(s), &cfg) {
        Err(StripeError::WebhookProcessingError(m)) => assert_eq!(m, "Unknown fulfillment type: pizza"),
        other => panic!("{:?}", other),
    }
    let s = session(true, Some(vec![("ff_type", "gcal_booking"), ("ff_data_json", "{")]));
    match process_stripe_webhook("checkout.session.completed", Ok(s), &cfg) {
        Err(StripeError::WebhookProcessingError(m)) => assert!(m.starts_with("Failed to parse ff_data_json: ")),
        other => panic!("{:?}", other),
    }
    let s = session(true, Some(vec![("ff_type", "gcal_booking"), ("ff_data_json", "{}")]));
    assert!(matches!(
        process_stripe_webhook("checkout.session.completed", Ok(s), &app_config(None)),
        Err(StripeError::ConfigError)
    ));
    match process_stripe_webhook("checkout.session.completed", Err("missing field `id`".into()), &cfg) {
        Err(StripeError::WebhookProcessingError(m)) => {
            assert_eq!(m, "Failed to parse checkout session object: missing field `id`")
        },
        other => panic!("{:?}", other),
    }
}

#[test]
fn fulfillment_replies() {
    assert!(fulfillment_outcome(FulfillmentReply::Success).is_ok());
    match fulfillment_outcome(FulfillmentReply::Failed { status: "500 Internal Server Error".into(), body: "boom".into() }) {
        Err(StripeError::FulfillmentError(m)) => {
            assert_eq!(m, "Fulfillment service call failed: 500 Internal Server Error - boom")
        },
        other => panic!("{:?}", other),
    }
    match fulfillment_outcome(FulfillmentReply::Unreachable("refused".into())) {
        Err(StripeError::FulfillmentError(m)) => assert_eq!(m, "Error calling fulfillment service: refused"),
        other => panic!("{:?}", other),
    }
}

#[test]
fn metadata_lookup_finds_the_value() {
    let m = vec![("a".to_string(), "1".to_string()), ("b".to_string(), "2".to_string())];
    assert_eq!(lookup(&m, "b"), Some("2".to_string()));
    assert_eq!(lookup(&m, "c"), None);
}

#[test]
fn payment_service_answers() {
    let mut cfg = app_config(None);
    assert!(matches!(create_payment_intent(&cfg, 100, "CHF", None, None, Some("sk".into())), Err(StripeError::ConfigError)));
    cfg.stripe = Some(stripe_config(vec![], None));
    match create_payment_intent(&cfg, 100, "CHF", None, None, Some("sk".into())) {
        Err(StripeError::InvalidFulfillmentDataForPricing(m)) => {
            assert_eq!(m, "Unsupported fulfillment_type for dynamic pricing: payment")
        },
        other => panic!("{:?}", other),
    }
    match confirm_payment_intent("pi_1") {
        StripeError::ApiError { status_code, message } => {
            assert_eq!(status_code, 501);
            assert_eq!(message, "Not implemented: confirm_payment_intent for pi_1");
        },
        other => panic!("{:?}", other),
    }
    match create_refund("pi_1", Some(5), Some("dup")) {
        StripeError::ApiError { message, .. } => {
            assert_eq!(message, "Not implemented: create_refund for pi_1 with amount Some(5) and reason Some(\"dup\")")
        },
        other => panic!("{:?}", other),
    }
}

#[test]
fn invalid_utf8_body_is_signed_as_read_lossily() {
    let body: &[u8] = &[0xff, b'a'];
    let sig = sign("k", "7", "\u{FFFD}a");
    let header = format!("t=7,v1={}", sig);
    assert!(verify_stripe_signature(body, Some(&header), "k").is_ok());
    let raw = {
        let mut mac = hmac::Hmac::<sha2::Sha256>::new_from_slice(b"k").unwrap();
        mac.update(b"7.\xffa");
        hex::encode(mac.finalize().into_bytes())
    };
    let header = format!("t=7,v1={}", raw);
    assert!(verify_stripe_signature(body, Some(&header), "k").is_err());
}

#[test]
fn the_first_tier_of_a_length_wins() {
    let tiers = vec![tier(30, 1, None, Some("a")), tier(60, 2, None, Some("b")), tier(60, 3, None, Some("c"))];
    assert_eq!(connectify::config::find_price_tier(&tiers, 60), Some(1));
    assert_eq!(connectify::config::find_price_tier(&tiers, 45), None);
    let cfg = stripe_config(tiers, None);
    let req = request("gcal_booking", r#"{"start_time":"2025-07-15T10:00:00Z","end_time":"2025-07-15T11:00:00Z"}"#);
    assert_eq!(checkout_price(&cfg, &req).unwrap().unit_amount, 2);
}

#[test]
fn decimal_text_of_integers() {
    assert_eq!(connectify::text::int_to_string(0), "0");
    assert_eq!(connectify::text::int_to_string(-42), "-42");
    assert_eq!(connectify::text::int_to_string(1234567890123), "1234567890123");
    assert!(connectify::text::contains_text("HTTP 404 Not Found", "404"));
    assert!(!connectify::text::contains_text("40", "404"));
}

#[test]
fn payment_intent_result_reports_the_session() {
    let r = connectify::stripe::payment_intent_result("cs_9".to_string(), 500, "CHF");
    assert_eq!(r.id, "cs_9");
    assert_eq!(r.status, "created");
    assert_eq!(r.amount, 500);
    assert_eq!(r.currency, "CHF");
    assert!(r.client_secret.is_none());
}

fn session_data(payment_status: Option<&str>, status: Option<&str>) -> StripeCheckoutSessionData {
    StripeCheckoutSessionData {
        id: "cs_7".into(),
        object: "checkout.session".into(),
        amount_total: Some(5000),
        currency: Some("chf".into()),
        customer: None,
        customer_details: None,
        metadata: None,
        payment_intent: None,
        payment_status: payment_status.map(|s| s.to_string()),
        status: status.map(|s| s.to_string()),
        success_url: None,
        cancel_url: None,
        client_reference_id: None,
        created: None,
        expires_at: None,
    }
}

#[test]
fn session_details_need_a_settled_payment() {
    let paid = session_details_reply(200, "", Ok(session_data(Some("paid"), Some("open")))).unwrap();
    assert_eq!(paid.id, "cs_7");
    assert!(session_details_reply(200, "", Ok(session_data(Some("unpaid"), Some("complete")))).is_ok());
    let unpaid = session_details_reply(200, "", Ok(session_data(Some("unpaid"), Some("open"))));
    assert!(matches!(unpaid, Err(StripeError::SessionNotFoundOrNotPaid)));
    assert_eq!(unpaid.unwrap_err().status_code(), 404);
    assert!(matches!(session_details_reply(200, "", Ok(session_data(None, None))), Err(StripeError::SessionNotFoundOrNotPaid)));
    match session_details_reply(404, r#"{"error":{"message":"No such checkout.session"}}"#, Err("x".into())) {
        Err(StripeError::ApiError { status_code, message }) => {
            assert_eq!(status_code, 404);
            assert_eq!(message, "No such checkout.session");
        },
        other => panic!("{:?}", other),
    }
}

#[test]
fn one_matching_v1_among_several_is_enough() {
    let body = "{\"id\":\"evt_2\"}";
    let sig = sign("whsec_x", "1700000001", body);
    let wrong = "0123456789abcdef";
    let header = format!("t=1700000001,v1={},v1={}", wrong, sig);
    assert!(verify_stripe_signature(body.as_bytes(), Some(&header), "whsec_x").is_ok());
    let lone = format!("t=1700000001,v1={}", wrong);
    assert_eq!(signature_message(verify_stripe_signature(body.as_bytes(), Some(&lone), "whsec_x")), "Signature mismatch");
}
