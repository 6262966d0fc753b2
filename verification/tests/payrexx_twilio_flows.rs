use base64::Engine;
use connectify::config::{AppConfig, PayrexxConfig, ServerConfig, TwilioConfig};
use connectify::payrexx::{
    gateway_error_response, gateway_handler_config, gateway_reply, gateway_request_at, gateway_request_with_clock,
    generate_payrexx_signature,
    process_webhook, verify_payrexx_signature, webhook_failure_answer, webhook_precheck, CreateGatewayRequest,
    PayrexxApiResponse, PayrexxError, PayrexxWebhookPayload, PayrexxWebhookTransaction, PaymentNews,
};
use connectify::twilio::{
    generate_token, notification_sms, send_email, send_sms, sms_outcome, token_at, token_claims_at, token_expiry, SmsReply,
    SmsRequest, TokenRequestQuery, TwilioError,
};
use hmac::Mac;

fn payrexx_config() -> PayrexxConfig {
    PayrexxConfig {
        instance_name: "demo".into(),
        unit_amount: None,
        currency: None,
        product_name: Some("Consultation".into()),
        success_url: "https://ex.com/s".into(),
        failed_url: "https://ex.com/f".into(),
        cancel_url: "https://ex.com/c".into(),
    }
}

fn app(payrexx: bool, twilio: bool) -> AppConfig {
    AppConfig {
        use_gcal: false,
        use_stripe: false,
        use_twilio: twilio,
        use_payrexx: payrexx,
        use_fulfillment: false,
        use_calendly: false,
        use_adhoc: false,
        server: ServerConfig { host: "localhost".into(), port: 3000 },
        database: None,
        gcal: None,
        stripe: None,
        twilio: Some(TwilioConfig {
            account_sid: "AC1".into(),
            auth_token: "tok".into(),
            phone_number: "+4100".into(),
            api_key_sid: "SK1".into(),
            api_key_secret: "sec".into(),
        }),
        payrexx: Some(payrexx_config()),
        fulfillment: None,
    }
}

fn reference_signature(query: &str, secret: &str) -> String {
    let mut mac = hmac::Hmac::<sha2::Sha256>::new_from_slice(secret.as_bytes()).unwrap();
    mac.update(query.as_bytes());
    base64::engine::general_purpose::STANDARD.encode(mac.finalize().into_bytes())
}

#[test]
fn payrexx_signature_is_base64_of_the_hmac() {
    let s = generate_payrexx_signature("amount=1000&currency=CHF", "secret");
    assert_eq!(s, reference_signature("amount=1000&currency=CHF", "secret"));
    assert_eq!(s.len(), 44);
}

#[test]
fn gateway_body_is_signed_and_sorted() {
    let req = CreateGatewayRequest {
        amount_override: Some(2500),
        currency_override: None,
        purpose_override: None,
        user_email: Some("a b@x.ch".into()),
    };
    assert!(matches!(gateway_request_at(&payrexx_config(), &req, None, 7), Err(PayrexxError::ConfigError)));
    let call = gateway_request_at(&payrexx_config(), &req, Some("secret".into()), 1700000000123).unwrap();
    assert_eq!(call.url, "https://api.payrexx.com/v1.0/Gateway/?instance=demo");
    let query = "amount=2500&cancelRedirectUrl=https%3A%2F%2Fex.com%2Fc&currency=CHF&failedRedirectUrl=https%3A%2F%2Fex.com%2Ff&fields%5Bemail%5D%5Bvalue%5D=a+b%40x.ch&purpose=Consultation&referenceId=connectify-connectify_payrexx-1700000000123&successRedirectUrl=https%3A%2F%2Fex.com%2Fs";
    let sig = reference_signature(query, "secret");
    let encoded_sig: String = url_form(&sig);
    assert_eq!(call.body, format!("ApiSignature={}&{}", encoded_sig, query));
}

fn url_form(s: &str) -> String {
    let mut out = String::new();
    for b in s.bytes() {
        match b {
            b'*' | b'-' | b'.' | b'_' | b'0'..=b'9' | b'A'..=b'Z' | b'a'..=b'z' => out.push(b as char),
            b' ' => out.push('+'),
            _ => out.push_str(&format!("%{:02X}", b)),
        }
    }
    out
}

#[test]
fn gateway_replies() {
    let ok = PayrexxApiResponse { status: "success".into(), links: vec!["https://pay/1".into()], message: None };
    assert_eq!(gateway_reply(200, "200 OK", "", Ok(ok)).unwrap().url, "https://pay/1");
    let empty = PayrexxApiResponse { status: "success".into(), links: vec![], message: None };
    match gateway_reply(200, "200 OK", "", Ok(empty)) {
        Err(PayrexxError::InternalError(m)) => assert_eq!(m, "Payrexx response missing gateway link"),
        other => panic!("{:?}", other),
    }
    let refused = PayrexxApiResponse { status: "error".into(), links: vec![], message: None };
    match gateway_reply(200, "200 OK", "", Ok(refused)) {
        Err(PayrexxError::ApiError { status, message }) => {
            assert_eq!(status, "error");
            assert_eq!(message, "Unknown Payrexx API error");
        },
        other => panic!("{:?}", other),
    }
    match gateway_reply(403, "403 Forbidden", "denied", Err("not json".into())) {
        Err(PayrexxError::ApiError { status, message }) => {
            assert_eq!(status, "403 Forbidden");
            assert_eq!(message, "denied");
        },
        other => panic!("{:?}", other),
    }
    match gateway_reply(200, "200 OK", "x", Err("expected value".into())) {
        Err(PayrexxError::ParseError(m)) => assert_eq!(m, "expected value"),
        other => panic!("{:?}", other),
    }
}

#[test]
fn payrexx_handler_answers() {
    let (code, msg) = gateway_error_response(PayrexxError::ApiError { status: "x".into(), message: "y".into() });
    assert_eq!((code, msg.as_str()), (500, "Payment provider error."));
    let (code, msg) = gateway_error_response(PayrexxError::InternalError("Payrexx response missing gateway link".into()));
    assert_eq!((code, msg.as_str()), (500, "Payrexx response missing gateway link"));
    assert!(matches!(gateway_handler_config(&app(false, false)), Err((503, _))));
    assert!(gateway_handler_config(&app(true, false)).is_ok());
    assert!(matches!(webhook_precheck(&app(true, false), None, b"{}", None), Err((500, None))));
    assert_eq!(webhook_failure_answer(&PayrexxError::WebhookProcessingError("x".into())).1, "Webhook processing failed");
    assert_eq!(webhook_failure_answer(&PayrexxError::ConfigError).1, "Internal server error");
}

#[test]
fn payrexx_webhook_signatures_are_checked() {
    let body = br#"{"transaction":{"id":1}}"#;
    let good = {
        let mut mac = hmac::Hmac::<sha2::Sha256>::new_from_slice(b"s").unwrap();
        mac.update(body);
        base64::engine::general_purpose::STANDARD.encode(mac.finalize().into_bytes())
    };
    assert!(verify_payrexx_signature("s", body, Some(&good)).is_ok());
    assert!(matches!(verify_payrexx_signature("s", body, Some("bogus")), Err(PayrexxError::WebhookSignatureError)));
    assert!(matches!(verify_payrexx_signature("s", body, None), Err(PayrexxError::WebhookSignatureError)));
    assert!(matches!(verify_payrexx_signature("t", body, Some(&good)), Err(PayrexxError::WebhookSignatureError)));
    assert!(webhook_precheck(&app(true, false), Some("s".into()), body, Some(&good)).is_ok());
    match webhook_precheck(&app(true, false), Some("s".into()), body, None) {
        Err((400, Some(m))) => assert_eq!(m, "Invalid signature"),
        other => panic!("{:?}", other),
    }
    assert!(matches!(webhook_precheck(&app(true, false), Some("s".into()), b"{}", Some(&good)), Err((400, _))));
}

#[test]
fn gateway_requests_read_the_clock_as_chrono_does() {
    let req = CreateGatewayRequest { amount_override: None, currency_override: None, purpose_override: None, user_email: None };
    assert!(gateway_request_with_clock(&payrexx_config(), &req, Some("k".into()), None).is_none());
    assert!(gateway_request_with_clock(&payrexx_config(), &req, None, Some((u64::MAX / 2, 0))).is_none());
    assert!(matches!(
        gateway_request_with_clock(&payrexx_config(), &req, None, Some((1_700_000_000, 5))),
        Some(Err(PayrexxError::ConfigError))
    ));
    let call = gateway_request_with_clock(&payrexx_config(), &req, Some("k".into()), Some((1_700_000_000, 123_456_789)))
        .unwrap()
        .unwrap();
    assert!(call.body.contains("referenceId=connectify-connectify_payrexx-1700000000123&"));
}

#[test]
fn payrexx_webhook_news() {
    let payload = |status: Option<&str>| PayrexxWebhookPayload {
        transaction: Some(PayrexxWebhookTransaction {
            id: Some(1),
            status: status.map(|s| s.to_string()),
            reference_id: None,
            amount: None,
            contact: None,
            instance: None,
        }),
        event_type: Some("transaction".into()),
    };
    assert!(matches!(process_webhook(&payload(Some("confirmed"))), Ok(PaymentNews::Confirmed)));
    assert!(matches!(process_webhook(&payload(Some("waiting"))), Ok(PaymentNews::Waiting)));
    assert!(matches!(process_webhook(&payload(Some("refunded"))), Ok(PaymentNews::OtherStatus(s)) if s == "refunded"));
    assert!(matches!(process_webhook(&payload(None)), Ok(PaymentNews::NoStatus)));
    let none = PayrexxWebhookPayload { transaction: None, event_type: None };
    assert!(matches!(process_webhook(&none), Ok(PaymentNews::NoTransaction)));
}

#[test]
fn sms_requests_and_replies() {
    let req = SmsRequest { to: "+41791234567".into(), message: "Hi".into() };
    assert!(matches!(send_sms(&app(false, false), &req), Err((503, _))));
    let call = send_sms(&app(false, true), &req).unwrap();
    assert_eq!(call.url, "https://api.twilio.com/2010-04-01/Accounts/AC1/Messages.json");
    assert_eq!(call.params[1], ("From".to_string(), "+4100".to_string()));
    assert_eq!(sms_outcome(SmsReply::Answered { status: 201, status_text: "201 Created".into(), body: "".into() })
        .unwrap()
        .message, "SMS sent successfully");
    match sms_outcome(SmsReply::Answered { status: 400, status_text: "400 Bad Request".into(), body: "nope".into() }) {
        Err((500, m)) => assert_eq!(m, "Twilio error 400 Bad Request: nope"),
        other => panic!("{:?}", other),
    }
    match sms_outcome(SmsReply::Unreachable("dns".into())) {
        Err((500, m)) => assert_eq!(m, "HTTP error sending SMS: dns"),
        other => panic!("{:?}", other),
    }
}

fn decoded(token: &str, secret: &[u8]) -> serde_json::Value {
    let mut validation = jsonwebtoken::Validation::new(jsonwebtoken::Algorithm::HS256);
    validation.validate_exp = false;
    validation.required_spec_claims.clear();
    jsonwebtoken::decode::<serde_json::Value>(token, &jsonwebtoken::DecodingKey::from_secret(secret), &validation)
        .unwrap()
        .claims
}

#[test]
fn token_claims() {
    let cfg = app(false, true);
    let q = TokenRequestQuery { identity: "alice".into(), room_name: "room1".into() };
    assert_eq!(token_expiry(&None), 3600);
    assert_eq!(token_expiry(&Some("60".into())), 60);
    assert_eq!(token_expiry(&Some("soon".into())), 3600);
    let c = token_claims_at(cfg.twilio.as_ref().unwrap(), &q, &Some("120".into()), 1000, 2000);
    assert_eq!(c.exp, 2120);
    assert_eq!(c.jti, "SK1-1000");
    assert_eq!(c.sub, "AC1");
    assert_eq!(c.room, Some("room1".to_string()));
    assert!(matches!(generate_token(&app(false, false), &q, &None), Some(Err((503, _)))));
    let mut no_twilio = app(false, true);
    no_twilio.twilio = None;
    assert!(matches!(generate_token(&no_twilio, &q, &None), Some(Err((500, _)))));
    let token = generate_token(&cfg, &q, &None).unwrap().unwrap().token;
    let claims = decoded(&token, b"sec");
    assert!(claims["jti"].as_str().unwrap().starts_with("SK1-"));
    assert_eq!(claims["grants"]["identity"], "alice");
}

#[test]
fn video_tokens_are_signed_jwts() {
    let cfg = app(false, true);
    let q = TokenRequestQuery { identity: "bob".into(), room_name: "consult".into() };
    let token = token_at(&cfg, &q, &Some("120".into()), 1_700_000_000, 1_700_000_001).unwrap().unwrap().token;
    assert_eq!(token.split('.').count(), 3);
    let header = jsonwebtoken::decode_header(&token).unwrap();
    assert_eq!(header.alg, jsonwebtoken::Algorithm::HS256);
    assert_eq!(header.typ.as_deref(), Some("JWT"));
    assert_eq!(header.cty.as_deref(), Some("twilio-fpa;v=1"));
    let claims = decoded(&token, b"sec");
    assert_eq!(claims["sub"], "AC1");
    assert_eq!(claims["iss"], "SK1");
    assert_eq!(claims["exp"], 1_700_000_121u64);
    assert_eq!(claims["jti"], "SK1-1700000000");
    assert_eq!(claims["grants"]["identity"], "bob");
    assert_eq!(claims["grants"]["video"]["room"], "consult");
    let mut validation = jsonwebtoken::Validation::new(jsonwebtoken::Algorithm::HS256);
    validation.validate_exp = false;
    let wrong = jsonwebtoken::decode::<serde_json::Value>(&token, &jsonwebtoken::DecodingKey::from_secret(b"other"), &validation);
    assert!(wrong.is_err());
    assert!(token_at(&cfg, &q, &Some("9223372036854775807".into()), 1, 1).is_none());
    assert!(token_at(&cfg, &q, &None, 1, 8_210_266_876_000).is_none());
}

#[test]
fn notification_service_answers() {
    match send_email("a@b.c", "Hello") {
        TwilioError::ApiError { status_code, message } => {
            assert_eq!(status_code, 501);
            assert_eq!(message, "Not implemented: send_email to a@b.c with subject Hello");
        },
        other => panic!("{:?}", other),
    }
    match notification_sms("+41", "yo") {
        TwilioError::ApiError { message, .. } => assert_eq!(message, "Not implemented: send_sms to +41 with body yo"),
        other => panic!("{:?}", other),
    }
}
