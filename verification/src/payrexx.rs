//! Payrexx: signing and building gateway requests, reading the API's replies, and the
//! answers of the Payrexx handlers.
use vstd::prelude::*;
use vstd::utf8::encode_utf8;
use crate::codec::{base64_encode, base64_standard, form_text, form_urlencode, hmac_sha256, hmac_sha256_tag};
use crate::config::{AppConfig, PayrexxConfig};
use crate::stripe::{pairs_view, push_pair, success_status};
use crate::text::{concat, int_text, int_to_string, owned};
use crate::time::{clock_millis, clock_now, millis_of_clock};

verus! {

#[derive(Debug)]
pub enum PayrexxError {
    /// The request could not be sent or its reply not read (the message of the error).
    RequestError(String),
    ApiError { status: String, message: String },
    /// A reply could not be parsed (the message of the parse error).
    ParseError(String),
    ConfigError,
    WebhookSignatureError,
    WebhookProcessingError(String),
    EncodingError(String),
    InternalError(String),
}

/// A request to create a payment gateway.
#[derive(Debug)]
pub struct CreateGatewayRequest {
    pub amount_override: Option<i64>,
    pub currency_override: Option<String>,
    pub purpose_override: Option<String>,
    pub user_email: Option<String>,
}

#[derive(Debug)]
pub struct CreateGatewayResponse {
    pub url: String,
}

/// What the Payrexx API answers: its status, the links of the gateways it returns, and
/// its message.
#[derive(Debug)]
pub struct PayrexxApiResponse {
    pub status: String,
    pub links: Vec<String>,
    pub message: Option<String>,
}

/// A request to send to the Payrexx API: where, and the form encoded body.
#[derive(Debug)]
pub struct PayrexxCall {
    pub url: String,
    pub body: String,
}

/// The API signature of a query: Base64 of its HMAC-SHA256 under the API secret.
pub open spec fn payrexx_signature_spec(query: Seq<char>, secret: Seq<char>) -> Seq<char> {
    base64_standard(hmac_sha256_tag(encode_utf8(secret), encode_utf8(query)))
}

pub fn generate_payrexx_signature(query_string: &str, api_secret: &str) -> (s: String)
    ensures
        s@ == payrexx_signature_spec(query_string@, api_secret@),
{
    let tag = hmac_sha256(api_secret.as_bytes(), query_string.as_bytes());
    base64_encode(tag.as_slice())
}

pub open spec fn or_else(o: Option<String>, d: Seq<char>) -> Seq<char> {
    match o {
        Some(s) => s@,
        None => d,
    }
}

/// The reference of a gateway created at `millis` milliseconds since the epoch.
pub open spec fn reference_spec(millis: int) -> Seq<char> {
    "connectify-connectify_payrexx-"@ + int_text(millis)
}

/// The gateway's parameters, ordered by name as a `BTreeMap` of strings orders them.
pub open spec fn gateway_params_spec(config: PayrexxConfig, req: CreateGatewayRequest, millis: int) -> Seq<(Seq<char>, Seq<char>)> {
    let amount = match req.amount_override {
        Some(a) => a as int,
        None => match config.unit_amount {
            Some(a) => a as int,
            None => 1000,
        },
    };
    let head = seq![
        ("amount"@, int_text(amount)),
        ("cancelRedirectUrl"@, config.cancel_url@),
        ("currency"@, or_else(req.currency_override, or_else(config.currency, "CHF"@))),
        ("failedRedirectUrl"@, config.failed_url@),
    ];
    let with_email = match req.user_email {
        Some(e) => head.push(("fields[email][value]"@, e@)),
        None => head,
    };
    with_email + seq![
        ("purpose"@, or_else(req.purpose_override, or_else(config.product_name, "Payment"@))),
        ("referenceId"@, reference_spec(millis)),
        ("successRedirectUrl"@, config.success_url@),
    ]
}

fn text_or(o: &Option<String>, d: &str) -> (r: String)
    ensures
        r@ == or_else(*o, d@),
{
    match o {
        Some(s) => s.clone(),
        None => owned(d),
    }
}

fn gateway_params(config: &PayrexxConfig, req: &CreateGatewayRequest, millis: i64) -> (v: Vec<(String, String)>)
    ensures
        pairs_view(v@) == gateway_params_spec(*config, *req, millis as int),
{
    let amount: i64 = match req.amount_override {
        Some(a) => a,
        None => match config.unit_amount {
            Some(a) => a,
            None => 1000,
        },
    };
    let mut v: Vec<(String, String)> = Vec::new();
    push_pair(&mut v, "amount", int_to_string(amount as i128));
    push_pair(&mut v, "cancelRedirectUrl", config.cancel_url.clone());
    let fallback_currency = text_or(&config.currency, "CHF");
    push_pair(&mut v, "currency", text_or(&req.currency_override, fallback_currency.as_str()));
    push_pair(&mut v, "failedRedirectUrl", config.failed_url.clone());
    match &req.user_email {
        Some(e) => push_pair(&mut v, "fields[email][value]", e.clone()),
        None => {},
    }
    let fallback_purpose = text_or(&config.product_name, "Payment");
    push_pair(&mut v, "purpose", text_or(&req.purpose_override, fallback_purpose.as_str()));
    let stamp = int_to_string(millis as i128);
    push_pair(&mut v, "referenceId", concat("connectify-connectify_payrexx-", stamp.as_str()));
    push_pair(&mut v, "successRedirectUrl", config.success_url.clone());
    v
}

pub open spec fn gateway_url_spec(config: PayrexxConfig) -> Seq<char> {
    "https://api.payrexx.com/v1.0/Gateway/?instance="@ + config.instance_name@
}

/// The body of a gateway request: the signature first, then the parameters, form encoded.
pub open spec fn gateway_body_spec(config: PayrexxConfig, req: CreateGatewayRequest, millis: int, secret: Seq<char>) -> Seq<char> {
    let params = gateway_params_spec(config, req, millis);
    let query = form_text_of(params);
    form_text_of(seq![("ApiSignature"@, payrexx_signature_spec(query, secret))] + params)
}

/// Form encoding of name-value texts.
pub open spec fn form_text_of(p: Seq<(Seq<char>, Seq<char>)>) -> Seq<char> {
    form_text_views(p)
}

pub open spec fn form_text_views(p: Seq<(Seq<char>, Seq<char>)>) -> Seq<char>
    decreases p.len(),
{
    if p.len() == 0 {
        seq![]
    } else if p.len() == 1 {
        crate::codec::form_bytes(encode_utf8(p[0].0)) + seq!['='] + crate::codec::form_bytes(encode_utf8(p[0].1))
    } else {
        form_text_views(p.drop_last()) + seq!['&'] + crate::codec::form_bytes(encode_utf8(p.last().0))
            + seq!['='] + crate::codec::form_bytes(encode_utf8(p.last().1))
    }
}

proof fn lemma_form_text_views(v: Seq<(String, String)>)
    ensures
        form_text(v) == form_text_views(pairs_view(v)),
    decreases v.len(),
{
    if v.len() > 1 {
        lemma_form_text_views(v.drop_last());
        assert(pairs_view(v.drop_last()) =~= pairs_view(v).drop_last());
    }
}

fn encode_pairs(v: &Vec<(String, String)>) -> (s: String)
    ensures
        s@ == form_text_of(pairs_view(v@)),
{
    proof {
        lemma_form_text_views(v@);
    }
    form_urlencode(v)
}

/// The gateway request at a given time: the parameters, their signature under the API
/// secret, and the instance's URL. Without the secret the result is `ConfigError`.
pub fn gateway_request_at(
    config: &PayrexxConfig,
    request_data: &CreateGatewayRequest,
    api_secret: Option<String>,
    millis: i64,
) -> (r: Result<PayrexxCall, PayrexxError>)
    ensures
        api_secret is None ==> r matches Err(PayrexxError::ConfigError),
        api_secret matches Some(k) ==> (r matches Ok(call) && call.url@ == gateway_url_spec(*config)
            && call.body@ == gateway_body_spec(*config, *request_data, millis as int, k@)),
{
    let params = gateway_params(config, request_data, millis);
    let query = encode_pairs(&params);
    let secret = match api_secret {
        None => {
            return Err(PayrexxError::ConfigError);
        },
        Some(k) => k,
    };
    let signature = generate_payrexx_signature(query.as_str(), secret.as_str());
    let mut signed: Vec<(String, String)> = Vec::new();
    assert(pairs_view(signed@) =~= seq![]);
    push_pair(&mut signed, "ApiSignature", signature);
    let mut i: usize = 0;
    while i < params.len()
        invariant
            0 <= i <= params@.len(),
            pairs_view(signed@) == seq![("ApiSignature"@, payrexx_signature_spec(query@, secret@))]
                + pairs_view(params@).take(i as int),
        decreases params@.len() - i,
    {
        let n = params[i].0.clone();
        let x = params[i].1.clone();
        let ghost before = pairs_view(signed@);
        signed.push((n, x));
        assert(pairs_view(signed@) =~= before.push((params@[i as int].0@, params@[i as int].1@)));
        assert(pairs_view(params@).take(i + 1) =~= pairs_view(params@).take(i as int).push(
            (params@[i as int].0@, params@[i as int].1@),
        ));
        i += 1;
    }
    assert(pairs_view(params@).take(params@.len() as int) =~= pairs_view(params@));
    let body = encode_pairs(&signed);
    Ok(PayrexxCall { url: concat("https://api.payrexx.com/v1.0/Gateway/?instance=", config.instance_name.as_str()), body })
}

/// The gateway request for a reading of the system clock (seconds and nanoseconds since
/// the epoch, `None` where it reads before the epoch), stamped with the milliseconds that
/// `chrono::Utc::now()` makes of it. `None` where `Utc::now` would fail on the reading;
/// the clock is read before the secret is looked at.
pub fn gateway_request_with_clock(
    config: &PayrexxConfig,
    request_data: &CreateGatewayRequest,
    api_secret: Option<String>,
    clock: Option<(u64, u32)>,
) -> (r: Option<Result<PayrexxCall, PayrexxError>>)
    ensures
        r is None <==> clock_millis(clock) is None,
        clock_millis(clock) matches Some(millis) ==> (r matches Some(x) && (api_secret is None ==> x matches Err(
            PayrexxError::ConfigError,
        )) && (api_secret matches Some(k) ==> (x matches Ok(call) && call.url@ == gateway_url_spec(*config)
            && call.body@ == gateway_body_spec(*config, *request_data, millis, k@)))),
{
    match millis_of_clock(clock) {
        None => None,
        Some(millis) => Some(gateway_request_at(config, request_data, api_secret, millis)),
    }
}

/// Prepares a gateway request, stamped with the current time. `None` where the system
/// clock cannot be read as a `chrono` time (before the epoch, or past `DateTime`'s range).
pub fn create_gateway_request(
    config: &PayrexxConfig,
    request_data: &CreateGatewayRequest,
    api_secret: Option<String>,
) -> (r: Option<Result<PayrexxCall, PayrexxError>>)
    ensures
        r matches Some(x) ==> (api_secret is None ==> x matches Err(PayrexxError::ConfigError)),
        r matches Some(x) ==> (api_secret matches Some(k) ==> (x matches Ok(call) && call.url@ == gateway_url_spec(
            *config,
        ) && exists|millis: i64| call.body@ == #[trigger] gateway_body_spec(*config, *request_data, millis as int, k@))),
{
    let clock = clock_now();
    let r = gateway_request_with_clock(config, request_data, api_secret, clock);
    proof {
        if let Some(m) = clock_millis(clock) {
            let mi: i64 = m as i64;
            assert(gateway_body_spec(*config, *request_data, mi as int, api_secret->0@) == gateway_body_spec(
                *config,
                *request_data,
                m,
                api_secret->0@,
            ));
        }
    }
    r
}

/// The result of a gateway request from the API's reply. `parsed` is the reply's body
/// read as a `PayrexxApiResponse`, or the parse error's message; `status_text` is the
/// HTTP status as `StatusCode` displays it.
pub fn gateway_reply(
    status: u16,
    status_text: &str,
    body: &str,
    parsed: Result<PayrexxApiResponse, String>,
) -> (r: Result<CreateGatewayResponse, PayrexxError>)
    ensures
        success_status(status) ==> match parsed {
            Err(e) => r matches Err(PayrexxError::ParseError(x)) && x@ == e@,
            Ok(p) => if p.status@ == "success"@ {
                if p.links@.len() > 0 {
                    r matches Ok(g) && g.url@ == p.links@[0]@
                } else {
                    r matches Err(PayrexxError::InternalError(m)) && m@ == "Payrexx response missing gateway link"@
                }
            } else {
                r matches Err(PayrexxError::ApiError { status: s, message }) && s@ == p.status@ && message@
                    == or_else(p.message, "Unknown Payrexx API error"@)
            },
        },
        !success_status(status) ==> (r matches Err(PayrexxError::ApiError { status: s, message }) && s@
            == status_text@ && message@ == match parsed {
            Ok(p) => or_else(p.message, body@),
            Err(_) => body@,
        }),
{
    if 200 <= status && status <= 299 {
        match parsed {
            Err(e) => Err(PayrexxError::ParseError(e)),
            Ok(p) => {
                if crate::text::same_text(p.status.as_str(), "success") {
                    if p.links.len() > 0 {
                        Ok(CreateGatewayResponse { url: p.links[0].clone() })
                    } else {
                        Err(PayrexxError::InternalError(owned("Payrexx response missing gateway link")))
                    }
                } else {
                    let message = text_or(&p.message, "Unknown Payrexx API error");
                    Err(PayrexxError::ApiError { status: p.status, message })
                }
            },
        }
    } else {
        let message = match parsed {
            Ok(p) => text_or(&p.message, body),
            Err(_) => owned(body),
        };
        Err(PayrexxError::ApiError { status: owned(status_text), message })
    }
}

/// The signature a webhook request carries in `Webhook-Signature`: Base64 of the
/// HMAC-SHA256 of the request's body under the API secret, as API requests are signed.
pub open spec fn webhook_signature_spec(body: Seq<u8>, secret: Seq<char>) -> Seq<char> {
    base64_standard(hmac_sha256_tag(encode_utf8(secret), body))
}

/// Checks the signature of a webhook request: it passes exactly when the header is
/// there and holds the body's signature under the API secret; otherwise the result is
/// `WebhookSignatureError`.
pub fn verify_payrexx_signature(
    api_secret: &str,
    request_body: &[u8],
    signature_header: Option<&str>,
) -> (r: Result<(), PayrexxError>)
    ensures
        r is Ok <==> (signature_header matches Some(h) && h@ == webhook_signature_spec(request_body@, api_secret@)),
        r is Err ==> r matches Err(PayrexxError::WebhookSignatureError),
{
    let header = match signature_header {
        None => {
            return Err(PayrexxError::WebhookSignatureError);
        },
        Some(h) => h,
    };
    let tag = hmac_sha256(api_secret.as_bytes(), request_body);
    let expected = base64_encode(tag.as_slice());
    if crate::text::same_text(header, expected.as_str()) {
        Ok(())
    } else {
        Err(PayrexxError::WebhookSignatureError)
    }
}


/// A handler's error answer: HTTP status and message.
pub type HttpAnswer = (u16, String);

/// The answer of the gateway handler to a failed gateway request.
pub open spec fn gateway_error_answer(e: PayrexxError) -> (u16, Seq<char>) {
    match e {
        PayrexxError::ConfigError => (500, "Server configuration error."@),
        PayrexxError::RequestError(_) => (500, "Failed to communicate with payment provider."@),
        PayrexxError::ParseError(_) => (500, "Failed to understand payment provider response."@),
        PayrexxError::ApiError { .. } => (500, "Payment provider error."@),
        PayrexxError::EncodingError(_) => (500, "Failed to prepare payment request."@),
        PayrexxError::InternalError(m) => (500, m@),
        PayrexxError::WebhookSignatureError => (500, "Unexpected server error."@),
        PayrexxError::WebhookProcessingError(_) => (500, "Unexpected server error."@),
    }
}

pub fn gateway_error_response(e: PayrexxError) -> (a: HttpAnswer)
    ensures
        a.0 == gateway_error_answer(e).0,
        a.1@ == gateway_error_answer(e).1,
{
    match e {
        PayrexxError::ConfigError => (500, owned("Server configuration error.")),
        PayrexxError::RequestError(_) => (500, owned("Failed to communicate with payment provider.")),
        PayrexxError::ParseError(_) => (500, owned("Failed to understand payment provider response.")),
        PayrexxError::ApiError { .. } => (500, owned("Payment provider error.")),
        PayrexxError::EncodingError(_) => (500, owned("Failed to prepare payment request.")),
        PayrexxError::InternalError(m) => (500, m),
        PayrexxError::WebhookSignatureError => (500, owned("Unexpected server error.")),
        PayrexxError::WebhookProcessingError(_) => (500, owned("Unexpected server error.")),
    }
}

/// The Payrexx configuration the gateway handler uses, or its answer when Payrexx is
/// disabled (503) or not configured (500).
pub fn gateway_handler_config(config: &AppConfig) -> (r: Result<&PayrexxConfig, HttpAnswer>)
    ensures
        !config.use_payrexx ==> (r matches Err(a) && a.0 == 503 && a.1@ == "Payrexx service is disabled."@),
        config.use_payrexx && config.payrexx is None ==> (r matches Err(a) && a.0 == 500 && a.1@
            == "Payrexx configuration error (details missing)."@),
        config.use_payrexx && config.payrexx is Some ==> (r matches Ok(c) && *c == config.payrexx->0),
{
    if !config.use_payrexx {
        return Err((503, owned("Payrexx service is disabled.")));
    }
    match &config.payrexx {
        Some(c) => Ok(c),
        None => Err((500, owned("Payrexx configuration error (details missing)."))),
    }
}

/// What the webhook handler answers: the status, and a message where it sends one.
pub open spec fn webhook_answer_ok(a: (u16, Option<String>), status: u16, message: Option<Seq<char>>) -> bool {
    a.0 == status && match message {
        Some(m) => a.1 matches Some(x) && x@ == m,
        None => a.1 is None,
    }
}

/// The webhook handler's checks before the payload is read: Payrexx enabled (else 503),
/// the API secret set (else 500), and the signature accepted (else 400).
pub fn webhook_precheck(
    config: &AppConfig,
    api_secret: Option<String>,
    body: &[u8],
    signature_header: Option<&str>,
) -> (r: Result<(), (u16, Option<String>)>)
    ensures
        !config.use_payrexx ==> (r matches Err(a) && webhook_answer_ok(a, 503, Some("Payrexx service disabled."@))),
        config.use_payrexx && api_secret is None ==> (r matches Err(a) && webhook_answer_ok(a, 500, None)),
        api_secret matches Some(k) ==> (config.use_payrexx ==> (r is Ok <==> (signature_header matches Some(h)
            && h@ == webhook_signature_spec(body@, k@)))),
        config.use_payrexx && api_secret is Some && r is Err ==> (r matches Err(a) && webhook_answer_ok(
            a,
            400,
            Some("Invalid signature"@),
        )),
{
    if !config.use_payrexx {
        return Err((503, Some(owned("Payrexx service disabled."))));
    }
    let secret = match api_secret {
        None => {
            return Err((500, None));
        },
        Some(s) => s,
    };
    match verify_payrexx_signature(secret.as_str(), body, signature_header) {
        Ok(()) => Ok(()),
        Err(PayrexxError::WebhookSignatureError) => Err((400, Some(owned("Invalid signature")))),
        Err(_) => Err((500, Some(owned("Error during signature check")))),
    }
}

/// The answer to a webhook whose payload could not be read.
pub fn invalid_payload_answer() -> (a: HttpAnswer)
    ensures
        a.0 == 400,
        a.1@ == "Invalid payload format"@,
{
    (400, owned("Invalid payload format"))
}

/// The answer to a webhook that processing failed on.
pub fn webhook_failure_answer(e: &PayrexxError) -> (a: HttpAnswer)
    ensures
        a.0 == 500,
        e is WebhookProcessingError ==> a.1@ == "Webhook processing failed"@,
        !(e is WebhookProcessingError) ==> a.1@ == "Internal server error"@,
{
    match e {
        PayrexxError::WebhookProcessingError(_) => (500, owned("Webhook processing failed")),
        _ => (500, owned("Internal server error")),
    }
}

#[derive(Debug)]
pub struct PayrexxWebhookContact {
    pub id: Option<i64>,
    pub zip: Option<String>,
    pub uuid: Option<String>,
    pub email: Option<String>,
    pub phone: Option<String>,
    pub place: Option<String>,
    pub title: Option<String>,
    pub street: Option<String>,
    pub company: Option<String>,
    pub country: Option<String>,
    pub country_iso: Option<String>,
    pub lastname: Option<String>,
    pub firstname: Option<String>,
    pub date_of_birth: Option<String>,
    pub delivery_zip: Option<String>,
    pub delivery_place: Option<String>,
    pub delivery_title: Option<String>,
    pub delivery_street: Option<String>,
    pub delivery_company: Option<String>,
    pub delivery_country: Option<String>,
    pub delivery_lastname: Option<String>,
    pub delivery_firstname: Option<String>,
    pub delivery_country_iso: Option<String>,
}

#[derive(Debug)]
pub struct PayrexxWebhookCustomField {
    pub name: Option<String>,
    pub field_type: Option<String>,
    pub value: Option<String>,
}

#[derive(Debug)]
pub struct PayrexxWebhookInstance {
    pub name: Option<String>,
    pub uuid: Option<String>,
}

/// The parts of a webhook transaction that the service reads.
#[derive(Debug)]
pub struct PayrexxWebhookTransaction {
    pub id: Option<i64>,
    pub status: Option<String>,
    pub reference_id: Option<String>,
    pub amount: Option<i64>,
    pub contact: Option<PayrexxWebhookContact>,
    pub instance: Option<PayrexxWebhookInstance>,
}

#[derive(Debug)]
pub struct PayrexxWebhookPayload {
    pub transaction: Option<PayrexxWebhookTransaction>,
    pub event_type: Option<String>,
}

/// What a webhook reports about a payment.
#[derive(Debug)]
pub enum PaymentNews {
    Confirmed,
    Waiting,
    Cancelled,
    Failed,
    OtherStatus(String),
    NoStatus,
    NoTransaction,
}

pub open spec fn news_spec(payload: PayrexxWebhookPayload, n: PaymentNews) -> bool {
    match payload.transaction {
        None => n is NoTransaction,
        Some(t) => match t.status {
            None => n is NoStatus,
            Some(s) => if s@ == "confirmed"@ {
                n is Confirmed
            } else if s@ == "waiting"@ {
                n is Waiting
            } else if s@ == "cancelled"@ {
                n is Cancelled
            } else if s@ == "failed"@ {
                n is Failed
            } else {
                n matches PaymentNews::OtherStatus(x) && x@ == s@
            },
        },
    }
}

/// Reads what a webhook reports; processing never fails.
pub fn process_webhook(payload: &PayrexxWebhookPayload) -> (r: Result<PaymentNews, PayrexxError>)
    ensures
        r matches Ok(n) && news_spec(*payload, n),
{
    let n = match &payload.transaction {
        None => PaymentNews::NoTransaction,
        Some(t) => match &t.status {
            None => PaymentNews::NoStatus,
            Some(s) => {
                let x = s.as_str();
                if crate::text::same_text(x, "confirmed") {
                    PaymentNews::Confirmed
                } else if crate::text::same_text(x, "waiting") {
                    PaymentNews::Waiting
                } else if crate::text::same_text(x, "cancelled") {
                    PaymentNews::Cancelled
                } else if crate::text::same_text(x, "failed") {
                    PaymentNews::Failed
                } else {
                    PaymentNews::OtherStatus(s.clone())
                }
            },
        },
    };
    Ok(n)
}

#[derive(Debug)]
pub struct RedirectQuery {
    pub transaction_id: Option<i64>,
    pub reference_id: Option<String>,
}


/// The OpenAPI description of the Payrexx endpoints (its contents are generated for the server).
#[derive(Debug)]
pub struct PayrexxApiDoc;


/// `a` sorts strictly before `b` when compared character by character, as `String`'s
/// `Ord` compares ASCII text.
pub open spec fn text_before(a: Seq<char>, b: Seq<char>) -> bool {
    exists|k: int|
        0 <= k <= a.len() && k <= b.len() && #[trigger] a.take(k) == b.take(k) && ((k < a.len() && k < b.len()
            && (a[k] as int) < (b[k] as int)) || (k == a.len() && k < b.len()))
}

proof fn lemma_before(a: Seq<char>, b: Seq<char>, k: int)
    requires
        0 <= k < a.len(),
        k < b.len(),
        forall|j: int| 0 <= j < k ==> a[j] == b[j],
        (a[k] as int) < (b[k] as int),
    ensures
        text_before(a, b),
{
    assert(a.take(k) =~= b.take(k));
}

/// Whether the parameters hold the pair `name=value`.
pub open spec fn has_param(ps: Seq<(Seq<char>, Seq<char>)>, name: Seq<char>, value: Seq<char>) -> bool {
    exists|i: int| 0 <= i < ps.len() && #[trigger] ps[i] == (name, value)
}

/// What the gateway is asked for: the request's amount when it overrides one, else the
/// configured unit amount, and 1000 only when neither is given; the request's currency,
/// else the configured one, else CHF; the request's purpose, else the configured product
/// name, else "Payment"; the configured redirect URLs; a reference that carries the
/// time; and the customer's e-mail exactly when the request has one.
pub proof fn law_gateway_params_values(config: PayrexxConfig, req: CreateGatewayRequest, millis: int)
    ensures
        has_param(
            gateway_params_spec(config, req, millis),
            "amount"@,
            match req.amount_override {
                Some(a) => int_text(a as int),
                None => match config.unit_amount {
                    Some(u) => int_text(u as int),
                    None => int_text(1000),
                },
            },
        ),
        has_param(
            gateway_params_spec(config, req, millis),
            "currency"@,
            match req.currency_override {
                Some(c) => c@,
                None => match config.currency {
                    Some(c) => c@,
                    None => "CHF"@,
                },
            },
        ),
        has_param(
            gateway_params_spec(config, req, millis),
            "purpose"@,
            match req.purpose_override {
                Some(x) => x@,
                None => match config.product_name {
                    Some(x) => x@,
                    None => "Payment"@,
                },
            },
        ),
        has_param(gateway_params_spec(config, req, millis), "referenceId"@, "connectify-connectify_payrexx-"@ + int_text(millis)),
        has_param(gateway_params_spec(config, req, millis), "successRedirectUrl"@, config.success_url@),
        has_param(gateway_params_spec(config, req, millis), "failedRedirectUrl"@, config.failed_url@),
        has_param(gateway_params_spec(config, req, millis), "cancelRedirectUrl"@, config.cancel_url@),
        match req.user_email {
            Some(e) => has_param(gateway_params_spec(config, req, millis), "fields[email][value]"@, e@),
            None => forall|i: int|
                0 <= i < gateway_params_spec(config, req, millis).len() ==> (#[trigger] gateway_params_spec(
                    config,
                    req,
                    millis,
                )[i]).0 != "fields[email][value]"@,
        },
{
    let ps = gateway_params_spec(config, req, millis);
    let off: int = if req.user_email is Some { 1 } else { 0 };
    assert(ps[0] == ps[0]);
    assert(ps[1] == ps[1]);
    assert(ps[2] == ps[2]);
    assert(ps[3] == ps[3]);
    assert(ps[4 + off] == ps[4 + off]);
    assert(ps[5 + off] == ps[5 + off]);
    assert(ps[6 + off] == ps[6 + off]);
    match req.user_email {
        Some(e) => {
            assert(ps[4] == ("fields[email][value]"@, e@));
        },
        None => {
            reveal_strlit("amount");
            reveal_strlit("cancelRedirectUrl");
            reveal_strlit("currency");
            reveal_strlit("failedRedirectUrl");
            reveal_strlit("fields[email][value]");
            reveal_strlit("purpose");
            reveal_strlit("referenceId");
            reveal_strlit("successRedirectUrl");
            assert forall|i: int| 0 <= i < ps.len() implies (#[trigger] ps[i]).0 != "fields[email][value]"@ by {
                assert(ps[i].0.len() != "fields[email][value]"@.len() || ps[i].0[0] != 'f' || ps[i].0[1] != 'i');
            }
        },
    }
}

/// The names of the signed gateway parameters, in the order they are sent.
pub open spec fn signed_names(config: PayrexxConfig, req: CreateGatewayRequest, millis: int) -> Seq<Seq<char>> {
    (seq![("ApiSignature"@, seq![])] + gateway_params_spec(config, req, millis)).map_values(
        |p: (Seq<char>, Seq<char>)| p.0,
    )
}

/// The gateway's parameters go out ordered by name, each name once, with the signature
/// first: the order of a `BTreeMap` of strings.
pub proof fn law_gateway_params_sorted(config: PayrexxConfig, req: CreateGatewayRequest, millis: int)
    ensures
        forall|i: int|
            0 <= i < signed_names(config, req, millis).len() - 1 ==> text_before(
                #[trigger] signed_names(config, req, millis)[i],
                signed_names(config, req, millis)[i + 1],
            ),
{
    reveal_strlit("ApiSignature");
    reveal_strlit("amount");
    reveal_strlit("cancelRedirectUrl");
    reveal_strlit("currency");
    reveal_strlit("failedRedirectUrl");
    reveal_strlit("fields[email][value]");
    reveal_strlit("purpose");
    reveal_strlit("referenceId");
    reveal_strlit("successRedirectUrl");
    let n = signed_names(config, req, millis);
    lemma_before("ApiSignature"@, "amount"@, 0);
    lemma_before("amount"@, "cancelRedirectUrl"@, 0);
    lemma_before("cancelRedirectUrl"@, "currency"@, 1);
    lemma_before("currency"@, "failedRedirectUrl"@, 0);
    lemma_before("failedRedirectUrl"@, "fields[email][value]"@, 1);
    lemma_before("fields[email][value]"@, "purpose"@, 0);
    lemma_before("failedRedirectUrl"@, "purpose"@, 0);
    lemma_before("purpose"@, "referenceId"@, 0);
    lemma_before("referenceId"@, "successRedirectUrl"@, 0);
    if req.user_email is Some {
        assert(n =~= seq![
            "ApiSignature"@,
            "amount"@,
            "cancelRedirectUrl"@,
            "currency"@,
            "failedRedirectUrl"@,
            "fields[email][value]"@,
            "purpose"@,
            "referenceId"@,
            "successRedirectUrl"@,
        ]);
    } else {
        assert(n =~= seq![
            "ApiSignature"@,
            "amount"@,
            "cancelRedirectUrl"@,
            "currency"@,
            "failedRedirectUrl"@,
            "purpose"@,
            "referenceId"@,
            "successRedirectUrl"@,
        ]);
    }
}

} // verus!
