//! Stripe: errors, checkout pricing and request building, reply handling and the
//! decisions a webhook event leads to.
use vstd::prelude::*;
use crate::common::ConnectifyError;
use crate::config::{find_price_tier, first_tier, AppConfig, StripeConfig};
use crate::json::{json_pointer_str, json_str_at};
use crate::text::{concat, int_text, int_to_string, lowercase_text, owned, same_text, to_lowercase};
use crate::time::{
    instant_less, instant_lt, instant_view, minutes_of, num_minutes, parse_rfc3339, rfc3339_parsed,
    span_between, span_nanos,
};

verus! {

/// What can go wrong when talking to Stripe or acting on its events.
#[derive(Debug)]
pub enum StripeError {
    /// The request could not be sent or its reply not read (the message of the error).
    RequestError(String),
    ApiError { status_code: u16, message: String },
    /// A reply could not be parsed (the message of the parse error).
    ParseError(String),
    ConfigError,
    WebhookSignatureError(String),
    WebhookProcessingError(String),
    FulfillmentError(String),
    MissingFulfillmentData,
    SessionNotFoundOrNotPaid,
    InvalidFulfillmentDataForPricing(String),
    NoMatchingPriceTier(i64),
    InternalError(String),
}

impl StripeError {
    /// The HTTP status that answers this error.
    pub open spec fn status_spec(&self) -> u16 {
        match self {
            StripeError::RequestError(_) => 500,
            StripeError::ApiError { status_code, .. } => *status_code,
            StripeError::ParseError(_) => 400,
            StripeError::ConfigError => 500,
            StripeError::WebhookSignatureError(_) => 401,
            StripeError::WebhookProcessingError(_) => 500,
            StripeError::FulfillmentError(_) => 502,
            StripeError::MissingFulfillmentData => 400,
            StripeError::SessionNotFoundOrNotPaid => 404,
            StripeError::InvalidFulfillmentDataForPricing(_) => 400,
            StripeError::NoMatchingPriceTier(_) => 400,
            StripeError::InternalError(_) => 500,
        }
    }

    pub fn status_code(&self) -> (c: u16)
        ensures
            c == self.status_spec(),
    {
        match self {
            StripeError::RequestError(_) => 500,
            StripeError::ApiError { status_code, .. } => *status_code,
            StripeError::ParseError(_) => 400,
            StripeError::ConfigError => 500,
            StripeError::WebhookSignatureError(_) => 401,
            StripeError::WebhookProcessingError(_) => 500,
            StripeError::FulfillmentError(_) => 502,
            StripeError::MissingFulfillmentData => 400,
            StripeError::SessionNotFoundOrNotPaid => 404,
            StripeError::InvalidFulfillmentDataForPricing(_) => 400,
            StripeError::NoMatchingPriceTier(_) => 400,
            StripeError::InternalError(_) => 500,
        }
    }

    /// Whether `c` is the service error that this error becomes.
    pub open spec fn becomes(&self, c: ConnectifyError) -> bool {
        match self {
            StripeError::RequestError(m) => c matches ConnectifyError::HttpError(x) && x@
                == "Stripe request error: "@ + m@,
            StripeError::ApiError { status_code, message } => c matches ConnectifyError::ExternalServiceError {
                service,
                message: x,
            } && service@ == "Stripe API"@ && x@ == "Status: "@ + int_text(*status_code as int)
                + ", Message: "@ + message@,
            StripeError::ParseError(m) => c matches ConnectifyError::ParseError(x) && x@
                == "Stripe response parse error: "@ + m@,
            StripeError::ConfigError => c matches ConnectifyError::ConfigError(x) && x@
                == "Stripe configuration missing or incomplete"@,
            StripeError::WebhookSignatureError(m) => c matches ConnectifyError::AuthError(x) && x@
                == "Stripe webhook signature error: "@ + m@,
            StripeError::WebhookProcessingError(m) => c matches ConnectifyError::ExternalServiceError {
                service,
                message: x,
            } && service@ == "Stripe webhook"@ && x@ == m@,
            StripeError::FulfillmentError(m) => c matches ConnectifyError::ExternalServiceError {
                service,
                message: x,
            } && service@ == "Fulfillment service"@ && x@ == m@,
            StripeError::MissingFulfillmentData => c matches ConnectifyError::ValidationError(x) && x@
                == "Missing fulfillment data in webhook metadata"@,
            StripeError::SessionNotFoundOrNotPaid => c matches ConnectifyError::NotFoundError(x) && x@
                == "Stripe session not found or not paid"@,
            StripeError::InvalidFulfillmentDataForPricing(m) => c matches ConnectifyError::ValidationError(
                x,
            ) && x@ == "Invalid fulfillment data for pricing: "@ + m@,
            StripeError::NoMatchingPriceTier(d) => c matches ConnectifyError::ValidationError(x) && x@
                == "No matching price tier found for duration: "@ + int_text(*d as int) + " minutes"@,
            StripeError::InternalError(m) => c matches ConnectifyError::InternalError(x) && x@
                == "Stripe internal error: "@ + m@,
        }
    }

    /// The service error that this error becomes.
    pub fn into_connectify(self) -> (c: ConnectifyError)
        ensures
            self.becomes(c),
    {
        match self {
            StripeError::RequestError(m) => ConnectifyError::HttpError(
                concat("Stripe request error: ", m.as_str()),
            ),
            StripeError::ApiError { status_code, message } => {
                let code = int_to_string(status_code as i128);
                let mut x = concat("Status: ", code.as_str());
                x.append(", Message: ");
                x.append(message.as_str());
                ConnectifyError::ExternalServiceError { service: owned("Stripe API"), message: x }
            },
            StripeError::ParseError(m) => ConnectifyError::ParseError(
                concat("Stripe response parse error: ", m.as_str()),
            ),
            StripeError::ConfigError => ConnectifyError::ConfigError(
                owned("Stripe configuration missing or incomplete"),
            ),
            StripeError::WebhookSignatureError(m) => ConnectifyError::AuthError(
                concat("Stripe webhook signature error: ", m.as_str()),
            ),
            StripeError::WebhookProcessingError(m) => ConnectifyError::ExternalServiceError {
                service: owned("Stripe webhook"),
                message: m,
            },
            StripeError::FulfillmentError(m) => ConnectifyError::ExternalServiceError {
                service: owned("Fulfillment service"),
                message: m,
            },
            StripeError::MissingFulfillmentData => ConnectifyError::ValidationError(
                owned("Missing fulfillment data in webhook metadata"),
            ),
            StripeError::SessionNotFoundOrNotPaid => ConnectifyError::NotFoundError(
                owned("Stripe session not found or not paid"),
            ),
            StripeError::InvalidFulfillmentDataForPricing(m) => ConnectifyError::ValidationError(
                concat("Invalid fulfillment data for pricing: ", m.as_str()),
            ),
            StripeError::NoMatchingPriceTier(d) => {
                let n = int_to_string(d as i128);
                let mut x = concat("No matching price tier found for duration: ", n.as_str());
                x.append(" minutes");
                ConnectifyError::ValidationError(x)
            },
            StripeError::InternalError(m) => ConnectifyError::InternalError(
                concat("Stripe internal error: ", m.as_str()),
            ),
        }
    }
}


/// A request from the frontend to create a Checkout Session. `fulfillment_data` is the
/// fulfillment data as JSON text.
#[derive(Debug)]
pub struct CreateCheckoutSessionRequest {
    pub product_name_override: Option<String>,
    pub amount_override: Option<i64>,
    pub currency_override: Option<String>,
    pub fulfillment_type: String,
    pub fulfillment_data: String,
    pub client_reference_id: Option<String>,
}

/// What a checkout costs: amount in the smallest unit, product name, currency code.
#[derive(Debug)]
pub struct CheckoutPrice {
    pub unit_amount: i64,
    pub product_name: String,
    pub currency: String,
}

/// Why a checkout could not be priced.
pub enum PriceFailure {
    Invalid(Seq<char>),
    NoTier(int),
}

pub open spec fn is_calendar_type(t: Seq<char>) -> bool {
    t == "gcal_booking"@ || t == "adhoc_gcal_twilio"@
}

pub open spec fn opt_view(o: Option<String>) -> Option<Seq<char>> {
    match o {
        Some(s) => Some(s@),
        None => None,
    }
}

/// The product name: the tier's, else the booking's summary, else a generic one.
pub open spec fn product_name_spec(tier_name: Option<String>, data: Seq<char>, minutes: int) -> Seq<char> {
    match tier_name {
        Some(n) => n@,
        None => match json_pointer_str(data, "/summary"@) {
            Some(s) => s,
            None => "Service - "@ + int_text(minutes) + " min"@,
        },
    }
}

/// The currency: the tier's, else the configured default, else `chf`; in lowercase.
pub open spec fn currency_spec(tier_currency: Option<String>, default_currency: Option<String>) -> Seq<char> {
    lowercase_text(
        match tier_currency {
            Some(c) => c@,
            None => match default_currency {
                Some(c) => c@,
                None => "chf"@,
            },
        },
    )
}

/// The price of a calendar booking: its length from the start and end time in the
/// fulfillment data, and the first price tier of that length.
pub open spec fn price_spec(cfg: StripeConfig, req: CreateCheckoutSessionRequest) -> Result<(int, Seq<char>, Seq<char>), PriceFailure> {
    let t = req.fulfillment_type@;
    let data = req.fulfillment_data@;
    if !is_calendar_type(t) {
        Err(PriceFailure::Invalid("Unsupported fulfillment_type for dynamic pricing: "@ + t))
    } else {
        match json_pointer_str(data, "/start_time"@) {
            None => Err(PriceFailure::Invalid("Missing start_time in fulfillment_data for GCal-based booking"@)),
            Some(st) => match json_pointer_str(data, "/end_time"@) {
                None => Err(PriceFailure::Invalid("Missing end_time in fulfillment_data for GCal-based booking"@)),
                Some(et) => match rfc3339_parsed(st) {
                    Err(e) => Err(PriceFailure::Invalid("Invalid start_time format: "@ + e)),
                    Ok(a) => match rfc3339_parsed(et) {
                        Err(e) => Err(PriceFailure::Invalid("Invalid end_time format: "@ + e)),
                        Ok(b) => if !instant_lt(a, b) {
                            Err(PriceFailure::Invalid("End time must be after start time."@))
                        } else {
                            let d = num_minutes(span_nanos(a, b));
                            match first_tier(cfg.price_tiers@, d) {
                                None => Err(PriceFailure::NoTier(d)),
                                Some(i) => {
                                    let tier = cfg.price_tiers@[i];
                                    Ok(
                                        (
                                            tier.unit_amount as int,
                                            product_name_spec(tier.product_name, data, d),
                                            currency_spec(tier.currency, cfg.default_currency),
                                        ),
                                    )
                                },
                            }
                        },
                    },
                },
            },
        }
    }
}

/// The error that reports a pricing failure.
pub open spec fn failure_error(e: StripeError, f: PriceFailure) -> bool {
    match f {
        PriceFailure::Invalid(m) => e matches StripeError::InvalidFulfillmentDataForPricing(x) && x@ == m,
        PriceFailure::NoTier(d) => e matches StripeError::NoMatchingPriceTier(x) && x == d,
    }
}

pub open spec fn priced_as(r: Result<CheckoutPrice, StripeError>, p: Result<(int, Seq<char>, Seq<char>), PriceFailure>) -> bool {
    match p {
        Ok(x) => r matches Ok(c) && c.unit_amount == x.0 && c.product_name@ == x.1 && c.currency@ == x.2,
        Err(f) => r matches Err(e) && failure_error(e, f),
    }
}

fn invalid(m: &str) -> (e: StripeError)
    ensures
        e matches StripeError::InvalidFulfillmentDataForPricing(x) && x@ == m@,
{
    StripeError::InvalidFulfillmentDataForPricing(owned(m))
}

/// Prices a checkout for a calendar booking.
pub fn checkout_price(cfg: &StripeConfig, req: &CreateCheckoutSessionRequest) -> (r: Result<CheckoutPrice, StripeError>)
    ensures
        priced_as(r, price_spec(*cfg, *req)),
{
    let t = req.fulfillment_type.as_str();
    if !same_text(t, "gcal_booking") && !same_text(t, "adhoc_gcal_twilio") {
        return Err(
            StripeError::InvalidFulfillmentDataForPricing(
                concat("Unsupported fulfillment_type for dynamic pricing: ", t),
            ),
        );
    }
    let data = req.fulfillment_data.as_str();
    let st = match json_str_at(data, "/start_time") {
        None => {
            return Err(invalid("Missing start_time in fulfillment_data for GCal-based booking"));
        },
        Some(x) => x,
    };
    let et = match json_str_at(data, "/end_time") {
        None => {
            return Err(invalid("Missing end_time in fulfillment_data for GCal-based booking"));
        },
        Some(x) => x,
    };
    let a = match parse_rfc3339(st.as_str()) {
        Err(e) => {
            return Err(
                StripeError::InvalidFulfillmentDataForPricing(concat("Invalid start_time format: ", e.as_str())),
            );
        },
        Ok(x) => x,
    };
    let b = match parse_rfc3339(et.as_str()) {
        Err(e) => {
            return Err(
                StripeError::InvalidFulfillmentDataForPricing(concat("Invalid end_time format: ", e.as_str())),
            );
        },
        Ok(x) => x,
    };
    if !instant_less(a, b) {
        return Err(invalid("End time must be after start time."));
    }
    let span = span_between(a, b);
    let d128 = minutes_of(span);
    let d = d128 as i64;
    assert(d as int == num_minutes(span_nanos(instant_view(a), instant_view(b))));
    let i = match find_price_tier(&cfg.price_tiers, d) {
        None => {
            return Err(StripeError::NoMatchingPriceTier(d));
        },
        Some(i) => i,
    };
    let tier = &cfg.price_tiers[i];
    let product_name = match &tier.product_name {
        Some(n) => n.clone(),
        None => match json_str_at(data, "/summary") {
            Some(s) => s,
            None => {
                let n = int_to_string(d as i128);
                let mut x = concat("Service - ", n.as_str());
                x.append(" min");
                x
            },
        },
    };
    let base = match &tier.currency {
        Some(c) => c.clone(),
        None => match &cfg.default_currency {
            Some(c) => c.clone(),
            None => owned("chf"),
        },
    };
    let currency = to_lowercase(base.as_str());
    Ok(CheckoutPrice { unit_amount: tier.unit_amount, product_name, currency })
}


/// Name-value pairs seen as texts.
pub open spec fn pairs_view(v: Seq<(String, String)>) -> Seq<(Seq<char>, Seq<char>)> {
    v.map_values(|p: (String, String)| (p.0@, p.1@))
}

pub fn push_pair(v: &mut Vec<(String, String)>, name: &str, value: String)
    ensures
        pairs_view(final(v)@) == pairs_view(old(v)@).push((name@, value@)),
{
    let ghost before = pairs_view(v@);
    let n = owned(name);
    v.push((n, value));
    assert(pairs_view(v@) =~= before.push((name@, value@)));
}

/// The form that creates a Checkout Session, in the order it is sent.
pub open spec fn checkout_form_spec(cfg: StripeConfig, req: CreateCheckoutSessionRequest, price: CheckoutPrice) -> Seq<(Seq<char>, Seq<char>)> {
    let base = seq![
        ("payment_method_types[]"@, "card"@),
        ("mode"@, "payment"@),
        ("success_url"@, cfg.success_url@),
        ("cancel_url"@, cfg.cancel_url@),
        ("line_items[0][price_data][currency]"@, price.currency@),
        ("line_items[0][price_data][product_data][name]"@, price.product_name@),
        ("line_items[0][price_data][unit_amount]"@, int_text(price.unit_amount as int)),
        ("line_items[0][quantity]"@, "1"@),
    ];
    let with_ref = match req.client_reference_id {
        Some(c) => base.push(("client_reference_id"@, c@)),
        None => base,
    };
    with_ref.push(("metadata[ff_type]"@, req.fulfillment_type@)).push(
        ("metadata[ff_data_json]"@, req.fulfillment_data@),
    )
}

/// The form of a Checkout Session: payment by card, the redirect URLs, one line item
/// with the price, the client reference when given, and the fulfillment metadata.
pub fn checkout_form(cfg: &StripeConfig, req: &CreateCheckoutSessionRequest, price: &CheckoutPrice) -> (form: Vec<(String, String)>)
    ensures
        pairs_view(form@) == checkout_form_spec(*cfg, *req, *price),
{
    let mut form: Vec<(String, String)> = Vec::new();
    push_pair(&mut form, "payment_method_types[]", owned("card"));
    push_pair(&mut form, "mode", owned("payment"));
    push_pair(&mut form, "success_url", cfg.success_url.clone());
    push_pair(&mut form, "cancel_url", cfg.cancel_url.clone());
    push_pair(&mut form, "line_items[0][price_data][currency]", price.currency.clone());
    push_pair(&mut form, "line_items[0][price_data][product_data][name]", price.product_name.clone());
    push_pair(&mut form, "line_items[0][price_data][unit_amount]", int_to_string(price.unit_amount as i128));
    push_pair(&mut form, "line_items[0][quantity]", owned("1"));
    match &req.client_reference_id {
        Some(c) => push_pair(&mut form, "client_reference_id", c.clone()),
        None => {},
    }
    push_pair(&mut form, "metadata[ff_type]", req.fulfillment_type.clone());
    push_pair(&mut form, "metadata[ff_data_json]", req.fulfillment_data.clone());
    form
}

/// A request to send to the Stripe API: where, with which secret key, and the form.
#[derive(Debug)]
pub struct StripeCall {
    pub url: String,
    pub secret_key: String,
    pub params: Vec<(String, String)>,
}

/// Prepares the request that creates a Checkout Session. `secret_key` is the configured
/// `STRIPE_SECRET_KEY`; without it the result is `ConfigError`, before any pricing.
pub fn create_checkout_session(
    stripe_config: &StripeConfig,
    request_data: &CreateCheckoutSessionRequest,
    secret_key: Option<String>,
) -> (r: Result<StripeCall, StripeError>)
    ensures
        secret_key is None ==> r matches Err(StripeError::ConfigError),
        secret_key matches Some(k) ==> match price_spec(*stripe_config, *request_data) {
            Ok(p) => r matches Ok(call) && call.url@ == "https://api.stripe.com/v1/checkout/sessions"@
                && call.secret_key@ == k@ && exists|price: CheckoutPrice|
                price.unit_amount == p.0 && price.product_name@ == p.1 && price.currency@ == p.2
                    && pairs_view(call.params@) == #[trigger] checkout_form_spec(*stripe_config, *request_data, price),
            Err(f) => r matches Err(e) && failure_error(e, f),
        },
{
    let key = match secret_key {
        None => {
            return Err(StripeError::ConfigError);
        },
        Some(k) => k,
    };
    let price = match checkout_price(stripe_config, request_data) {
        Err(e) => {
            return Err(e);
        },
        Ok(p) => p,
    };
    let params = checkout_form(stripe_config, request_data, &price);
    Ok(StripeCall { url: owned("https://api.stripe.com/v1/checkout/sessions"), secret_key: key, params })
}


/// What the Stripe API answers when a Checkout Session is created.
#[derive(Debug)]
pub struct StripeCheckoutSessionApiResponse {
    pub id: String,
    pub url: Option<String>,
}

#[derive(Debug)]
pub struct CreateCheckoutSessionResponse {
    pub url: String,
    pub session_id: String,
}

#[derive(Debug)]
pub struct StripeCustomerDetails {
    pub email: Option<String>,
    pub name: Option<String>,
    pub phone: Option<String>,
}

/// The `request` field of a Stripe event.
#[derive(Debug)]
pub struct StripeEventRequest {
    pub id: Option<String>,
    pub idempotency_key: Option<String>,
}

/// The Checkout Session that a `checkout.session.completed` event carries. The metadata
/// holds the session's name-value pairs, each name once.
#[derive(Debug)]
pub struct StripeCheckoutSessionObject {
    pub id: String,
    pub object: String,
    pub amount_total: Option<i64>,
    pub currency: Option<String>,
    pub customer: Option<String>,
    pub customer_details: Option<StripeCustomerDetails>,
    pub metadata: Option<Vec<(String, String)>>,
    pub payment_intent: Option<String>,
    pub payment_status: Option<String>,
    pub status: Option<String>,
    pub success_url: Option<String>,
    pub cancel_url: Option<String>,
    pub client_reference_id: Option<String>,
}

/// A Checkout Session as the Stripe API describes it.
#[derive(Debug)]
pub struct StripeCheckoutSessionData {
    pub id: String,
    pub object: String,
    pub amount_total: Option<i64>,
    pub currency: Option<String>,
    pub customer: Option<String>,
    pub customer_details: Option<StripeCustomerDetails>,
    pub metadata: Option<Vec<(String, String)>>,
    pub payment_intent: Option<String>,
    pub payment_status: Option<String>,
    pub status: Option<String>,
    pub success_url: Option<String>,
    pub cancel_url: Option<String>,
    pub client_reference_id: Option<String>,
    pub created: Option<i64>,
    pub expires_at: Option<i64>,
}

#[derive(Debug)]
pub struct ListSessionsAdminQuery {
    pub limit: Option<u8>,
    pub starting_after: Option<String>,
    pub ending_before: Option<String>,
}

/// A list object of the Stripe API.
#[derive(Debug)]
pub struct StripeListObject<T> {
    pub object: String,
    pub data: Vec<T>,
    pub has_more: bool,
    pub url: String,
}

#[derive(Debug)]
pub struct StripeRedirectQuery {
    pub session_id: Option<String>,
}

#[derive(Debug)]
pub struct GetSessionDetailsQuery {
    pub session_id: String,
}

/// `StatusCode::is_success`: a status in 200..=299.
pub open spec fn success_status(status: u16) -> bool {
    200 <= status <= 299
}

/// The message of an error reply: its `error.message`, else the whole body.
pub open spec fn api_error_message_spec(body: Seq<char>) -> Seq<char> {
    match json_pointer_str(body, "/error/message"@) {
        Some(m) => m,
        None => body,
    }
}

pub fn api_error_message(body: &str) -> (m: String)
    ensures
        m@ == api_error_message_spec(body@),
{
    match json_str_at(body, "/error/message") {
        Some(m) => m,
        None => owned(body),
    }
}

/// What a reply of the Stripe API gives: on success its parsed body (`parsed` is the
/// result of parsing the body, with the parse error's message), otherwise an `ApiError`
/// with the status and the reply's error message.
pub fn stripe_reply<T>(status: u16, body: &str, parsed: Result<T, String>) -> (r: Result<T, StripeError>)
    ensures
        success_status(status) ==> match parsed {
            Ok(v) => r == Ok::<T, StripeError>(v),
            Err(e) => r matches Err(StripeError::ParseError(x)) && x@ == e@,
        },
        !success_status(status) ==> (r matches Err(StripeError::ApiError { status_code, message })
            && status_code == status && message@ == api_error_message_spec(body@)),
{
    if 200 <= status && status <= 299 {
        match parsed {
            Ok(v) => Ok(v),
            Err(e) => Err(StripeError::ParseError(e)),
        }
    } else {
        Err(StripeError::ApiError { status_code: status, message: api_error_message(body) })
    }
}

/// Whether a Checkout Session's payment went through: it is paid, or the session is
/// complete.
pub open spec fn session_settled(d: StripeCheckoutSessionData) -> bool {
    opt_view(d.payment_status) == Some("paid"@) || opt_view(d.status) == Some("complete"@)
}

/// The details of a Checkout Session from the API's reply, as the confirmation page gets
/// them: the session where its payment went through, `SessionNotFoundOrNotPaid` where it
/// is neither paid nor complete.
pub fn session_details_reply(status: u16, body: &str, parsed: Result<StripeCheckoutSessionData, String>) -> (r: Result<StripeCheckoutSessionData, StripeError>)
    ensures
        success_status(status) ==> match parsed {
            Ok(v) => if session_settled(v) {
                r == Ok::<StripeCheckoutSessionData, StripeError>(v)
            } else {
                r matches Err(StripeError::SessionNotFoundOrNotPaid)
            },
            Err(e) => r matches Err(StripeError::ParseError(x)) && x@ == e@,
        },
        !success_status(status) ==> (r matches Err(StripeError::ApiError { status_code, message })
            && status_code == status && message@ == api_error_message_spec(body@)),
{
    match stripe_reply(status, body, parsed) {
        Err(e) => Err(e),
        Ok(v) => {
            let paid = match &v.payment_status {
                Some(p) => crate::text::same_text(p.as_str(), "paid"),
                None => false,
            };
            let complete = match &v.status {
                Some(x) => crate::text::same_text(x.as_str(), "complete"),
                None => false,
            };
            if paid || complete {
                Ok(v)
            } else {
                Err(StripeError::SessionNotFoundOrNotPaid)
            }
        },
    }
}

/// The result of creating a Checkout Session from the API's reply: its URL and id, or
/// `InternalError` when the reply has no URL.
pub fn checkout_session_reply(status: u16, body: &str, parsed: Result<StripeCheckoutSessionApiResponse, String>) -> (r: Result<CreateCheckoutSessionResponse, StripeError>)
    ensures
        success_status(status) ==> match parsed {
            Ok(v) => match v.url {
                Some(u) => r matches Ok(x) && x.url == u && x.session_id == v.id,
                None => r matches Err(StripeError::InternalError(m)) && m@ == "Stripe response missing checkout URL"@,
            },
            Err(e) => r matches Err(StripeError::ParseError(x)) && x@ == e@,
        },
        !success_status(status) ==> (r matches Err(StripeError::ApiError { status_code, message })
            && status_code == status && message@ == api_error_message_spec(body@)),
{
    match stripe_reply(status, body, parsed) {
        Err(e) => Err(e),
        Ok(v) => match v.url {
            Some(u) => Ok(CreateCheckoutSessionResponse { url: u, session_id: v.id }),
            None => Err(StripeError::InternalError(owned("Stripe response missing checkout URL"))),
        },
    }
}

/// Prepares the request for a Checkout Session's details.
pub fn get_checkout_session_details(session_id: &str, secret_key: Option<String>) -> (r: Result<StripeCall, StripeError>)
    ensures
        secret_key is None ==> r matches Err(StripeError::ConfigError),
        secret_key matches Some(k) ==> (r matches Ok(call) && call.url@
            == "https://api.stripe.com/v1/checkout/sessions/"@ + session_id@ && call.secret_key@ == k@
            && call.params@.len() == 0),
{
    match secret_key {
        None => Err(StripeError::ConfigError),
        Some(k) => Ok(
            StripeCall {
                url: concat("https://api.stripe.com/v1/checkout/sessions/", session_id),
                secret_key: k,
                params: Vec::new(),
            },
        ),
    }
}

/// The query of a session listing: `limit`, `starting_after`, `ending_before`, each when given.
pub open spec fn list_params_spec(q: ListSessionsAdminQuery) -> Seq<(Seq<char>, Seq<char>)> {
    let a = match q.limit {
        Some(l) => seq![("limit"@, int_text(l as int))],
        None => seq![],
    };
    let b = match q.starting_after {
        Some(s) => a.push(("starting_after"@, s@)),
        None => a,
    };
    match q.ending_before {
        Some(e) => b.push(("ending_before"@, e@)),
        None => b,
    }
}

/// Prepares the request that lists Checkout Sessions.
pub fn list_checkout_sessions_admin(query_params: ListSessionsAdminQuery, secret_key: Option<String>) -> (r: Result<StripeCall, StripeError>)
    ensures
        secret_key is None ==> r matches Err(StripeError::ConfigError),
        secret_key matches Some(k) ==> (r matches Ok(call) && call.url@
            == "https://api.stripe.com/v1/checkout/sessions"@ && call.secret_key@ == k@
            && pairs_view(call.params@) == list_params_spec(query_params)),
{
    let key = match secret_key {
        None => {
            return Err(StripeError::ConfigError);
        },
        Some(k) => k,
    };
    let ghost q = query_params;
    let mut params: Vec<(String, String)> = Vec::new();
    assert(pairs_view(params@) =~= seq![]);
    match query_params.limit {
        Some(l) => push_pair(&mut params, "limit", int_to_string(l as i128)),
        None => {},
    }
    match query_params.starting_after {
        Some(s) => push_pair(&mut params, "starting_after", s),
        None => {},
    }
    match query_params.ending_before {
        Some(e) => push_pair(&mut params, "ending_before", e),
        None => {},
    }
    Ok(StripeCall { url: owned("https://api.stripe.com/v1/checkout/sessions"), secret_key: key, params })
}


/// The value of the first pair named `name`.
pub open spec fn lookup_spec(m: Seq<(String, String)>, name: Seq<char>) -> Option<Seq<char>>
    decreases m.len(),
{
    if m.len() == 0 {
        None
    } else if m[0].0@ == name {
        Some(m[0].1@)
    } else {
        lookup_spec(m.drop_first(), name)
    }
}

proof fn lemma_lookup_skip(m: Seq<(String, String)>, name: Seq<char>, i: int)
    requires
        0 <= i <= m.len(),
        forall|k: int| 0 <= k < i ==> (#[trigger] m[k]).0@ != name,
    ensures
        lookup_spec(m, name) == lookup_spec(m.skip(i), name),
    decreases i,
{
    if i > 0 {
        lemma_lookup_skip(m.drop_first(), name, i - 1);
        assert(m.drop_first().skip(i - 1) =~= m.skip(i));
    } else {
        assert(m.skip(0) =~= m);
    }
}

/// The value of the first pair named `name`.
pub fn lookup(m: &Vec<(String, String)>, name: &str) -> (r: Option<String>)
    ensures
        opt_view(r) == lookup_spec(m@, name@),
{
    let mut i: usize = 0;
    while i < m.len()
        invariant
            0 <= i <= m@.len(),
            forall|k: int| 0 <= k < i ==> (#[trigger] m@[k]).0@ != name@,
        decreases m@.len() - i,
    {
        if same_text(m[i].0.as_str(), name) {
            proof {
                lemma_lookup_skip(m@, name@, i as int);
                assert(m@.skip(i as int)[0] == m@[i as int]);
            }
            return Some(m[i].1.clone());
        }
        i += 1;
    }
    proof {
        lemma_lookup_skip(m@, name@, i as int);
    }
    None
}

/// What a verified webhook event leads to: nothing more, or a call of the fulfillment
/// service at `url` with the shared secret and the fulfillment data as JSON.
#[derive(Debug)]
pub enum WebhookAction {
    Done,
    CallFulfillment { url: String, secret: String, body: String },
}

/// The JSON document that parsing `text` gives, written out again by `serde_json`, or the
/// parse error's message.
pub uninterp spec fn json_rewritten(text: Seq<char>) -> Result<Seq<char>, Seq<char>>;

/// `serde_json::from_str::<serde_json::Value>(text)`, then `serde_json::to_string` of the
/// value (which cannot fail for a `Value`); the result is named.
#[verifier::external_body]
fn json_rewrite(text: &str) -> (r: Result<String, String>)
    ensures
        match json_rewritten(text@) {
            Ok(t) => r matches Ok(x) && x@ == t,
            Err(e) => r matches Err(x) && x@ == e,
        },
{
    match serde_json::from_str::<serde_json::Value>(text) {
        Ok(v) => Ok(serde_json::to_string(&v).unwrap()),
        Err(e) => Err(e.to_string()),
    }
}

/// The path of the fulfillment endpoint for a fulfillment type.
pub open spec fn fulfillment_path(t: Seq<char>) -> Option<Seq<char>> {
    if t == "gcal_booking"@ {
        Some("/api/fulfill/gcal-booking"@)
    } else if t == "adhoc_gcal_twilio"@ {
        Some("/api/fulfill/adhoc-gcal-twilio"@)
    } else {
        None
    }
}

pub open spec fn shared_secret_of(config: AppConfig) -> Option<String> {
    match config.fulfillment {
        Some(f) => f.shared_secret,
        None => None,
    }
}

/// The outcome of a `checkout.session.completed` event: nothing unless the session is
/// paid; then the fulfillment type and data must be in the metadata, the data must be
/// JSON, a shared secret must be configured and the type must have an endpoint.
pub open spec fn completed_action(session: StripeCheckoutSessionObject, config: AppConfig, r: Result<WebhookAction, StripeError>) -> bool {
    if opt_view(session.payment_status) != Some("paid"@) {
        r matches Ok(WebhookAction::Done)
    } else {
        let ff_type = match session.metadata {
            Some(m) => lookup_spec(m@, "ff_type"@),
            None => None,
        };
        let ff_data = match session.metadata {
            Some(m) => lookup_spec(m@, "ff_data_json"@),
            None => None,
        };
        match (ff_type, ff_data) {
            (Some(t), Some(d)) => match json_rewritten(d) {
                Err(e) => r matches Err(StripeError::WebhookProcessingError(x)) && x@
                    == "Failed to parse ff_data_json: "@ + e,
                Ok(body) => match shared_secret_of(config) {
                    None => r matches Err(StripeError::ConfigError),
                    Some(secret) => match fulfillment_path(t) {
                        None => r matches Err(StripeError::WebhookProcessingError(x)) && x@
                            == "Unknown fulfillment type: "@ + t,
                        Some(path) => r matches Ok(WebhookAction::CallFulfillment { url, secret: s, body: b })
                            && url@ == "http://"@ + config.server.host@ + ":"@ + int_text(
                            config.server.port as int,
                        ) + path && s@ == secret@ && b@ == body,
                    },
                },
            },
            _ => r matches Err(StripeError::MissingFulfillmentData),
        }
    }
}

/// A fulfillment type with underscores written as dashes.
pub open spec fn dashed(t: Seq<char>) -> Seq<char> {
    t.map_values(|c: char| if c == '_' { '-' } else { c })
}

/// The calendar booking and the ad-hoc booking are the fulfillment types with an
/// endpoint; each is sent to its own, `/api/fulfill/` followed by the type with dashes
/// for underscores, so no two types share an endpoint.
pub proof fn law_fulfillment_endpoints(t: Seq<char>, u: Seq<char>)
    ensures
        fulfillment_path(t) is Some <==> (t == "gcal_booking"@ || t == "adhoc_gcal_twilio"@),
        fulfillment_path(t) matches Some(p) ==> p == "/api/fulfill/"@ + dashed(t),
        fulfillment_path(t) is Some && fulfillment_path(t) == fulfillment_path(u) ==> t == u,
{
    reveal_strlit("gcal_booking");
    reveal_strlit("adhoc_gcal_twilio");
    reveal_strlit("/api/fulfill/");
    reveal_strlit("/api/fulfill/gcal-booking");
    reveal_strlit("/api/fulfill/adhoc-gcal-twilio");
    assert("gcal_booking"@ != "adhoc_gcal_twilio"@) by {
        assert("gcal_booking"@.len() != "adhoc_gcal_twilio"@.len());
    }
    assert("/api/fulfill/gcal-booking"@ != "/api/fulfill/adhoc-gcal-twilio"@) by {
        assert("/api/fulfill/gcal-booking"@.len() != "/api/fulfill/adhoc-gcal-twilio"@.len());
    }
    assert("/api/fulfill/gcal-booking"@ =~= "/api/fulfill/"@ + dashed("gcal_booking"@));
    assert("/api/fulfill/adhoc-gcal-twilio"@ =~= "/api/fulfill/"@ + dashed("adhoc_gcal_twilio"@));
}

/// A paid session whose webhook calls a fulfillment endpoint calls the one of its own
/// fulfillment type (the session's `ff_type`) on the configured server, with the shared
/// secret.
pub proof fn law_webhook_calls_its_endpoint(
    session: StripeCheckoutSessionObject,
    config: AppConfig,
    r: Result<WebhookAction, StripeError>,
)
    requires
        completed_action(session, config, r),
        r matches Ok(WebhookAction::CallFulfillment { .. }),
    ensures
        match r {
            Ok(WebhookAction::CallFulfillment { url, secret, body }) => match session.metadata {
                Some(m) => match lookup_spec(m@, "ff_type"@) {
                    Some(t) => url@ == "http://"@ + config.server.host@ + ":"@ + int_text(config.server.port as int)
                        + "/api/fulfill/"@ + dashed(t) && match shared_secret_of(config) {
                        Some(k) => secret@ == k@,
                        None => false,
                    },
                    None => false,
                },
                None => false,
            },
            _ => false,
        },
{
    let t = match session.metadata {
        Some(m) => lookup_spec(m@, "ff_type"@)->0,
        None => seq![],
    };
    law_fulfillment_endpoints(t, t);
}

fn metadata_value(m: &Option<Vec<(String, String)>>, name: &str) -> (r: Option<String>)
    ensures
        opt_view(r) == match m {
            Some(v) => lookup_spec(v@, name@),
            None => None,
        },
{
    match m {
        Some(v) => lookup(v, name),
        None => None,
    }
}

fn is_paid(status: &Option<String>) -> (b: bool)
    ensures
        b == (opt_view(*status) == Some("paid"@)),
{
    match status {
        Some(p) => same_text(p.as_str(), "paid"),
        None => false,
    }
}

/// Processes a verified Stripe event. `session` is the event's `data.object` read as a
/// Checkout Session, or the message of the error that reading it gave; it matters only
/// for `checkout.session.completed`, the one event type that leads to an action.
pub fn process_stripe_webhook(
    event_type: &str,
    session: Result<StripeCheckoutSessionObject, String>,
    app_config: &AppConfig,
) -> (r: Result<WebhookAction, StripeError>)
    ensures
        event_type@ != "checkout.session.completed"@ ==> r matches Ok(WebhookAction::Done),
        event_type@ == "checkout.session.completed"@ ==> match session {
            Err(e) => r matches Err(StripeError::WebhookProcessingError(x)) && x@
                == "Failed to parse checkout session object: "@ + e@,
            Ok(s) => completed_action(s, *app_config, r),
        },
{
    if !same_text(event_type, "checkout.session.completed") {
        return Ok(WebhookAction::Done);
    }
    let session = match session {
        Err(e) => {
            return Err(
                StripeError::WebhookProcessingError(concat("Failed to parse checkout session object: ", e.as_str())),
            );
        },
        Ok(s) => s,
    };
    if !is_paid(&session.payment_status) {
        return Ok(WebhookAction::Done);
    }
    let ff_type = metadata_value(&session.metadata, "ff_type");
    let ff_data = metadata_value(&session.metadata, "ff_data_json");
    let (t, d) = match (ff_type, ff_data) {
        (Some(t), Some(d)) => (t, d),
        _ => {
            return Err(StripeError::MissingFulfillmentData);
        },
    };
    let body = match json_rewrite(d.as_str()) {
        Err(e) => {
            return Err(StripeError::WebhookProcessingError(concat("Failed to parse ff_data_json: ", e.as_str())));
        },
        Ok(b) => b,
    };
    let secret = match &app_config.fulfillment {
        Some(f) => match &f.shared_secret {
            Some(s) => s.clone(),
            None => {
                return Err(StripeError::ConfigError);
            },
        },
        None => {
            return Err(StripeError::ConfigError);
        },
    };
    let path = if same_text(t.as_str(), "gcal_booking") {
        "/api/fulfill/gcal-booking"
    } else if same_text(t.as_str(), "adhoc_gcal_twilio") {
        "/api/fulfill/adhoc-gcal-twilio"
    } else {
        return Err(StripeError::WebhookProcessingError(concat("Unknown fulfillment type: ", t.as_str())));
    };
    let port = int_to_string(app_config.server.port as i128);
    let mut url = concat("http://", app_config.server.host.as_str());
    url.append(":");
    url.append(port.as_str());
    url.append(path);
    Ok(WebhookAction::CallFulfillment { url, secret, body })
}

/// What the call of the fulfillment service gave.
#[derive(Debug)]
pub enum FulfillmentReply {
    /// A reply with a success status.
    Success,
    /// A reply with another status: the status as text and the reply's body.
    Failed { status: String, body: String },
    /// The call could not be made: the error's message.
    Unreachable(String),
}

/// The outcome of a fulfillment call.
pub fn fulfillment_outcome(reply: FulfillmentReply) -> (r: Result<(), StripeError>)
    ensures
        match reply {
            FulfillmentReply::Success => r is Ok,
            FulfillmentReply::Failed { status, body } => r matches Err(StripeError::FulfillmentError(m)) && m@
                == "Fulfillment service call failed: "@ + status@ + " - "@ + body@,
            FulfillmentReply::Unreachable(e) => r matches Err(StripeError::FulfillmentError(m)) && m@
                == "Error calling fulfillment service: "@ + e@,
        },
{
    match reply {
        FulfillmentReply::Success => Ok(()),
        FulfillmentReply::Failed { status, body } => {
            let mut m = concat("Fulfillment service call failed: ", status.as_str());
            m.append(" - ");
            m.append(body.as_str());
            Err(StripeError::FulfillmentError(m))
        },
        FulfillmentReply::Unreachable(e) => Err(
            StripeError::FulfillmentError(concat("Error calling fulfillment service: ", e.as_str())),
        ),
    }
}


/// Whether the Stripe handlers may serve: Stripe enabled and configured.
pub open spec fn stripe_ready(config: AppConfig) -> bool {
    config.use_stripe && config.stripe is Some
}

/// The Stripe configuration that creating a Checkout Session uses, or the error that
/// answers the request when Stripe is disabled or not configured.
pub fn checkout_handler_config(config: &AppConfig) -> (r: Result<&StripeConfig, ConnectifyError>)
    ensures
        !config.use_stripe ==> (r matches Err(ConnectifyError::ConfigError(m)) && m@ == "Stripe service is disabled"@),
        config.use_stripe && config.stripe is None ==> (r matches Err(ConnectifyError::ConfigError(m)) && m@
            == "Stripe configuration not loaded"@),
        config.use_stripe && config.stripe is Some ==> (r matches Ok(c) && *c == config.stripe->0),
{
    if !config.use_stripe {
        return Err(ConnectifyError::ConfigError(owned("Stripe service is disabled")));
    }
    match &config.stripe {
        Some(c) => Ok(c),
        None => Err(ConnectifyError::ConfigError(owned("Stripe configuration not loaded"))),
    }
}

/// Checks an incoming webhook request before its event is read: Stripe must be enabled,
/// the webhook secret set, and the signature valid.
pub fn webhook_handler_check(
    config: &AppConfig,
    webhook_secret: Option<String>,
    body: &[u8],
    sig_header: Option<&str>,
) -> (r: Result<(), ConnectifyError>)
    ensures
        !config.use_stripe ==> (r matches Err(ConnectifyError::ConfigError(m)) && m@ == "Stripe service disabled"@),
        config.use_stripe && webhook_secret is None ==> (r matches Err(ConnectifyError::ConfigError(m)) && m@
            == "STRIPE_WEBHOOK_SECRET environment variable not set"@),
        config.use_stripe && webhook_secret is Some ==> match crate::stripe_signature::signature_verdict(
            body@,
            match sig_header {
                Some(h) => Some(h@),
                None => None,
            },
            webhook_secret->0@,
        ) {
            None => r is Ok,
            Some(m) => r matches Err(ConnectifyError::AuthError(x)) && x@ == "Stripe webhook signature error: "@
                + m,
        },
{
    if !config.use_stripe {
        return Err(ConnectifyError::ConfigError(owned("Stripe service disabled")));
    }
    let secret = match webhook_secret {
        None => {
            return Err(ConnectifyError::ConfigError(owned("STRIPE_WEBHOOK_SECRET environment variable not set")));
        },
        Some(s) => s,
    };
    match crate::stripe_signature::verify_stripe_signature(body, sig_header, secret.as_str()) {
        Ok(()) => Ok(()),
        Err(e) => Err(e.into_connectify()),
    }
}

/// The error that answers a webhook whose body is not a Stripe event.
pub fn invalid_webhook_payload(parse_error: &str) -> (e: ConnectifyError)
    ensures
        e matches ConnectifyError::ParseError(m) && m@ == "Invalid webhook payload: "@ + parse_error@,
{
    ConnectifyError::ParseError(concat("Invalid webhook payload: ", parse_error))
}

/// Where the browser goes after a successful checkout: the configured page with the
/// session id (`unknown_session` when none came).
pub fn checkout_success_redirect(stripe_config: &StripeConfig, params: StripeRedirectQuery) -> (url: String)
    ensures
        url@ == stripe_config.payment_success_url@ + "?session_id="@ + match params.session_id {
            Some(s) => s@,
            None => "unknown_session"@,
        },
{
    let id = match params.session_id {
        Some(s) => s,
        None => owned("unknown_session"),
    };
    let mut url = concat(stripe_config.payment_success_url.as_str(), "?session_id=");
    url.append(id.as_str());
    url
}

/// What must hold before sessions are read or listed: Stripe enabled and configured.
pub fn session_handler_check(config: &AppConfig) -> (r: Result<(), ConnectifyError>)
    ensures
        stripe_ready(*config) ==> r is Ok,
        !stripe_ready(*config) ==> (r matches Err(ConnectifyError::ConfigError(m)) && m@
            == "Stripe service not configured or disabled"@),
{
    if !config.use_stripe || config.stripe.is_none() {
        Err(ConnectifyError::ConfigError(owned("Stripe service not configured or disabled")))
    } else {
        Ok(())
    }
}

/// A payment as the payment service reports it.
#[derive(Debug)]
pub struct PaymentIntentResult {
    pub id: String,
    pub status: String,
    pub amount: i64,
    pub currency: String,
    pub client_secret: Option<String>,
}

/// The checkout request through which the payment service creates a payment: a
/// `payment` fulfillment with the amount, currency and description as overrides.
pub fn payment_intent_request(
    amount: i64,
    currency: &str,
    description: Option<String>,
    metadata: Option<String>,
) -> (r: CreateCheckoutSessionRequest)
    ensures
        r.product_name_override == description,
        r.amount_override == Some(amount),
        r.currency_override matches Some(c) && c@ == currency@,
        r.fulfillment_type@ == "payment"@,
        r.fulfillment_data@ == match metadata {
            Some(m) => m@,
            None => "null"@,
        },
        r.client_reference_id is None,
{
    CreateCheckoutSessionRequest {
        product_name_override: description,
        amount_override: Some(amount),
        currency_override: Some(owned(currency)),
        fulfillment_type: owned("payment"),
        fulfillment_data: match metadata {
            Some(m) => m,
            None => owned("null"),
        },
        client_reference_id: None,
    }
}

/// Creates a payment through a Checkout Session: the Stripe configuration must be
/// present, then the checkout is prepared as for any request.
pub fn create_payment_intent(
    config: &AppConfig,
    amount: i64,
    currency: &str,
    description: Option<String>,
    metadata: Option<String>,
    secret_key: Option<String>,
) -> (r: Result<StripeCall, StripeError>)
    ensures
        config.stripe is None ==> r matches Err(StripeError::ConfigError),
        config.stripe is Some && secret_key is None ==> r matches Err(StripeError::ConfigError),
        config.stripe is Some && secret_key is Some ==> (r matches Err(StripeError::InvalidFulfillmentDataForPricing(m))
            && m@ == "Unsupported fulfillment_type for dynamic pricing: payment"@),
{
    let request = payment_intent_request(amount, currency, description, metadata);
    match &config.stripe {
        None => Err(StripeError::ConfigError),
        Some(c) => {
            let r = create_checkout_session(c, &request, secret_key);
            proof {
                reveal_strlit("payment");
                reveal_strlit("gcal_booking");
                reveal_strlit("adhoc_gcal_twilio");
                reveal_strlit("Unsupported fulfillment_type for dynamic pricing: ");
                reveal_strlit("Unsupported fulfillment_type for dynamic pricing: payment");
                assert("payment"@.len() != "gcal_booking"@.len());
                assert("payment"@.len() != "adhoc_gcal_twilio"@.len());
                assert("Unsupported fulfillment_type for dynamic pricing: "@ + "payment"@
                    =~= "Unsupported fulfillment_type for dynamic pricing: payment"@);
            }
            r
        },
    }
}

/// The payment that a created Checkout Session stands for.
pub fn payment_intent_result(session_id: String, amount: i64, currency: &str) -> (r: PaymentIntentResult)
    ensures
        r.id == session_id,
        r.status@ == "created"@,
        r.amount == amount,
        r.currency@ == currency@,
        r.client_secret is None,
{
    PaymentIntentResult {
        id: session_id,
        status: owned("created"),
        amount,
        currency: owned(currency),
        client_secret: None,
    }
}

/// `confirm_payment_intent` is not offered: a 501 `ApiError` naming the payment.
pub fn confirm_payment_intent(payment_intent_id: &str) -> (e: StripeError)
    ensures
        e matches StripeError::ApiError { status_code, message } && status_code == 501 && message@
            == "Not implemented: confirm_payment_intent for "@ + payment_intent_id@,
{
    StripeError::ApiError {
        status_code: 501,
        message: concat("Not implemented: confirm_payment_intent for ", payment_intent_id),
    }
}

/// `cancel_payment_intent` is not offered: a 501 `ApiError` naming the payment.
pub fn cancel_payment_intent(payment_intent_id: &str) -> (e: StripeError)
    ensures
        e matches StripeError::ApiError { status_code, message } && status_code == 501 && message@
            == "Not implemented: cancel_payment_intent for "@ + payment_intent_id@,
{
    StripeError::ApiError {
        status_code: 501,
        message: concat("Not implemented: cancel_payment_intent for ", payment_intent_id),
    }
}


/// The `{:?}` text of an optional string: `None`, or `Some(` and the string quoted and
/// escaped as `str`'s `Debug` writes it, then `)`.
pub uninterp spec fn debug_opt_text(o: Option<Seq<char>>) -> Seq<char>;

/// `format!("{:?}", o)` of an `Option<&str>`; the result is named.
#[verifier::external_body]
fn debug_opt_str(o: Option<&str>) -> (r: String)
    ensures
        r@ == debug_opt_text(
            match o {
                Some(s) => Some(s@),
                None => None,
            },
        ),
{
    format!("{:?}", o)
}

/// The `{:?}` text of an optional integer.
pub open spec fn debug_opt_int(o: Option<i64>) -> Seq<char> {
    match o {
        Some(v) => "Some("@ + int_text(v as int) + ")"@,
        None => "None"@,
    }
}

/// `create_refund` is not offered: a 501 `ApiError` naming the payment, amount and reason.
pub fn create_refund(payment_intent_id: &str, amount: Option<i64>, reason: Option<&str>) -> (e: StripeError)
    ensures
        e matches StripeError::ApiError { status_code, message } && status_code == 501 && message@
            == "Not implemented: create_refund for "@ + payment_intent_id@ + " with amount "@
            + debug_opt_int(amount) + " and reason "@ + debug_opt_text(
            match reason {
                Some(s) => Some(s@),
                None => None,
            },
        ),
{
    let mut m = concat("Not implemented: create_refund for ", payment_intent_id);
    m.append(" with amount ");
    match amount {
        Some(v) => {
            let t = int_to_string(v as i128);
            m.append("Some(");
            m.append(t.as_str());
            m.append(")");
        },
        None => m.append("None"),
    }
    m.append(" and reason ");
    let r = debug_opt_str(reason);
    m.append(r.as_str());
    StripeError::ApiError { status_code: 501, message: m }
}


/// The OpenAPI description of the Stripe endpoints (its contents are generated for the server).
#[derive(Debug)]
pub struct StripeApiDoc;

} // verus!
