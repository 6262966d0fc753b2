//! Twilio: sending SMS, signed video access tokens, and the notification service's
//! answers.
use vstd::prelude::*;
use crate::config::{AppConfig, TwilioConfig};
use crate::payrexx::HttpAnswer;
use crate::stripe::{pairs_view, push_pair, success_status};
use crate::stripe_signature::{parse_i64, parse_i64_chars};
use crate::text::{chars_of, concat, int_text, int_to_string, owned};
use crate::time::{clock_now, utc_seconds, MAX_SECS, MIN_SECS};
use crate::stripe::opt_view;
use jsonwebtoken::{encode, Algorithm, EncodingKey, Header};
use serde_json::Value;

verus! {

#[derive(Debug)]
pub enum TwilioError {
    /// The request could not be sent or its reply not read (the message of the error).
    RequestError(String),
    ApiError { status_code: u16, message: String },
    ConfigError,
    InternalError(String),
}

#[derive(Debug)]
pub struct SmsRequest {
    pub to: String,
    pub message: String,
}

#[derive(Debug)]
pub struct SmsResponse {
    pub success: bool,
    pub message: String,
}

/// A message to send through the Twilio API: the URL, the account's credentials, and the
/// form (`To`, `From`, `Body`).
#[derive(Debug)]
pub struct TwilioCall {
    pub url: String,
    pub account_sid: String,
    pub auth_token: String,
    pub params: Vec<(String, String)>,
}

pub open spec fn sms_url_spec(account_sid: Seq<char>) -> Seq<char> {
    "https://api.twilio.com/2010-04-01/Accounts/"@ + account_sid + "/Messages.json"@
}

/// Prepares an SMS: Twilio must be enabled (else 503 "Twilio disabled"); the message goes
/// from the configured number.
pub fn send_sms(config: &AppConfig, request: &SmsRequest) -> (r: Result<TwilioCall, HttpAnswer>)
    requires
        config.twilio is Some,
    ensures
        !config.use_twilio ==> (r matches Err(a) && a.0 == 503 && a.1@ == "Twilio disabled"@),
        config.use_twilio ==> (r matches Ok(call) && call.url@ == sms_url_spec(config.twilio->0.account_sid@)
            && call.account_sid == config.twilio->0.account_sid && call.auth_token
            == config.twilio->0.auth_token && pairs_view(call.params@) == seq![
            ("To"@, request.to@),
            ("From"@, config.twilio->0.phone_number@),
            ("Body"@, request.message@),
        ]),
{
    let twilio_config = match &config.twilio {
        Some(c) => c,
        None => {
            return Err((500, owned("Twilio configuration section missing in server config.")));
        },
    };
    if !config.use_twilio {
        return Err((503, owned("Twilio disabled")));
    }
    let mut url = concat("https://api.twilio.com/2010-04-01/Accounts/", twilio_config.account_sid.as_str());
    url.append("/Messages.json");
    let mut params: Vec<(String, String)> = Vec::new();
    assert(pairs_view(params@) =~= seq![]);
    push_pair(&mut params, "To", request.to.clone());
    push_pair(&mut params, "From", twilio_config.phone_number.clone());
    push_pair(&mut params, "Body", request.message.clone());
    Ok(
        TwilioCall {
            url,
            account_sid: twilio_config.account_sid.clone(),
            auth_token: twilio_config.auth_token.clone(),
            params,
        },
    )
}

/// What sending an SMS gave.
#[derive(Debug)]
pub enum SmsReply {
    /// The request could not be sent: the error's message.
    Unreachable(String),
    /// Twilio answered: the status, as a number and as `StatusCode` displays it, and the body.
    Answered { status: u16, status_text: String, body: String },
}

/// The answer of the SMS handler from what sending gave.
pub fn sms_outcome(reply: SmsReply) -> (r: Result<SmsResponse, HttpAnswer>)
    ensures
        match reply {
            SmsReply::Unreachable(e) => r matches Err(a) && a.0 == 500 && a.1@ == "HTTP error sending SMS: "@ + e@,
            SmsReply::Answered { status, status_text, body } => if success_status(status) {
                r matches Ok(x) && x.success && x.message@ == "SMS sent successfully"@
            } else {
                r matches Err(a) && a.0 == 500 && a.1@ == "Twilio error "@ + status_text@ + ": "@ + body@
            },
        },
{
    match reply {
        SmsReply::Unreachable(e) => Err((500, concat("HTTP error sending SMS: ", e.as_str()))),
        SmsReply::Answered { status, status_text, body } => {
            if 200 <= status && status <= 299 {
                Ok(SmsResponse { success: true, message: owned("SMS sent successfully") })
            } else {
                let mut m = concat("Twilio error ", status_text.as_str());
                m.append(": ");
                m.append(body.as_str());
                Err((500, m))
            }
        },
    }
}

#[derive(Debug)]
pub struct TokenRequestQuery {
    pub identity: String,
    pub room_name: String,
}

#[derive(Debug)]
pub struct TokenResponse {
    pub token: String,
}

/// The claims of a video access token: the account (`sub`), the API key (`iss`), the
/// expiry in seconds since the epoch, a unique id, the identity and the room.
#[derive(Debug)]
pub struct TokenClaims {
    pub sub: String,
    pub iss: String,
    pub exp: i64,
    pub jti: String,
    pub identity: String,
    pub room: Option<String>,
}

/// How long a token lives: `TOKEN_EXPIRY` read as an `i64`, else an hour.
pub open spec fn expiry_spec(expiry_text: Option<String>) -> int {
    match expiry_text {
        Some(t) => match parse_i64(t@) {
            Some(v) => v,
            None => 3600,
        },
        None => 3600,
    }
}

/// Whether `chrono` can add the expiry to the clock: `Duration::seconds` takes at most
/// `i64::MAX / 1000` seconds either way, and the sum must stay a `DateTime`.
pub open spec fn expiry_fits(expiry: int, utc_now: int) -> bool {
    -9_223_372_036_854_775 <= expiry <= 9_223_372_036_854_775 && MIN_SECS <= utc_now + expiry <= MAX_SECS
}

pub fn token_expiry(expiry_text: &Option<String>) -> (e: i64)
    ensures
        e as int == expiry_spec(*expiry_text),
{
    match expiry_text {
        Some(t) => {
            let cs = chars_of(t.as_str());
            match parse_i64_chars(&cs) {
                Some(v) => v,
                None => 3600,
            }
        },
        None => 3600,
    }
}

/// The claims of a token issued at `now_secs` (the system clock) and `utc_now` (the
/// `chrono` clock), both in seconds since the epoch.
pub fn token_claims_at(
    twilio: &TwilioConfig,
    query: &TokenRequestQuery,
    expiry_text: &Option<String>,
    now_secs: u64,
    utc_now: i64,
) -> (c: TokenClaims)
    requires
        expiry_fits(expiry_spec(*expiry_text), utc_now as int),
    ensures
        c.sub == twilio.account_sid,
        c.iss == twilio.api_key_sid,
        c.exp == utc_now + expiry_spec(*expiry_text),
        c.jti@ == twilio.api_key_sid@ + "-"@ + int_text(now_secs as int),
        c.identity == query.identity,
        c.room matches Some(r) && r == query.room_name,
{
    let expiry = token_expiry(expiry_text);
    let stamp = int_to_string(now_secs as i128);
    let mut jti = concat(twilio.api_key_sid.as_str(), "-");
    jti.append(stamp.as_str());
    TokenClaims {
        sub: twilio.account_sid.clone(),
        iss: twilio.api_key_sid.clone(),
        exp: utc_now + expiry,
        jti,
        identity: query.identity.clone(),
        room: Some(query.room_name.clone()),
    }
}

/// The access token that `jsonwebtoken::encode` makes of a video grant: HS256 under the
/// secret, with the header's `cty` set to `twilio-fpa;v=1` (and `typ` `JWT`), and as
/// claims `sub`, `iss`, `exp`, `jti` and `grants` (the identity, and `video` with the
/// room).
pub uninterp spec fn video_token(
    sub: Seq<char>,
    iss: Seq<char>,
    exp: int,
    jti: Seq<char>,
    identity: Seq<char>,
    room: Option<Seq<char>>,
    secret: Seq<char>,
) -> Seq<char>;

/// Signs the claims with `jsonwebtoken::encode` (jsonwebtoken 9.3): HS256, a key made
/// by `EncodingKey::from_secret` of the secret's bytes, the header of `Header::new` with
/// `cty` added. The claims go in as a `serde_json` object, whose members serialize in
/// the order of their names; `exp` as `usize`. The contract names the token. `encode`
/// fails only where the key's family differs from the algorithm's (both HMAC here), a
/// part does not serialize (a `Header` and a JSON value always do) or signing fails (HMAC
/// signing always returns a tag), so its error arm is never taken.
#[verifier::external_body]
pub(crate) fn sign_video_token(claims: &TokenClaims, secret: &str) -> (t: String)
    ensures
        t@ == video_token(claims.sub@, claims.iss@, claims.exp as int, claims.jti@, claims.identity@, opt_view(claims.room), secret@),
{
    let video = Value::from_iter([("room", claims.room.clone())]);
    let grants = Value::from_iter([("identity", Value::from(claims.identity.clone())), ("video", video)]);
    let body = Value::from_iter([
        ("sub", Value::from(claims.sub.clone())), ("iss", Value::from(claims.iss.clone())),
        ("exp", Value::from(claims.exp as usize)), ("jti", Value::from(claims.jti.clone())), ("grants", grants),
    ]);
    let mut header = Header::new(Algorithm::HS256);
    header.cty = Some("twilio-fpa;v=1".to_string());
    encode(&header, &body, &EncodingKey::from_secret(secret.as_bytes())).unwrap_or_default()
}

/// The token handler at a given time: the Twilio section must be configured (else 500)
/// and Twilio enabled (else 503); then the token for a clock read as `now_secs` (the
/// system clock, for the token's id) and `utc_now` (`chrono`'s clock, for its expiry).
/// `None` where `chrono` cannot add the expiry to the clock.
pub fn token_at(
    config: &AppConfig,
    query: &TokenRequestQuery,
    expiry_text: &Option<String>,
    now_secs: u64,
    utc_now: i64,
) -> (r: Option<Result<TokenResponse, HttpAnswer>>)
    ensures
        config.twilio is None ==> (r matches Some(Err(a)) && a.0 == 500 && a.1@
            == "Twilio configuration section missing in server config."@),
        config.twilio is Some && !config.use_twilio ==> (r matches Some(Err(a)) && a.0 == 503 && a.1@
            == "Twilio service is disabled by configuration."@),
        config.twilio is Some && config.use_twilio ==> (r is None <==> !expiry_fits(
            expiry_spec(*expiry_text),
            utc_now as int,
        )),
        config.twilio matches Some(tw) ==> (config.use_twilio && expiry_fits(expiry_spec(*expiry_text), utc_now as int)
            ==> (r matches Some(Ok(t)) && t.token@ == video_token(
            tw.account_sid@,
            tw.api_key_sid@,
            utc_now + expiry_spec(*expiry_text),
            tw.api_key_sid@ + "-"@ + int_text(now_secs as int),
            query.identity@,
            Some(query.room_name@),
            tw.api_key_secret@,
        ))),
{
    let twilio = match &config.twilio {
        None => {
            return Some(Err((500, owned("Twilio configuration section missing in server config."))));
        },
        Some(t) => t,
    };
    if !config.use_twilio {
        return Some(Err((503, owned("Twilio service is disabled by configuration."))));
    }
    let expiry = token_expiry(expiry_text);
    if expiry < -9_223_372_036_854_775 || expiry > 9_223_372_036_854_775 {
        return None;
    }
    let sum = utc_now as i128 + expiry as i128;
    if sum < MIN_SECS as i128 || sum > MAX_SECS as i128 {
        return None;
    }
    let claims = token_claims_at(twilio, query, expiry_text, now_secs, utc_now);
    let token = sign_video_token(&claims, twilio.api_key_secret.as_str());
    Some(Ok(TokenResponse { token }))
}

/// The token handler: reads the system clock for the token's id, then `chrono`'s clock
/// for its expiry, and answers as `token_at` does for those readings. `None` where a
/// clock cannot be read (before the epoch, or past `DateTime`'s range) or the expiry
/// cannot be added to it.
pub fn generate_token(config: &AppConfig, query: &TokenRequestQuery, expiry_text: &Option<String>) -> (r: Option<Result<TokenResponse, HttpAnswer>>)
    ensures
        config.twilio is None ==> (r matches Some(Err(a)) && a.0 == 500 && a.1@
            == "Twilio configuration section missing in server config."@),
        config.twilio is Some && !config.use_twilio ==> (r matches Some(Err(a)) && a.0 == 503 && a.1@
            == "Twilio service is disabled by configuration."@),
        config.twilio matches Some(tw) ==> (config.use_twilio ==> match r {
            Some(Ok(t)) => exists|now: u64, utc: i64| #[trigger] expiry_fits(expiry_spec(*expiry_text), utc as int)
                && t.token@ == #[trigger] video_token(
                tw.account_sid@,
                tw.api_key_sid@,
                utc + expiry_spec(*expiry_text),
                tw.api_key_sid@ + "-"@ + int_text(now as int),
                query.identity@,
                Some(query.room_name@),
                tw.api_key_secret@,
            ),
            Some(Err(_)) => false,
            None => true,
        }),
{
    if config.twilio.is_none() || !config.use_twilio {
        return token_at(config, query, expiry_text, 0, 0);
    }
    let now = match clock_now() {
        None => {
            return None;
        },
        Some(c) => c.0,
    };
    let utc = match clock_now() {
        None => {
            return None;
        },
        Some(c) => match utc_seconds(c.0, c.1) {
            None => {
                return None;
            },
            Some(s) => s,
        },
    };
    token_at(config, query, expiry_text, now, utc)
}

/// The notification service sends no e-mail: a 501 `ApiError`.
pub fn send_email(to: &str, subject: &str) -> (e: TwilioError)
    ensures
        e matches TwilioError::ApiError { status_code, message } && status_code == 501 && message@
            == "Not implemented: send_email to "@ + to@ + " with subject "@ + subject@,
{
    let mut m = concat("Not implemented: send_email to ", to);
    m.append(" with subject ");
    m.append(subject);
    TwilioError::ApiError { status_code: 501, message: m }
}

/// The notification service's SMS is not offered: a 501 `ApiError`.
pub fn notification_sms(to: &str, body: &str) -> (e: TwilioError)
    ensures
        e matches TwilioError::ApiError { status_code, message } && status_code == 501 && message@
            == "Not implemented: send_sms to "@ + to@ + " with body "@ + body@,
{
    let mut m = concat("Not implemented: send_sms to ", to);
    m.append(" with body ");
    m.append(body);
    TwilioError::ApiError { status_code: 501, message: m }
}


/// The OpenAPI description of the Twilio endpoints (its contents are generated for the server).
#[derive(Debug)]
pub struct TwilioApiDoc;

} // verus!
