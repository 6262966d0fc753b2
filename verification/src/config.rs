//! The service's configuration, as the handlers read it.
use vstd::prelude::*;

verus! {

/// A price for appointments of one length.
#[derive(Debug)]
pub struct PriceTier {
    pub duration_minutes: i64,
    pub unit_amount: i64,
    pub currency: Option<String>,
    pub product_name: Option<String>,
}

#[derive(Debug)]
pub struct StripeConfig {
    pub success_url: String,
    pub cancel_url: String,
    pub unit_amount: Option<i64>,
    pub product_name: Option<String>,
    pub payment_success_url: String,
    pub price_tiers: Vec<PriceTier>,
    pub default_currency: Option<String>,
}

#[derive(Debug)]
pub struct PayrexxConfig {
    pub instance_name: String,
    pub unit_amount: Option<i64>,
    pub currency: Option<String>,
    pub product_name: Option<String>,
    pub success_url: String,
    pub failed_url: String,
    pub cancel_url: String,
}

#[derive(Debug)]
pub struct TwilioConfig {
    pub account_sid: String,
    pub auth_token: String,
    pub phone_number: String,
    pub api_key_sid: String,
    pub api_key_secret: String,
}

#[derive(Debug)]
pub struct GcalConfig {
    pub calendar_id: Option<String>,
    pub key_path: Option<String>,
    pub time_slot_duration: Option<i64>,
    pub preparation_time_minutes: Option<i64>,
    pub time_zone: Option<String>,
    pub working_days: Option<Vec<String>>,
    pub work_start_time: Option<String>,
    pub work_end_time: Option<String>,
}

#[derive(Debug)]
pub struct ServerConfig {
    pub host: String,
    pub port: u16,
}

#[derive(Debug)]
pub struct DatabaseConfig {
    pub url: String,
}

#[derive(Debug)]
pub struct FulfillmentConfig {
    pub shared_secret: Option<String>,
}

#[derive(Debug)]
pub struct AppConfig {
    pub use_gcal: bool,
    pub use_stripe: bool,
    pub use_twilio: bool,
    pub use_payrexx: bool,
    pub use_fulfillment: bool,
    pub use_calendly: bool,
    pub use_adhoc: bool,
    pub server: ServerConfig,
    pub database: Option<DatabaseConfig>,
    pub gcal: Option<GcalConfig>,
    pub stripe: Option<StripeConfig>,
    pub twilio: Option<TwilioConfig>,
    pub payrexx: Option<PayrexxConfig>,
    pub fulfillment: Option<FulfillmentConfig>,
}

/// Index of the first tier for the given length.
pub open spec fn first_tier(tiers: Seq<PriceTier>, minutes: int) -> Option<int>
    decreases tiers.len(),
{
    if tiers.len() == 0 {
        None
    } else {
        match first_tier(tiers.drop_last(), minutes) {
            Some(i) => Some(i),
            None => if tiers.last().duration_minutes == minutes {
                Some(tiers.len() - 1)
            } else {
                None
            },
        }
    }
}

proof fn lemma_first_tier(tiers: Seq<PriceTier>, minutes: int, i: int)
    requires
        0 <= i < tiers.len(),
        tiers[i].duration_minutes == minutes,
        forall|k: int| 0 <= k < i ==> (#[trigger] tiers[k]).duration_minutes != minutes,
    ensures
        first_tier(tiers, minutes) == Some(i),
    decreases tiers.len(),
{
    if i < tiers.len() - 1 {
        lemma_first_tier(tiers.drop_last(), minutes, i);
    } else {
        lemma_no_tier(tiers.drop_last(), minutes);
    }
}

proof fn lemma_no_tier(tiers: Seq<PriceTier>, minutes: int)
    requires
        forall|k: int| 0 <= k < tiers.len() ==> (#[trigger] tiers[k]).duration_minutes != minutes,
    ensures
        first_tier(tiers, minutes) is None,
    decreases tiers.len(),
{
    if tiers.len() > 0 {
        lemma_no_tier(tiers.drop_last(), minutes);
    }
}

/// The first price tier whose length is `minutes`.
pub fn find_price_tier(tiers: &Vec<PriceTier>, minutes: i64) -> (r: Option<usize>)
    ensures
        first_tier(tiers@, minutes as int) == match r {
            Some(i) => Some(i as int),
            None => None::<int>,
        },
        r matches Some(i) ==> i < tiers@.len() && tiers@[i as int].duration_minutes == minutes,
{
    let mut i: usize = 0;
    while i < tiers.len()
        invariant
            0 <= i <= tiers@.len(),
            forall|k: int| 0 <= k < i ==> (#[trigger] tiers@[k]).duration_minutes != minutes,
        decreases tiers@.len() - i,
    {
        if tiers[i].duration_minutes == minutes {
            proof {
                lemma_first_tier(tiers@, minutes as int, i as int);
            }
            return Some(i);
        }
        i += 1;
    }
    proof {
        lemma_no_tier(tiers@, minutes as int);
    }
    None
}

} // verus!
