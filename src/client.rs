//! The two query strategies of the billing service: the requests they send
//! and how their answers become a [`BalanceData`] or an error. Sending the
//! requests is left to the caller.

use vstd::prelude::*;
use vstd::string::StringExecFns;
use crate::api::{
    spec_from_billing, spec_from_user_self, ApiConfig, BalanceData, SubscriptionResponse,
    UsageResponse, UserSelfApiResponse,
};

verus! {

/// Why one tier of the resolution gave no balance.
#[derive(Clone, Debug, PartialEq, Eq)]
pub enum BalanceError {
    /// No credential or no address to scope a balance to.
    NotConfigured,
    /// The connection failed or timed out.
    TransportFailure,
    /// The service answered with a logical failure and this message.
    UpstreamRejected(String),
    /// The service reported success without a payload.
    MissingPayload,
    /// The answer was not the expected document.
    ParseFailure,
    /// The durable store could not be read or written.
    PersistenceFailure,
}

/// Seconds that each request may take.
pub const TIMEOUT_SECS: u64 = 5;

/// One GET request: the address and the headers, in order.
#[derive(Clone, Debug)]
pub struct HttpRequest {
    pub url: String,
    pub headers: Vec<(String, String)>,
}

/// `s` without the slashes at its end.
pub open spec fn trim_slashes(s: Seq<char>) -> Seq<char>
    decreases s.len(),
{
    if s.len() > 0 && s.last() == '/' {
        trim_slashes(s.drop_last())
    } else {
        s
    }
}

/// Relies on str::trim_end_matches: every trailing '/' is removed.
#[verifier::external_body]
pub(crate) fn trim_trailing_slashes(s: &str) -> (r: String)
    ensures
        r@ == trim_slashes(s@),
{
    s.trim_end_matches('/').to_string()
}

/// The address of `path` on the service at `base`.
pub open spec fn endpoint(base: Seq<char>, path: Seq<char>) -> Seq<char> {
    trim_slashes(base) + path
}

/// The value of an authorization header that carries `token`.
pub open spec fn bearer(token: Seq<char>) -> Seq<char> {
    "Bearer "@ + token
}

pub open spec fn subscription_path() -> Seq<char> {
    "/v1/dashboard/billing/subscription"@
}

pub open spec fn usage_path() -> Seq<char> {
    "/v1/dashboard/billing/usage"@
}

pub open spec fn user_self_path() -> Seq<char> {
    "/api/user/self"@
}

pub open spec fn authorization() -> Seq<char> {
    "Authorization"@
}

pub open spec fn user_header() -> Seq<char> {
    "New-Api-User"@
}

fn bearer_value(token: &String) -> (r: String)
    ensures
        r@ == bearer(token@),
{
    let mut v = String::from_str("Bearer ");
    v.append(token.as_str());
    v
}

fn endpoint_url(base: &String, path: &str) -> (r: String)
    ensures
        r@ == endpoint(base@, path@),
{
    let mut url = trim_trailing_slashes(base.as_str());
    url.append(path);
    url
}

/// Client of the billing service for one configuration.
pub struct ApiClient {
    pub config: ApiConfig,
}

impl ApiClient {
    pub fn new(config: ApiConfig) -> (r: ApiClient)
        ensures
            r.config == config,
    {
        ApiClient { config }
    }

    /// Whether the billing strategy may run: enabled and with a credential.
    pub fn is_configured(&self) -> (r: bool)
        ensures
            r == (self.config.enabled && self.config.api_key@.len() > 0),
    {
        self.config.enabled && !self.config.api_key.as_str().is_empty()
    }

    /// The subscription lookup, with the API credential.
    pub fn subscription_request(&self) -> (r: HttpRequest)
        ensures
            r.url@ == endpoint(self.config.api_base_url@, subscription_path()),
            r.headers@.len() == 1,
            r.headers@[0].0@ == authorization(),
            r.headers@[0].1@ == bearer(self.config.api_key@),
    {
        let url = endpoint_url(&self.config.api_base_url, "/v1/dashboard/billing/subscription");
        let mut headers: Vec<(String, String)> = Vec::new();
        headers.push((String::from_str("Authorization"), bearer_value(&self.config.api_key)));
        proof { reveal_strlit("/v1/dashboard/billing/subscription"); reveal_strlit("Authorization"); }
        HttpRequest { url, headers }
    }

    /// The usage lookup, with the API credential.
    pub fn usage_request(&self) -> (r: HttpRequest)
        ensures
            r.url@ == endpoint(self.config.api_base_url@, usage_path()),
            r.headers@.len() == 1,
            r.headers@[0].0@ == authorization(),
            r.headers@[0].1@ == bearer(self.config.api_key@),
    {
        let url = endpoint_url(&self.config.api_base_url, "/v1/dashboard/billing/usage");
        let mut headers: Vec<(String, String)> = Vec::new();
        headers.push((String::from_str("Authorization"), bearer_value(&self.config.api_key)));
        HttpRequest { url, headers }
    }

    /// The account-quota lookup, with the account's access token and the
    /// account id (`user_id`, in decimal) as a second header.
    pub fn user_self_request(&self, access_token: &String, user_id: &String) -> (r: HttpRequest)
        ensures
            r.url@ == endpoint(self.config.api_base_url@, user_self_path()),
            r.headers@.len() == 2,
            r.headers@[0].0@ == authorization(),
            r.headers@[0].1@ == bearer(access_token@),
            r.headers@[1].0@ == user_header(),
            r.headers@[1].1@ == user_id@,
    {
        let url = endpoint_url(&self.config.api_base_url, "/api/user/self");
        let mut headers: Vec<(String, String)> = Vec::new();
        headers.push((String::from_str("Authorization"), bearer_value(access_token)));
        headers.push((String::from_str("New-Api-User"), user_id.clone()));
        HttpRequest { url, headers }
    }

    /// Interprets the account-quota answer: it must report success and
    /// carry a payload, which is normalized with the configured rates.
    pub fn get_user_self_balance(
        &self,
        answer: Result<UserSelfApiResponse, BalanceError>,
        quota_per_unit: u64,
        exchange_rate_micro: u32,
    ) -> (r: Result<BalanceData, BalanceError>)
        requires
            quota_per_unit > 0,
        ensures
            match answer {
                Err(e) => r == Err::<BalanceData, BalanceError>(e),
                Ok(resp) => if !resp.success {
                    r == Err::<BalanceData, BalanceError>(BalanceError::UpstreamRejected(resp.message))
                } else {
                    match resp.data {
                        None => r == Err::<BalanceData, BalanceError>(BalanceError::MissingPayload),
                        Some(data) => r == Ok::<BalanceData, BalanceError>(
                            spec_from_user_self(data, quota_per_unit as int, exchange_rate_micro as int),
                        ),
                    }
                },
            },
    {
        match answer {
            Err(e) => Err(e),
            Ok(resp) => {
                if !resp.success {
                    return Err(BalanceError::UpstreamRejected(resp.message));
                }
                match resp.data {
                    None => Err(BalanceError::MissingPayload),
                    Some(data) => Ok(BalanceData::from_user_self(&data, quota_per_unit, exchange_rate_micro)),
                }
            },
        }
    }

    /// Interprets the two billing answers: without a configured credential
    /// the strategy is not configured; else both answers are needed, the
    /// subscription's error coming first.
    pub fn get_balance(
        &self,
        subscription: Result<SubscriptionResponse, BalanceError>,
        usage: Result<UsageResponse, BalanceError>,
    ) -> (r: Result<BalanceData, BalanceError>)
        ensures
            !(self.config.enabled && self.config.api_key@.len() > 0)
                ==> r == Err::<BalanceData, BalanceError>(BalanceError::NotConfigured),
            (self.config.enabled && self.config.api_key@.len() > 0) ==> match (subscription, usage) {
                (Err(e), _) => r == Err::<BalanceData, BalanceError>(e),
                (Ok(_), Err(e)) => r == Err::<BalanceData, BalanceError>(e),
                (Ok(s), Ok(u)) => r == Ok::<BalanceData, BalanceError>(
                    spec_from_billing(s.hard_limit_micro as int, u.total_usage_micro as int),
                ),
            },
    {
        if !self.is_configured() {
            return Err(BalanceError::NotConfigured);
        }
        match subscription {
            Err(e) => Err(e),
            Ok(s) => match usage {
                Err(e) => Err(e),
                Ok(u) => Ok(BalanceData::from_billing(&s, &u)),
            },
        }
    }
}

} // verus!
