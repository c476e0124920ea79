//! Account-level settings, kept in a local file by the setup wizard.

use vstd::prelude::*;
use vstd::string::StringExecFns;
use crate::api::{dec_digits, push_char, push_decimal, DEFAULT_EXCHANGE_RATE_MICRO, DEFAULT_QUOTA_PER_UNIT};

verus! {

/// Settings of the balance display. The exchange rate is in millionths.
#[derive(Clone, Debug)]
pub struct BalanceConfig {
    pub api_key: String,
    /// Kept for files of earlier versions; not used.
    pub user_id: Option<String>,
    /// Access token of the user account, for the account-quota strategy.
    pub access_token: Option<String>,
    /// Id of the user account, sent with the access token.
    pub new_api_user_id: Option<i64>,
    pub exchange_rate_micro: Option<u32>,
    pub quota_per_unit: Option<u64>,
}

/// What the account-quota strategy needs.
#[derive(Clone, Debug)]
pub struct AccountQuota {
    pub access_token: String,
    /// The account id in decimal, as the request header carries it.
    pub user_id: String,
    pub quota_per_unit: u64,
    pub exchange_rate_micro: u32,
}

/// Decimal notation of a signed integer.
pub open spec fn int_text(v: int) -> Seq<char> {
    if v < 0 {
        seq!['-'] + dec_digits((-v) as nat)
    } else {
        dec_digits(v as nat)
    }
}

/// Writes `v` in decimal.
pub fn decimal_text(v: i64) -> (r: String)
    ensures
        r@ == int_text(v as int),
{
    let mut s = String::new();
    if v < 0 {
        push_char(&mut s, '-');
        push_decimal(&mut s, ((-(v as i128)) as u128));
    } else {
        push_decimal(&mut s, v as u128);
    }
    assert(s@ =~= int_text(v as int));
    s
}

impl BalanceConfig {
    /// The service's address.
    pub fn api_base_url() -> (r: String)
        ensures
            r@ == crate::api::default_base_url(),
    {
        String::from_str("https://e-flowcode.cc")
    }

    /// Whether the account-quota strategy is configured: it needs the access
    /// token and the account id, and a nonzero number of quota units per
    /// currency unit (the default when none is set).
    pub open spec fn has_account_quota(&self) -> bool {
        &&& self.access_token is Some
        &&& self.new_api_user_id is Some
        &&& (self.quota_per_unit is None || self.quota_per_unit->0 > 0)
    }

    /// The account-quota settings, with the defaults for an unset rate.
    pub fn account_quota(&self) -> (r: Option<AccountQuota>)
        ensures
            r is Some == self.has_account_quota(),
            r matches Some(a) ==> {
                &&& a.access_token == self.access_token->0
                &&& a.user_id@ == int_text(self.new_api_user_id->0 as int)
                &&& a.quota_per_unit == match self.quota_per_unit {
                    Some(q) => q,
                    None => DEFAULT_QUOTA_PER_UNIT,
                }
                &&& a.exchange_rate_micro == match self.exchange_rate_micro {
                    Some(e) => e,
                    None => DEFAULT_EXCHANGE_RATE_MICRO,
                }
                &&& a.quota_per_unit > 0
            },
    {
        match (&self.access_token, self.new_api_user_id) {
            (Some(token), Some(id)) => {
                let quota_per_unit = match self.quota_per_unit {
                    Some(q) => q,
                    None => DEFAULT_QUOTA_PER_UNIT,
                };
                if quota_per_unit == 0 {
                    return None;
                }
                let exchange_rate_micro = match self.exchange_rate_micro {
                    Some(e) => e,
                    None => DEFAULT_EXCHANGE_RATE_MICRO,
                };
                Some(AccountQuota {
                    access_token: token.clone(),
                    user_id: decimal_text(id),
                    quota_per_unit,
                    exchange_rate_micro,
                })
            },
            _ => None,
        }
    }
}

} // verus!
