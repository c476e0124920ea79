//! Upstream payloads and their normalization into [`BalanceData`].

use vstd::prelude::*;

verus! {

/// Micro units per whole currency unit.
pub const MICRO_PER_UNIT: i128 = 1_000_000;

/// A reported limit at or above this amount (one hundred million whole
/// currency units, in micro units) means that the account has no ceiling.
pub const UNLIMITED_THRESHOLD: i128 = 100_000_000_000_000;

/// Quota units per whole currency unit when the account configuration names none.
pub const DEFAULT_QUOTA_PER_UNIT: u64 = 500_000;

/// Exchange rate, in millionths, when the account configuration names none (7.3).
pub const DEFAULT_EXCHANGE_RATE_MICRO: u32 = 7_300_000;

/// Connection settings of the billing service.
#[derive(Clone, Debug)]
pub struct ApiConfig {
    pub enabled: bool,
    pub api_key: String,
    pub api_base_url: String,
}

/// The service's address when no other is configured.
pub open spec fn default_base_url() -> Seq<char> {
    "https://e-flowcode.cc"@
}

impl Default for ApiConfig {
    fn default() -> (r: ApiConfig)
        ensures
            !r.enabled,
            r.api_key@ == Seq::<char>::empty(),
            r.api_base_url@ == default_base_url(),
    {
        ApiConfig {
            enabled: false,
            api_key: String::new(),
            api_base_url: String::from_str("https://e-flowcode.cc"),
        }
    }
}

/// User record of the account-quota endpoint, in raw quota units.
#[derive(Clone, Debug)]
pub struct UserSelfData {
    pub quota: i64,
    pub used_quota: i64,
}

/// Whole answer of the account-quota endpoint.
#[derive(Clone, Debug)]
pub struct UserSelfApiResponse {
    pub success: bool,
    pub message: String,
    pub data: Option<UserSelfData>,
}

/// Answer of the subscription endpoint; limits are in micro units.
#[derive(Clone, Debug)]
pub struct SubscriptionResponse {
    pub object: String,
    pub has_payment_method: bool,
    pub hard_limit_micro: i64,
    pub soft_limit_micro: i64,
    pub system_hard_limit_micro: i64,
    pub access_until: i64,
}

/// Answer of the usage endpoint; the usage is in millionths of the minor
/// unit (a hundredth of the currency).
#[derive(Clone, Debug)]
pub struct UsageResponse {
    pub object: String,
    pub total_usage_micro: i64,
}

/// A resolved balance, every amount in micro units.
#[derive(Clone, Copy, Debug, PartialEq, Eq, Structural)]
pub struct BalanceData {
    pub balance: i128,
    pub used: i128,
    pub total: i128,
    pub is_unlimited: bool,
}

/// Integer division rounding toward zero.
pub open spec fn trunc_div(a: int, b: int) -> int {
    if a >= 0 {
        a / b
    } else {
        -((-a) / b)
    }
}

/// `units` quota units, at `q` units per currency unit and the exchange rate
/// `e` (in millionths), as micro units of the display currency.
pub open spec fn quota_amount(units: int, q: int, e: int) -> int {
    trunc_div(units * e, q)
}

/// Normalization of an account-quota record.
pub open spec fn spec_from_user_self(data: UserSelfData, q: int, e: int) -> BalanceData {
    BalanceData {
        balance: quota_amount(data.quota as int, q, e) as i128,
        used: quota_amount(data.used_quota as int, q, e) as i128,
        total: quota_amount(data.quota + data.used_quota, q, e) as i128,
        is_unlimited: false,
    }
}

/// Normalization of a limit and a usage in micro minor units.
pub open spec fn spec_from_billing(hard_limit: int, usage: int) -> BalanceData {
    let used = trunc_div(usage, 100);
    let unlimited = hard_limit >= UNLIMITED_THRESHOLD;
    BalanceData {
        balance: (if unlimited { 0 } else { hard_limit - used }) as i128,
        used: used as i128,
        total: hard_limit as i128,
        is_unlimited: unlimited,
    }
}

/// A limit at the unlimited threshold or above reports an unlimited account
/// with a zero balance, whatever the usage.
pub proof fn lemma_unlimited_sentinel(hard_limit: int, usage: int)
    requires
        hard_limit >= UNLIMITED_THRESHOLD,
    ensures
        spec_from_billing(hard_limit, usage).is_unlimited,
        spec_from_billing(hard_limit, usage).balance == 0,
{
}

/// A quota amount computed in the wide integer type.
fn quota_to_micro(units: i128, quota_per_unit: u64, exchange_rate_micro: u32) -> (r: i128)
    requires
        quota_per_unit > 0,
        -0x1_0000_0000_0000_0000 <= units <= 0x1_0000_0000_0000_0000,
    ensures
        r == quota_amount(units as int, quota_per_unit as int, exchange_rate_micro as int),
{
    let e = exchange_rate_micro as i128;
    let q = quota_per_unit as i128;
    assert(-0x1_0000_0000_0000_0000_0000_0000 <= units * e <= 0x1_0000_0000_0000_0000_0000_0000)
        by (nonlinear_arith)
        requires
            -0x1_0000_0000_0000_0000 <= units <= 0x1_0000_0000_0000_0000,
            0 <= e < 0x1_0000_0000,
    ;
    let p = units * e;
    p / q
}

impl BalanceData {
    /// Converts raw quota units into currency amounts: each of remaining,
    /// used and their sum is divided by `quota_per_unit` and multiplied by the
    /// exchange rate. This upstream never reports an unlimited account.
    pub fn from_user_self(data: &UserSelfData, quota_per_unit: u64, exchange_rate_micro: u32) -> (r: BalanceData)
        requires
            quota_per_unit > 0,
        ensures
            r == spec_from_user_self(*data, quota_per_unit as int, exchange_rate_micro as int),
    {
        let remain = data.quota as i128;
        let used = data.used_quota as i128;
        let total_raw = remain + used;
        BalanceData {
            balance: quota_to_micro(remain, quota_per_unit, exchange_rate_micro),
            used: quota_to_micro(used, quota_per_unit, exchange_rate_micro),
            total: quota_to_micro(total_raw, quota_per_unit, exchange_rate_micro),
            is_unlimited: false,
        }
    }

    /// Combines a subscription limit and a usage total: the limit is the
    /// total, the usage is converted from minor units, and a limit at the
    /// unlimited threshold or above reports an unlimited account with a zero
    /// balance.
    pub fn from_billing(subscription: &SubscriptionResponse, usage: &UsageResponse) -> (r: BalanceData)
        ensures
            r == spec_from_billing(subscription.hard_limit_micro as int, usage.total_usage_micro as int),
    {
        let total = subscription.hard_limit_micro as i128;
        let used = (usage.total_usage_micro as i128) / 100;
        let is_unlimited = total >= UNLIMITED_THRESHOLD;
        let balance = if is_unlimited { 0 } else { total - used };
        BalanceData { balance, used, total, is_unlimited }
    }
}

/// The character of a decimal digit.
pub open spec fn digit_char(d: int) -> char {
    if d == 0 { '0' }
    else if d == 1 { '1' }
    else if d == 2 { '2' }
    else if d == 3 { '3' }
    else if d == 4 { '4' }
    else if d == 5 { '5' }
    else if d == 6 { '6' }
    else if d == 7 { '7' }
    else if d == 8 { '8' }
    else { '9' }
}

/// Decimal notation of a natural number, without leading zeros.
pub open spec fn dec_digits(n: nat) -> Seq<char>
    decreases n,
{
    if n < 10 {
        seq![digit_char(n as int)]
    } else {
        dec_digits(n / 10).push(digit_char((n % 10) as int))
    }
}

/// Micro units rounded to whole hundredths, halves away from zero.
pub open spec fn cents_of(micro: int) -> int {
    if micro >= 0 {
        (micro + 5000) / 10000
    } else {
        -((-micro + 5000) / 10000)
    }
}

/// An amount with the currency sign and two decimal places.
pub open spec fn amount_text(micro: int) -> Seq<char> {
    let c = cents_of(micro);
    let m = if c < 0 { -c } else { c };
    seq!['¥'] + (if c < 0 { seq!['-'] } else { Seq::<char>::empty() }) + dec_digits((m / 100) as nat)
        + seq!['.', digit_char((m % 100) / 10), digit_char(m % 10)]
}

/// What the statusline shows for a balance.
pub open spec fn display_text(d: BalanceData) -> Seq<char> {
    if d.is_unlimited {
        seq!['∞']
    } else {
        amount_text(d.balance as int)
    }
}

/// Relies on String::push: the character is appended at the end.
#[verifier::external_body]
pub(crate) fn push_char(s: &mut String, c: char)
    ensures
        final(s)@ == old(s)@.push(c),
{
    s.push(c)
}

fn digit(d: u128) -> (c: char)
    requires
        d < 10,
    ensures
        c == digit_char(d as int),
{
    if d == 0 { '0' }
    else if d == 1 { '1' }
    else if d == 2 { '2' }
    else if d == 3 { '3' }
    else if d == 4 { '4' }
    else if d == 5 { '5' }
    else if d == 6 { '6' }
    else if d == 7 { '7' }
    else if d == 8 { '8' }
    else { '9' }
}

pub(crate) fn push_decimal(s: &mut String, n: u128)
    ensures
        final(s)@ == old(s)@ + dec_digits(n as nat),
    decreases n,
{
    if n >= 10 {
        push_decimal(s, n / 10);
    }
    push_char(s, digit(n % 10));
    assert(final(s)@ =~= old(s)@ + dec_digits(n as nat));
}

impl BalanceData {
    /// Text for the statusline: the infinity sign for an unlimited account,
    /// else the balance with the currency sign and two decimal places.
    pub fn format_display(&self) -> (r: String)
        ensures
            r@ == display_text(*self),
    {
        let mut s = String::new();
        if self.is_unlimited {
            push_char(&mut s, '∞');
            assert(s@ =~= seq!['∞']);
            return s;
        }
        let b = self.balance;
        let neg = b < 0;
        let mag: u128 = if neg { ((-(b + 1)) as u128) + 1 } else { b as u128 };
        let cents = (mag + 5000) / 10000;
        proof {
            let c = cents_of(b as int);
            if b >= 0 {
                assert(c == cents as int);
            } else {
                assert(c == -(cents as int));
            }
        }
        push_char(&mut s, '¥');
        if neg && cents > 0 {
            push_char(&mut s, '-');
        }
        push_decimal(&mut s, cents / 100);
        push_char(&mut s, '.');
        push_char(&mut s, digit((cents % 100) / 10));
        push_char(&mut s, digit(cents % 10));
        assert(s@ =~= amount_text(b as int));
        s
    }
}

} // verus!
