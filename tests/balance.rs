use eflow_balance::api::{
    ApiConfig, BalanceData, SubscriptionResponse, UsageResponse, UserSelfApiResponse, UserSelfData,
    UNLIMITED_THRESHOLD,
};
use eflow_balance::cache::{cache_key, MemoCache};
use eflow_balance::client::{ApiClient, BalanceError};
use eflow_balance::config::{decimal_text, BalanceConfig};
use eflow_balance::record::{decode_record, encode_record, read_durable};
use eflow_balance::resolver::{Action, BalanceResolver, Event};
use eflow_balance::segments::{enable_balance_segment, BalanceSegment, GroupSegment, SegmentConfig, SegmentId};

fn subscription(hard_limit_micro: i64) -> SubscriptionResponse {
    SubscriptionResponse {
        object: "billing_subscription".to_string(),
        has_payment_method: true,
        hard_limit_micro,
        soft_limit_micro: 0,
        system_hard_limit_micro: 0,
        access_until: 0,
    }
}

fn usage(total_usage_micro: i64) -> UsageResponse {
    UsageResponse { object: "list".to_string(), total_usage_micro }
}

fn config(base: &str, key: &str) -> ApiConfig {
    ApiConfig { enabled: true, api_key: key.to_string(), api_base_url: base.to_string() }
}

fn sample() -> BalanceData {
    BalanceData { balance: 24_700_000, used: 25_300_000, total: 50_000_000, is_unlimited: false }
}

#[test]
fn account_quota_conversion() {
    let data = UserSelfData { quota: 1_000_000, used_quota: 500_000 };
    let b = BalanceData::from_user_self(&data, 500_000, 7_300_000);
    assert_eq!(b, BalanceData { balance: 14_600_000, used: 7_300_000, total: 21_900_000, is_unlimited: false });
}

#[test]
fn account_quota_negative_remaining_truncates_toward_zero() {
    let data = UserSelfData { quota: -1, used_quota: 3 };
    let b = BalanceData::from_user_self(&data, 500_000, 7_300_000);
    assert_eq!(b.balance, -14);
    assert_eq!(b.used, 43);
    assert_eq!(b.total, 29);
}

#[test]
fn billing_conversion() {
    let b = BalanceData::from_billing(&subscription(50_000_000), &usage(2_530_000_000));
    assert_eq!(b.used, 25_300_000);
    assert_eq!(b.balance, 24_700_000);
    assert_eq!(b.total, 50_000_000);
    assert!(!b.is_unlimited);
}

#[test]
fn unlimited_sentinel() {
    for u in [0i64, 2_530_000_000, i64::MAX, i64::MIN] {
        let b = BalanceData::from_billing(&subscription(100_000_000_000_000), &usage(u));
        assert!(b.is_unlimited);
        assert_eq!(b.balance, 0);
    }
    assert_eq!(UNLIMITED_THRESHOLD, 100_000_000_000_000);
    let below = BalanceData::from_billing(&subscription(99_999_999_999_999), &usage(0));
    assert!(!below.is_unlimited);
    assert_eq!(below.balance, 99_999_999_999_999);
}

#[test]
fn display_formats() {
    let unlimited = BalanceData { balance: 0, used: 5, total: 100_000_000_000_000, is_unlimited: true };
    assert_eq!(unlimited.format_display(), "∞");
    assert_eq!(sample().format_display(), "¥24.70");
    let b = |v: i128| BalanceData { balance: v, used: 0, total: 0, is_unlimited: false };
    assert_eq!(b(14_600_000).format_display(), "¥14.60");
    assert_eq!(b(0).format_display(), "¥0.00");
    assert_eq!(b(5_000).format_display(), "¥0.01");
    assert_eq!(b(4_999).format_display(), "¥0.00");
    assert_eq!(b(-1_234_567).format_display(), "¥-1.23");
    assert_eq!(b(123_456_789_000_000).format_display(), "¥123456789.00");
}

#[test]
fn default_config_and_base_url() {
    let c = ApiConfig::default();
    assert!(!c.enabled);
    assert_eq!(c.api_key, "");
    assert_eq!(c.api_base_url, "https://e-flowcode.cc");
    assert_eq!(BalanceConfig::api_base_url(), "https://e-flowcode.cc");
}

#[test]
fn requests_trim_trailing_slashes() {
    let client = ApiClient::new(config("https://relay.example//", "sk-one"));
    let sub = client.subscription_request();
    assert_eq!(sub.url, "https://relay.example/v1/dashboard/billing/subscription");
    assert_eq!(sub.headers, vec![("Authorization".to_string(), "Bearer sk-one".to_string())]);
    assert_eq!(client.usage_request().url, "https://relay.example/v1/dashboard/billing/usage");
    let me = client.user_self_request(&"tok".to_string(), &"42".to_string());
    assert_eq!(me.url, "https://relay.example/api/user/self");
    assert_eq!(me.headers[0].1, "Bearer tok");
    assert_eq!(me.headers[1], ("New-Api-User".to_string(), "42".to_string()));
}

#[test]
fn user_self_answers() {
    let client = ApiClient::new(config("https://relay.example", "sk-one"));
    let rejected = UserSelfApiResponse { success: false, message: "bad token".to_string(), data: None };
    assert_eq!(
        client.get_user_self_balance(Ok(rejected), 500_000, 7_300_000),
        Err(BalanceError::UpstreamRejected("bad token".to_string()))
    );
    let empty = UserSelfApiResponse { success: true, message: String::new(), data: None };
    assert_eq!(client.get_user_self_balance(Ok(empty), 500_000, 7_300_000), Err(BalanceError::MissingPayload));
    assert_eq!(
        client.get_user_self_balance(Err(BalanceError::TransportFailure), 500_000, 7_300_000),
        Err(BalanceError::TransportFailure)
    );
    let ok = UserSelfApiResponse {
        success: true,
        message: String::new(),
        data: Some(UserSelfData { quota: 1_000_000, used_quota: 500_000 }),
    };
    assert_eq!(client.get_user_self_balance(Ok(ok), 500_000, 7_300_000).unwrap().balance, 14_600_000);
}

#[test]
fn billing_answers() {
    let client = ApiClient::new(config("https://relay.example", "sk-one"));
    assert!(client.is_configured());
    assert_eq!(client.get_balance(Ok(subscription(50_000_000)), Ok(usage(2_530_000_000))), Ok(sample()));
    assert_eq!(
        client.get_balance(Err(BalanceError::ParseFailure), Err(BalanceError::TransportFailure)),
        Err(BalanceError::ParseFailure)
    );
    assert_eq!(
        client.get_balance(Ok(subscription(1)), Err(BalanceError::TransportFailure)),
        Err(BalanceError::TransportFailure)
    );
    let off = ApiClient::new(ApiConfig { enabled: false, ..config("https://relay.example", "sk-one") });
    assert_eq!(off.get_balance(Ok(subscription(1)), Ok(usage(1))), Err(BalanceError::NotConfigured));
    let keyless = ApiClient::new(config("https://relay.example", ""));
    assert!(!keyless.is_configured());
    assert_eq!(keyless.get_balance(Ok(subscription(1)), Ok(usage(1))), Err(BalanceError::NotConfigured));
}

#[test]
fn second_resolution_comes_from_memo() {
    let c = config("https://relay.example", "sk-one");
    let mut memo = MemoCache::new();
    let mut first = BalanceResolver::new(Some(&c), false);
    assert_eq!(first.step(&mut memo, Event::Begin), Action::QueryBilling);
    assert_eq!(
        first.step(&mut memo, Event::Fetched(Ok(sample()))),
        Action::Deliver { data: sample(), persist: true }
    );
    assert!(first.is_finished());
    let mut second = BalanceResolver::new(Some(&c), true);
    assert_eq!(second.step(&mut memo, Event::Begin), Action::Deliver { data: sample(), persist: false });
    assert!(second.is_finished());
}

#[test]
fn account_quota_first_then_billing() {
    let c = config("https://relay.example", "sk-one");
    let mut memo = MemoCache::new();
    let mut r = BalanceResolver::new(Some(&c), true);
    assert_eq!(r.step(&mut memo, Event::Begin), Action::QueryAccountQuota);
    assert_eq!(
        r.step(&mut memo, Event::Fetched(Err(BalanceError::UpstreamRejected("no".to_string())))),
        Action::QueryBilling
    );
    assert_eq!(
        r.step(&mut memo, Event::Fetched(Ok(sample()))),
        Action::Deliver { data: sample(), persist: true }
    );
    assert_eq!(memo.get_memo(&cache_key(&c)), Some(sample()));
}

#[test]
fn durable_record_after_both_strategies_fail() {
    let c = config("https://relay.example", "sk-one");
    let mut memo = MemoCache::new();
    let mut r = BalanceResolver::new(Some(&c), true);
    assert_eq!(r.step(&mut memo, Event::Begin), Action::QueryAccountQuota);
    assert_eq!(r.step(&mut memo, Event::Fetched(Err(BalanceError::TransportFailure))), Action::QueryBilling);
    assert_eq!(r.step(&mut memo, Event::Fetched(Err(BalanceError::ParseFailure))), Action::ReadDurable);
    let action = r.step(&mut memo, Event::DurableRead(Some(sample())));
    assert_eq!(action, Action::Deliver { data: sample(), persist: false });
    assert_eq!(memo.get_memo(&cache_key(&c)), Some(sample()));
    let seg = BalanceSegment::new().try_collect(action).unwrap();
    assert_eq!(seg.primary, "¥24.70");
    assert_eq!(seg.secondary, "");
}

#[test]
fn unconfigured_resolution_shows_nothing() {
    let mut memo = MemoCache::new();
    let mut r = BalanceResolver::new(None, true);
    assert!(r.key().is_none());
    let action = r.step(&mut memo, Event::Begin);
    assert_eq!(action, Action::Unavailable);
    assert!(BalanceSegment::new().try_collect(action).is_none());

    let c = config("https://relay.example", "sk-one");
    let mut r = BalanceResolver::new(Some(&c), false);
    assert_eq!(r.step(&mut memo, Event::Begin), Action::QueryBilling);
    assert_eq!(r.step(&mut memo, Event::Fetched(Err(BalanceError::TransportFailure))), Action::ReadDurable);
    let action = r.step(&mut memo, Event::DurableRead(None));
    assert_eq!(action, Action::Unavailable);
    assert!(BalanceSegment::new().try_collect(action).is_none());
}

#[test]
fn out_of_order_event_ends_unavailable() {
    let c = config("https://relay.example", "sk-one");
    let mut memo = MemoCache::new();
    let mut r = BalanceResolver::new(Some(&c), false);
    assert_eq!(r.step(&mut memo, Event::DurableRead(Some(sample()))), Action::Unavailable);
    assert!(r.is_finished());
    assert_eq!(memo.get_memo(&cache_key(&c)), None);
}

#[test]
fn identities_are_isolated() {
    let a = config("https://relay.example", "sk-one");
    let b = config("https://relay.example", "sk-two");
    let c = config("https://relay.example/x", "sk-one");
    let split = config("https://relay.examplesk", "-one");
    let ka = cache_key(&a);
    assert_ne!(ka, cache_key(&b));
    assert_ne!(ka, cache_key(&c));
    assert_ne!(ka, cache_key(&split));
    assert_eq!(ka, cache_key(&config("https://relay.example", "sk-one")));

    let mut memo = MemoCache::new();
    memo.set_memo(&cache_key(&b), &sample());
    assert_eq!(memo.get_memo(&ka), None);
    let other = BalanceData { balance: 1, used: 2, total: 3, is_unlimited: false };
    memo.set_memo(&ka, &other);
    assert_eq!(memo.get_memo(&ka), Some(other));
    assert_eq!(memo.get_memo(&cache_key(&b)), Some(sample()));
    memo.set_memo(&ka, &sample());
    assert_eq!(memo.get_memo(&ka), Some(sample()));

    let record = encode_record(&cache_key(&b), &sample(), 1_700_000_000);
    assert_eq!(decode_record(&record, &ka), None);
    assert_eq!(decode_record(&record, &cache_key(&b)), Some((sample(), 1_700_000_000)));
}

#[test]
fn record_round_trip_and_forward_reading() {
    let key = cache_key(&config("https://relay.example", "sk-one"));
    for data in [
        sample(),
        BalanceData { balance: i128::MIN, used: i128::MAX, total: -1, is_unlimited: true },
        BalanceData { balance: 0, used: 0, total: 0, is_unlimited: false },
    ] {
        let mut record = encode_record(&key, &data, u64::MAX);
        assert_eq!(record.len(), key.len() + 72);
        assert_eq!(decode_record(&record, &key), Some((data, u64::MAX)));
        record.extend_from_slice(&[9, 9, 9]);
        assert_eq!(decode_record(&record, &key), Some((data, u64::MAX)));
    }
}

#[test]
fn torn_records_are_rejected() {
    let key = cache_key(&config("https://relay.example", "sk-one"));
    let old = encode_record(&key, &sample(), 10);
    let new = encode_record(&key, &BalanceData { balance: 1, used: 2, total: 3, is_unlimited: false }, 20);
    for n in 0..old.len() {
        assert_eq!(decode_record(&old[..n].to_vec(), &key), None);
    }
    assert_eq!(decode_record(&old, &key), Some((sample(), 10)));
    assert_eq!(decode_record(&new, &key).unwrap().1, 20);
    let mut bad_flag = old.clone();
    let last = bad_flag.len() - 1;
    bad_flag[last] = 2;
    assert_eq!(decode_record(&bad_flag, &key), None);
    let mut bad_magic = old.clone();
    bad_magic[0] = 0;
    assert_eq!(decode_record(&bad_magic, &key), None);
    assert_eq!(decode_record(&vec![], &key), None);
}

#[test]
fn account_quota_settings() {
    let mut bc = BalanceConfig {
        api_key: "sk-one".to_string(),
        user_id: None,
        access_token: Some("tok".to_string()),
        new_api_user_id: Some(-42),
        exchange_rate_micro: None,
        quota_per_unit: None,
    };
    let a = bc.account_quota().unwrap();
    assert_eq!(a.user_id, "-42");
    assert_eq!(a.quota_per_unit, 500_000);
    assert_eq!(a.exchange_rate_micro, 7_300_000);
    assert_eq!(a.access_token, "tok");
    bc.quota_per_unit = Some(0);
    assert!(bc.account_quota().is_none());
    bc.quota_per_unit = Some(10);
    bc.exchange_rate_micro = Some(1_000_000);
    assert_eq!(bc.account_quota().unwrap().quota_per_unit, 10);
    bc.new_api_user_id = None;
    assert!(bc.account_quota().is_none());
    assert_eq!(decimal_text(0), "0");
    assert_eq!(decimal_text(i64::MIN), "-9223372036854775808");
    assert_eq!(decimal_text(1234567), "1234567");
}

#[test]
fn segments() {
    assert_eq!(BalanceSegment::new().id(), SegmentId::Balance);
    assert_eq!(GroupSegment::new().id(), SegmentId::Group);
    assert!(GroupSegment::new().collect().is_none());
    let mut segs = vec![
        SegmentConfig { id: SegmentId::Group, enabled: false },
        SegmentConfig { id: SegmentId::Balance, enabled: false },
        SegmentConfig { id: SegmentId::Balance, enabled: false },
    ];
    enable_balance_segment(&mut segs);
    assert_eq!(segs.iter().map(|s| s.enabled).collect::<Vec<_>>(), vec![false, true, false]);
}

#[test]
fn durable_read_reports_age() {
    let key = cache_key(&config("https://relay.example", "sk-one"));
    let record = encode_record(&key, &sample(), 1_000);
    assert_eq!(read_durable(&record, &key, 1_600), (Some(sample()), Some(600)));
    assert_eq!(read_durable(&record, &key, 10), (Some(sample()), Some(0)));
    assert_eq!(read_durable(&record[..record.len() - 1].to_vec(), &key, 1_600), (None, None));
}
