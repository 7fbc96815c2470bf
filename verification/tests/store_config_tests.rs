use ngx_x402::config::{parse_u64_str, FacilitatorFallback, X402Config};
use ngx_x402::store::{
    get_dynamic_price, init_redis, is_payment_used, is_redis_configured, payment_hash,
    store_payment_as_used, ReplayStore,
};

#[test]
fn unconfigured_store_fails_open() {
    // The replay check fails open and the price lookup yields nothing when
    // no store is configured; only writing is an error.
    let store = ReplayStore::unconfigured();
    assert!(!is_redis_configured(&store));
    assert!(!is_payment_used(&store, "some-proof"));
    assert!(get_dynamic_price(&store, "/api").is_none());
    assert!(store_payment_as_used(&store, "some-proof", 60).is_err());
}

#[test]
fn init_redis_validates_the_url() {
    assert!(init_redis("not a url").is_err());
    let store = init_redis("redis://127.0.0.1/").unwrap();
    assert!(is_redis_configured(&store));
}

#[test]
fn unreachable_store_still_fails_open() {
    // A syntactically valid URL with nothing listening: connecting fails,
    // and every answer stays best-effort.
    let store = init_redis("redis://127.0.0.1:1/").unwrap();
    assert!(is_redis_configured(&store));
    assert!(!is_payment_used(&store, "some-proof"));
    assert!(get_dynamic_price(&store, "/api").is_none());
    assert!(store_payment_as_used(&store, "some-proof", 60).is_err());
}

#[test]
fn payment_hash_is_the_sha256_hex() {
    // SHA-256 of the empty string, a published test vector.
    assert_eq!(
        payment_hash(""),
        "e3b0c44298fc1c149afbf4c8996fb92427ae41e4649b934ca495991b7852b855"
    );
    // SHA-256 of "abc".
    assert_eq!(
        payment_hash("abc"),
        "ba7816bf8f01cfea414140de5dae2223b00361a396177a9cb410ff61f20015ad"
    );
}

#[test]
fn parse_u64_str_grammar() {
    assert_eq!(parse_u64_str("0"), Some(0));
    assert_eq!(parse_u64_str("8453"), Some(8453));
    assert_eq!(parse_u64_str("+7"), Some(7));
    assert_eq!(parse_u64_str("18446744073709551615"), Some(u64::MAX));
    assert_eq!(parse_u64_str("18446744073709551616"), None);
    assert_eq!(parse_u64_str(""), None);
    assert_eq!(parse_u64_str("+"), None);
    assert_eq!(parse_u64_str("12a"), None);
    assert_eq!(parse_u64_str("-1"), None);
}

fn raw_config() -> X402Config {
    X402Config {
        enabled: true,
        amount_str: Some("$0.001".to_string()),
        pay_to_str: Some("0x1234567890abcdef1234567890abcdef12345678".to_string()),
        facilitator_url_str: Some("https://example.com/facilitator".to_string()),
        description_str: Some("premium weather".to_string()),
        network_str: Some("base".to_string()),
        network_id_str: None,
        resource_str: None,
        asset_str: None,
        asset_decimals_str: Some("6".to_string()),
        timeout_str: Some("30".to_string()),
        facilitator_fallback_str: Some("Pass".to_string()),
        ttl_str: Some("600".to_string()),
        redis_url_str: None,
        replay_ttl_str: Some("3600".to_string()),
    }
}

#[test]
fn config_parse_resolves_every_field() {
    let parsed = raw_config()
        .parse(Some("redis://127.0.0.1/".to_string()))
        .unwrap();
    assert!(parsed.enabled);
    let a = parsed.amount.unwrap();
    assert_eq!(a.mantissa, 1);
    assert_eq!(a.scale, 3);
    assert_eq!(
        parsed.pay_to.as_deref(),
        Some("0x1234567890abcdef1234567890abcdef12345678")
    );
    assert_eq!(parsed.network.as_deref(), Some("base"));
    assert_eq!(parsed.network_id, None);
    assert_eq!(parsed.asset_decimals, Some(6));
    assert_eq!(parsed.timeout, Some(30));
    assert_eq!(parsed.facilitator_fallback, FacilitatorFallback::Pass);
    assert_eq!(parsed.ttl, Some(600));
    assert_eq!(parsed.replay_ttl, Some(3600));
    // The store URL falls back to the process-level default.
    assert_eq!(parsed.redis_url.as_deref(), Some("redis://127.0.0.1/"));
}

#[test]
fn config_parse_network_id_wins_over_network() {
    let mut raw = raw_config();
    raw.network_id_str = Some("8453".to_string());
    let parsed = raw.parse(None).unwrap();
    assert_eq!(parsed.network_id, Some(8453));
    assert!(parsed.network.is_none());
}

#[test]
fn config_parse_rejects_bad_fields() {
    let mut raw = raw_config();
    raw.amount_str = Some("abc".to_string());
    assert!(raw.parse(None).is_err());

    let mut raw = raw_config();
    raw.amount_str = Some("-1".to_string());
    assert!(raw.parse(None).is_err());

    let mut raw = raw_config();
    raw.pay_to_str = Some("0x1234".to_string());
    assert!(raw.parse(None).is_err());

    let mut raw = raw_config();
    raw.facilitator_url_str = Some("ftp://x".to_string());
    assert!(raw.parse(None).is_err());

    let mut raw = raw_config();
    raw.network_id_str = Some("999999".to_string());
    assert!(raw.parse(None).is_err());

    let mut raw = raw_config();
    raw.asset_decimals_str = Some("29".to_string());
    assert!(raw.parse(None).is_err());

    let mut raw = raw_config();
    raw.timeout_str = Some("0".to_string());
    assert!(raw.parse(None).is_err());
    raw.timeout_str = Some("301".to_string());
    assert!(raw.parse(None).is_err());

    let mut raw = raw_config();
    raw.facilitator_fallback_str = Some("sometimes".to_string());
    assert!(raw.parse(None).is_err());

    let mut raw = raw_config();
    raw.ttl_str = Some("3601".to_string());
    assert!(raw.parse(None).is_err());

    let mut raw = raw_config();
    raw.replay_ttl_str = Some("soon".to_string());
    assert!(raw.parse(None).is_err());
}

#[test]
fn config_parse_error_names_the_field() {
    // The error is the first failing field's exact validator message,
    // tagged with the field name.
    let mut raw = raw_config();
    raw.amount_str = Some("abc".to_string());
    let err = match raw.parse(None) {
        Err(e) => e,
        Ok(_) => panic!("expected an error"),
    };
    assert_eq!(err.message, "amount: Invalid amount");

    let mut raw = raw_config();
    raw.pay_to_str = Some("0x1234".to_string());
    let err = match raw.parse(None) {
        Err(e) => e,
        Ok(_) => panic!("expected an error"),
    };
    assert_eq!(
        err.message,
        "pay_to: Ethereum address must be 42 characters, got 6"
    );

    let mut raw = raw_config();
    raw.network_id_str = Some("999999".to_string());
    let err = match raw.parse(None) {
        Err(e) => e,
        Ok(_) => panic!("expected an error"),
    };
    assert_eq!(err.message, "network_id: Unsupported chain ID: 999999");

    let mut raw = raw_config();
    raw.timeout_str = Some("301".to_string());
    let err = match raw.parse(None) {
        Err(e) => e,
        Ok(_) => panic!("expected an error"),
    };
    assert_eq!(
        err.message,
        "timeout: Timeout must be between 1 and 300 seconds"
    );
}

#[test]
fn config_merge_fills_gaps_only() {
    let mut local = X402Config::default();
    local.pay_to_str = Some("0x1111111890abcdef1234567890abcdef12345678".to_string());
    let prev = raw_config();
    local.merge(&prev);
    assert!(local.enabled);
    // The local value wins; the enclosing scope fills the rest.
    assert_eq!(
        local.pay_to_str.as_deref(),
        Some("0x1111111890abcdef1234567890abcdef12345678")
    );
    assert_eq!(local.amount_str.as_deref(), Some("$0.001"));
    assert_eq!(local.network_str.as_deref(), Some("base"));
    assert_eq!(local.ttl_str.as_deref(), Some("600"));
}

#[test]
fn config_default_is_empty_and_disabled() {
    let d = X402Config::default();
    assert!(!d.enabled);
    assert!(d.amount_str.is_none());
    assert!(d.pay_to_str.is_none());
    assert!(d.redis_url_str.is_none());
    // An empty configuration still resolves, to an all-absent snapshot.
    let parsed = d.parse(None).unwrap();
    assert!(parsed.amount.is_none());
    assert_eq!(parsed.facilitator_fallback, FacilitatorFallback::Error);
}
