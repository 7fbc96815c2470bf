use ngx_x402::amount::{amount_to_smallest_unit, Amount};
use ngx_x402::config::{FacilitatorFallback, ParsedX402Config};
use ngx_x402::json::{payment_required_response_to_json, payment_requirements_to_json};
use ngx_x402::requirements::{create_payment_required_response, create_requirements};
use ngx_x402::validation::parse_amount;

fn test_config(
    amount: Option<Amount>,
    pay_to: Option<String>,
    network: Option<String>,
    network_id: Option<u64>,
    asset: Option<String>,
    asset_decimals: Option<u8>,
    ttl: Option<u32>,
    description: Option<String>,
) -> ParsedX402Config {
    ParsedX402Config {
        enabled: true,
        amount,
        pay_to,
        facilitator_url: Some("https://example.com/facilitator".to_string()),
        description,
        network,
        network_id,
        resource: None,
        asset,
        asset_decimals,
        timeout: Some(10),
        facilitator_fallback: FacilitatorFallback::Error,
        ttl,
        redis_url: None,
        replay_ttl: None,
    }
}

#[test]
fn test_amount_to_smallest_unit() {
    assert_eq!(amount_to_smallest_unit(&Amount::new(false, 1, 3), 6), "1000");
    assert_eq!(amount_to_smallest_unit(&Amount::new(false, 1, 0), 6), "1000000");
}

#[test]
fn amount_to_smallest_unit_edges() {
    // End to end at the conversion level.
    assert_eq!(
        amount_to_smallest_unit(&parse_amount("0.001").unwrap(), 6),
        "1000"
    );
    assert_eq!(
        amount_to_smallest_unit(&parse_amount("1").unwrap(), 18),
        "1000000000000000000"
    );
    // More fractional digits than target decimals keep an exact fraction.
    assert_eq!(amount_to_smallest_unit(&parse_amount("0.001").unwrap(), 2), "0.1");
    assert_eq!(amount_to_smallest_unit(&parse_amount("0").unwrap(), 6), "0");
    // Eighteen fractional digits at twenty-eight target decimals, exactly.
    assert_eq!(
        amount_to_smallest_unit(&parse_amount("0.000000000000000001").unwrap(), 28),
        "10000000000"
    );
    assert_eq!(
        amount_to_smallest_unit(&parse_amount("1.5").unwrap(), 0),
        "1.5"
    );
}

#[test]
fn test_create_requirements_success() {
    let config = test_config(
        Some(parse_amount("0.001").unwrap()),
        Some("0x1234567890abcdef1234567890abcdef12345678".to_string()),
        None,
        None,
        None,
        None,
        None,
        None,
    );
    let req = create_requirements(&config, "/api/weather").unwrap();
    assert_eq!(req.scheme, "exact");
    assert_eq!(req.network.to_string(), "eip155:8453");
    assert_eq!(req.amount, "1000");
    assert_eq!(req.max_timeout_seconds, 60);
    assert_eq!(req.asset, "0x833589fCD6eDb6E08f4c7C32D4f71b54bdA02913");
}

#[test]
fn test_create_requirements_network_from_network_id() {
    let config = test_config(
        Some(parse_amount("0.001").unwrap()),
        Some("0x1234567890abcdef1234567890abcdef12345678".to_string()),
        None,
        Some(8453),
        None,
        None,
        None,
        None,
    );
    let req = create_requirements(&config, "/api").unwrap();
    assert_eq!(req.network.to_string(), "eip155:8453");
}

#[test]
fn test_create_requirements_network_from_name() {
    let config = test_config(
        Some(parse_amount("0.001").unwrap()),
        Some("0x1234567890abcdef1234567890abcdef12345678".to_string()),
        Some("base".to_string()),
        None,
        None,
        None,
        None,
        None,
    );
    let req = create_requirements(&config, "/api").unwrap();
    assert_eq!(req.network.to_string(), "eip155:8453");
}

#[test]
fn test_create_requirements_default_usdc() {
    let config = test_config(
        Some(parse_amount("0.001").unwrap()),
        Some("0x1234567890abcdef1234567890abcdef12345678".to_string()),
        None,
        None,
        None,
        None,
        None,
        None,
    );
    let req = create_requirements(&config, "/api").unwrap();
    assert_eq!(req.asset, "0x833589fCD6eDb6E08f4c7C32D4f71b54bdA02913");
    assert!(req.extra.is_some());
}

#[test]
fn test_create_requirements_custom_asset() {
    let config = test_config(
        Some(parse_amount("0.001").unwrap()),
        Some("0x1234567890abcdef1234567890abcdef12345678".to_string()),
        Some("base-sepolia".to_string()),
        None,
        Some("0x036CbD53842c5426634e7929541eC2318f3dCF7e".to_string()),
        None,
        None,
        None,
    );
    let req = create_requirements(&config, "/api").unwrap();
    assert_eq!(req.asset, "0x036CbD53842c5426634e7929541eC2318f3dCF7e");
    let extra = req.extra.as_ref().unwrap();
    assert_eq!(extra.name, "USDC");
}

#[test]
fn test_create_requirements_missing_amount() {
    let config = test_config(
        None,
        Some("0x1234567890abcdef1234567890abcdef12345678".to_string()),
        None,
        None,
        None,
        None,
        None,
        None,
    );
    assert!(create_requirements(&config, "/api").is_err());
}

#[test]
fn test_create_requirements_missing_pay_to() {
    let config = test_config(
        Some(parse_amount("0.001").unwrap()),
        None,
        None,
        None,
        None,
        None,
        None,
        None,
    );
    assert!(create_requirements(&config, "/api").is_err());
}

#[test]
fn test_create_requirements_negative_amount() {
    let config = test_config(
        Some(parse_amount("-0.001").unwrap()),
        Some("0x1234567890abcdef1234567890abcdef12345678".to_string()),
        None,
        None,
        None,
        None,
        None,
        None,
    );
    assert!(create_requirements(&config, "/api").is_err());
}

#[test]
fn test_payment_requirements_json_v2_format() {
    let config = test_config(
        Some(parse_amount("0.001").unwrap()),
        Some("0x1234567890abcdef1234567890abcdef12345678".to_string()),
        None,
        None,
        None,
        None,
        None,
        None,
    );
    let req = create_requirements(&config, "/api/weather").unwrap();
    let json: serde_json::Value =
        serde_json::from_str(&payment_requirements_to_json(&req)).unwrap();
    assert!(json.get("amount").is_some(), "amount must be present (v2)");
    assert!(
        json.get("maxAmountRequired").is_none(),
        "maxAmountRequired must not be present (v1 removed)"
    );
}

#[test]
fn test_payment_requirements_response_x402_version_2() {
    let req = create_requirements(
        &test_config(
            Some(parse_amount("0.001").unwrap()),
            Some("0x1234567890abcdef1234567890abcdef12345678".to_string()),
            None,
            None,
            None,
            None,
            None,
            None,
        ),
        "/api",
    )
    .unwrap();
    let resp = create_payment_required_response(
        "Payment required",
        vec![req],
        "/api",
        "desc",
        "application/json",
    );
    let json: serde_json::Value =
        serde_json::from_str(&payment_required_response_to_json(&resp)).unwrap();
    assert_eq!(
        json.get("x402Version").and_then(|v| v.as_u64()),
        Some(2),
        "x402Version must be 2"
    );
}

#[test]
fn test_402_response_json_v2_structure() {
    let config = test_config(
        Some(parse_amount("0.001").unwrap()),
        Some("0x1234567890abcdef1234567890abcdef12345678".to_string()),
        None,
        None,
        None,
        None,
        None,
        None,
    );
    let req = create_requirements(&config, "/api").unwrap();
    let resp =
        create_payment_required_response("Pay", vec![req], "/api", "desc", "application/json");
    let json: serde_json::Value =
        serde_json::from_str(&payment_required_response_to_json(&resp)).unwrap();
    assert_eq!(json["x402Version"], 2);
    let accept = &json["accepts"][0];
    assert!(accept.get("amount").is_some());
    assert!(accept["network"].as_str().unwrap().starts_with("eip155:"));
}

#[test]
fn requirement_fields_end_to_end() {
    // A numeric chain id resolves the network and the default asset.
    let config = test_config(
        Some(parse_amount("0.001").unwrap()),
        Some("0xABCDEF7890abcdef1234567890abcdef12345678".to_string()),
        None,
        Some(8453),
        None,
        None,
        Some(120),
        None,
    );
    let req = create_requirements(&config, "/api").unwrap();
    assert_eq!(req.network, "eip155:8453");
    assert_eq!(req.asset, "0x833589fCD6eDb6E08f4c7C32D4f71b54bdA02913");
    assert_eq!(req.pay_to, "0xabcdef7890abcdef1234567890abcdef12345678");
    assert_eq!(req.max_timeout_seconds, 120);
    let extra = req.extra.as_ref().unwrap();
    assert_eq!(extra.name, "USD Coin");
    assert_eq!(extra.version, "2");
}

#[test]
fn requirement_unknown_network_passthrough() {
    // Namespaced strings pass verbatim; unknown friendly names too.
    let config = test_config(
        Some(parse_amount("2").unwrap()),
        Some("0x1234567890abcdef1234567890abcdef12345678".to_string()),
        Some("solana:5eykt4UsFv8P8NJdTREpY1vzqKqZKvdp".to_string()),
        None,
        None,
        None,
        None,
        None,
    );
    let req = create_requirements(&config, "/api").unwrap();
    assert_eq!(req.network, "solana:5eykt4UsFv8P8NJdTREpY1vzqKqZKvdp");
    assert_eq!(req.asset, "");
    assert!(req.extra.is_none());
    let config2 = test_config(
        Some(parse_amount("2").unwrap()),
        Some("0x1234567890abcdef1234567890abcdef12345678".to_string()),
        Some("unknownnet".to_string()),
        None,
        None,
        None,
        None,
        None,
    );
    let req2 = create_requirements(&config2, "/api").unwrap();
    assert_eq!(req2.network, "unknownnet");
}

#[test]
fn requirement_rejects_bad_chain_id_and_path() {
    let config = test_config(
        Some(parse_amount("1").unwrap()),
        Some("0x1234567890abcdef1234567890abcdef12345678".to_string()),
        None,
        Some(999999),
        None,
        None,
        None,
        None,
    );
    assert!(create_requirements(&config, "/api").is_err());
    let config2 = test_config(
        Some(parse_amount("1").unwrap()),
        Some("0x1234567890abcdef1234567890abcdef12345678".to_string()),
        None,
        None,
        None,
        None,
        None,
        None,
    );
    assert!(create_requirements(&config2, "/api/../secret").is_err());
}

#[test]
fn json_escaping_survives_round_trip() {
    let req = create_requirements(
        &test_config(
            Some(parse_amount("0.001").unwrap()),
            Some("0x1234567890abcdef1234567890abcdef12345678".to_string()),
            None,
            None,
            None,
            None,
            None,
            None,
        ),
        "/api",
    )
    .unwrap();
    let resp = create_payment_required_response(
        "say \"pay\" \\ now\n",
        vec![req],
        "/api",
        "a \"quoted\" description",
        "application/json",
    );
    let json: serde_json::Value =
        serde_json::from_str(&payment_required_response_to_json(&resp)).unwrap();
    assert_eq!(json["error"].as_str().unwrap(), "say \"pay\" \\ now\n");
    assert_eq!(
        json["resource"]["description"].as_str().unwrap(),
        "a \"quoted\" description"
    );
    assert_eq!(json["resource"]["url"].as_str().unwrap(), "/api");
}
