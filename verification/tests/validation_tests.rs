use ngx_x402::amount::Amount;
use ngx_x402::validation::{
    chain_id_to_network, parse_amount, validate_amount, validate_ethereum_address,
    validate_network, validate_resource_path, validate_url,
};

fn amt(s: &str) -> Amount {
    parse_amount(s).unwrap()
}

#[test]
fn test_validate_amount() {
    assert!(validate_amount(&amt("0.001")).is_ok());
    assert!(validate_amount(&amt("0")).is_ok());
    assert!(validate_amount(&amt("100")).is_ok());
    assert!(validate_amount(&amt("-0.001")).is_err());
    assert!(validate_amount(&amt("-1")).is_err());
}

#[test]
fn test_validate_amount_scale_too_high() {
    let d = amt("0.0000000000000000001");
    assert!(validate_amount(&d).is_err());
}

#[test]
fn test_validate_ethereum_address() {
    assert!(validate_ethereum_address("0x1234567890abcdef1234567890abcdef12345678").is_ok());
    assert!(validate_ethereum_address("0x833589fCD6eDb6E08f4c7C32D4f71b54bdA02913").is_ok());
    assert!(validate_ethereum_address("0x0000000000000000000000000000000000000000").is_ok());
    assert!(validate_ethereum_address("not_an_address").is_err());
    assert!(validate_ethereum_address("1234567890abcdef1234567890abcdef12345678").is_err());
    assert!(validate_ethereum_address("0x1234").is_err());
    assert!(validate_ethereum_address("0xGGGG567890abcdef1234567890abcdef12345678").is_err());
}

#[test]
fn validation_test_validate_network() {
    assert!(validate_network("base-sepolia").is_ok());
    assert!(validate_network("base").is_ok());
    assert!(validate_network("eip155:8453").is_ok());
    assert!(validate_network("eip155:84532").is_ok());
    assert!(validate_network("solana:5eykt4UsFv8P8NJdTREpY1vzqKqZKvdp").is_ok());
    assert!(validate_network("").is_err());
    assert!(validate_network(":").is_err());
}

#[test]
fn validation_test_validate_url() {
    assert!(validate_url("https://example.com/facilitator").is_ok());
    assert!(validate_url("https://x402.org/facilitator").is_ok());
    assert!(validate_url("http://localhost:8080").is_ok());
    assert!(validate_url("http://localhost:8080/verify").is_ok());
    assert!(validate_url("ftp://invalid").is_err());
    assert!(validate_url("").is_err());
}

#[test]
fn validation_test_validate_resource_path() {
    assert!(validate_resource_path("/api/weather").is_ok());
    assert!(validate_resource_path("https://example.com/api").is_ok());
    assert!(validate_resource_path("https://example.com/api/weather").is_ok());
    assert!(validate_resource_path("").is_err());
    assert!(validate_resource_path("/api/../secret").is_err());
    assert!(validate_resource_path("/api/../etc/passwd").is_err());
}

#[test]
fn validation_test_chain_id_to_network() {
    assert_eq!(chain_id_to_network(8453).unwrap(), "base");
    assert_eq!(chain_id_to_network(84532).unwrap(), "base-sepolia");
    assert_eq!(chain_id_to_network(137).unwrap(), "polygon");
    assert!(chain_id_to_network(999999).is_err());
}

#[test]
fn validation_test_parse_amount() {
    assert_eq!(parse_amount("0.001").unwrap(), amt("0.001"));
    assert_eq!(parse_amount("$0.001").unwrap(), amt("0.001"));
    assert_eq!(parse_amount("$1").unwrap(), amt("1"));
    assert!(parse_amount("abc").is_err());
    assert!(parse_amount("").is_err());
}

#[test]
fn parse_amount_components() {
    let a = parse_amount("0.001").unwrap();
    assert!(!a.negative);
    assert_eq!(a.mantissa, 1);
    assert_eq!(a.scale, 3);
    let b = parse_amount("-12.50").unwrap();
    assert!(b.negative);
    assert_eq!(b.mantissa, 1250);
    assert_eq!(b.scale, 2);
    let c = parse_amount(" $3 ").unwrap();
    assert_eq!(c.mantissa, 3);
    assert_eq!(c.scale, 0);
}

#[test]
fn parse_amount_limits() {
    // The mantissa bound is 2^96 - 1; one more digit must fail.
    assert!(parse_amount("79228162514264337593543950335").is_ok());
    assert!(parse_amount("79228162514264337593543950336").is_err());
    // 28 fractional digits parse; 29 do not.
    assert!(parse_amount("0.0000000000000000000000000001").is_ok());
    assert!(parse_amount("0.00000000000000000000000000001").is_err());
    // At most one dot; a lone sign or dot is not a number.
    assert!(parse_amount("1.2.3").is_err());
    assert!(parse_amount("+").is_err());
    assert!(parse_amount(".").is_err());
    assert!(parse_amount(".5").is_ok());
    assert!(parse_amount("5.").is_ok());
}

#[test]
fn validate_address_rejects_wrong_lengths() {
    // 41 and 43 characters around the exact budget of 42.
    assert!(validate_ethereum_address("0x833589fCD6eDb6E08f4c7C32D4f71b54bdA0291").is_err());
    assert!(validate_ethereum_address("0x833589fCD6eDb6E08f4c7C32D4f71b54bdA029133").is_err());
    // Upper-case prefix and mixed-case digits are accepted.
    assert!(validate_ethereum_address("0X833589FCD6EDB6E08F4C7C32D4F71B54BDA02913").is_ok());
    assert!(validate_ethereum_address("  0x833589fCD6eDb6E08f4c7C32D4f71b54bdA02913  ").is_ok());
}

#[test]
fn validate_resource_path_segments() {
    // Only a whole `..` segment is a traversal; dots inside a name are not.
    assert!(validate_resource_path("/api/a..b/c").is_ok());
    assert!(validate_resource_path("..").is_err());
    assert!(validate_resource_path("/api/..").is_err());
    assert_eq!(validate_resource_path("  /api/weather  ").unwrap(), "/api/weather");
}
