//! The requirement builder: derives a protocol-visible payment requirement
//! from the resolved configuration and the concrete resource being served.

use vstd::prelude::*;

use crate::amount::{amount_to_smallest_unit, spec_base_units, Amount};
use crate::config::{known_chain_id, ParsedX402Config};
use crate::digits::{dec_digits, u64_to_string};
use crate::error::ConfigError;
use crate::strutil::{lower_seq, str_eq, to_ascii_lower, trim_spec};
use crate::validation;

verus! {

/// Signing-domain metadata attached for recognized stablecoin contracts.
#[derive(Clone)]
pub struct SigningDomain {
    pub name: String,
    pub version: String,
}

/// A machine-readable payment requirement: what payment this resource
/// demands.  Built fresh per request, never mutated, never persisted.
#[derive(Clone)]
pub struct PaymentRequirements {
    /// Always the constant scheme `exact`.
    pub scheme: String,
    /// Canonical `namespace:reference` identifier, or a friendly name passed
    /// through unchanged.
    pub network: String,
    /// The amount in the asset's smallest unit, as a decimal string.
    pub amount: String,
    /// The receiving address, lower-cased.
    pub pay_to: String,
    /// How long the requirement stays valid, in seconds.
    pub max_timeout_seconds: u64,
    /// The asset contract address; empty when unresolvable.
    pub asset: String,
    /// Signing-domain metadata for recognized stablecoins.
    pub extra: Option<SigningDomain>,
}

/// The friendly-name table: known names map to canonical identifiers,
/// unknown names pass through unchanged.
pub open spec fn spec_network_table(t: Seq<char>) -> Seq<char> {
    if t == "base"@ {
        "eip155:8453"@
    } else if t == "base-sepolia"@ {
        "eip155:84532"@
    } else if t == "polygon"@ {
        "eip155:137"@
    } else {
        t
    }
}

/// The resolved network identifier: a validated numeric chain id wins, then
/// the configured network string (namespaced forms verbatim, friendly names
/// through the table), then the default network.
pub open spec fn spec_resolve_network(config: ParsedX402Config) -> Option<Seq<char>> {
    match config.network_id {
        Some(id) => if known_chain_id(id) {
            Some("eip155:"@ + dec_digits(id as nat))
        } else {
            None
        },
        None => match config.network {
            Some(net) => if net@.index_of_first(':') is Some {
                Some(net@)
            } else {
                Some(spec_network_table(net@))
            },
            None => Some("eip155:8453"@),
        },
    }
}

/// Resolves the network identifier for a requirement.
pub fn resolve_network(config: &ParsedX402Config) -> (r: Result<String, ConfigError>)
    ensures
        r is Ok <==> spec_resolve_network(*config) is Some,
        r is Ok ==> r->Ok_0@ == spec_resolve_network(*config).unwrap(),
{
    match &config.network_id {
        Some(id) => {
            match validation::chain_id_to_network(*id) {
                Err(e) => Err(ConfigError::from_string(e)),
                Ok(_) => {
                    let mut s = String::from_str("eip155:");
                    let d = u64_to_string(*id);
                    s.append(d.as_str());
                    Ok(s)
                },
            }
        },
        None => {
            match &config.network {
                Some(net) => {
                    let n = net.as_str().unicode_len();
                    let mut i: usize = 0;
                    while i < n && net.as_str().get_char(i) != ':'
                        invariant
                            0 <= i <= n,
                            n == net@.len(),
                            forall|j: int| 0 <= j < i ==> net@[j] != ':',
                        decreases n - i,
                    {
                        i = i + 1;
                    }
                    if i < n {
                        proof {
                            crate::strutil::lemma_index_of_first_is(net@, ':', i as int);
                        }
                        Ok(net.clone())
                    } else {
                        proof {
                            crate::strutil::lemma_index_of_first_none(net@, ':');
                        }
                        if str_eq(net.as_str(), "base") {
                            Ok(String::from_str("eip155:8453"))
                        } else if str_eq(net.as_str(), "base-sepolia") {
                            Ok(String::from_str("eip155:84532"))
                        } else if str_eq(net.as_str(), "polygon") {
                            Ok(String::from_str("eip155:137"))
                        } else {
                            Ok(net.clone())
                        }
                    }
                },
                None => Ok(String::from_str("eip155:8453")),
            }
        },
    }
}

/// The well-known USDC contract for a resolved network, where one exists.
pub open spec fn spec_default_usdc(net: Seq<char>) -> Option<Seq<char>> {
    if net == "eip155:8453"@ {
        Some("0x833589fCD6eDb6E08f4c7C32D4f71b54bdA02913"@)
    } else if net == "eip155:84532"@ {
        Some("0x036CbD53842c5426634e7929541eC2318f3dCF7e"@)
    } else if net == "eip155:137"@ {
        Some("0x3c499c542cEF5E3811e1192ce70d8cC03d5c3359"@)
    } else {
        None
    }
}

/// Looks up the well-known stable-asset address for a network.
pub fn default_usdc_address(network: &str) -> (r: Option<String>)
    ensures
        r is Some <==> spec_default_usdc(network@) is Some,
        r is Some ==> r.unwrap()@ == spec_default_usdc(network@).unwrap(),
{
    if str_eq(network, "eip155:8453") {
        Some(String::from_str("0x833589fCD6eDb6E08f4c7C32D4f71b54bdA02913"))
    } else if str_eq(network, "eip155:84532") {
        Some(String::from_str("0x036CbD53842c5426634e7929541eC2318f3dCF7e"))
    } else if str_eq(network, "eip155:137") {
        Some(String::from_str("0x3c499c542cEF5E3811e1192ce70d8cC03d5c3359"))
    } else {
        None
    }
}

/// The signing-domain name attached to a recognized stablecoin contract,
/// keyed by its lower-cased address.
pub open spec fn spec_extra_name(l: Seq<char>) -> Option<Seq<char>> {
    if l == "0x036cbd53842c5426634e7929541ec2318f3dcf7e"@ {
        Some("USDC"@)
    } else if l == "0x833589fcd6edb6e08f4c7c32d4f71b54bda02913"@ || l
        == "0x3c499c542cef5e3811e1192ce70d8cc03d5c3359"@ {
        Some("USD Coin"@)
    } else {
        None
    }
}

/// Attaches signing-domain metadata for recognized stablecoin contracts,
/// matching the address case-insensitively.
pub fn eip712_extra_for_asset(asset: &str) -> (r: Option<SigningDomain>)
    ensures
        r is Some <==> spec_extra_name(lower_seq(asset@)) is Some,
        r is Some ==> r.unwrap().name@ == spec_extra_name(lower_seq(asset@)).unwrap()
            && r.unwrap().version@ == "2"@,
{
    let normalized = to_ascii_lower(asset);
    if str_eq(normalized.as_str(), "0x036cbd53842c5426634e7929541ec2318f3dcf7e") {
        Some(
            SigningDomain { name: String::from_str("USDC"), version: String::from_str("2") },
        )
    } else if str_eq(normalized.as_str(), "0x833589fcd6edb6e08f4c7c32d4f71b54bda02913") || str_eq(
        normalized.as_str(),
        "0x3c499c542cef5e3811e1192ce70d8cc03d5c3359",
    ) {
        Some(
            SigningDomain { name: String::from_str("USD Coin"), version: String::from_str("2") },
        )
    } else {
        None
    }
}

/// The requirement builder succeeds exactly when an amount and a pay-to
/// address are configured, the amount is not negative, the network resolves
/// and the resource path is valid.
pub open spec fn spec_create_requirements_ok(config: ParsedX402Config, resource: Seq<char>) -> bool {
    &&& config.amount is Some
    &&& !config.amount.unwrap().spec_is_negative()
    &&& config.pay_to is Some
    &&& spec_resolve_network(config) is Some
    &&& trim_spec(resource).len() > 0
    &&& !validation::has_dotdot_segment(trim_spec(resource))
}

/// The asset address a requirement carries: the configured one, else the
/// network's well-known stable asset, else empty.
pub open spec fn spec_requirement_asset(config: ParsedX402Config, net: Seq<char>) -> Seq<char> {
    match config.asset {
        Some(a) => a@,
        None => match spec_default_usdc(net) {
            Some(a) => a,
            None => Seq::empty(),
        },
    }
}

/// The configuration with its amount replaced by an effective one, as
/// when a dynamic price override applies.
pub open spec fn spec_with_amount(c: ParsedX402Config, a: Option<Amount>) -> ParsedX402Config {
    ParsedX402Config { amount: a, ..c }
}

/// One requirement's fields, as the builder derives them from the
/// configuration and the resource.
pub open spec fn spec_requirement_matches(
    req: PaymentRequirements,
    config: ParsedX402Config,
    resource: Seq<char>,
) -> bool {
    let net = spec_resolve_network(config).unwrap();
    let decimals = if config.asset_decimals is Some {
        config.asset_decimals.unwrap()
    } else {
        6u8
    };
    &&& req.scheme@ == "exact"@
    &&& req.network@ == net
    &&& req.amount@ == spec_base_units(config.amount.unwrap(), decimals as nat)
    &&& req.pay_to@ == lower_seq(config.pay_to.unwrap()@)
    &&& req.max_timeout_seconds == (if config.ttl is Some {
        config.ttl.unwrap() as u64
    } else {
        60u64
    })
    &&& req.asset@ == spec_requirement_asset(config, net)
    &&& (req.extra is Some <==> spec_extra_name(
        lower_seq(spec_requirement_asset(config, net)),
    ) is Some)
    &&& (req.extra is Some ==> req.extra.unwrap().name@ == spec_extra_name(
        lower_seq(spec_requirement_asset(config, net)),
    ).unwrap() && req.extra.unwrap().version@ == "2"@)
}

/// Builds the payment requirement for one request, with the effective
/// amount given separately: a dynamic price override may stand in for the
/// configured amount.  The amount is converted exactly: the decimal times
/// ten to the asset's decimals (default 6), rendered as a decimal string
/// with no trailing fractional part.
pub fn create_requirements_with(
    config: &ParsedX402Config,
    amount: Option<Amount>,
    resource: &str,
) -> (r: Result<PaymentRequirements, ConfigError>)
    requires
        config.wf(),
        amount is Some ==> amount.unwrap().wf(),
    ensures
        r is Ok <==> spec_create_requirements_ok(spec_with_amount(*config, amount), resource@),
        r is Ok ==> spec_requirement_matches(
            r->Ok_0,
            spec_with_amount(*config, amount),
            resource@,
        ),
{
    let amount: Amount = match amount {
        None => {
            return Err(ConfigError::new("Amount not configured"));
        },
        Some(a) => a,
    };
    if amount.is_negative() {
        return Err(ConfigError::new("Amount cannot be negative"));
    }
    let pay_to: &String = match &config.pay_to {
        None => {
            return Err(ConfigError::new("pay_to address not configured"));
        },
        Some(p) => p,
    };
    let network = match resolve_network(config) {
        Err(e) => {
            return Err(e);
        },
        Ok(n) => n,
    };
    let decimals: u8 = match &config.asset_decimals {
        Some(d) => *d,
        None => 6,
    };
    let amount_str = amount_to_smallest_unit(&amount, decimals);
    let asset_address: String = match &config.asset {
        Some(custom) => custom.clone(),
        None => {
            match default_usdc_address(network.as_str()) {
                Some(a) => a,
                None => String::new(),
            }
        },
    };
    match validation::validate_resource_path(resource) {
        Err(e) => {
            return Err(ConfigError::from_string(e));
        },
        Ok(_) => {},
    }
    let max_timeout_seconds: u64 = match &config.ttl {
        Some(t) => *t as u64,
        None => 60,
    };
    let extra = eip712_extra_for_asset(asset_address.as_str());
    Ok(
        PaymentRequirements {
            scheme: String::from_str("exact"),
            network,
            amount: amount_str,
            pay_to: to_ascii_lower(pay_to.as_str()),
            max_timeout_seconds,
            asset: asset_address,
            extra,
        },
    )
}

/// Builds the payment requirement from the configuration's own amount.
pub fn create_requirements(config: &ParsedX402Config, resource: &str) -> (r: Result<
    PaymentRequirements,
    ConfigError,
>)
    requires
        config.wf(),
    ensures
        r is Ok <==> spec_create_requirements_ok(*config, resource@),
        r is Ok ==> spec_requirement_matches(r->Ok_0, *config, resource@),
{
    proof {
        assert(spec_with_amount(*config, config.amount) == *config);
    }
    create_requirements_with(config, config.amount, resource)
}

/// Resource metadata carried by the 402 response envelope.
pub struct ResourceInfo {
    pub description: String,
    pub mime_type: String,
    pub url: String,
}

/// The 402 response envelope: protocol version 2, an error message, the
/// resource's metadata and the accepted payment requirements.
pub struct PaymentRequiredResponse {
    pub error: Option<String>,
    pub resource: ResourceInfo,
    pub accepts: Vec<PaymentRequirements>,
}

/// Assembles the 402 response envelope.
pub fn create_payment_required_response(
    error: &str,
    accepts: Vec<PaymentRequirements>,
    resource_url: &str,
    description: &str,
    mime_type: &str,
) -> (r: PaymentRequiredResponse)
    ensures
        r.error is Some && r.error.unwrap()@ == error@,
        r.resource.description@ == description@,
        r.resource.mime_type@ == mime_type@,
        r.resource.url@ == resource_url@,
        r.accepts == accepts,
{
    PaymentRequiredResponse {
        error: Some(String::from_str(error)),
        resource: ResourceInfo {
            description: String::from_str(description),
            mime_type: String::from_str(mime_type),
            url: String::from_str(resource_url),
        },
        accepts,
    }
}

} // verus!
