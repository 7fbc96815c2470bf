//! Configuration: the raw per-location directive strings and their
//! resolution into a fully validated, typed snapshot.  Resolution is pure:
//! each optional field is independently absent or validated, and a field's
//! exact failure reason is surfaced tagged with the field name.

use vstd::prelude::*;

use crate::amount::Amount;
use crate::digits::{all_digits, digits_val, is_digit_char, lemma_digits_val_append_ge,
    lemma_digits_val_push};
use crate::error::ConfigError;
use crate::strutil::lower_seq;
use crate::validation;

verus! {

/// Behaviour when the facilitator cannot be reached: fail closed with an
/// internal error, or fail open and let the request pass.
#[derive(Clone, Copy, Debug, PartialEq, Eq, Structural)]
pub enum FacilitatorFallback {
    Error,
    Pass,
}

/// Raw configuration, one optional string per directive.
pub struct X402Config {
    pub enabled: bool,
    pub amount_str: Option<String>,
    pub pay_to_str: Option<String>,
    pub facilitator_url_str: Option<String>,
    pub description_str: Option<String>,
    pub network_str: Option<String>,
    pub network_id_str: Option<String>,
    pub resource_str: Option<String>,
    pub asset_str: Option<String>,
    pub asset_decimals_str: Option<String>,
    pub timeout_str: Option<String>,
    pub facilitator_fallback_str: Option<String>,
    pub ttl_str: Option<String>,
    pub redis_url_str: Option<String>,
    pub replay_ttl_str: Option<String>,
}

impl Default for X402Config {
    /// The empty configuration: disabled, nothing set.
    fn default() -> (r: X402Config)
        ensures
            !r.enabled,
            r.amount_str is None,
            r.pay_to_str is None,
            r.facilitator_url_str is None,
            r.description_str is None,
            r.network_str is None,
            r.network_id_str is None,
            r.resource_str is None,
            r.asset_str is None,
            r.asset_decimals_str is None,
            r.timeout_str is None,
            r.facilitator_fallback_str is None,
            r.ttl_str is None,
            r.redis_url_str is None,
            r.replay_ttl_str is None,
    {
        X402Config {
            enabled: false,
            amount_str: None,
            pay_to_str: None,
            facilitator_url_str: None,
            description_str: None,
            network_str: None,
            network_id_str: None,
            resource_str: None,
            asset_str: None,
            asset_decimals_str: None,
            timeout_str: None,
            facilitator_fallback_str: None,
            ttl_str: None,
            redis_url_str: None,
            replay_ttl_str: None,
        }
    }
}

/// The validated, typed snapshot a request is evaluated against.
pub struct ParsedX402Config {
    pub enabled: bool,
    pub amount: Option<Amount>,
    pub pay_to: Option<String>,
    pub facilitator_url: Option<String>,
    pub description: Option<String>,
    pub network: Option<String>,
    pub network_id: Option<u64>,
    pub resource: Option<String>,
    pub asset: Option<String>,
    pub asset_decimals: Option<u8>,
    /// Facilitator call timeout in seconds.
    pub timeout: Option<u64>,
    pub facilitator_fallback: FacilitatorFallback,
    /// Requirement max-timeout in seconds.
    pub ttl: Option<u32>,
    pub redis_url: Option<String>,
    pub replay_ttl: Option<u64>,
}

impl ParsedX402Config {
    /// The bounds resolution establishes and the requirement builder needs.
    pub open spec fn wf(self) -> bool {
        &&& (self.amount is Some ==> self.amount.unwrap().wf())
        &&& (self.asset_decimals is Some ==> self.asset_decimals.unwrap() <= 28)
    }
}

/// The input without one leading plus sign.
pub open spec fn strip_plus(s: Seq<char>) -> Seq<char> {
    if s.len() > 0 && s[0] == '+' {
        s.skip(1)
    } else {
        s
    }
}

/// What [`parse_u64_str`] accepts: an optional `+`, then digits whose value
/// fits in a `u64`.
pub open spec fn spec_parse_u64(s: Seq<char>) -> Option<u64> {
    let t = strip_plus(s);
    if t.len() >= 1 && all_digits(t) && digits_val(t) <= u64::MAX {
        Some(digits_val(t) as u64)
    } else {
        None
    }
}

/// Parses an unsigned decimal integer.
pub fn parse_u64_str(s: &str) -> (r: Option<u64>)
    ensures
        r == spec_parse_u64(s@),
{
    let n = s.unicode_len();
    let mut idx0: usize = 0;
    if n > 0 && s.get_char(0) == '+' {
        idx0 = 1;
    }
    let ghost t = strip_plus(s@);
    proof {
        assert(t =~= s@.skip(idx0 as int));
    }
    if n == idx0 {
        return None;
    }
    let mut i: usize = idx0;
    let mut m: u64 = 0;
    while i < n
        invariant
            idx0 <= i <= n,
            idx0 <= 1,
            idx0 < n,
            n == s@.len(),
            t == s@.skip(idx0 as int),
            t == strip_plus(s@),
            forall|j: int| idx0 <= j < i ==> is_digit_char(s@[j]),
            m as nat == digits_val(s@.subrange(idx0 as int, i as int)),
        decreases n - i,
    {
        let c = s.get_char(i);
        let cu = c as u32;
        let ghost cons = s@.subrange(idx0 as int, i as int);
        if !(48 <= cu && cu <= 57) {
            proof {
                assert(!all_digits(t)) by {
                    assert(!is_digit_char(t[i - idx0]));
                }
            }
            return None;
        }
        let dv: u64 = (cu - 48) as u64;
        if m > (u64::MAX - dv) / 10 {
            proof {
                lemma_digits_val_push(cons, c);
                assert(m * 10 + dv > u64::MAX) by (nonlinear_arith)
                    requires
                        m > (u64::MAX - dv) / 10,
                        0 <= dv <= 9,
                ;
                assert(t =~= (cons.push(c)) + s@.subrange(i as int + 1, n as int));
                lemma_digits_val_append_ge(cons.push(c), s@.subrange(i as int + 1, n as int));
            }
            return None;
        }
        proof {
            assert(m * 10 + dv <= u64::MAX) by (nonlinear_arith)
                requires
                    m <= (u64::MAX - dv) / 10,
                    0 <= dv <= 9,
            ;
            lemma_digits_val_push(cons, c);
            assert(s@.subrange(idx0 as int, i as int + 1) =~= cons.push(c));
        }
        m = m * 10 + dv;
        i = i + 1;
    }
    proof {
        assert(s@.subrange(idx0 as int, n as int) =~= t);
        assert(all_digits(t)) by {
            assert(forall|j: int|
                0 <= j < t.len() ==> is_digit_char(#[trigger] t[j])) by {
                assert(forall|j: int| idx0 <= j < n ==> is_digit_char(s@[j]));
            }
        }
    }
    Some(m)
}

} // verus!

// Field-by-field resolution: each optional directive is absent or validated.

verus! {

/// The configured amount is absent or parses to a non-negative decimal with
/// at most 18 fractional digits.
pub open spec fn amount_field_ok(o: Option<String>) -> bool {
    match o {
        None => true,
        Some(s) => {
            let p = validation::spec_parse_amount(s@);
            p is Some && !p.unwrap().spec_is_negative() && p.unwrap().scale
                <= validation::MAX_AMOUNT_SCALE
        },
    }
}

/// The parsed value of the amount directive.
pub open spec fn amount_field_val(o: Option<String>) -> Option<Amount> {
    match o {
        None => None,
        Some(s) => validation::spec_parse_amount(s@),
    }
}

/// The pay-to directive is absent or a well-formed address.
pub open spec fn pay_to_field_ok(o: Option<String>) -> bool {
    match o {
        None => true,
        Some(s) => validation::spec_valid_eth_address(s@),
    }
}

/// The facilitator URL is absent or has an accepted scheme.
pub open spec fn url_field_ok(o: Option<String>) -> bool {
    match o {
        None => true,
        Some(s) => validation::spec_valid_url(s@),
    }
}

/// A numeric chain id this gate can map to a network name.
pub open spec fn known_chain_id(id: u64) -> bool {
    id == 8453 || id == 84532 || id == 137
}

/// The network id directive is absent or a known numeric chain id.
pub open spec fn network_id_field_ok(o: Option<String>) -> bool {
    match o {
        None => true,
        Some(s) => {
            let p = spec_parse_u64(s@);
            p is Some && known_chain_id(p.unwrap())
        },
    }
}

/// The parsed value of the network id directive.
pub open spec fn network_id_field_val(o: Option<String>) -> Option<u64> {
    match o {
        None => None,
        Some(s) => spec_parse_u64(s@),
    }
}

/// The network directive is ignored under a network id, else absent or a
/// valid network.
pub open spec fn network_field_ok(network_id: Option<String>, network: Option<String>) -> bool {
    if network_id is Some {
        true
    } else {
        match network {
            None => true,
            Some(s) => validation::spec_valid_network(s@),
        }
    }
}

/// The asset directive is absent or a well-formed contract address.
pub open spec fn asset_field_ok(o: Option<String>) -> bool {
    match o {
        None => true,
        Some(s) => validation::spec_valid_eth_address(s@),
    }
}

/// The asset decimals directive is absent or an integer no more than 28.
pub open spec fn decimals_field_ok(o: Option<String>) -> bool {
    match o {
        None => true,
        Some(s) => {
            let p = spec_parse_u64(s@);
            p is Some && p.unwrap() <= 28
        },
    }
}

/// The timeout directive is absent or between 1 and 300 seconds.
pub open spec fn timeout_field_ok(o: Option<String>) -> bool {
    match o {
        None => true,
        Some(s) => {
            let p = spec_parse_u64(s@);
            p is Some && 1 <= p.unwrap() <= 300
        },
    }
}

/// The fallback directive is absent or one of the accepted words, any case.
pub open spec fn fallback_field_ok(o: Option<String>) -> bool {
    match o {
        None => true,
        Some(s) => {
            let l = lower_seq(s@);
            l == "error"@ || l == "500"@ || l == "pass"@ || l == "bypass"@ || l == "through"@
        },
    }
}

/// The fallback policy a directive resolves to; absent means fail closed.
pub open spec fn fallback_field_val(o: Option<String>) -> FacilitatorFallback {
    match o {
        None => FacilitatorFallback::Error,
        Some(s) => {
            let l = lower_seq(s@);
            if l == "pass"@ || l == "bypass"@ || l == "through"@ {
                FacilitatorFallback::Pass
            } else {
                FacilitatorFallback::Error
            }
        },
    }
}

/// The requirement TTL directive is absent or between 1 and 3600 seconds.
pub open spec fn ttl_field_ok(o: Option<String>) -> bool {
    match o {
        None => true,
        Some(s) => {
            let p = spec_parse_u64(s@);
            p is Some && 1 <= p.unwrap() <= 3600
        },
    }
}

/// The replay TTL directive is absent or an integer number of seconds.
pub open spec fn replay_ttl_field_ok(o: Option<String>) -> bool {
    match o {
        None => true,
        Some(s) => spec_parse_u64(s@) is Some,
    }
}

/// The tagged message a failing amount directive reports.
pub open spec fn amount_field_err(o: Option<String>) -> Seq<char> {
    match o {
        None => Seq::empty(),
        Some(s) => "amount"@ + ": "@ + (if validation::spec_parse_amount(s@) is None {
            "Invalid amount"@
        } else {
            validation::spec_amount_err_msg(validation::spec_parse_amount(s@).unwrap())
        }),
    }
}

/// The tagged message a failing address directive reports.
pub open spec fn addr_field_err(tag: Seq<char>, o: Option<String>) -> Seq<char> {
    match o {
        None => Seq::empty(),
        Some(s) => tag + ": "@ + validation::spec_eth_address_err_msg(s@),
    }
}

/// The tagged message a failing facilitator URL directive reports.
pub open spec fn url_field_err(o: Option<String>) -> Seq<char> {
    match o {
        None => Seq::empty(),
        Some(s) => "facilitator_url"@ + ": "@ + validation::spec_url_err_msg(s@),
    }
}

/// The tagged message a failing network id directive reports.
pub open spec fn network_id_field_err(o: Option<String>) -> Seq<char> {
    match o {
        None => Seq::empty(),
        Some(s) => "network_id"@ + ": "@ + (match spec_parse_u64(s@) {
            None => "Invalid network_id"@,
            Some(id) => "Unsupported chain ID: "@ + crate::digits::dec_digits(id as nat),
        }),
    }
}

/// The tagged message a failing network directive reports.
pub open spec fn network_field_err(o: Option<String>) -> Seq<char> {
    match o {
        None => Seq::empty(),
        Some(s) => "network"@ + ": "@ + validation::spec_network_err_msg(s@),
    }
}

/// The tagged message a failing asset decimals directive reports.
pub open spec fn decimals_field_err(o: Option<String>) -> Seq<char> {
    match o {
        None => Seq::empty(),
        Some(s) => "asset_decimals"@ + ": "@ + (if spec_parse_u64(s@) is None {
            "Invalid asset_decimals"@
        } else {
            "asset_decimals must be at most 28"@
        }),
    }
}

/// The tagged message a failing timeout directive reports.
pub open spec fn timeout_field_err(o: Option<String>) -> Seq<char> {
    match o {
        None => Seq::empty(),
        Some(s) => "timeout"@ + ": "@ + (if spec_parse_u64(s@) is None {
            "Invalid timeout"@
        } else {
            "Timeout must be between 1 and 300 seconds"@
        }),
    }
}

/// The tagged message a failing fallback directive reports.
pub open spec fn fallback_field_err(o: Option<String>) -> Seq<char> {
    "facilitator_fallback"@ + ": "@ + "facilitator_fallback must be 'error' or 'pass'"@
}

/// The tagged message a failing requirement-TTL directive reports.
pub open spec fn ttl_field_err(o: Option<String>) -> Seq<char> {
    match o {
        None => Seq::empty(),
        Some(s) => "ttl"@ + ": "@ + (if spec_parse_u64(s@) is None {
            "Invalid ttl"@
        } else {
            "ttl must be between 1 and 3600 seconds"@
        }),
    }
}

/// The tagged message a failing replay-TTL directive reports.
pub open spec fn replay_ttl_field_err(o: Option<String>) -> Seq<char> {
    "replay_ttl"@ + ": "@ + "Invalid replay_ttl"@
}

/// Every directive of the raw configuration is absent or valid.
pub open spec fn spec_config_ok(c: X402Config) -> bool {
    &&& amount_field_ok(c.amount_str)
    &&& pay_to_field_ok(c.pay_to_str)
    &&& url_field_ok(c.facilitator_url_str)
    &&& network_id_field_ok(c.network_id_str)
    &&& network_field_ok(c.network_id_str, c.network_str)
    &&& asset_field_ok(c.asset_str)
    &&& decimals_field_ok(c.asset_decimals_str)
    &&& timeout_field_ok(c.timeout_str)
    &&& fallback_field_ok(c.facilitator_fallback_str)
    &&& ttl_field_ok(c.ttl_str)
    &&& replay_ttl_field_ok(c.replay_ttl_str)
}

/// The first failing directive's tagged message, in resolution order.
pub open spec fn spec_config_err_msg(c: X402Config) -> Seq<char> {
    if !amount_field_ok(c.amount_str) {
        amount_field_err(c.amount_str)
    } else if !pay_to_field_ok(c.pay_to_str) {
        addr_field_err("pay_to"@, c.pay_to_str)
    } else if !url_field_ok(c.facilitator_url_str) {
        url_field_err(c.facilitator_url_str)
    } else if !network_id_field_ok(c.network_id_str) {
        network_id_field_err(c.network_id_str)
    } else if !network_field_ok(c.network_id_str, c.network_str) {
        network_field_err(c.network_str)
    } else if !asset_field_ok(c.asset_str) {
        addr_field_err("asset"@, c.asset_str)
    } else if !decimals_field_ok(c.asset_decimals_str) {
        decimals_field_err(c.asset_decimals_str)
    } else if !timeout_field_ok(c.timeout_str) {
        timeout_field_err(c.timeout_str)
    } else if !fallback_field_ok(c.facilitator_fallback_str) {
        fallback_field_err(c.facilitator_fallback_str)
    } else if !ttl_field_ok(c.ttl_str) {
        ttl_field_err(c.ttl_str)
    } else {
        replay_ttl_field_err(c.replay_ttl_str)
    }
}

fn clone_opt_string(o: &Option<String>) -> (r: Option<String>)
    ensures
        r == *o,
{
    match o {
        Some(s) => Some(s.clone()),
        None => None,
    }
}

fn tag_err(field: &str, msg: &str) -> (r: ConfigError)
    ensures
        r.message@ == field@ + ": "@ + msg@,
{
    let mut m = String::from_str(field);
    m.append(": ");
    m.append(msg);
    ConfigError::from_string(m)
}


fn parse_amount_field(o: &Option<String>) -> (r: Result<Option<Amount>, ConfigError>)
    ensures
        r is Ok <==> amount_field_ok(*o),
        r is Ok ==> r->Ok_0 == amount_field_val(*o),
        r is Ok && r->Ok_0 is Some ==> r->Ok_0.unwrap().wf(),
        r is Err ==> r->Err_0.message@ == amount_field_err(*o),
{
    match o {
        None => Ok(None),
        Some(s) => {
            match validation::parse_amount(s.as_str()) {
                Err(e) => Err(tag_err("amount", e.as_str())),
                Ok(a) => {
                    match validation::validate_amount(&a) {
                        Err(e) => Err(tag_err("amount", e.as_str())),
                        Ok(()) => Ok(Some(a)),
                    }
                },
            }
        },
    }
}

fn parse_address_field(o: &Option<String>, field: &str) -> (r: Result<Option<String>, ConfigError>)
    ensures
        r is Ok <==> pay_to_field_ok(*o),
        r is Ok ==> r->Ok_0 == *o,
        r is Err ==> r->Err_0.message@ == addr_field_err(field@, *o),
{
    match o {
        None => Ok(None),
        Some(s) => {
            match validation::validate_ethereum_address(s.as_str()) {
                Err(e) => Err(tag_err(field, e.as_str())),
                Ok(()) => Ok(Some(s.clone())),
            }
        },
    }
}

fn parse_url_field(o: &Option<String>) -> (r: Result<Option<String>, ConfigError>)
    ensures
        r is Ok <==> url_field_ok(*o),
        r is Ok ==> r->Ok_0 == *o,
        r is Err ==> r->Err_0.message@ == url_field_err(*o),
{
    match o {
        None => Ok(None),
        Some(s) => {
            match validation::validate_url(s.as_str()) {
                Err(e) => Err(tag_err("facilitator_url", e.as_str())),
                Ok(()) => Ok(Some(s.clone())),
            }
        },
    }
}

fn parse_network_id_field(o: &Option<String>) -> (r: Result<Option<u64>, ConfigError>)
    ensures
        r is Ok <==> network_id_field_ok(*o),
        r is Ok ==> r->Ok_0 == network_id_field_val(*o),
        r is Err ==> r->Err_0.message@ == network_id_field_err(*o),
{
    match o {
        None => Ok(None),
        Some(s) => {
            match parse_u64_str(s.as_str()) {
                None => Err(tag_err("network_id", "Invalid network_id")),
                Some(id) => {
                    match validation::chain_id_to_network(id) {
                        Err(e) => Err(tag_err("network_id", e.as_str())),
                        Ok(_) => Ok(Some(id)),
                    }
                },
            }
        },
    }
}

fn parse_network_field(o: &Option<String>) -> (r: Result<Option<String>, ConfigError>)
    ensures
        r is Ok <==> network_field_ok(None, *o),
        r is Ok ==> r->Ok_0 == *o,
        r is Err ==> r->Err_0.message@ == network_field_err(*o),
{
    match o {
        None => Ok(None),
        Some(s) => {
            match validation::validate_network(s.as_str()) {
                Err(e) => Err(tag_err("network", e.as_str())),
                Ok(()) => Ok(Some(s.clone())),
            }
        },
    }
}

fn parse_decimals_field(o: &Option<String>) -> (r: Result<Option<u8>, ConfigError>)
    ensures
        r is Ok <==> decimals_field_ok(*o),
        r is Ok ==> (match *o {
            None => r->Ok_0 is None,
            Some(s) => r->Ok_0 == Some(spec_parse_u64(s@).unwrap() as u8),
        }),
        r is Ok && r->Ok_0 is Some ==> r->Ok_0.unwrap() <= 28,
        r is Err ==> r->Err_0.message@ == decimals_field_err(*o),
{
    match o {
        None => Ok(None),
        Some(s) => {
            match parse_u64_str(s.as_str()) {
                None => Err(tag_err("asset_decimals", "Invalid asset_decimals")),
                Some(d) => {
                    if d > 28 {
                        Err(tag_err("asset_decimals", "asset_decimals must be at most 28"))
                    } else {
                        Ok(Some(d as u8))
                    }
                },
            }
        },
    }
}

fn parse_timeout_field(o: &Option<String>) -> (r: Result<Option<u64>, ConfigError>)
    ensures
        r is Ok <==> timeout_field_ok(*o),
        r is Ok ==> (match *o {
            None => r->Ok_0 is None,
            Some(s) => r->Ok_0 == spec_parse_u64(s@),
        }),
        r is Err ==> r->Err_0.message@ == timeout_field_err(*o),
{
    match o {
        None => Ok(None),
        Some(s) => {
            match parse_u64_str(s.as_str()) {
                None => Err(tag_err("timeout", "Invalid timeout")),
                Some(t) => {
                    if t < 1 || t > 300 {
                        Err(tag_err("timeout", "Timeout must be between 1 and 300 seconds"))
                    } else {
                        Ok(Some(t))
                    }
                },
            }
        },
    }
}

fn parse_fallback_field(o: &Option<String>) -> (r: Result<FacilitatorFallback, ConfigError>)
    ensures
        r is Ok <==> fallback_field_ok(*o),
        r is Ok ==> r->Ok_0 == fallback_field_val(*o),
        r is Err ==> r->Err_0.message@ == fallback_field_err(*o),
{
    match o {
        None => Ok(FacilitatorFallback::Error),
        Some(s) => {
            let l = crate::strutil::to_ascii_lower(s.as_str());
            if crate::strutil::str_eq(l.as_str(), "pass") || crate::strutil::str_eq(
                l.as_str(),
                "bypass",
            ) || crate::strutil::str_eq(l.as_str(), "through") {
                Ok(FacilitatorFallback::Pass)
            } else if crate::strutil::str_eq(l.as_str(), "error") || crate::strutil::str_eq(
                l.as_str(),
                "500",
            ) {
                Ok(FacilitatorFallback::Error)
            } else {
                Err(
                    tag_err(
                        "facilitator_fallback",
                        "facilitator_fallback must be 'error' or 'pass'",
                    ),
                )
            }
        },
    }
}

fn parse_ttl_field(o: &Option<String>) -> (r: Result<Option<u32>, ConfigError>)
    ensures
        r is Ok <==> ttl_field_ok(*o),
        r is Ok ==> (match *o {
            None => r->Ok_0 is None,
            Some(s) => r->Ok_0 == Some(spec_parse_u64(s@).unwrap() as u32),
        }),
        r is Err ==> r->Err_0.message@ == ttl_field_err(*o),
{
    match o {
        None => Ok(None),
        Some(s) => {
            match parse_u64_str(s.as_str()) {
                None => Err(tag_err("ttl", "Invalid ttl")),
                Some(v) => {
                    if v < 1 || v > 3600 {
                        Err(tag_err("ttl", "ttl must be between 1 and 3600 seconds"))
                    } else {
                        Ok(Some(v as u32))
                    }
                },
            }
        },
    }
}

fn parse_replay_ttl_field(o: &Option<String>) -> (r: Result<Option<u64>, ConfigError>)
    ensures
        r is Ok <==> replay_ttl_field_ok(*o),
        r is Ok ==> (match *o {
            None => r->Ok_0 is None,
            Some(s) => r->Ok_0 == spec_parse_u64(s@),
        }),
        r is Err ==> r->Err_0.message@ == replay_ttl_field_err(*o),
{
    match o {
        None => Ok(None),
        Some(s) => {
            match parse_u64_str(s.as_str()) {
                None => Err(tag_err("replay_ttl", "Invalid replay_ttl")),
                Some(v) => Ok(Some(v)),
            }
        },
    }
}

impl X402Config {

    /// Resolves the raw directives into a typed snapshot.  Succeeds exactly
    /// when every present directive validates; the first failing field's
    /// reason is surfaced, tagged with the field name.  `env_redis_url` is
    /// the process-level store default a caller may supply; it backs the
    /// store URL only when no directive names one.  Resolution is pure:
    /// no network, clock or environment access happens here.
    #[verifier::rlimit(100)]
    pub fn parse(&self, env_redis_url: Option<String>) -> (r: Result<ParsedX402Config, ConfigError>)
        ensures
            r is Ok <==> spec_config_ok(*self),
            r is Err ==> r->Err_0.message@ == spec_config_err_msg(*self),
            r is Ok ==> {
                let p = r->Ok_0;
                &&& p.wf()
                &&& p.enabled == self.enabled
                &&& p.amount == amount_field_val(self.amount_str)
                &&& p.pay_to == self.pay_to_str
                &&& p.facilitator_url == self.facilitator_url_str
                &&& p.description == self.description_str
                &&& p.network_id == network_id_field_val(self.network_id_str)
                &&& p.network == (if self.network_id_str is Some {
                    Option::<String>::None
                } else {
                    self.network_str
                })
                &&& p.resource == self.resource_str
                &&& p.asset == self.asset_str
                &&& (match self.asset_decimals_str {
                    None => p.asset_decimals is None,
                    Some(s) => p.asset_decimals == Some(spec_parse_u64(s@).unwrap() as u8),
                })
                &&& (match self.timeout_str {
                    None => p.timeout is None,
                    Some(s) => p.timeout == spec_parse_u64(s@),
                })
                &&& p.facilitator_fallback == fallback_field_val(self.facilitator_fallback_str)
                &&& (match self.ttl_str {
                    None => p.ttl is None,
                    Some(s) => p.ttl == Some(spec_parse_u64(s@).unwrap() as u32),
                })
                &&& p.redis_url == (if self.redis_url_str is Some {
                    self.redis_url_str
                } else {
                    env_redis_url
                })
                &&& (match self.replay_ttl_str {
                    None => p.replay_ttl is None,
                    Some(s) => p.replay_ttl == spec_parse_u64(s@),
                })
            },
    {
        let amount = match parse_amount_field(&self.amount_str) {
            Err(e) => {
                return Err(e);
            },
            Ok(v) => v,
        };
        let pay_to = match parse_address_field(&self.pay_to_str, "pay_to") {
            Err(e) => {
                return Err(e);
            },
            Ok(v) => v,
        };
        let facilitator_url = match parse_url_field(&self.facilitator_url_str) {
            Err(e) => {
                return Err(e);
            },
            Ok(v) => v,
        };
        let description = clone_opt_string(&self.description_str);
        let network_id = match parse_network_id_field(&self.network_id_str) {
            Err(e) => {
                return Err(e);
            },
            Ok(v) => v,
        };
        let network: Option<String> = if self.network_id_str.is_some() {
            None
        } else {
            match parse_network_field(&self.network_str) {
                Err(e) => {
                    return Err(e);
                },
                Ok(v) => v,
            }
        };
        let resource = clone_opt_string(&self.resource_str);
        let asset = match parse_address_field(&self.asset_str, "asset") {
            Err(e) => {
                return Err(e);
            },
            Ok(v) => v,
        };
        let asset_decimals = match parse_decimals_field(&self.asset_decimals_str) {
            Err(e) => {
                return Err(e);
            },
            Ok(v) => v,
        };
        let timeout = match parse_timeout_field(&self.timeout_str) {
            Err(e) => {
                return Err(e);
            },
            Ok(v) => v,
        };
        let facilitator_fallback = match parse_fallback_field(&self.facilitator_fallback_str) {
            Err(e) => {
                return Err(e);
            },
            Ok(v) => v,
        };
        let ttl = match parse_ttl_field(&self.ttl_str) {
            Err(e) => {
                return Err(e);
            },
            Ok(v) => v,
        };
        let redis_url: Option<String> = match &self.redis_url_str {
            None => env_redis_url,
            Some(s) => Some(s.clone()),
        };
        let replay_ttl = match parse_replay_ttl_field(&self.replay_ttl_str) {
            Err(e) => {
                return Err(e);
            },
            Ok(v) => v,
        };
        Ok(
            ParsedX402Config {
                enabled: self.enabled,
                amount,
                pay_to,
                facilitator_url,
                description,
                network,
                network_id,
                resource,
                asset,
                asset_decimals,
                timeout,
                facilitator_fallback,
                ttl,
                redis_url,
                replay_ttl,
            },
        )
    }

    /// Merges an enclosing scope's configuration into this one: the local
    /// value wins where set, the enclosing value fills the gaps.
    #[verifier::rlimit(100)]
    pub fn merge(&mut self, prev: &X402Config)
        ensures
            final(self).enabled == (old(self).enabled || prev.enabled),
            final(self).amount_str == (if old(self).amount_str is Some {
                old(self).amount_str
            } else {
                prev.amount_str
            }),
            final(self).pay_to_str == (if old(self).pay_to_str is Some {
                old(self).pay_to_str
            } else {
                prev.pay_to_str
            }),
            final(self).facilitator_url_str == (if old(self).facilitator_url_str is Some {
                old(self).facilitator_url_str
            } else {
                prev.facilitator_url_str
            }),
            final(self).description_str == (if old(self).description_str is Some {
                old(self).description_str
            } else {
                prev.description_str
            }),
            final(self).network_str == (if old(self).network_str is Some {
                old(self).network_str
            } else {
                prev.network_str
            }),
            final(self).network_id_str == (if old(self).network_id_str is Some {
                old(self).network_id_str
            } else {
                prev.network_id_str
            }),
            final(self).resource_str == (if old(self).resource_str is Some {
                old(self).resource_str
            } else {
                prev.resource_str
            }),
            final(self).asset_str == (if old(self).asset_str is Some {
                old(self).asset_str
            } else {
                prev.asset_str
            }),
            final(self).asset_decimals_str == (if old(self).asset_decimals_str is Some {
                old(self).asset_decimals_str
            } else {
                prev.asset_decimals_str
            }),
            final(self).timeout_str == (if old(self).timeout_str is Some {
                old(self).timeout_str
            } else {
                prev.timeout_str
            }),
            final(self).facilitator_fallback_str == (if old(self).facilitator_fallback_str
                is Some {
                old(self).facilitator_fallback_str
            } else {
                prev.facilitator_fallback_str
            }),
            final(self).ttl_str == (if old(self).ttl_str is Some {
                old(self).ttl_str
            } else {
                prev.ttl_str
            }),
            final(self).redis_url_str == (if old(self).redis_url_str is Some {
                old(self).redis_url_str
            } else {
                prev.redis_url_str
            }),
            final(self).replay_ttl_str == (if old(self).replay_ttl_str is Some {
                old(self).replay_ttl_str
            } else {
                prev.replay_ttl_str
            }),
    {
        if prev.enabled && !self.enabled {
            self.enabled = true;
        }
        if self.amount_str.is_none() {
            self.amount_str = clone_opt_string(&prev.amount_str);
        }
        if self.pay_to_str.is_none() {
            self.pay_to_str = clone_opt_string(&prev.pay_to_str);
        }
        if self.facilitator_url_str.is_none() {
            self.facilitator_url_str = clone_opt_string(&prev.facilitator_url_str);
        }
        if self.description_str.is_none() {
            self.description_str = clone_opt_string(&prev.description_str);
        }
        if self.network_str.is_none() {
            self.network_str = clone_opt_string(&prev.network_str);
        }
        if self.network_id_str.is_none() {
            self.network_id_str = clone_opt_string(&prev.network_id_str);
        }
        if self.resource_str.is_none() {
            self.resource_str = clone_opt_string(&prev.resource_str);
        }
        if self.asset_str.is_none() {
            self.asset_str = clone_opt_string(&prev.asset_str);
        }
        if self.asset_decimals_str.is_none() {
            self.asset_decimals_str = clone_opt_string(&prev.asset_decimals_str);
        }
        if self.timeout_str.is_none() {
            self.timeout_str = clone_opt_string(&prev.timeout_str);
        }
        if self.facilitator_fallback_str.is_none() {
            self.facilitator_fallback_str = clone_opt_string(&prev.facilitator_fallback_str);
        }
        if self.ttl_str.is_none() {
            self.ttl_str = clone_opt_string(&prev.ttl_str);
        }
        if self.redis_url_str.is_none() {
            self.redis_url_str = clone_opt_string(&prev.redis_url_str);
        }
        if self.replay_ttl_str.is_none() {
            self.replay_ttl_str = clone_opt_string(&prev.replay_ttl_str);
        }
    }
}

} // verus!
