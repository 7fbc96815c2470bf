//! Pure validation of amounts, addresses, network identifiers, URLs and
//! resource paths.  Every check returns success or a human-readable failure
//! reason; none is used for flow control by panicking.

use vstd::prelude::*;

use crate::amount::{spec_parse_decimal, parse_decimal, Amount};
use crate::digits::{dec_digits, u64_to_string};
use crate::strutil::{starts_with, starts_with_seq, str_eq, trim, trim_spec};

verus! {

/// Most fractional digits a configured amount may carry.
pub const MAX_AMOUNT_SCALE: u32 = 18;

/// The failure reason [`validate_amount`] reports.
pub open spec fn spec_amount_err_msg(a: Amount) -> Seq<char> {
    if a.spec_is_negative() {
        "Amount cannot be negative"@
    } else {
        "Amount has "@ + dec_digits(a.scale as nat) + " decimal places, maximum is 18"@
    }
}

/// Rejects negative amounts and amounts with more than
/// [`MAX_AMOUNT_SCALE`] fractional digits.
pub fn validate_amount(amount: &Amount) -> (r: Result<(), String>)
    ensures
        r is Ok <==> !amount.spec_is_negative() && amount.scale <= MAX_AMOUNT_SCALE,
        r is Err ==> r->Err_0@ == spec_amount_err_msg(*amount),
{
    if amount.is_negative() {
        return Err(String::from_str("Amount cannot be negative"));
    }
    if amount.scale > 18 {
        let mut msg = String::from_str("Amount has ");
        let d = u64_to_string(amount.scale as u64);
        msg.append(d.as_str());
        msg.append(" decimal places, maximum is 18");
        proof {
            assert(msg@ =~= spec_amount_err_msg(*amount));
        }
        return Err(msg);
    }
    Ok(())
}

/// `c` is an ASCII hexadecimal digit, either case.
pub open spec fn is_hex_char(c: char) -> bool {
    (48 <= c as u32 && c as u32 <= 57) || (97 <= c as u32 && c as u32 <= 102) || (65 <= c as u32
        && c as u32 <= 70)
}

/// A well-formed address: after trimming, exactly 42 characters, a `0x` or
/// `0X` prefix and 40 hexadecimal digits.
pub open spec fn spec_valid_eth_address(s: Seq<char>) -> bool {
    let t = trim_spec(s);
    &&& t.len() == 42
    &&& t[0] == '0'
    &&& (t[1] == 'x' || t[1] == 'X')
    &&& forall|i: int| 2 <= i < 42 ==> is_hex_char(t[i])
}

fn is_hex(c: char) -> (r: bool)
    ensures
        r == is_hex_char(c),
{
    let u = c as u32;
    (48 <= u && u <= 57) || (97 <= u && u <= 102) || (65 <= u && u <= 70)
}

/// The failure reason [`validate_ethereum_address`] reports.
pub open spec fn spec_eth_address_err_msg(s: Seq<char>) -> Seq<char> {
    let t = trim_spec(s);
    if !(t.len() >= 2 && t[0] == '0' && (t[1] == 'x' || t[1] == 'X')) {
        "Ethereum address must start with 0x"@
    } else if t.len() != 42 {
        "Ethereum address must be 42 characters, got "@ + dec_digits(t.len())
    } else {
        "Ethereum address contains invalid hex characters"@
    }
}

/// Accepts exactly the 42-character `0x`-plus-40-hex-digit strings, hex
/// digits in either case.
pub fn validate_ethereum_address(address: &str) -> (r: Result<(), String>)
    ensures
        r is Ok <==> spec_valid_eth_address(address@),
        r is Err ==> r->Err_0@ == spec_eth_address_err_msg(address@),
{
    let t = trim(address);
    let n = t.unicode_len();
    if n < 2 || t.get_char(0) != '0' || (t.get_char(1) != 'x' && t.get_char(1) != 'X') {
        return Err(String::from_str("Ethereum address must start with 0x"));
    }
    if n != 42 {
        let mut msg = String::from_str("Ethereum address must be 42 characters, got ");
        let d = u64_to_string(n as u64);
        msg.append(d.as_str());
        proof {
            assert(msg@ =~= spec_eth_address_err_msg(address@));
        }
        return Err(msg);
    }
    let mut i: usize = 2;
    while i < 42
        invariant
            2 <= i <= 42,
            t@.len() == 42,
            t@ == trim_spec(address@),
            t@[0] == '0',
            t@[1] == 'x' || t@[1] == 'X',
            forall|j: int| 2 <= j < i ==> is_hex_char(t@[j]),
        decreases 42 - i,
    {
        if !is_hex(t.get_char(i)) {
            return Err(String::from_str("Ethereum address contains invalid hex characters"));
        }
        i = i + 1;
    }
    Ok(())
}

/// The friendly network names this gate knows, with their chain ids.
pub open spec fn spec_known_network(s: Seq<char>) -> bool {
    s == "base"@ || s == "base-sepolia"@ || s == "polygon"@
}

/// A valid network name: non-empty after trimming; with a colon, both sides
/// of the first colon non-empty; without one, a known friendly name.
pub open spec fn spec_valid_network(s: Seq<char>) -> bool {
    let t = trim_spec(s);
    &&& t.len() > 0
    &&& match t.index_of_first(':') {
        Some(i) => i > 0 && i + 1 < t.len(),
        None => spec_known_network(t),
    }
}

/// The failure reason [`validate_network`] reports.
pub open spec fn spec_network_err_msg(s: Seq<char>) -> Seq<char> {
    let t = trim_spec(s);
    if t.len() == 0 {
        "Network cannot be empty"@
    } else {
        match t.index_of_first(':') {
            Some(i) => "Invalid CAIP-2 network format: "@ + t,
            None => "Unsupported network name: "@ + t,
        }
    }
}

/// Validates a network given as a `namespace:reference` pair or as a known
/// friendly name.
pub fn validate_network(network: &str) -> (r: Result<(), String>)
    ensures
        r is Ok <==> spec_valid_network(network@),
        r is Err ==> r->Err_0@ == spec_network_err_msg(network@),
{
    let t = trim(network);
    let n = t.unicode_len();
    if n == 0 {
        return Err(String::from_str("Network cannot be empty"));
    }
    let mut i: usize = 0;
    while i < n && t.get_char(i) != ':'
        invariant
            0 <= i <= n,
            n == t@.len(),
            forall|j: int| 0 <= j < i ==> t@[j] != ':',
        decreases n - i,
    {
        i = i + 1;
    }
    if i < n {
        proof {
            crate::strutil::lemma_index_of_first_is(t@, ':', i as int);
        }
        if i > 0 && i + 1 < n {
            Ok(())
        } else {
            let mut msg = String::from_str("Invalid CAIP-2 network format: ");
            msg.append(t);
            Err(msg)
        }
    } else {
        proof {
            crate::strutil::lemma_index_of_first_none(t@, ':');
        }
        if str_eq(t, "base") || str_eq(t, "base-sepolia") || str_eq(t, "polygon") {
            Ok(())
        } else {
            let mut msg = String::from_str("Unsupported network name: ");
            msg.append(t);
            Err(msg)
        }
    }
}

/// A valid URL for this gate: non-empty after trimming and an `http://` or
/// `https://` scheme.
pub open spec fn spec_valid_url(s: Seq<char>) -> bool {
    let t = trim_spec(s);
    t.len() > 0 && (starts_with_seq(t, "http://"@) || starts_with_seq(t, "https://"@))
}

/// The failure reason [`validate_url`] reports.
pub open spec fn spec_url_err_msg(s: Seq<char>) -> Seq<char> {
    if trim_spec(s).len() == 0 {
        "URL cannot be empty"@
    } else {
        "URL must start with http:// or https://"@
    }
}

/// Validates a facilitator URL.
pub fn validate_url(url: &str) -> (r: Result<(), String>)
    ensures
        r is Ok <==> spec_valid_url(url@),
        r is Err ==> r->Err_0@ == spec_url_err_msg(url@),
{
    let t = trim(url);
    if t.unicode_len() == 0 {
        return Err(String::from_str("URL cannot be empty"));
    }
    if starts_with(t, "http://") || starts_with(t, "https://") {
        Ok(())
    } else {
        Err(String::from_str("URL must start with http:// or https://"))
    }
}

/// A `..` path segment: two dots bounded by slashes or the string's ends.
pub open spec fn has_dotdot_segment(s: Seq<char>) -> bool {
    exists|i: int|
        0 <= i && i + 2 <= s.len() && #[trigger] s[i] == '.' && s[i + 1] == '.' && (i == 0 || s[i
            - 1] == '/') && (i + 2 == s.len() || s[i + 2] == '/')
}

/// The failure reason [`validate_resource_path`] reports.
pub open spec fn spec_resource_path_err_msg(s: Seq<char>) -> Seq<char> {
    if trim_spec(s).len() == 0 {
        "Resource path cannot be empty"@
    } else {
        "Resource path cannot contain '..'"@
    }
}

/// Rejects empty paths and paths with a `..` segment; returns the trimmed
/// path otherwise.
pub fn validate_resource_path(path: &str) -> (r: Result<String, String>)
    ensures
        r is Ok <==> (trim_spec(path@).len() > 0 && !has_dotdot_segment(trim_spec(path@))),
        r is Ok ==> r->Ok_0@ == trim_spec(path@),
        r is Err ==> r->Err_0@ == spec_resource_path_err_msg(path@),
{
    let t = trim(path);
    let n = t.unicode_len();
    if n == 0 {
        return Err(String::from_str("Resource path cannot be empty"));
    }
    let mut i: usize = 0;
    while i < n - 1
        invariant
            1 <= n,
            0 <= i && i <= n,
            n == t@.len(),
            t@ == trim_spec(path@),
            forall|k: int|
                0 <= k < i ==> !(#[trigger] t@[k] == '.' && t@[k + 1] == '.' && (k == 0 || t@[k
                    - 1] == '/') && (k + 2 == t@.len() || t@[k + 2] == '/')),
        decreases n - i,
    {
        let boundary_before = i == 0 || t.get_char(i - 1) == '/';
        let boundary_after = i + 2 == n || t.get_char(i + 2) == '/';
        if t.get_char(i) == '.' && t.get_char(i + 1) == '.' && boundary_before && boundary_after {
            proof {
                let gi = i as int;
                assert(0 <= gi && gi + 2 <= t@.len() && t@[gi] == '.' && t@[gi + 1] == '.' && (gi
                    == 0 || t@[gi - 1] == '/') && (gi + 2 == t@.len() || t@[gi + 2] == '/'));
                assert(has_dotdot_segment(t@));
            }
            return Err(String::from_str("Resource path cannot contain '..'"));
        }
        i = i + 1;
    }
    proof {
        assert(!has_dotdot_segment(t@)) by {
            assert(forall|k: int|
                0 <= k && k + 2 <= t@.len() ==> !(#[trigger] t@[k] == '.' && t@[k + 1] == '.' && (k
                    == 0 || t@[k - 1] == '/') && (k + 2 == t@.len() || t@[k + 2] == '/')));
        }
    }
    Ok(String::from_str(t))
}

/// Maps a known numeric chain id to its friendly network name.
pub fn chain_id_to_network(chain_id: u64) -> (r: Result<&'static str, String>)
    ensures
        chain_id == 8453 ==> r is Ok && r->Ok_0@ == "base"@,
        chain_id == 84532 ==> r is Ok && r->Ok_0@ == "base-sepolia"@,
        chain_id == 137 ==> r is Ok && r->Ok_0@ == "polygon"@,
        !(chain_id == 8453 || chain_id == 84532 || chain_id == 137) ==> r is Err
            && r->Err_0@ == "Unsupported chain ID: "@ + dec_digits(chain_id as nat),
        r is Ok ==> spec_known_network(r->Ok_0@),
{
    if chain_id == 8453 {
        Ok("base")
    } else if chain_id == 84532 {
        Ok("base-sepolia")
    } else if chain_id == 137 {
        Ok("polygon")
    } else {
        let mut msg = String::from_str("Unsupported chain ID: ");
        let d = u64_to_string(chain_id);
        msg.append(d.as_str());
        proof {
            assert(msg@ =~= "Unsupported chain ID: "@ + dec_digits(chain_id as nat));
        }
        Err(msg)
    }
}

/// The input without one leading dollar sign.
pub open spec fn strip_dollar(s: Seq<char>) -> Seq<char> {
    if s.len() > 0 && s[0] == '$' {
        s.skip(1)
    } else {
        s
    }
}

/// What [`parse_amount`] accepts: the trimmed input, less one optional
/// leading `$`, read as a decimal literal.
pub open spec fn spec_parse_amount(s: Seq<char>) -> Option<Amount> {
    spec_parse_decimal(strip_dollar(trim_spec(s)))
}

/// Parses a decimal amount, allowing dollar-prefixed forms such as `$0.001`.
pub fn parse_amount(s: &str) -> (r: Result<Amount, String>)
    ensures
        r is Ok <==> spec_parse_amount(s@) is Some,
        r is Ok ==> r->Ok_0 == spec_parse_amount(s@).unwrap() && r->Ok_0.wf(),
        r is Err ==> r->Err_0@ == "Invalid amount"@,
{
    let t = trim(s);
    let n = t.unicode_len();
    let u: &str = if n > 0 && t.get_char(0) == '$' {
        t.substring_char(1, n)
    } else {
        t
    };
    proof {
        assert(u@ =~= strip_dollar(t@));
    }
    match parse_decimal(u) {
        Some(a) => Ok(a),
        None => Err(String::from_str("Invalid amount")),
    }
}

} // verus!
