//! The canonical wire shape of the 402 envelope and the payment
//! requirement, produced by a verified encoder.  One shape is emitted:
//! protocol version 2, the amount under `amount` only, and resource
//! metadata wrapped in a `resource` object.

use vstd::prelude::*;

use crate::digits::{dec_digits, digit_char, u64_to_string};
use crate::requirements::{PaymentRequirements, PaymentRequiredResponse};
use crate::strutil::push_char;

verus! {

/// Lower-case hexadecimal digit character.
pub open spec fn hex_digit_char(d: nat) -> char {
    if d < 10 {
        digit_char(d)
    } else if d == 10 {
        'a'
    } else if d == 11 {
        'b'
    } else if d == 12 {
        'c'
    } else if d == 13 {
        'd'
    } else if d == 14 {
        'e'
    } else {
        'f'
    }
}

/// The JSON escape of one character: quotes and backslashes are escaped,
/// control characters become `\u00XX`, everything else stands unchanged.
pub open spec fn json_escape_char(c: char) -> Seq<char> {
    if c == '"' {
        seq!['\\', '"']
    } else if c == '\\' {
        seq!['\\', '\\']
    } else if (c as u32) < 32 {
        seq!['\\', 'u', '0', '0', hex_digit_char((c as u32 / 16) as nat), hex_digit_char(
            (c as u32 % 16) as nat,
        )]
    } else {
        seq![c]
    }
}

/// The JSON escape of a string body.
pub open spec fn json_escape_seq(s: Seq<char>) -> Seq<char>
    decreases s.len(),
{
    if s.len() == 0 {
        Seq::empty()
    } else {
        json_escape_char(s[0]) + json_escape_seq(s.skip(1))
    }
}

fn hex_digit_lower(d: u32) -> (r: char)
    requires
        d < 16,
    ensures
        r == hex_digit_char(d as nat),
{
    match d {
        0 => '0',
        1 => '1',
        2 => '2',
        3 => '3',
        4 => '4',
        5 => '5',
        6 => '6',
        7 => '7',
        8 => '8',
        9 => '9',
        10 => 'a',
        11 => 'b',
        12 => 'c',
        13 => 'd',
        14 => 'e',
        _ => 'f',
    }
}

/// Appends the JSON escape of `s` to `out`.
pub fn append_json_escaped(out: &mut String, s: &str)
    ensures
        final(out)@ == old(out)@ + json_escape_seq(s@),
{
    let n = s.unicode_len();
    proof {
        assert(s@.skip(0) =~= s@);
    }
    let mut i: usize = 0;
    while i < n
        invariant
            0 <= i <= n,
            n == s@.len(),
            out@ + json_escape_seq(s@.skip(i as int)) == old(out)@ + json_escape_seq(s@),
        decreases n - i,
    {
        let c = s.get_char(i);
        let cu = c as u32;
        let ghost pre = out@;
        if c == '"' {
            out.append("\\\"");
        } else if c == '\\' {
            out.append("\\\\");
        } else if cu < 32 {
            out.append("\\u00");
            push_char(out, hex_digit_lower(cu / 16));
            push_char(out, hex_digit_lower(cu % 16));
        } else {
            push_char(out, c);
        }
        proof {
            reveal_strlit("\\\"");
            reveal_strlit("\\\\");
            reveal_strlit("\\u00");
            assert(out@ =~= pre + json_escape_char(s@[i as int]));
            assert(s@.skip(i as int)[0] == s@[i as int]);
            assert(s@.skip(i as int).skip(1) =~= s@.skip(i as int + 1));
            assert(json_escape_seq(s@.skip(i as int)) == json_escape_char(s@[i as int])
                + json_escape_seq(s@.skip(i as int + 1)));
            assert(out@ + json_escape_seq(s@.skip(i as int + 1)) =~= pre + json_escape_seq(
                s@.skip(i as int),
            ));
        }
        i = i + 1;
    }
    proof {
        assert(s@.skip(n as int) =~= Seq::<char>::empty());
        assert(out@ + Seq::<char>::empty() =~= out@);
    }
}

/// A quoted, escaped JSON string.
pub open spec fn json_string(s: Seq<char>) -> Seq<char> {
    seq!['"'] + json_escape_seq(s) + seq!['"']
}

fn append_json_string(out: &mut String, s: &str)
    ensures
        final(out)@ == old(out)@ + json_string(s@),
{
    push_char(out, '"');
    append_json_escaped(out, s);
    push_char(out, '"');
    proof {
        assert(out@ =~= old(out)@ + json_string(s@));
    }
}

/// The JSON object for one payment requirement.
pub open spec fn spec_req_json(r: PaymentRequirements) -> Seq<char> {
    "{\"scheme\":"@ + json_string(r.scheme@) + ",\"network\":"@ + json_string(r.network@)
        + ",\"amount\":"@ + json_string(r.amount@) + ",\"payTo\":"@ + json_string(r.pay_to@)
        + ",\"maxTimeoutSeconds\":"@ + dec_digits(r.max_timeout_seconds as nat) + ",\"asset\":"@
        + json_string(r.asset@) + (match r.extra {
        Some(x) => ",\"extra\":{\"name\":"@ + json_string(x.name@) + ",\"version\":"@
            + json_string(x.version@) + "}"@,
        None => Seq::empty(),
    }) + "}"@
}

/// Encodes one payment requirement.
pub fn payment_requirements_to_json(r: &PaymentRequirements) -> (out: String)
    ensures
        out@ == spec_req_json(*r),
{
    let mut out = String::from_str("{\"scheme\":");
    append_json_string(&mut out, r.scheme.as_str());
    out.append(",\"network\":");
    append_json_string(&mut out, r.network.as_str());
    out.append(",\"amount\":");
    append_json_string(&mut out, r.amount.as_str());
    out.append(",\"payTo\":");
    append_json_string(&mut out, r.pay_to.as_str());
    out.append(",\"maxTimeoutSeconds\":");
    let d = u64_to_string(r.max_timeout_seconds);
    out.append(d.as_str());
    out.append(",\"asset\":");
    append_json_string(&mut out, r.asset.as_str());
    match &r.extra {
        Some(x) => {
            out.append(",\"extra\":{\"name\":");
            append_json_string(&mut out, x.name.as_str());
            out.append(",\"version\":");
            append_json_string(&mut out, x.version.as_str());
            out.append("}");
        },
        None => {},
    }
    out.append("}");
    proof {
        assert(out@ =~= spec_req_json(*r));
    }
    out
}

/// The comma-joined requirement objects of the `accepts` array.
pub open spec fn spec_accepts_items(v: Seq<PaymentRequirements>) -> Seq<char>
    decreases v.len(),
{
    if v.len() == 0 {
        Seq::empty()
    } else {
        spec_accepts_items(v.drop_last()) + (if v.len() == 1 {
            Seq::<char>::empty()
        } else {
            ","@
        }) + spec_req_json(v.last())
    }
}

/// The JSON object for the whole 402 envelope.
pub open spec fn spec_response_json(r: PaymentRequiredResponse) -> Seq<char> {
    "{\"x402Version\":2"@ + (match r.error {
        Some(e) => ",\"error\":"@ + json_string(e@),
        None => Seq::empty(),
    }) + ",\"resource\":{\"description\":"@ + json_string(r.resource.description@)
        + ",\"mimeType\":"@ + json_string(r.resource.mime_type@) + ",\"url\":"@ + json_string(
        r.resource.url@,
    ) + "},\"accepts\":["@ + spec_accepts_items(r.accepts@) + "]}"@
}

/// Encodes the 402 envelope.
pub fn payment_required_response_to_json(r: &PaymentRequiredResponse) -> (out: String)
    ensures
        out@ == spec_response_json(*r),
{
    let mut out = String::from_str("{\"x402Version\":2");
    match &r.error {
        Some(e) => {
            out.append(",\"error\":");
            append_json_string(&mut out, e.as_str());
        },
        None => {},
    }
    out.append(",\"resource\":{\"description\":");
    append_json_string(&mut out, r.resource.description.as_str());
    out.append(",\"mimeType\":");
    append_json_string(&mut out, r.resource.mime_type.as_str());
    out.append(",\"url\":");
    append_json_string(&mut out, r.resource.url.as_str());
    out.append("},\"accepts\":[");
    let ghost head = out@;
    let m = r.accepts.len();
    let mut i: usize = 0;
    while i < m
        invariant
            0 <= i <= m,
            m == r.accepts@.len(),
            out@ == head + spec_accepts_items(r.accepts@.take(i as int)),
        decreases m - i,
    {
        let ghost pre = out@;
        if i > 0 {
            out.append(",");
        }
        let item = payment_requirements_to_json(&r.accepts[i]);
        out.append(item.as_str());
        proof {
            reveal_strlit(",");
            let tk = r.accepts@.take(i as int + 1);
            assert(tk.drop_last() =~= r.accepts@.take(i as int));
            assert(tk.last() == r.accepts@[i as int]);
            assert(out@ =~= head + spec_accepts_items(tk));
        }
        i = i + 1;
    }
    out.append("]}");
    proof {
        assert(r.accepts@.take(m as int) =~= r.accepts@);
        assert(out@ =~= spec_response_json(*r));
    }
    out
}

} // verus!
