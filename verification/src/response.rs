//! Client-facing 402 rendering: the machine-readable envelope carried in a
//! header, a JSON body for API clients, and an HTML paywall for browsers.
//! This module only computes the response; the host server writes it.

use vstd::prelude::*;

use vstd::utf8::encode_utf8;

use crate::codec::{b64_encode, b64_of};
use crate::json::{payment_required_response_to_json, spec_response_json, json_string,
    spec_accepts_items};
use crate::requirements::{create_payment_required_response, PaymentRequirements,
    PaymentRequiredResponse};

verus! {

/// A fully computed response, ready for the host server to write.
pub struct PreparedResponse {
    /// HTTP status to set.
    pub status: u16,
    /// Value for the Content-Type header.
    pub content_type: String,
    /// Value for the PAYMENT-REQUIRED header, where one is owed.
    pub payment_required_header: Option<String>,
    /// The response body.
    pub body: String,
    /// The user-facing reason this response shows, for the caller's log.
    pub error_message: Option<String>,
}

/// The paywall page: fixed markup around the message, network, amount and
/// receiving address.
pub open spec fn spec_paywall_html(
    message: Seq<char>,
    network: Seq<char>,
    amount: Seq<char>,
    pay_to: Seq<char>,
) -> Seq<char> {
    "<!DOCTYPE html>\n<html lang=\"en\">\n<head>\n<meta charset=\"utf-8\">\n<meta name=\"viewport\" content=\"width=device-width, initial-scale=1\">\n<title>402 Payment Required</title>\n<style>\nbody{font-family:system-ui,-apple-system,sans-serif;display:flex;justify-content:center;align-items:center;min-height:100vh;margin:0;background:#f5f5f5;color:#333}\n.card{background:#fff;border-radius:12px;padding:2rem;max-width:480px;width:90%;box-shadow:0 2px 12px rgba(0,0,0,.1);text-align:center}\nh1{font-size:1.5rem;margin:0 0 .5rem}\n.code{font-size:3rem;font-weight:700;color:#6366f1;margin:.5rem 0}\np{color:#666;line-height:1.5}\n.info{background:#f8f9fa;border-radius:8px;padding:1rem;margin:1rem 0;font-size:.875rem;text-align:left}\n.info dt{font-weight:600;margin-top:.5rem}\n.info dd{margin:0 0 .25rem;font-family:monospace;word-break:break-all}\n</style>\n</head>\n<body>\n<div class=\"card\">\n<div class=\"code\">402</div>\n<h1>Payment Required</h1>\n<p>"@
        + message
        + "</p>\n<div class=\"info\">\n<dl>\n<dt>Network</dt><dd>"@ + network
        + "</dd>\n<dt>Amount</dt><dd>"@ + amount + "</dd>\n<dt>Pay To</dt><dd>"@ + pay_to
        + "</dd>\n</dl>\n</div>\n<p style=\"font-size:.8rem;color:#999\">Powered by x402 protocol</p>\n</div>\n</body>\n</html>"@
}

/// The network shown on the paywall: the first requirement's, else a
/// fixed stand-in.
pub open spec fn spec_paywall_network(reqs: Seq<PaymentRequirements>) -> Seq<char> {
    if reqs.len() > 0 {
        reqs[0].network@
    } else {
        "unknown"@
    }
}

/// The amount shown on the paywall.
pub open spec fn spec_paywall_amount(reqs: Seq<PaymentRequirements>) -> Seq<char> {
    if reqs.len() > 0 {
        reqs[0].amount@
    } else {
        "0"@
    }
}

/// The receiving address shown on the paywall.
pub open spec fn spec_paywall_pay_to(reqs: Seq<PaymentRequirements>) -> Seq<char> {
    if reqs.len() > 0 {
        reqs[0].pay_to@
    } else {
        "unknown"@
    }
}

/// Renders the browser-facing paywall page.
pub fn generate_paywall_html(message: &str, requirements: &Vec<PaymentRequirements>) -> (r: String)
    ensures
        r@ == spec_paywall_html(
            message@,
            spec_paywall_network(requirements@),
            spec_paywall_amount(requirements@),
            spec_paywall_pay_to(requirements@),
        ),
{
    let mut out = String::from_str(
        "<!DOCTYPE html>\n<html lang=\"en\">\n<head>\n<meta charset=\"utf-8\">\n<meta name=\"viewport\" content=\"width=device-width, initial-scale=1\">\n<title>402 Payment Required</title>\n<style>\nbody{font-family:system-ui,-apple-system,sans-serif;display:flex;justify-content:center;align-items:center;min-height:100vh;margin:0;background:#f5f5f5;color:#333}\n.card{background:#fff;border-radius:12px;padding:2rem;max-width:480px;width:90%;box-shadow:0 2px 12px rgba(0,0,0,.1);text-align:center}\nh1{font-size:1.5rem;margin:0 0 .5rem}\n.code{font-size:3rem;font-weight:700;color:#6366f1;margin:.5rem 0}\np{color:#666;line-height:1.5}\n.info{background:#f8f9fa;border-radius:8px;padding:1rem;margin:1rem 0;font-size:.875rem;text-align:left}\n.info dt{font-weight:600;margin-top:.5rem}\n.info dd{margin:0 0 .25rem;font-family:monospace;word-break:break-all}\n</style>\n</head>\n<body>\n<div class=\"card\">\n<div class=\"code\">402</div>\n<h1>Payment Required</h1>\n<p>",
    );
    out.append(message);
    out.append("</p>\n<div class=\"info\">\n<dl>\n<dt>Network</dt><dd>");
    if requirements.len() > 0 {
        out.append(requirements[0].network.as_str());
    } else {
        out.append("unknown");
    }
    out.append("</dd>\n<dt>Amount</dt><dd>");
    if requirements.len() > 0 {
        out.append(requirements[0].amount.as_str());
    } else {
        out.append("0");
    }
    out.append("</dd>\n<dt>Pay To</dt><dd>");
    if requirements.len() > 0 {
        out.append(requirements[0].pay_to.as_str());
    } else {
        out.append("unknown");
    }
    out.append(
        "</dd>\n</dl>\n</div>\n<p style=\"font-size:.8rem;color:#999\">Powered by x402 protocol</p>\n</div>\n</body>\n</html>",
    );
    out
}

/// The message a 402 response shows: the caller's reason, else the
/// configured description, else a fixed default.
pub open spec fn spec_effective_message(
    error_msg: Option<Seq<char>>,
    description: Option<Seq<char>>,
) -> Seq<char> {
    match error_msg {
        Some(e) => e,
        None => match description {
            Some(d) => d,
            None => "Payment required"@,
        },
    }
}

/// The envelope JSON a 402 response carries, over its parts.
pub open spec fn spec_envelope_json(
    error: Seq<char>,
    description: Seq<char>,
    mime_type: Seq<char>,
    url: Seq<char>,
    accepts: Seq<PaymentRequirements>,
) -> Seq<char> {
    "{\"x402Version\":2"@ + ",\"error\":"@ + json_string(error)
        + ",\"resource\":{\"description\":"@ + json_string(description) + ",\"mimeType\":"@
        + json_string(mime_type) + ",\"url\":"@ + json_string(url) + "},\"accepts\":["@
        + spec_accepts_items(accepts) + "]}"@
}

/// Computes the full 402 response: the base64 envelope header always, and a
/// paywall page or the envelope JSON as the body by content negotiation.
pub fn render_402(
    requirements: Vec<PaymentRequirements>,
    description: &Option<String>,
    resource_url: &str,
    mime_type: &str,
    error_msg: Option<&str>,
    is_browser: bool,
) -> (r: PreparedResponse)
    ensures
        r.status == 402,
        ({
            let em = spec_effective_message(
                match error_msg {
                    Some(e) => Some(e@),
                    None => None,
                },
                match *description {
                    Some(ref d) => Some(d@),
                    None => None,
                },
            );
            let desc = match *description {
                Some(ref d) => d@,
                None => ""@,
            };
            let envelope = spec_envelope_json(em, desc, mime_type@, resource_url@, requirements@);
            &&& r.payment_required_header is Some
            &&& r.payment_required_header.unwrap()@ == b64_of(encode_utf8(envelope))
            &&& r.error_message is Some
            &&& r.error_message.unwrap()@ == em
            &&& (is_browser ==> r.body@ == spec_paywall_html(
                em,
                spec_paywall_network(requirements@),
                spec_paywall_amount(requirements@),
                spec_paywall_pay_to(requirements@),
            ) && r.content_type@ == "text/html; charset=utf-8"@)
            &&& (!is_browser ==> r.body@ == envelope && r.content_type@
                == "application/json; charset=utf-8"@)
        }),
{
    let error_message: &str = match error_msg {
        Some(e) => e,
        None => match description {
            Some(d) => d.as_str(),
            None => "Payment required",
        },
    };
    let description_str: &str = match description {
        Some(d) => d.as_str(),
        None => "",
    };
    let html: String = if is_browser {
        generate_paywall_html(error_message, &requirements)
    } else {
        String::new()
    };
    let response: PaymentRequiredResponse = create_payment_required_response(
        error_message,
        requirements,
        resource_url,
        description_str,
        mime_type,
    );
    let envelope_json = payment_required_response_to_json(&response);
    proof {
        assert(spec_response_json(response) =~= spec_envelope_json(
            spec_effective_message(
                match error_msg {
                    Some(e) => Some(e@),
                    None => None,
                },
                match *description {
                    Some(ref d) => Some(d@),
                    None => None,
                },
            ),
            match *description {
                Some(ref d) => d@,
                None => ""@,
            },
            mime_type@,
            resource_url@,
            response.accepts@,
        ));
    }
    let header_b64 = b64_encode(envelope_json.as_str().as_bytes());
    let em_string = String::from_str(error_message);
    if is_browser {
        PreparedResponse {
            status: 402,
            content_type: String::from_str("text/html; charset=utf-8"),
            payment_required_header: Some(header_b64),
            body: html,
            error_message: Some(em_string),
        }
    } else {
        PreparedResponse {
            status: 402,
            content_type: String::from_str("application/json; charset=utf-8"),
            payment_required_header: Some(header_b64),
            body: envelope_json,
            error_message: Some(em_string),
        }
    }
}

/// The fixed internal-error response sent when the facilitator is
/// unreachable and the fallback policy is to fail closed.
pub fn render_internal_error() -> (r: PreparedResponse)
    ensures
        r.status == 500,
        r.content_type@ == "text/plain; charset=utf-8"@,
        r.body@ == "Internal server error"@,
        r.payment_required_header is None,
        r.error_message is None,
{
    PreparedResponse {
        status: 500,
        content_type: String::from_str("text/plain; charset=utf-8"),
        payment_required_header: None,
        body: String::from_str("Internal server error"),
        error_message: None,
    }
}

} // verus!
