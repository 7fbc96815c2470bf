//! Request introspection over plain header values: content negotiation,
//! websocket detection, method skipping, URL assembly and MIME inference.
//! The host server reads the headers; these functions decide.

use vstd::prelude::*;

use crate::strutil::{contains_seq, contains_sub, lower_seq, starts_with, starts_with_seq, str_eq,
    to_ascii_lower, trim, trim_spec};

verus! {

/// The browser heuristic: an explicit JSON content type or accept header
/// marks an API client; `text/html` in the accept header marks a browser;
/// else a browser-like user agent that is not a known API tool decides.
pub open spec fn spec_is_browser(
    content_type: Option<Seq<char>>,
    accept: Option<Seq<char>>,
    user_agent: Option<Seq<char>>,
) -> bool {
    if content_type is Some && starts_with_seq(
        lower_seq(content_type.unwrap()),
        "application/json"@,
    ) {
        false
    } else if accept is Some && contains_seq(lower_seq(accept.unwrap()), "text/html"@) {
        true
    } else if accept is Some && contains_seq(lower_seq(accept.unwrap()), "application/json"@) {
        false
    } else {
        match user_agent {
            Some(ua) => {
                let l = lower_seq(ua);
                let is_browser = contains_seq(l, "mozilla"@) && (contains_seq(l, "chrome"@)
                    || contains_seq(l, "safari"@) || contains_seq(l, "firefox"@) || contains_seq(
                    l,
                    "edge"@,
                ));
                let is_api = contains_seq(l, "curl"@) || contains_seq(l, "wget"@) || contains_seq(
                    l,
                    "python-requests"@,
                ) || contains_seq(l, "go-http-client"@) || contains_seq(l, "postman"@);
                is_browser && !is_api
            },
            None => false,
        }
    }
}

/// Decides whether the client is a browser, from the request's
/// Content-Type, Accept and User-Agent header values.
pub fn is_browser_request(
    content_type: Option<&str>,
    accept: Option<&str>,
    user_agent: Option<&str>,
) -> (r: bool)
    ensures
        r == spec_is_browser(
            match content_type {
                Some(s) => Some(s@),
                None => None,
            },
            match accept {
                Some(s) => Some(s@),
                None => None,
            },
            match user_agent {
                Some(s) => Some(s@),
                None => None,
            },
        ),
{
    if let Some(ct) = content_type {
        let l = to_ascii_lower(ct);
        if starts_with(l.as_str(), "application/json") {
            return false;
        }
    }
    if let Some(acc) = accept {
        let l = to_ascii_lower(acc);
        if contains_sub(l.as_str(), "text/html") {
            return true;
        }
        if contains_sub(l.as_str(), "application/json") {
            return false;
        }
    }
    match user_agent {
        Some(ua) => {
            let l = to_ascii_lower(ua);
            let is_browser = contains_sub(l.as_str(), "mozilla") && (contains_sub(
                l.as_str(),
                "chrome",
            ) || contains_sub(l.as_str(), "safari") || contains_sub(l.as_str(), "firefox")
                || contains_sub(l.as_str(), "edge"));
            let is_api = contains_sub(l.as_str(), "curl") || contains_sub(l.as_str(), "wget")
                || contains_sub(l.as_str(), "python-requests") || contains_sub(
                l.as_str(),
                "go-http-client",
            ) || contains_sub(l.as_str(), "postman");
            is_browser && !is_api
        },
        None => false,
    }
}

/// A websocket upgrade: an Upgrade header naming websocket and a Connection
/// header mentioning upgrade.
pub open spec fn spec_is_websocket(
    upgrade: Option<Seq<char>>,
    connection: Option<Seq<char>>,
) -> bool {
    &&& upgrade is Some && lower_seq(upgrade.unwrap()) == "websocket"@
    &&& connection is Some && contains_seq(lower_seq(connection.unwrap()), "upgrade"@)
}

/// Decides whether the request asks for a websocket upgrade.
pub fn is_websocket_request(upgrade: Option<&str>, connection: Option<&str>) -> (r: bool)
    ensures
        r == spec_is_websocket(
            match upgrade {
                Some(s) => Some(s@),
                None => None,
            },
            match connection {
                Some(s) => Some(s@),
                None => None,
            },
        ),
{
    let has_upgrade = match upgrade {
        Some(u) => {
            let l = to_ascii_lower(u);
            str_eq(l.as_str(), "websocket")
        },
        None => false,
    };
    let has_connection = match connection {
        Some(c) => {
            let l = to_ascii_lower(c);
            contains_sub(l.as_str(), "upgrade")
        },
        None => false,
    };
    has_upgrade && has_connection
}

/// Methods that are never charged for.
pub open spec fn spec_skip_method(method: Seq<char>) -> bool {
    method == "OPTIONS"@ || method == "HEAD"@ || method == "TRACE"@
}

/// Decides whether this request method bypasses payment handling.
pub fn should_skip_method(method: &str) -> (r: bool)
    ensures
        r == spec_skip_method(method@),
{
    str_eq(method, "OPTIONS") || str_eq(method, "HEAD") || str_eq(method, "TRACE")
}

/// The scheme the full URL uses: a forwarded protocol naming http or https,
/// else http.
pub open spec fn spec_url_scheme(forwarded_proto: Option<Seq<char>>) -> Seq<char> {
    match forwarded_proto {
        Some(p) => {
            let l = lower_seq(p);
            if l == "https"@ || l == "http"@ {
                l
            } else {
                "http"@
            }
        },
        None => "http"@,
    }
}

/// The full URL: scheme, host, and the path with a leading slash enforced.
pub open spec fn spec_full_url(
    forwarded_proto: Option<Seq<char>>,
    host: Seq<char>,
    path: Seq<char>,
) -> Seq<char> {
    spec_url_scheme(forwarded_proto) + "://"@ + host + (if path.len() > 0 && path[0] == '/' {
        path
    } else {
        "/"@ + path
    })
}

/// Builds the request's full URL from the forwarded protocol and Host
/// headers and the request path; without a host there is no URL.
pub fn build_full_url(forwarded_proto: Option<&str>, host: Option<&str>, path: &str) -> (r: Option<
    String,
>)
    ensures
        r is Some <==> host is Some,
        r is Some ==> r.unwrap()@ == spec_full_url(
            match forwarded_proto {
                Some(p) => Some(p@),
                None => None,
            },
            host.unwrap()@,
            path@,
        ),
{
    let host_str = match host {
        Some(h) => h,
        None => {
            return None;
        },
    };
    let mut url: String = match forwarded_proto {
        Some(p) => {
            let l = to_ascii_lower(p);
            if str_eq(l.as_str(), "https") || str_eq(l.as_str(), "http") {
                l
            } else {
                String::from_str("http")
            }
        },
        None => String::from_str("http"),
    };
    url.append("://");
    url.append(host_str);
    let n = path.unicode_len();
    if !(n > 0 && path.get_char(0) == '/') {
        url.append("/");
    }
    url.append(path);
    Some(url)
}

/// The MIME type before the first semicolon of a content type, trimmed.
pub open spec fn spec_mime_prefix(ct: Seq<char>) -> Seq<char> {
    match ct.index_of_first(';') {
        Some(i) => trim_spec(ct.take(i)),
        None => trim_spec(ct),
    }
}

/// The MIME type the response will speak: the request's content type up to
/// any parameters if it names one, else what the Accept header prefers,
/// else JSON.
pub open spec fn spec_infer_mime(
    content_type: Option<Seq<char>>,
    accept: Option<Seq<char>>,
) -> Seq<char> {
    if content_type is Some && spec_mime_prefix(content_type.unwrap()).len() > 0 {
        spec_mime_prefix(content_type.unwrap())
    } else {
        match accept {
            Some(a) => {
                let l = lower_seq(a);
                if contains_seq(l, "application/json"@) {
                    "application/json"@
                } else if contains_seq(l, "text/html"@) {
                    "text/html"@
                } else {
                    "application/json"@
                }
            },
            None => "application/json"@,
        }
    }
}

/// Infers the MIME type for the resource being served.
pub fn infer_mime_type(content_type: Option<&str>, accept: Option<&str>) -> (r: String)
    ensures
        r@ == spec_infer_mime(
            match content_type {
                Some(s) => Some(s@),
                None => None,
            },
            match accept {
                Some(s) => Some(s@),
                None => None,
            },
        ),
{
    if let Some(ct) = content_type {
        let n = ct.unicode_len();
        let mut i: usize = 0;
        while i < n && ct.get_char(i) != ';'
            invariant
                0 <= i <= n,
                n == ct@.len(),
                forall|j: int| 0 <= j < i ==> ct@[j] != ';',
            decreases n - i,
        {
            i = i + 1;
        }
        let head: &str = ct.substring_char(0, i);
        proof {
            if i < n {
                crate::strutil::lemma_index_of_first_is(ct@, ';', i as int);
            } else {
                crate::strutil::lemma_index_of_first_none(ct@, ';');
                assert(ct@.take(n as int) =~= ct@);
            }
            assert(head@ =~= ct@.take(i as int));
        }
        let mime = trim(head);
        if mime.unicode_len() > 0 {
            return String::from_str(mime);
        }
    }
    match accept {
        Some(a) => {
            let l = to_ascii_lower(a);
            if contains_sub(l.as_str(), "application/json") {
                String::from_str("application/json")
            } else if contains_sub(l.as_str(), "text/html") {
                String::from_str("text/html")
            } else {
                String::from_str("application/json")
            }
        },
        None => String::from_str("application/json"),
    }
}

} // verus!
