use ngx_x402::request::{
    build_full_url, infer_mime_type, is_browser_request, is_websocket_request, should_skip_method,
};

#[test]
fn browser_detection_prefers_explicit_types() {
    // A JSON content type always marks an API client.
    assert!(!is_browser_request(
        Some("application/json"),
        Some("text/html"),
        Some("Mozilla/5.0 Chrome/120")
    ));
    // text/html in Accept marks a browser.
    assert!(is_browser_request(None, Some("text/html,application/xhtml+xml"), None));
    // JSON in Accept without text/html marks an API client.
    assert!(!is_browser_request(None, Some("application/json"), Some("Mozilla/5.0 Chrome/120")));
}

#[test]
fn browser_detection_falls_back_to_user_agent() {
    assert!(is_browser_request(None, None, Some("Mozilla/5.0 (X11; Linux) Chrome/120 Safari/537")));
    assert!(!is_browser_request(None, None, Some("curl/8.0")));
    // A browser-like agent that names an API tool is an API client.
    assert!(!is_browser_request(None, None, Some("Mozilla/5.0 Chrome/120 curl/8.0")));
    assert!(!is_browser_request(None, None, None));
}

#[test]
fn websocket_detection_needs_both_headers() {
    assert!(is_websocket_request(Some("websocket"), Some("Upgrade")));
    assert!(is_websocket_request(Some("WebSocket"), Some("keep-alive, Upgrade")));
    assert!(!is_websocket_request(Some("websocket"), None));
    assert!(!is_websocket_request(None, Some("Upgrade")));
    assert!(!is_websocket_request(Some("h2c"), Some("Upgrade")));
}

#[test]
fn skip_methods() {
    assert!(should_skip_method("OPTIONS"));
    assert!(should_skip_method("HEAD"));
    assert!(should_skip_method("TRACE"));
    assert!(!should_skip_method("GET"));
    assert!(!should_skip_method("POST"));
}

#[test]
fn full_url_assembly() {
    assert_eq!(
        build_full_url(None, Some("example.com"), "/api").as_deref(),
        Some("http://example.com/api")
    );
    assert_eq!(
        build_full_url(Some("HTTPS"), Some("example.com"), "/api").as_deref(),
        Some("https://example.com/api")
    );
    // An unrecognized forwarded protocol falls back to http.
    assert_eq!(
        build_full_url(Some("gopher"), Some("example.com"), "api").as_deref(),
        Some("http://example.com/api")
    );
    assert!(build_full_url(Some("https"), None, "/api").is_none());
}

#[test]
fn mime_inference() {
    assert_eq!(infer_mime_type(Some("text/plain; charset=utf-8"), None), "text/plain");
    assert_eq!(infer_mime_type(Some("  application/xml  "), None), "application/xml");
    // An empty content type defers to Accept.
    assert_eq!(infer_mime_type(Some("   "), Some("text/html")), "text/html");
    assert_eq!(infer_mime_type(None, Some("application/json, text/html")), "application/json");
    assert_eq!(infer_mime_type(None, Some("image/png")), "application/json");
    assert_eq!(infer_mime_type(None, None), "application/json");
}
