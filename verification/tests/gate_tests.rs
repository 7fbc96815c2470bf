use ngx_x402::config::{FacilitatorFallback, ParsedX402Config};
use ngx_x402::gate::{
    gate_begin, gate_evaluate, gate_on_settle, gate_on_verify, GateStep, RequestInfo,
    SettleOutcome, SettleResponseBody, VerifyJob, VerifyOutcome, VerifyResponseBody,
};
use ngx_x402::store::ReplayStore;
use ngx_x402::validation::parse_amount;

fn gate_config() -> ParsedX402Config {
    ParsedX402Config {
        enabled: true,
        amount: Some(parse_amount("0.001").unwrap()),
        pay_to: Some("0x1234567890abcdef1234567890abcdef12345678".to_string()),
        facilitator_url: Some("https://example.com/facilitator".to_string()),
        description: None,
        network: None,
        network_id: None,
        resource: None,
        asset: None,
        asset_decimals: None,
        timeout: Some(10),
        facilitator_fallback: FacilitatorFallback::Error,
        ttl: None,
        redis_url: None,
        replay_ttl: None,
    }
}

fn request(payment_header: Option<&str>) -> RequestInfo {
    RequestInfo {
        path: "/api/weather".to_string(),
        full_url: Some("http://example.com/api/weather".to_string()),
        mime_type: "application/json".to_string(),
        payment_header: payment_header.map(|s| s.to_string()),
        is_browser: false,
    }
}

// "e30=" is the base64 of "{}", a well-formed (empty) JSON payload.
const WELL_FORMED_PROOF: &str = "e30=";

fn job_for(header: &str) -> VerifyJob {
    let step = gate_evaluate(&gate_config(), &request(Some(header)), None, false).unwrap();
    match step {
        GateStep::Verify(job) => job,
        _ => panic!("expected a verify job"),
    }
}

#[test]
fn no_payment_header_sends_402_and_never_verifies() {
    // Without a proof header the handler responds itself; the facilitator
    // is never reached.
    let store = ReplayStore::unconfigured();
    let step = gate_begin(&gate_config(), &store, &request(None)).unwrap();
    match step {
        GateStep::Respond(resp) => {
            assert_eq!(resp.status, 402);
            assert!(resp.payment_required_header.is_some());
        },
        _ => panic!("expected a response, not a facilitator call"),
    }
}

#[test]
fn unreachable_store_fails_open_through_the_handler() {
    // With a store configured but unreachable, the replay check and the
    // price lookup degrade and a well-formed proof still reaches verify.
    let store = ngx_x402::store::init_redis("redis://127.0.0.1:1/").unwrap();
    let step = gate_begin(&gate_config(), &store, &request(Some(WELL_FORMED_PROOF))).unwrap();
    assert!(matches!(step, GateStep::Verify(_)));
}

#[test]
fn no_payment_header_402_carries_the_requirement() {
    // The 402's body and header hold the freshly built requirement: the
    // converted amount, the resolved network and the lower-cased address.
    let store = ReplayStore::unconfigured();
    let step = gate_begin(&gate_config(), &store, &request(None)).unwrap();
    let resp = match step {
        GateStep::Respond(resp) => resp,
        _ => panic!("expected a response"),
    };
    let json: serde_json::Value = serde_json::from_str(&resp.body).unwrap();
    let accept = &json["accepts"][0];
    assert_eq!(accept["amount"].as_str().unwrap(), "1000");
    assert_eq!(accept["network"].as_str().unwrap(), "eip155:8453");
    assert_eq!(
        accept["payTo"].as_str().unwrap(),
        "0x1234567890abcdef1234567890abcdef12345678"
    );
    let header = resp.payment_required_header.as_ref().unwrap();
    let decoded =
        base64::Engine::decode(&base64::engine::general_purpose::STANDARD, header).unwrap();
    assert_eq!(String::from_utf8(decoded).unwrap(), resp.body);
}

#[test]
fn disabled_gate_passes_through() {
    let mut config = gate_config();
    config.enabled = false;
    let store = ReplayStore::unconfigured();
    let step = gate_begin(&config, &store, &request(Some(WELL_FORMED_PROOF))).unwrap();
    assert!(matches!(step, GateStep::Proceed));
}

#[test]
fn replayed_proof_rejected_before_verify() {
    // A proof already marked used is a 402 with the replay reason, and no
    // verify call is made.
    let step =
        gate_evaluate(&gate_config(), &request(Some(WELL_FORMED_PROOF)), None, true).unwrap();
    match step {
        GateStep::Respond(resp) => {
            assert_eq!(resp.status, 402);
            assert_eq!(resp.error_message.as_deref(), Some("Payment replay detected"));
        },
        _ => panic!("expected a replay rejection"),
    }
}

#[test]
fn well_formed_proof_reaches_verify() {
    let job = job_for(WELL_FORMED_PROOF);
    assert_eq!(job.facilitator_url, "https://example.com/facilitator");
    assert_eq!(job.payment_b64, WELL_FORMED_PROOF);
    assert_eq!(job.timeout_secs, 10);
    assert_eq!(job.replay_ttl, 86400);
    let json: serde_json::Value = serde_json::from_str(&job.requirements_json).unwrap();
    assert_eq!(json["amount"].as_str().unwrap(), "1000");
    assert_eq!(json["network"].as_str().unwrap(), "eip155:8453");
}

#[test]
fn malformed_proof_rejected_without_verify() {
    // Invalid base64.
    let step = gate_evaluate(&gate_config(), &request(Some("!!!")), None, false).unwrap();
    match step {
        GateStep::Respond(resp) => {
            assert_eq!(resp.status, 402);
            assert_eq!(resp.error_message.as_deref(), Some("Invalid payment payload"));
        },
        _ => panic!("expected a rejection"),
    }
    // Valid base64 that is not JSON: "bm90anNvbg==" decodes to "notjson".
    let step2 = gate_evaluate(&gate_config(), &request(Some("bm90anNvbg==")), None, false)
        .unwrap();
    match step2 {
        GateStep::Respond(resp) => {
            assert_eq!(resp.status, 402);
            assert_eq!(resp.error_message.as_deref(), Some("Invalid payment payload"));
        },
        _ => panic!("expected a rejection"),
    }
}

#[test]
fn oversized_proof_rejected() {
    let huge = "A".repeat(65537);
    let step = gate_evaluate(&gate_config(), &request(Some(&huge)), None, false).unwrap();
    match step {
        GateStep::Respond(resp) => {
            assert_eq!(resp.status, 402);
            assert_eq!(resp.error_message.as_deref(), Some("Invalid payment payload"));
        },
        _ => panic!("expected a rejection"),
    }
}

#[test]
fn missing_facilitator_url_is_config_error() {
    let mut config = gate_config();
    config.facilitator_url = None;
    let r = gate_evaluate(&config, &request(Some(WELL_FORMED_PROOF)), None, false);
    assert!(r.is_err());
}

#[test]
fn dynamic_price_overrides_amount() {
    let step = gate_evaluate(
        &gate_config(),
        &request(Some(WELL_FORMED_PROOF)),
        Some("0.5"),
        false,
    )
    .unwrap();
    match step {
        GateStep::Verify(job) => {
            let json: serde_json::Value = serde_json::from_str(&job.requirements_json).unwrap();
            assert_eq!(json["amount"].as_str().unwrap(), "500000");
        },
        _ => panic!("expected a verify job"),
    }
    // An unparsable override falls back to the configured amount.
    let step2 = gate_evaluate(
        &gate_config(),
        &request(Some(WELL_FORMED_PROOF)),
        Some("not-a-price"),
        false,
    )
    .unwrap();
    match step2 {
        GateStep::Verify(job) => {
            let json: serde_json::Value = serde_json::from_str(&job.requirements_json).unwrap();
            assert_eq!(json["amount"].as_str().unwrap(), "1000");
        },
        _ => panic!("expected a verify job"),
    }
}

#[test]
fn transport_error_obeys_fallback_policy() {
    // A facilitator transport error passes through under Pass and fails
    // closed under Error.
    let mut job = job_for(WELL_FORMED_PROOF);
    job.fallback = FacilitatorFallback::Pass;
    let step = gate_on_verify(&job, VerifyOutcome::TransportError("down".to_string()));
    assert!(matches!(step, GateStep::Proceed));

    job.fallback = FacilitatorFallback::Error;
    let step2 = gate_on_verify(&job, VerifyOutcome::TransportError("down".to_string()));
    match step2 {
        GateStep::Respond(resp) => {
            assert_eq!(resp.status, 500);
            assert_eq!(resp.body, "Internal server error");
        },
        _ => panic!("expected an internal error response"),
    }
}

#[test]
fn invalid_verdict_sends_402() {
    let job = job_for(WELL_FORMED_PROOF);
    let step = gate_on_verify(
        &job,
        VerifyOutcome::Completed(VerifyResponseBody {
            is_valid: false,
            invalid_reason: Some("expired".to_string()),
            payer: None,
        }),
    );
    match step {
        GateStep::Respond(resp) => {
            assert_eq!(resp.status, 402);
            assert_eq!(resp.error_message.as_deref(), Some("Payment verification failed"));
        },
        _ => panic!("expected a 402"),
    }
}

#[test]
fn valid_verdict_proceeds_to_settle() {
    let job = job_for(WELL_FORMED_PROOF);
    let step = gate_on_verify(
        &job,
        VerifyOutcome::Completed(VerifyResponseBody {
            is_valid: true,
            invalid_reason: None,
            payer: Some("0x1234567890abcdef1234567890abcdef12345678".to_string()),
        }),
    );
    assert!(matches!(step, GateStep::Settle));
}

#[test]
fn settle_outcomes_drive_disposition() {
    let job = job_for(WELL_FORMED_PROOF);
    let store = ReplayStore::unconfigured();

    let ok = gate_on_settle(
        &job,
        SettleOutcome::Completed(SettleResponseBody {
            success: true,
            tx_hash: Some("0xfeed".to_string()),
            error_reason: None,
            error_message: None,
        }),
        &store,
    );
    assert!(matches!(ok, GateStep::Proceed));

    let failed = gate_on_settle(
        &job,
        SettleOutcome::Completed(SettleResponseBody {
            success: false,
            tx_hash: None,
            error_reason: Some("insufficient funds".to_string()),
            error_message: Some("balance too low".to_string()),
        }),
        &store,
    );
    match failed {
        GateStep::Respond(resp) => {
            assert_eq!(resp.status, 402);
            assert_eq!(
                resp.error_message.as_deref(),
                Some(
                    "Payment verification failed (Facilitator: insufficient funds; balance too low)"
                )
            );
        },
        _ => panic!("expected a 402"),
    }

    let failed_plain = gate_on_settle(
        &job,
        SettleOutcome::Completed(SettleResponseBody {
            success: false,
            tx_hash: None,
            error_reason: None,
            error_message: None,
        }),
        &store,
    );
    match failed_plain {
        GateStep::Respond(resp) => {
            assert_eq!(resp.error_message.as_deref(), Some("Payment verification failed"));
        },
        _ => panic!("expected a 402"),
    }

    let transport = gate_on_settle(
        &job,
        SettleOutcome::TransportError("connection reset".to_string()),
        &store,
    );
    match transport {
        GateStep::Respond(resp) => {
            assert_eq!(resp.status, 402);
            assert_eq!(
                resp.error_message.as_deref(),
                Some("Payment verification failed (Facilitator error: connection reset)")
            );
        },
        _ => panic!("expected a 402"),
    }
}
