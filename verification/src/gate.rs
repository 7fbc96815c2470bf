//! The payment gate: a verified decision machine.  Each request is
//! evaluated in steps; the outside work (facilitator HTTP calls) is handed
//! to the caller as a job, and the caller feeds the outcome back in.  Every
//! decision — header inspection, size and replay checks, fallback policy,
//! settlement handling — is made here, under contract.

use vstd::prelude::*;

use vstd::utf8::encode_utf8;

use crate::amount::Amount;
use crate::codec::{b64_decode, b64_decode_of, b64_of, is_json_value, json_is_valid};
use crate::config::{FacilitatorFallback, ParsedX402Config};
use crate::error::{ConfigError, INVALID_PAYMENT, PAYMENT_VERIFICATION_FAILED, REPLAY_DETECTED};
use crate::json::{payment_requirements_to_json, spec_req_json};
use crate::requirements::{create_requirements_with, spec_create_requirements_ok,
    spec_requirement_matches, spec_with_amount, PaymentRequirements};
use crate::response::{render_402, render_internal_error, spec_effective_message,
    spec_envelope_json, spec_paywall_amount, spec_paywall_html, spec_paywall_network,
    spec_paywall_pay_to, PreparedResponse};
use crate::store::{get_dynamic_price, is_payment_used, is_redis_configured, store_payment_as_used,
    ReplayStore};
use crate::validation::spec_parse_amount;

verus! {

/// Most bytes a payment-proof header may hold.
pub const MAX_PAYMENT_HEADER_SIZE: usize = 65536;

/// Facilitator call timeout applied when none is configured, in seconds.
pub const DEFAULT_FACILITATOR_TIMEOUT_SECS: u64 = 10;

/// Replay-record time-to-live applied when none is configured, in seconds.
pub const DEFAULT_REPLAY_TTL_SECS: u64 = 86400;

/// Terminal dispositions: the caller serves the resource, the response
/// has been fully written, or an unrecoverable error occurred.
#[derive(Clone, Copy, Debug, PartialEq, Eq, Structural)]
pub enum HandlerResult {
    PaymentValid,
    ResponseSent,
    Error,
}

/// What one request looks like to the decision machine.
pub struct RequestInfo {
    /// The request path.
    pub path: String,
    /// The full URL, where the Host header allowed building one.
    pub full_url: Option<String>,
    /// The MIME type inferred for the resource.
    pub mime_type: String,
    /// The payment-proof header value, where the client sent one.
    pub payment_header: Option<String>,
    /// Whether content negotiation marked the client as a browser.
    pub is_browser: bool,
}

/// The facilitator's answer to a verify call.
pub struct VerifyResponseBody {
    pub is_valid: bool,
    pub invalid_reason: Option<String>,
    pub payer: Option<String>,
}

/// The facilitator's answer to a settle call.
pub struct SettleResponseBody {
    pub success: bool,
    pub tx_hash: Option<String>,
    pub error_reason: Option<String>,
    pub error_message: Option<String>,
}

/// How a verify call ended: a transport-level failure (network error,
/// non-2xx status, unparseable body or timeout), or a well-formed answer.
pub enum VerifyOutcome {
    TransportError(String),
    Completed(VerifyResponseBody),
}

/// How a settle call ended.
pub enum SettleOutcome {
    TransportError(String),
    Completed(SettleResponseBody),
}

/// Everything the caller needs to perform the facilitator calls, and the
/// gate needs to finish afterwards.
pub struct VerifyJob {
    /// Base URL of the facilitator service.
    pub facilitator_url: String,
    /// The raw payment-proof header, also the replay identity.
    pub payment_b64: String,
    /// The decoded payment-payload bytes, for the request body.
    pub payload_bytes: Vec<u8>,
    /// The requirement, encoded for the request body.
    pub requirements_json: String,
    /// The requirement itself, for later 402 rendering.
    pub requirements: PaymentRequirements,
    /// Call timeout in seconds.
    pub timeout_secs: u64,
    /// What to do on a facilitator transport error.
    pub fallback: FacilitatorFallback,
    /// Time-to-live for the replay record, in seconds.
    pub replay_ttl: u64,
    /// Configured description, for 402 rendering.
    pub description: Option<String>,
    /// The resource the requirement was built for.
    pub resource_url: String,
    /// The MIME type of the resource.
    pub mime_type: String,
    /// Whether the client is a browser.
    pub is_browser: bool,
}

/// What the decision machine asks the caller to do next.
pub enum GateStep {
    /// Let the request through: disposition `PaymentValid`.
    Proceed,
    /// Write this response and stop: disposition `ResponseSent`.
    Respond(PreparedResponse),
    /// Perform the facilitator verify call, then hand the outcome to
    /// [`gate_on_verify`].
    Verify(VerifyJob),
    /// Perform the facilitator settle call, then hand the outcome to
    /// [`gate_on_settle`].
    Settle,
}

/// The disposition a finished step stands for; mid-flight steps have none.
pub fn disposition_of(step: &GateStep) -> (r: Option<HandlerResult>)
    ensures
        step is Proceed ==> r == Some(HandlerResult::PaymentValid),
        step is Respond ==> r == Some(HandlerResult::ResponseSent),
        step is Verify || step is Settle ==> r is None,
{
    match step {
        GateStep::Proceed => Some(HandlerResult::PaymentValid),
        GateStep::Respond(_) => Some(HandlerResult::ResponseSent),
        GateStep::Verify(_) => None,
        GateStep::Settle => None,
    }
}

/// A proof header decodes from base64 and parses as JSON.
pub open spec fn spec_payload_ok(h: Seq<char>) -> bool {
    &&& b64_decode_of(h) is Some
    &&& is_json_value(b64_decode_of(h).unwrap())
}

/// The decision the enabled gate makes before any facilitator call, in
/// order: no proof demands payment; an oversized proof and a replayed proof
/// are rejected without any facilitator call; a missing facilitator URL is
/// a configuration error; a proof that does not decode or parse is
/// rejected; what remains goes to the facilitator.
pub enum GateDecision {
    Disabled,
    RequirePayment,
    RejectTooLarge,
    RejectReplay,
    MissingFacilitator,
    RejectMalformed,
    Verify,
}

/// The pre-verification decision.
pub open spec fn spec_gate_decision(
    enabled: bool,
    header: Option<Seq<char>>,
    replay_used: bool,
    facilitator_configured: bool,
) -> GateDecision {
    if !enabled {
        GateDecision::Disabled
    } else {
        match header {
            None => GateDecision::RequirePayment,
            Some(h) => if encode_utf8(h).len() > MAX_PAYMENT_HEADER_SIZE {
                GateDecision::RejectTooLarge
            } else if replay_used {
                GateDecision::RejectReplay
            } else if !facilitator_configured {
                GateDecision::MissingFacilitator
            } else if !spec_payload_ok(h) {
                GateDecision::RejectMalformed
            } else {
                GateDecision::Verify
            },
        }
    }
}

/// Without a payment-proof header the enabled gate always demands payment:
/// it never reaches the facilitator.
pub proof fn lemma_no_proof_never_verifies(replay_used: bool, facilitator_configured: bool)
    ensures
        spec_gate_decision(true, None, replay_used, facilitator_configured)
            == GateDecision::RequirePayment,
        spec_gate_decision(false, None, replay_used, facilitator_configured)
            == GateDecision::Disabled,
{
}

/// A proof already marked used is rejected as a replay before any
/// facilitator call, whenever it fits the size budget.
pub proof fn lemma_replay_never_verifies(h: Seq<char>, facilitator_configured: bool)
    requires
        encode_utf8(h).len() <= MAX_PAYMENT_HEADER_SIZE,
    ensures
        spec_gate_decision(true, Some(h), true, facilitator_configured)
            == GateDecision::RejectReplay,
{
}

/// The amount a request is charged: a parseable dynamic price override
/// wins, else the configured amount.
pub open spec fn spec_effective_amount(
    config_amount: Option<Amount>,
    price: Option<Seq<char>>,
) -> Option<Amount> {
    match price {
        Some(p) => match spec_parse_amount(p) {
            Some(a) => Some(a),
            None => config_amount,
        },
        None => config_amount,
    }
}

/// The resource the requirement names: the configured override, else the
/// request's full URL, else its path.
pub open spec fn spec_gate_resource(config: ParsedX402Config, req: RequestInfo) -> Seq<char> {
    if config.resource is Some {
        config.resource.unwrap()@
    } else if req.full_url is Some {
        req.full_url.unwrap()@
    } else {
        req.path@
    }
}

fn clone_opt_string(o: &Option<String>) -> (r: Option<String>)
    ensures
        r == *o,
{
    match o {
        Some(s) => Some(s.clone()),
        None => None,
    }
}

/// One rendered 402, tied to the one requirement its envelope carries: the
/// header is the base64 of the envelope JSON over exactly that requirement,
/// and the body is the same envelope or the paywall page for it.
pub open spec fn spec_402_payload(
    resp: PreparedResponse,
    em: Seq<char>,
    desc: Seq<char>,
    mime: Seq<char>,
    url: Seq<char>,
    is_browser: bool,
    pr: PaymentRequirements,
) -> bool {
    let envelope = spec_envelope_json(em, desc, mime, url, seq![pr]);
    &&& resp.payment_required_header is Some
    &&& resp.payment_required_header.unwrap()@ == b64_of(encode_utf8(envelope))
    &&& (is_browser ==> resp.body@ == spec_paywall_html(em, pr.network@, pr.amount@, pr.pay_to@)
        && resp.content_type@ == "text/html; charset=utf-8"@)
    &&& (!is_browser ==> resp.body@ == envelope && resp.content_type@
        == "application/json; charset=utf-8"@)
}

/// A 402 step carrying the stated message and a freshly built requirement.
pub open spec fn spec_gate_402(
    step: GateStep,
    em: Seq<char>,
    cfg2: ParsedX402Config,
    resource: Seq<char>,
    req: RequestInfo,
) -> bool {
    let desc = match cfg2.description {
        Some(d) => d@,
        None => ""@,
    };
    &&& step is Respond
    &&& step->Respond_0.status == 402
    &&& step->Respond_0.error_message is Some
    &&& step->Respond_0.error_message.unwrap()@ == em
    &&& exists|pr: PaymentRequirements|
        #[trigger] spec_requirement_matches(pr, cfg2, resource) && spec_402_payload(
            step->Respond_0,
            em,
            desc,
            req.mime_type@,
            resource,
            req.is_browser,
            pr,
        )
}

/// Everything a handed-out verify job must hold, pinned to the
/// configuration, the request and the built requirement.
pub open spec fn spec_verify_job_ok(
    job: VerifyJob,
    config: ParsedX402Config,
    cfg2: ParsedX402Config,
    resource: Seq<char>,
    req: RequestInfo,
) -> bool {
    &&& job.facilitator_url == config.facilitator_url.unwrap()
    &&& Some(job.payment_b64) == req.payment_header
    &&& job.payload_bytes@ == b64_decode_of(req.payment_header.unwrap()@).unwrap()
    &&& spec_requirement_matches(job.requirements, cfg2, resource)
    &&& job.requirements_json@ == spec_req_json(job.requirements)
    &&& job.timeout_secs == (if config.timeout is Some {
        config.timeout.unwrap()
    } else {
        DEFAULT_FACILITATOR_TIMEOUT_SECS
    })
    &&& job.fallback == config.facilitator_fallback
    &&& job.replay_ttl == (if config.replay_ttl is Some {
        config.replay_ttl.unwrap()
    } else {
        DEFAULT_REPLAY_TTL_SECS
    })
    &&& job.description == config.description
    &&& job.resource_url@ == resource
    &&& job.mime_type@ == req.mime_type@
    &&& job.is_browser == req.is_browser
}

/// Everything one evaluation promises, over the store's two answers: every
/// decision case pins the step, an enabled configuration never passes a
/// request through before verification, every 402 carries the freshly
/// built requirement, and a verify job comes out only on the verify
/// decision, fully pinned.
pub open spec fn spec_gate_outcome_ok(
    config: ParsedX402Config,
    req: RequestInfo,
    price: Option<Seq<char>>,
    replay_used: bool,
    r: Result<GateStep, ConfigError>,
) -> bool {
    let cfg2 = spec_with_amount(config, spec_effective_amount(config.amount, price));
    let resource = spec_gate_resource(config, req);
    let header = match req.payment_header {
        Some(h) => Some(h@),
        None => None,
    };
    let desc = match config.description {
        Some(d) => Some(d@),
        None => None,
    };
    let d = spec_gate_decision(config.enabled, header, replay_used, config.facilitator_url is Some);
    &&& (d is Disabled ==> r is Ok && r->Ok_0 is Proceed)
    &&& (!(d is Disabled) ==> !(r is Ok && r->Ok_0 is Proceed))
    &&& (!(d is Disabled) && !spec_create_requirements_ok(cfg2, resource) ==> r is Err)
    &&& (spec_create_requirements_ok(cfg2, resource) ==> {
        &&& (d is RequirePayment ==> r is Ok && spec_gate_402(
            r->Ok_0,
            spec_effective_message(None, desc),
            cfg2,
            resource,
            req,
        ))
        &&& (d is RejectTooLarge ==> r is Ok && spec_gate_402(
            r->Ok_0,
            "Invalid payment payload"@,
            cfg2,
            resource,
            req,
        ))
        &&& (d is RejectReplay ==> r is Ok && spec_gate_402(
            r->Ok_0,
            "Payment replay detected"@,
            cfg2,
            resource,
            req,
        ))
        &&& (d is MissingFacilitator ==> r is Err)
        &&& (d is RejectMalformed ==> r is Ok && spec_gate_402(
            r->Ok_0,
            "Invalid payment payload"@,
            cfg2,
            resource,
            req,
        ))
        &&& (d is Verify ==> r is Ok && r->Ok_0 is Verify && spec_verify_job_ok(
            r->Ok_0->Verify_0,
            config,
            cfg2,
            resource,
            req,
        ))
        &&& (r is Ok && r->Ok_0 is Verify ==> d is Verify)
    })
}

/// Renders a 402 whose envelope carries exactly the one given requirement.
fn respond_402(
    requirements: PaymentRequirements,
    description: &Option<String>,
    resource: &str,
    mime_type: &str,
    error_msg: Option<&str>,
    is_browser: bool,
) -> (r: GateStep)
    ensures
        r is Respond,
        ({
            let em = spec_effective_message(
                match error_msg {
                    Some(e) => Some(e@),
                    None => None,
                },
                match *description {
                    Some(ref d) => Some(d@),
                    None => None,
                },
            );
            let desc = match *description {
                Some(ref d) => d@,
                None => ""@,
            };
            &&& r->Respond_0.status == 402
            &&& r->Respond_0.error_message is Some
            &&& r->Respond_0.error_message.unwrap()@ == em
            &&& spec_402_payload(
                r->Respond_0,
                em,
                desc,
                mime_type@,
                resource@,
                is_browser,
                requirements,
            )
        }),
{
    let ghost gpr = requirements;
    let rv: Vec<PaymentRequirements> = vec![requirements];
    proof {
        assert(rv@ =~= seq![gpr]);
    }
    let resp = render_402(rv, description, resource, mime_type, error_msg, is_browser);
    proof {
        assert(spec_paywall_network(seq![gpr]) == gpr.network@);
        assert(spec_paywall_amount(seq![gpr]) == gpr.amount@);
        assert(spec_paywall_pay_to(seq![gpr]) == gpr.pay_to@);
    }
    GateStep::Respond(resp)
}

/// Evaluates one request up to the first facilitator call, from the store's
/// answers: the dynamic price override (if any was fetched) and whether the
/// proof is already marked used.  Pure: every branch, every 402 and the
/// verify job are pinned by [`spec_gate_outcome_ok`].
#[verifier::rlimit(100)]
pub fn gate_evaluate(
    config: &ParsedX402Config,
    req: &RequestInfo,
    price_override: Option<&str>,
    replay_used: bool,
) -> (r: Result<GateStep, ConfigError>)
    requires
        config.wf(),
    ensures
        spec_gate_outcome_ok(
            *config,
            *req,
            match price_override {
                Some(p) => Some(p@),
                None => None,
            },
            replay_used,
            r,
        ),
{
    let ghost gprice: Option<Seq<char>> = match price_override {
        Some(p) => Some(p@),
        None => None,
    };
    let ghost cfg2 = spec_with_amount(*config, spec_effective_amount(config.amount, gprice));
    if !config.enabled {
        return Ok(GateStep::Proceed);
    }
    let effective_amount: Option<Amount> = match price_override {
        Some(p) => {
            match crate::validation::parse_amount(p) {
                Ok(a) => Some(a),
                Err(_) => match &config.amount {
                    Some(a) => Some(*a),
                    None => None,
                },
            }
        },
        None => match &config.amount {
            Some(a) => Some(*a),
            None => None,
        },
    };
    proof {
        assert(effective_amount == spec_effective_amount(config.amount, gprice));
    }
    let resource: &str = if let Some(res) = &config.resource {
        res.as_str()
    } else if let Some(url) = &req.full_url {
        url.as_str()
    } else {
        req.path.as_str()
    };
    proof {
        assert(resource@ == spec_gate_resource(*config, *req));
    }
    let requirements = match create_requirements_with(config, effective_amount, resource) {
        Err(e) => {
            return Err(e);
        },
        Ok(r) => r,
    };
    let ghost gpr = requirements;
    let payment_b64: &String = match &req.payment_header {
        None => {
            let step = respond_402(
                requirements,
                &config.description,
                resource,
                req.mime_type.as_str(),
                None,
                req.is_browser,
            );
            proof {
                assert(spec_requirement_matches(gpr, cfg2, resource@));
                assert(spec_gate_402(
                    step,
                    spec_effective_message(
                        None,
                        match config.description {
                            Some(ref dsc) => Some(dsc@),
                            None => None,
                        },
                    ),
                    cfg2,
                    resource@,
                    *req,
                ));
            }
            return Ok(step);
        },
        Some(h) => h,
    };
    if payment_b64.as_str().as_bytes().len() > MAX_PAYMENT_HEADER_SIZE {
        let step = respond_402(
            requirements,
            &config.description,
            resource,
            req.mime_type.as_str(),
            Some(INVALID_PAYMENT),
            req.is_browser,
        );
        proof {
            assert(spec_requirement_matches(gpr, cfg2, resource@));
            assert(spec_gate_402(step, "Invalid payment payload"@, cfg2, resource@, *req));
        }
        return Ok(step);
    }
    if replay_used {
        let step = respond_402(
            requirements,
            &config.description,
            resource,
            req.mime_type.as_str(),
            Some(REPLAY_DETECTED),
            req.is_browser,
        );
        proof {
            assert(spec_requirement_matches(gpr, cfg2, resource@));
            assert(spec_gate_402(step, "Payment replay detected"@, cfg2, resource@, *req));
        }
        return Ok(step);
    }
    let facilitator_url: &String = match &config.facilitator_url {
        None => {
            return Err(ConfigError::new("Facilitator URL not configured"));
        },
        Some(u) => u,
    };
    let decoded: Vec<u8> = match b64_decode(payment_b64.as_str()) {
        None => {
            let step = respond_402(
                requirements,
                &config.description,
                resource,
                req.mime_type.as_str(),
                Some(INVALID_PAYMENT),
                req.is_browser,
            );
            proof {
                assert(spec_requirement_matches(gpr, cfg2, resource@));
                assert(spec_gate_402(step, "Invalid payment payload"@, cfg2, resource@, *req));
            }
            return Ok(step);
        },
        Some(v) => v,
    };
    if !json_is_valid(decoded.as_slice()) {
        let step = respond_402(
            requirements,
            &config.description,
            resource,
            req.mime_type.as_str(),
            Some(INVALID_PAYMENT),
            req.is_browser,
        );
        proof {
            assert(spec_requirement_matches(gpr, cfg2, resource@));
            assert(spec_gate_402(step, "Invalid payment payload"@, cfg2, resource@, *req));
        }
        return Ok(step);
    }
    let requirements_json = payment_requirements_to_json(&requirements);
    let timeout_secs: u64 = match &config.timeout {
        Some(t) => *t,
        None => DEFAULT_FACILITATOR_TIMEOUT_SECS,
    };
    let replay_ttl: u64 = match &config.replay_ttl {
        Some(t) => *t,
        None => DEFAULT_REPLAY_TTL_SECS,
    };
    Ok(
        GateStep::Verify(
            VerifyJob {
                facilitator_url: facilitator_url.clone(),
                payment_b64: payment_b64.clone(),
                payload_bytes: decoded,
                requirements_json,
                requirements,
                timeout_secs,
                fallback: config.facilitator_fallback,
                replay_ttl,
                description: clone_opt_string(&config.description),
                resource_url: String::from_str(resource),
                mime_type: req.mime_type.clone(),
                is_browser: req.is_browser,
            },
        ),
    )
}

/// Finishes a request after the verify call.  A transport error obeys the
/// fallback policy: fail closed with an internal error, or fail open and
/// let the request pass.  A well-formed negative verdict is a 402; a
/// positive one proceeds to settlement.
pub fn gate_on_verify(job: &VerifyJob, outcome: VerifyOutcome) -> (r: GateStep)
    ensures
        outcome is TransportError && job.fallback is Error ==> r is Respond
            && r->Respond_0.status == 500 && r->Respond_0.body@ == "Internal server error"@
            && r->Respond_0.content_type@ == "text/plain; charset=utf-8"@,
        outcome is TransportError && job.fallback is Pass ==> r is Proceed,
        outcome is Completed && !outcome->Completed_0.is_valid ==> r is Respond
            && r->Respond_0.status == 402 && r->Respond_0.error_message is Some
            && r->Respond_0.error_message.unwrap()@ == "Payment verification failed"@,
        outcome is Completed && outcome->Completed_0.is_valid ==> r is Settle,
{
    match outcome {
        VerifyOutcome::TransportError(_) => {
            match job.fallback {
                FacilitatorFallback::Error => GateStep::Respond(render_internal_error()),
                FacilitatorFallback::Pass => GateStep::Proceed,
            }
        },
        VerifyOutcome::Completed(resp) => {
            if resp.is_valid {
                GateStep::Settle
            } else {
                GateStep::Respond(
                    render_402(
                        vec![job.requirements.clone()],
                        &job.description,
                        job.resource_url.as_str(),
                        job.mime_type.as_str(),
                        Some(PAYMENT_VERIFICATION_FAILED),
                        job.is_browser,
                    ),
                )
            }
        },
    }
}

/// The settle failure detail: the facilitator's error reason and message,
/// joined where both are present.
pub open spec fn spec_settle_err_info(
    reason: Option<Seq<char>>,
    message: Option<Seq<char>>,
) -> Seq<char> {
    let r = match reason {
        Some(s) => s,
        None => Seq::empty(),
    };
    let m = match message {
        Some(s) => s,
        None => Seq::empty(),
    };
    if r.len() > 0 && m.len() > 0 {
        r + "; "@ + m
    } else if r.len() > 0 {
        r
    } else {
        m
    }
}

/// The user-facing message a failed settlement produces.
pub open spec fn spec_settle_failure_message(
    reason: Option<Seq<char>>,
    message: Option<Seq<char>>,
) -> Seq<char> {
    let info = spec_settle_err_info(reason, message);
    if info.len() == 0 {
        "Payment verification failed"@
    } else {
        "Payment verification failed (Facilitator: "@ + info + ")"@
    }
}

fn settle_failure_message(reason: &Option<String>, message: &Option<String>) -> (r: String)
    ensures
        r@ == spec_settle_failure_message(
            match *reason {
                Some(ref s) => Some(s@),
                None => None,
            },
            match *message {
                Some(ref s) => Some(s@),
                None => None,
            },
        ),
{
    proof {
        reveal_strlit("");
    }
    let rs: &str = match reason {
        Some(s) => s.as_str(),
        None => "",
    };
    let ms: &str = match message {
        Some(s) => s.as_str(),
        None => "",
    };
    if rs.unicode_len() == 0 && ms.unicode_len() == 0 {
        String::from_str("Payment verification failed")
    } else {
        let mut out = String::from_str("Payment verification failed (Facilitator: ");
        if rs.unicode_len() > 0 && ms.unicode_len() > 0 {
            out.append(rs);
            out.append("; ");
            out.append(ms);
        } else if rs.unicode_len() > 0 {
            out.append(rs);
        } else {
            out.append(ms);
        }
        out.append(")");
        proof {
            assert(out@ =~= spec_settle_failure_message(
                match *reason {
                    Some(ref s) => Some(s@),
                    None => None,
                },
                match *message {
                    Some(ref s) => Some(s@),
                    None => None,
                },
            ));
        }
        out
    }
}

/// Finishes a request after the settle call.  A transport error and a
/// negative settlement are 402s with a composed reason; a successful
/// settlement records the proof as used (best effort: store errors are
/// ignored) and lets the request pass.
pub fn gate_on_settle(job: &VerifyJob, outcome: SettleOutcome, store: &ReplayStore) -> (r: GateStep)
    ensures
        outcome is TransportError ==> r is Respond && r->Respond_0.status == 402
            && r->Respond_0.error_message is Some && r->Respond_0.error_message.unwrap()@
            == "Payment verification failed (Facilitator error: "@ + outcome->TransportError_0@
            + ")"@,
        outcome is Completed && !outcome->Completed_0.success ==> r is Respond
            && r->Respond_0.status == 402 && r->Respond_0.error_message is Some
            && r->Respond_0.error_message.unwrap()@ == spec_settle_failure_message(
            match outcome->Completed_0.error_reason {
                Some(ref s) => Some(s@),
                None => None,
            },
            match outcome->Completed_0.error_message {
                Some(ref s) => Some(s@),
                None => None,
            },
        ),
        outcome is Completed && outcome->Completed_0.success ==> r is Proceed,
{
    match outcome {
        SettleOutcome::TransportError(e) => {
            let mut msg = String::from_str("Payment verification failed (Facilitator error: ");
            msg.append(e.as_str());
            msg.append(")");
            proof {
                assert(msg@ =~= "Payment verification failed (Facilitator error: "@ + e@ + ")"@);
            }
            GateStep::Respond(
                render_402(
                    vec![job.requirements.clone()],
                    &job.description,
                    job.resource_url.as_str(),
                    job.mime_type.as_str(),
                    Some(msg.as_str()),
                    job.is_browser,
                ),
            )
        },
        SettleOutcome::Completed(settle) => {
            if settle.success {
                if is_redis_configured(store) {
                    let stored = store_payment_as_used(store, job.payment_b64.as_str(), job.replay_ttl);
                    match stored {
                        Ok(()) => {},
                        Err(_) => {},
                    }
                }
                GateStep::Proceed
            } else {
                let msg = settle_failure_message(&settle.error_reason, &settle.error_message);
                GateStep::Respond(
                    render_402(
                        vec![job.requirements.clone()],
                        &job.description,
                        job.resource_url.as_str(),
                        job.mime_type.as_str(),
                        Some(msg.as_str()),
                        job.is_browser,
                    ),
                )
            }
        },
    }
}

/// Evaluates one request against the store.  A disabled configuration
/// passes through before any store contact; otherwise the dynamic price
/// override is fetched, the proof is checked for replay (only when one is
/// present and fits the size budget), and the evaluation runs on those
/// answers.  Whatever the store answered: the whole evaluation contract
/// holds for the answers it gave; an enabled configuration never lets a
/// request pass before verification; without a proof header the request is
/// answered with a 402 carrying the built requirement, or a configuration
/// error; and a verify job comes out only for a proof within the size
/// budget that decodes and parses, with a facilitator configured.
pub fn gate_begin(config: &ParsedX402Config, store: &ReplayStore, req: &RequestInfo) -> (r: Result<
    GateStep,
    ConfigError,
>)
    requires
        config.wf(),
    ensures
        exists|price: Option<Seq<char>>, used: bool|
            #[trigger] spec_gate_outcome_ok(*config, *req, price, used, r),
        !config.enabled ==> r is Ok && r->Ok_0 is Proceed,
        config.enabled ==> !(r is Ok && r->Ok_0 is Proceed),
        config.enabled && req.payment_header is None ==> !(r is Ok && (r->Ok_0 is Verify
            || r->Ok_0 is Settle)),
        config.enabled && req.payment_header is None && r is Ok ==> r->Ok_0 is Respond
            && r->Ok_0->Respond_0.status == 402,
        r is Ok && r->Ok_0 is Verify ==> req.payment_header is Some && encode_utf8(
            req.payment_header.unwrap()@,
        ).len() <= MAX_PAYMENT_HEADER_SIZE && spec_payload_ok(req.payment_header.unwrap()@)
            && config.facilitator_url is Some,
{
    if !config.enabled {
        let r: Result<GateStep, ConfigError> = Ok(GateStep::Proceed);
        proof {
            assert(spec_gate_outcome_ok(*config, *req, Option::<Seq<char>>::None, false, r));
        }
        return r;
    }
    let price: Option<String> = if is_redis_configured(store) {
        get_dynamic_price(store, req.path.as_str())
    } else {
        None
    };
    let replay_used: bool = match &req.payment_header {
        Some(h) => {
            if h.as_str().as_bytes().len() <= MAX_PAYMENT_HEADER_SIZE && is_redis_configured(
                store,
            ) {
                is_payment_used(store, h.as_str())
            } else {
                false
            }
        },
        None => false,
    };
    let price_ref: Option<&str> = match &price {
        Some(p) => Some(p.as_str()),
        None => None,
    };
    let r = gate_evaluate(config, req, price_ref, replay_used);
    proof {
        let gprice: Option<Seq<char>> = match price {
            Some(ref p) => Some(p@),
            None => None,
        };
        assert(spec_gate_outcome_ok(*config, *req, gprice, replay_used, r));
        let cfg2 = spec_with_amount(*config, spec_effective_amount(config.amount, gprice));
        let resource = spec_gate_resource(*config, *req);
        let header = match req.payment_header {
            Some(ref h) => Some(h@),
            None => None,
        };
        let d = spec_gate_decision(
            config.enabled,
            header,
            replay_used,
            config.facilitator_url is Some,
        );
        assert(!(d is Disabled));
        if req.payment_header is None {
            assert(d is RequirePayment);
            if spec_create_requirements_ok(cfg2, resource) {
                assert(r is Ok ==> r->Ok_0 is Respond && r->Ok_0->Respond_0.status == 402);
            } else {
                assert(r is Err);
            }
        }
        if r is Ok && r->Ok_0 is Verify {
            if !spec_create_requirements_ok(cfg2, resource) {
                assert(r is Err);
                assert(false);
            }
            assert(d is Verify);
            assert(req.payment_header is Some);
            let h = req.payment_header.unwrap()@;
            assert(encode_utf8(h).len() <= MAX_PAYMENT_HEADER_SIZE);
            assert(spec_payload_ok(h));
            assert(config.facilitator_url is Some);
        }
    }
    r
}

} // verus!
