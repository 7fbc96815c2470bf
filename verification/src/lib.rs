//! A request-time payment gate for the x402 "HTTP 402 Payment Required"
//! micropayment protocol.
//!
//! The library builds machine-readable payment requirements from resolved
//! configuration, evaluates inbound payment proofs, and drives the
//! verify/settle conversation with an external facilitator service as a
//! verified decision machine.  All monetary conversions are exact integer
//! arithmetic on decimal mantissa/scale pairs; no floating point is involved.

pub mod amount;
pub mod codec;
pub mod config;
pub mod digits;
pub mod error;
pub mod gate;
pub mod json;
pub mod request;
pub mod requirements;
pub mod response;
pub mod store;
pub mod strutil;
pub mod validation;

pub use config::{FacilitatorFallback, ParsedX402Config, X402Config};
pub use error::ConfigError;
pub use gate::HandlerResult;
