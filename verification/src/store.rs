//! The replay and dynamic-price store: a keyed TTL store reached through
//! redis.  Store outcomes are best-effort: an unreachable store degrades to
//! "never used" on the replay check (fail-open, a deliberate
//! availability/security tradeoff) and to "no override" on the price
//! lookup.  Only the raw store calls are trusted; every decision above them
//! is verified.

use vstd::prelude::*;

use vstd::utf8::encode_utf8;

use crate::codec::{hex_encode, hex_of, sha256, sha256_of};
use crate::error::ConfigError;

verus! {

#[verifier::external_type_specification]
#[verifier::external_body]
pub struct ExRedisClient(redis::Client);

#[verifier::external_type_specification]
#[verifier::external_body]
pub struct ExRedisConnection(redis::Connection);

/// Whether redis::Client::open accepts this connection URL; its success
/// depends on the URL alone, since no connection is opened.
pub uninterp spec fn redis_url_ok(url: Seq<char>) -> bool;

/// Relies on redis::Client::open: parses the URL and builds a client
/// without connecting; fails exactly on a malformed URL.
#[verifier::external_body]
fn redis_open(url: &str) -> (r: Option<redis::Client>)
    ensures
        r is Some <==> redis_url_ok(url@),
{
    match redis::Client::open(url) {
        Ok(c) => Some(c),
        Err(_) => None,
    }
}

/// Relies on redis::Client::get_connection: opens one connection, or fails
/// when the store is unreachable.
#[verifier::external_body]
fn redis_connect(client: &redis::Client) -> (r: Option<redis::Connection>)
{
    match client.get_connection() {
        Ok(c) => Some(c),
        Err(_) => None,
    }
}

/// Relies on redis's GET command: returns the key's value, if the key is
/// set and the call succeeds; what comes back depends on the store.
#[verifier::external_body]
fn redis_get(conn: &mut redis::Connection, key: &str) -> (r: Option<String>)
{
    match redis::Commands::get::<_, Option<String>>(conn, key) {
        Ok(v) => v,
        Err(_) => None,
    }
}

/// Relies on redis's EXISTS command; what comes back depends on the store.
#[verifier::external_body]
fn redis_exists(conn: &mut redis::Connection, key: &str) -> (r: Option<bool>)
{
    match redis::Commands::exists::<_, bool>(conn, key) {
        Ok(v) => Some(v),
        Err(_) => None,
    }
}

/// Relies on redis's SETEX command: stores the value under the key with the
/// time-to-live.
#[verifier::external_body]
fn redis_set_ex(conn: &mut redis::Connection, key: &str, value: &str, ttl_seconds: u64) -> (r:
    Result<(), ()>)
{
    match redis::Commands::set_ex::<_, _, ()>(conn, key, value, ttl_seconds) {
        Ok(()) => Ok(()),
        Err(_) => Err(()),
    }
}

/// A handle on the replay/price store; unconfigured when no store URL was
/// given or the client could not be built.
pub struct ReplayStore {
    client: Option<redis::Client>,
}

impl ReplayStore {
    /// A store handle exists behind this one.
    pub closed spec fn spec_configured(self) -> bool {
        self.client is Some
    }

    /// A handle with no store behind it.
    pub fn unconfigured() -> (r: ReplayStore)
        ensures
            !r.spec_configured(),
    {
        ReplayStore { client: None }
    }
}

/// Builds a store handle from a store URL; fails exactly on a URL the
/// store client cannot parse.
pub fn init_redis(url: &str) -> (r: Result<ReplayStore, ConfigError>)
    ensures
        r is Ok <==> redis_url_ok(url@),
        r is Ok ==> r->Ok_0.spec_configured(),
        r is Err ==> r->Err_0.message@ == "Failed to create Redis client"@,
{
    match redis_open(url) {
        Some(c) => Ok(ReplayStore { client: Some(c) }),
        None => Err(ConfigError::new("Failed to create Redis client")),
    }
}

/// Whether a store stands behind this handle.
pub fn is_redis_configured(store: &ReplayStore) -> (r: bool)
    ensures
        r == store.spec_configured(),
{
    store.client.is_some()
}

/// The identity a proof has for replay purposes: the hex digest of its raw
/// encoded bytes.
pub open spec fn spec_payment_hash(payment: Seq<char>) -> Seq<char> {
    hex_of(sha256_of(encode_utf8(payment)))
}

/// Hashes a payment proof blob for the replay store.
pub fn payment_hash(payment_b64: &str) -> (r: String)
    ensures
        r@ == spec_payment_hash(payment_b64@),
{
    let digest = sha256(payment_b64.as_bytes());
    hex_encode(digest.as_slice())
}

/// The store key under which a consumed proof is recorded.
pub open spec fn spec_replay_key(payment: Seq<char>) -> Seq<char> {
    "x402:payment_sig:"@ + spec_payment_hash(payment)
}

fn replay_key(payment_b64: &str) -> (r: String)
    ensures
        r@ == spec_replay_key(payment_b64@),
{
    let mut key = String::from_str("x402:payment_sig:");
    let hash = payment_hash(payment_b64);
    key.append(hash.as_str());
    key
}

/// Looks up a per-resource price override.  Returns nothing when the store
/// is unconfigured or unreachable, or no override exists; parse failures
/// are the caller's to ignore.
pub fn get_dynamic_price(store: &ReplayStore, path: &str) -> (r: Option<String>)
    ensures
        !store.spec_configured() ==> r is None,
{
    match &store.client {
        None => None,
        Some(client) => {
            match redis_connect(client) {
                None => None,
                Some(mut conn) => redis_get(&mut conn, path),
            }
        },
    }
}

/// Whether this payment proof was already accepted.  An unconfigured or
/// unreachable store reads as "never used": the replay check fails open.
pub fn is_payment_used(store: &ReplayStore, payment_b64: &str) -> (r: bool)
    ensures
        !store.spec_configured() ==> r == false,
{
    match &store.client {
        None => false,
        Some(client) => {
            match redis_connect(client) {
                None => false,
                Some(mut conn) => {
                    let key = replay_key(payment_b64);
                    match redis_exists(&mut conn, key.as_str()) {
                        Some(b) => b,
                        None => false,
                    }
                },
            }
        },
    }
}

/// Records a payment proof as used, with the configured time-to-live.
/// Fails when the store is unconfigured or unreachable.
pub fn store_payment_as_used(store: &ReplayStore, payment_b64: &str, ttl_seconds: u64) -> (r:
    Result<(), ConfigError>)
    ensures
        !store.spec_configured() ==> r is Err,
{
    let client = match &store.client {
        None => {
            return Err(ConfigError::new("Redis not configured"));
        },
        Some(c) => c,
    };
    let mut conn = match redis_connect(client) {
        None => {
            return Err(ConfigError::new("Redis not configured"));
        },
        Some(c) => c,
    };
    let key = replay_key(payment_b64);
    match redis_set_ex(&mut conn, key.as_str(), "used", ttl_seconds) {
        Ok(()) => Ok(()),
        Err(()) => Err(ConfigError::new("Failed to store payment in Redis")),
    }
}

} // verus!
