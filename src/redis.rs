//! Settings and client construction for the key-value cache.
//!
//! The pool itself (acquisition, timeouts, recycling) is the pool crate's work;
//! this module fixes the settings it is built with and the URL a client opens.
use mobc_redis::redis::{Client, RedisError};
use vstd::prelude::*;

verus! {

/// Most connections the cache pool keeps open at once.
pub const CACHE_POOL_MAX_OPEN: u64 = 16;

/// Most idle connections the cache pool keeps.
pub const CACHE_POOL_MAX_IDLE: u64 = 8;

/// Seconds a caller waits for a connection before the pool gives up.
pub const CACHE_POOL_TIMEOUT_SECONDS: u64 = 1;

/// Seconds after which a connection is retired instead of reused.
pub const CACHE_POOL_EXPIRE_SECONDS: u64 = 60;

/// The settings a connection pool is built with.
#[derive(Debug, Clone, Copy)]
pub struct PoolConfig {
    pub max_open: u64,
    pub max_idle: u64,
    pub timeout_seconds: u64,
    pub max_lifetime_seconds: u64,
}

impl PoolConfig {
    /// A pool with a finite ceiling (the pool crate reads 0 as "no limit"), no
    /// more idle than open connections, a waiting time that ends, and a
    /// lifetime that the pool crate accepts (it panics on zero).
    pub open spec fn wf(&self) -> bool {
        &&& 0 < self.max_open
        &&& self.max_idle <= self.max_open
        &&& 0 < self.timeout_seconds
        &&& 0 < self.max_lifetime_seconds
    }

    /// The settings of the cache pool.
    pub fn cache_default() -> (r: PoolConfig)
        ensures
            r.wf(),
            r.max_open == CACHE_POOL_MAX_OPEN,
            r.max_idle == CACHE_POOL_MAX_IDLE,
            r.timeout_seconds == CACHE_POOL_TIMEOUT_SECONDS,
            r.max_lifetime_seconds == CACHE_POOL_EXPIRE_SECONDS,
    {
        PoolConfig {
            max_open: CACHE_POOL_MAX_OPEN,
            max_idle: CACHE_POOL_MAX_IDLE,
            timeout_seconds: CACHE_POOL_TIMEOUT_SECONDS,
            max_lifetime_seconds: CACHE_POOL_EXPIRE_SECONDS,
        }
    }
}

/// Where and how to reach the cache server.
#[derive(Debug, Clone)]
pub struct CacheConfig {
    /// `redis`, or `rediss` for TLS.
    pub uri_scheme: String,
    /// `host:port`.
    pub host: String,
    pub password: String,
}

/// The host when none is set: the local machine, on `port` or else on 6379.
pub open spec fn default_host(port: Option<String>) -> Seq<char> {
    match port {
        Some(p) => "127.0.0.1:"@ + p@,
        None => "127.0.0.1:6379"@,
    }
}

/// The URL a client opens: `scheme://:password@host`.
pub open spec fn redis_url_of(scheme: Seq<char>, host: Seq<char>, pw: Seq<char>) -> Seq<char> {
    scheme + "://:"@ + pw + "@"@ + host
}

impl CacheConfig {
    /// The configuration from optional settings: TLS picks `rediss` over
    /// `redis`; a set host wins over a set port; no password is the empty one.
    pub fn from_values(
        is_tls: bool,
        host: Option<String>,
        port: Option<String>,
        password: Option<String>,
    ) -> (r: CacheConfig)
        ensures
            r.uri_scheme@ == (if is_tls { "rediss"@ } else { "redis"@ }),
            r.host@ == match host {
                Some(h) => h@,
                None => default_host(port),
            },
            r.password@ == match password {
                Some(p) => p@,
                None => Seq::<char>::empty(),
            },
    {
        let uri_scheme = if is_tls {
            String::from_str("rediss")
        } else {
            String::from_str("redis")
        };
        let host = match host {
            Some(h) => h,
            None => match port {
                Some(p) => {
                    let mut h = String::from_str("127.0.0.1:");
                    h.append(p.as_str());
                    h
                },
                None => String::from_str("127.0.0.1:6379"),
            },
        };
        let password = match password {
            Some(p) => p,
            None => String::new(),
        };
        CacheConfig { uri_scheme, host, password }
    }

    /// The URL of the configured server.
    pub fn url(&self) -> (r: String)
        ensures
            r@ == redis_url_of(self.uri_scheme@, self.host@, self.password@),
    {
        redis_url(self.uri_scheme.as_str(), self.host.as_str(), self.password.as_str())
    }
}

/// `scheme://:password@host`.
pub fn redis_url(uri_scheme: &str, redis_host: &str, redis_pw: &str) -> (r: String)
    ensures
        r@ == redis_url_of(uri_scheme@, redis_host@, redis_pw@),
{
    let mut r = String::from_str(uri_scheme);
    r.append("://:");
    r.append(redis_pw);
    r.append("@");
    r.append(redis_host);
    r
}

/// The cache crate's client, carried through opaque.
#[verifier::external_type_specification]
#[verifier::external_body]
pub struct ExClient(Client);

/// The cache crate's error, carried through opaque.
#[verifier::external_type_specification]
#[verifier::external_body]
pub struct ExRedisError(RedisError);

/// Whether the cache crate's client accepts `url` (a parse of the URL alone).
pub uninterp spec fn redis_url_accepted(url: Seq<char>) -> bool;

/// Relies on `redis::Client::open`: checks the URL and keeps it; no
/// connection is made yet, so the outcome depends on the URL alone.
#[verifier::external_body]
fn open_client(url: &str) -> (r: Result<Client, RedisError>)
    ensures
        r is Ok == redis_url_accepted(url@),
{
    Client::open(url)
}

/// A client for the server at `redis_host`, reached with `uri_scheme` and
/// `redis_pw`; fails when the URL they make is not one the client accepts.
pub fn new_client(uri_scheme: &str, redis_host: &str, redis_pw: &str) -> (r: Result<
    Client,
    RedisError,
>)
    ensures
        r is Ok == redis_url_accepted(redis_url_of(uri_scheme@, redis_host@, redis_pw@)),
{
    let url = redis_url(uri_scheme, redis_host, redis_pw);
    open_client(url.as_str())
}

} // verus!
