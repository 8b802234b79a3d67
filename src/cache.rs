//! The blob store behind the cache-aside lookup: its client and the keys
//! under which rendered images are kept.
use vstd::prelude::*;
use crate::error::{ServiceError, ServiceResult};
use crate::text::{decimal_chars, decimal_text};

verus! {

/// How long a rendered image stays in the store, in seconds.
pub const CACHE_TTL_SECS: u64 = 86400;

#[verifier::external_type_specification]
#[verifier::external_body]
pub struct ExClient(redis::Client);

#[verifier::external_type_specification]
#[verifier::external_body]
pub struct ExRedisError(redis::RedisError);

/// Whether redis reads connection settings from the URL.
pub uninterp spec fn redis_url_valid(url: Seq<char>) -> bool;

/// Relies on redis's `Client::open`: it reads the connection settings from
/// the URL without connecting, and whether it succeeds depends on the URL
/// alone.
#[verifier::external_body]
fn open_client(url: &str) -> (r: Result<redis::Client, redis::RedisError>)
    ensures
        r is Ok <==> redis_url_valid(url@),
{
    redis::Client::open(url)
}

/// A handle on the store that holds rendered images and admission counters.
pub struct RedisCache {
    client: redis::Client,
}

impl RedisCache {
    /// A handle on the store at `redis_url`; a URL that names no store is a
    /// cache error. Nothing is contacted yet.
    pub fn new(redis_url: &str) -> (r: ServiceResult<RedisCache>)
        ensures
            r is Ok <==> redis_url_valid(redis_url@),
            r matches Err(e) ==> e is CacheError,
    {
        match open_client(redis_url) {
            Ok(client) => Ok(RedisCache { client }),
            Err(_) => Err(ServiceError::CacheError(String::from_str("Failed to create Redis client"))),
        }
    }

    pub fn client(&self) -> &redis::Client {
        &self.client
    }
}

/// `svg:<url>:<width>x<height>`.
pub open spec fn cache_key_spec(url: Seq<char>, width: u32, height: u32) -> Seq<char> {
    "svg:"@ + url + ":"@ + decimal_chars(width as nat) + "x"@ + decimal_chars(height as nat)
}

/// The key of the image rendered from `url` at `width` by `height`.
pub fn cache_key(url: &str, width: u32, height: u32) -> (r: String)
    ensures
        r@ == cache_key_spec(url@, width, height),
{
    let mut key = String::from_str("svg:");
    key.append(url);
    key.append(":");
    let w = decimal_text(width);
    key.append(w.as_str());
    key.append("x");
    let h = decimal_text(height);
    key.append(h.as_str());
    key
}

} // verus!
