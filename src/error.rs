use vstd::prelude::*;

verus! {

/// Every way a request can fail, each with its own HTTP status.
#[derive(Debug)]
pub enum ServiceError {
    /// The document could not be sanitized, parsed or rendered.
    SvgProcessingError(String),
    /// The admission check refused the request.
    RateLimitExceeded,
    /// The blob store failed while reading or probing.
    CacheError(String),
    /// The counter or blob store reported an error of its own.
    RedisError(String),
    /// The origin server could not be reached or answered with a failure.
    RequestError(String),
    /// The caller's input, or the fetched document, is unacceptable.
    ValidationError(String),
}

pub type ServiceResult<T> = Result<T, ServiceError>;

/// The HTTP status that a failure maps to.
pub open spec fn status_of(e: ServiceError) -> u16 {
    match e {
        ServiceError::RateLimitExceeded => 429,
        ServiceError::ValidationError(_) => 400,
        ServiceError::CacheError(_) => 500,
        ServiceError::RedisError(_) => 500,
        ServiceError::RequestError(_) => 502,
        ServiceError::SvgProcessingError(_) => 400,
    }
}

/// The machine-readable kind reported in the error payload.
pub open spec fn kind_of(e: ServiceError) -> Seq<char> {
    match e {
        ServiceError::RateLimitExceeded => "rate_limit_exceeded"@,
        ServiceError::ValidationError(_) => "validation_error"@,
        ServiceError::CacheError(_) => "cache_error"@,
        ServiceError::RedisError(_) => "redis_error"@,
        ServiceError::RequestError(_) => "request_error"@,
        ServiceError::SvgProcessingError(_) => "svg_processing_error"@,
    }
}

/// The human-readable message of the error payload. Only the kinds that
/// describe the caller's own input carry their detail; backend failures get a
/// fixed text so that no store or origin text reaches the response.
pub open spec fn message_of(e: ServiceError) -> Seq<char> {
    match e {
        ServiceError::SvgProcessingError(d) => "Failed to process SVG: "@ + d@,
        ServiceError::RateLimitExceeded => "Rate limit exceeded"@,
        ServiceError::CacheError(_) => "Cache unavailable"@,
        ServiceError::RedisError(_) => "Backing store unavailable"@,
        ServiceError::RequestError(_) => "Failed to fetch the source document"@,
        ServiceError::ValidationError(d) => "Invalid input: "@ + d@,
    }
}

impl ServiceError {
    pub fn status_code(&self) -> (r: u16)
        ensures
            r == status_of(*self),
    {
        match self {
            ServiceError::RateLimitExceeded => 429,
            ServiceError::ValidationError(_) => 400,
            ServiceError::CacheError(_) => 500,
            ServiceError::RedisError(_) => 500,
            ServiceError::RequestError(_) => 502,
            ServiceError::SvgProcessingError(_) => 400,
        }
    }

    pub fn kind(&self) -> (r: &'static str)
        ensures
            r@ == kind_of(*self),
    {
        match self {
            ServiceError::RateLimitExceeded => "rate_limit_exceeded",
            ServiceError::ValidationError(_) => "validation_error",
            ServiceError::CacheError(_) => "cache_error",
            ServiceError::RedisError(_) => "redis_error",
            ServiceError::RequestError(_) => "request_error",
            ServiceError::SvgProcessingError(_) => "svg_processing_error",
        }
    }

    pub fn message(&self) -> (r: String)
        ensures
            r@ == message_of(*self),
    {
        match self {
            ServiceError::SvgProcessingError(d) => {
                String::from_str("Failed to process SVG: ").concat(d.as_str())
            },
            ServiceError::RateLimitExceeded => String::from_str("Rate limit exceeded"),
            ServiceError::CacheError(_) => String::from_str("Cache unavailable"),
            ServiceError::RedisError(_) => String::from_str("Backing store unavailable"),
            ServiceError::RequestError(_) => {
                String::from_str("Failed to fetch the source document")
            },
            ServiceError::ValidationError(d) => {
                String::from_str("Invalid input: ").concat(d.as_str())
            },
        }
    }
}

} // verus!
