//! The per-request flow: admit, resolve the size, look the image up, and on
//! a miss fetch, sanitize, render and store it. The caller performs each
//! round trip that a stage asks for and hands its outcome back as an event.
use vstd::prelude::*;
use vstd::utf8::encode_utf8;
use crate::cache::{cache_key, cache_key_spec};
use crate::config::{resolve_dimension, Config};
use crate::error::{ServiceError, ServiceResult};
use crate::sanitize::{clean, has_active_content};

verus! {

/// What a caller asks for: the document's URL and an optional size.
pub struct SvgRequest {
    pub url: String,
    pub width: Option<u32>,
    pub height: Option<u32>,
}

/// Where a request stands, and so which round trip comes next.
pub enum Stage {
    /// Increment the admission counter, then report `Event::Admission`.
    Admitting,
    /// Read the cache key, then report `Event::Lookup`.
    LookingUp,
    /// Fetch the document, then report `Event::Fetch`.
    Fetching,
    /// Render this sanitized text, then report `Event::Render`.
    Rendering(String),
    /// Write this image under the cache key, then report `Event::Store`.
    Storing(Vec<u8>),
    /// The answer to the caller.
    Done(ServiceResult<Vec<u8>>),
}

/// The outcome of the round trip that a stage asked for.
pub enum Event {
    Admission(bool),
    Lookup(ServiceResult<Option<Vec<u8>>>),
    Fetch(ServiceResult<String>),
    Render(ServiceResult<Vec<u8>>),
    Store(ServiceResult<()>),
}

pub struct Pipeline {
    pub url: String,
    pub width: u32,
    pub height: u32,
    pub key: String,
    pub stage: Stage,
}

/// The stage that follows `stage` on `event`. A store failure after a
/// successful render still serves the image; every other failure ends the
/// request with its own error; an event that the stage did not ask for
/// changes nothing.
pub open spec fn next_stage(stage: Stage, event: Event, next: Stage) -> bool {
    match (stage, event) {
        (Stage::Admitting, Event::Admission(true)) => next == Stage::LookingUp,
        (Stage::Admitting, Event::Admission(false)) => next == Stage::Done(
            Err(ServiceError::RateLimitExceeded),
        ),
        (Stage::LookingUp, Event::Lookup(Ok(Some(image)))) => next == Stage::Done(Ok(image)),
        (Stage::LookingUp, Event::Lookup(Ok(None))) => next == Stage::Fetching,
        (Stage::LookingUp, Event::Lookup(Err(e))) => next == Stage::Done(Err(e)),
        (Stage::Fetching, Event::Fetch(Ok(text))) => if has_active_content(encode_utf8(text@)) {
            next matches Stage::Done(Err(ServiceError::SvgProcessingError(_)))
        } else {
            next matches Stage::Rendering(t) && t@ == text@
        },
        (Stage::Fetching, Event::Fetch(Err(e))) => next == Stage::Done(Err(e)),
        (Stage::Rendering(_), Event::Render(Ok(image))) => next == Stage::Storing(image),
        (Stage::Rendering(_), Event::Render(Err(e))) => next == Stage::Done(Err(e)),
        (Stage::Storing(image), Event::Store(_)) => next == Stage::Done(Ok(image)),
        (s, _) => next == s,
    }
}

impl Pipeline {
    /// A request resolved against the settings and waiting for admission.
    pub fn begin(config: &Config, request: &SvgRequest) -> (r: Pipeline)
        ensures
            r.url@ == request.url@,
            r.width == resolve_dimension(
                request.width,
                config.default_width,
                config.max_width,
                config.min_dimension,
            ),
            r.height == resolve_dimension(
                request.height,
                config.default_height,
                config.max_height,
                config.min_dimension,
            ),
            r.key@ == cache_key_spec(request.url@, r.width, r.height),
            r.stage == Stage::Admitting,
    {
        let (width, height) = config.validate_dimensions(request.width, request.height);
        let key = cache_key(request.url.as_str(), width, height);
        let url = request.url.clone();
        Pipeline { url, width, height, key, stage: Stage::Admitting }
    }

    /// Moves the request on by the outcome of its current round trip.
    pub fn advance(self, event: Event) -> (r: Pipeline)
        ensures
            r.url == self.url,
            r.width == self.width,
            r.height == self.height,
            r.key == self.key,
            next_stage(self.stage, event, r.stage),
    {
        let Pipeline { url, width, height, key, stage } = self;
        let next = match (stage, event) {
            (Stage::Admitting, Event::Admission(admitted)) => {
                if admitted {
                    Stage::LookingUp
                } else {
                    Stage::Done(Err(ServiceError::RateLimitExceeded))
                }
            },
            (Stage::LookingUp, Event::Lookup(found)) => match found {
                Ok(Some(image)) => Stage::Done(Ok(image)),
                Ok(None) => Stage::Fetching,
                Err(e) => Stage::Done(Err(e)),
            },
            (Stage::Fetching, Event::Fetch(fetched)) => match fetched {
                Ok(text) => match clean(text) {
                    Ok(t) => Stage::Rendering(t),
                    Err(e) => Stage::Done(Err(e)),
                },
                Err(e) => Stage::Done(Err(e)),
            },
            (Stage::Rendering(text), Event::Render(rendered)) => match rendered {
                Ok(image) => Stage::Storing(image),
                Err(e) => Stage::Done(Err(e)),
            },
            (Stage::Storing(image), Event::Store(_)) => Stage::Done(Ok(image)),
            (s, _) => s,
        };
        Pipeline { url, width, height, key, stage: next }
    }

    pub fn is_done(&self) -> (r: bool)
        ensures
            r == (self.stage is Done),
    {
        match self.stage {
            Stage::Done(_) => true,
            _ => false,
        }
    }
}

/// Once the image is rendered, a failed write to the store does not fail
/// the request: the freshly rendered bytes are served.
pub proof fn lemma_store_failure_serves_render(image: Vec<u8>, e: ServiceError, next: Stage)
    requires
        next_stage(Stage::Storing(image), Event::Store(Err(e)), next),
    ensures
        next == Stage::Done(Ok(image)),
{
}

/// A cache hit answers with the stored bytes, unchanged and without a fetch.
pub proof fn lemma_hit_serves_cached(image: Vec<u8>, next: Stage)
    requires
        next_stage(Stage::LookingUp, Event::Lookup(Ok(Some(image))), next),
    ensures
        next == Stage::Done(Ok(image)),
{
}

/// An oversized or malformed document, refused by the fetcher with a
/// validation error, ends the request with that error: it reaches neither
/// the sanitizer nor the rasterizer.
pub proof fn lemma_fetch_refusal_ends_request(detail: String, next: Stage)
    requires
        next_stage(Stage::Fetching, Event::Fetch(Err(ServiceError::ValidationError(detail))), next),
    ensures
        next == Stage::Done(Err::<Vec<u8>, ServiceError>(ServiceError::ValidationError(detail))),
{
}

} // verus!
