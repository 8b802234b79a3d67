//! Bounded retrieval of the source document: the size hint checked before
//! the body is opened, the running total checked after every chunk, and the
//! plausibility of the finished payload.
use vstd::prelude::*;
use vstd::utf8::{decode_utf8, valid_utf8};
use crate::error::{ServiceError, ServiceResult};
use crate::text::{contains_bytes, find_bytes, parse_unsigned, parses_within, unsigned_value};

verus! {

/// The largest document accepted.
pub const MAX_SVG_SIZE: usize = 1048576;

/// The largest body streamed before the transfer is cut off, a safety margin
/// above the document ceiling.
pub const MAX_RESPONSE_SIZE: usize = 5242880;

/// The marker of an SVG root element.
pub open spec fn svg_marker() -> Seq<u8> {
    seq!['<' as u8, 's' as u8, 'v' as u8, 'g' as u8]
}

/// The size hint names a number past the document ceiling. A hint that is
/// absent or not a number declares nothing: the running total decides.
pub open spec fn declared_too_large(content_length: Option<&str>) -> bool {
    match content_length {
        Some(v) => parses_within(v@, usize::MAX as nat) && unsigned_value(v@) > MAX_SVG_SIZE,
        None => false,
    }
}

/// Checks the size that the origin declares before the body is requested.
pub fn preflight(content_length: Option<&str>) -> (r: ServiceResult<()>)
    ensures
        r is Err <==> declared_too_large(content_length),
        r matches Err(e) ==> e is ValidationError,
{
    if let Some(v) = content_length {
        if let Some(size) = parse_unsigned(v, usize::MAX as u64) {
            if size > MAX_SVG_SIZE as u64 {
                return Err(ServiceError::ValidationError(String::from_str("SVG file too large")));
            }
        }
    }
    Ok(())
}

pub open spec fn is_success_status(status: u16) -> bool {
    200 <= status <= 299
}

/// A response status outside the success range is an upstream failure.
pub fn check_status(status: u16) -> (r: ServiceResult<()>)
    ensures
        r is Ok <==> is_success_status(status),
        r matches Err(e) ==> e is RequestError,
{
    if 200 <= status && status <= 299 {
        Ok(())
    } else {
        Err(ServiceError::RequestError(String::from_str("origin answered with a failure status")))
    }
}

/// Relies on `String::from_utf8`: it succeeds exactly on valid UTF-8 and
/// then holds the decoded characters.
#[verifier::external_body]
fn utf8_text(bytes: Vec<u8>) -> (r: Option<String>)
    ensures
        r is Some <==> valid_utf8(bytes@),
        r matches Some(s) ==> s@ == decode_utf8(bytes@),
{
    String::from_utf8(bytes).ok()
}

/// The body received so far.
pub struct Download {
    body: Vec<u8>,
}

impl View for Download {
    type V = Seq<u8>;

    closed spec fn view(&self) -> Seq<u8> {
        self.body@
    }
}

/// What a finished body is accepted as: small enough, UTF-8, and holding an
/// SVG root element.
pub open spec fn accepted_document(body: Seq<u8>) -> bool {
    body.len() <= MAX_SVG_SIZE && valid_utf8(body) && contains_bytes(body, svg_marker())
}

impl Download {
    pub open spec fn wf(&self) -> bool {
        self@.len() <= MAX_RESPONSE_SIZE
    }

    pub fn new() -> (r: Download)
        ensures
            r@ == Seq::<u8>::empty(),
            r.wf(),
    {
        Download { body: Vec::new() }
    }

    pub fn len(&self) -> (r: usize)
        ensures
            r == self@.len(),
    {
        self.body.len()
    }

    /// Appends one chunk of the body, or refuses it where the running total
    /// would pass the streaming ceiling; a refused chunk is not kept.
    pub fn push_chunk(&mut self, chunk: &[u8]) -> (r: ServiceResult<()>)
        requires
            old(self).wf(),
        ensures
            final(self).wf(),
            r is Ok <==> old(self)@.len() + chunk@.len() <= MAX_RESPONSE_SIZE,
            r is Ok ==> final(self)@ == old(self)@ + chunk@,
            r is Err ==> final(self)@ == old(self)@,
            r matches Err(e) ==> e is ValidationError,
    {
        let n = chunk.len();
        if n > MAX_RESPONSE_SIZE - self.body.len() {
            return Err(ServiceError::ValidationError(String::from_str("Response too large")));
        }
        let ghost start = self.body@;
        let mut i: usize = 0;
        while i < n
            invariant
                i <= n,
                n == chunk@.len(),
                start.len() + n <= MAX_RESPONSE_SIZE,
                self.body@ == start + chunk@.subrange(0, i as int),
            decreases n - i,
        {
            self.body.push(chunk[i]);
            assert(chunk@.subrange(0, i + 1) =~= chunk@.subrange(0, i as int).push(chunk@[i as int]));
            i = i + 1;
        }
        assert(chunk@.subrange(0, n as int) =~= chunk@);
        Ok(())
    }

    /// The finished body as text, where it is an acceptable document.
    pub fn finish(self) -> (r: ServiceResult<String>)
        ensures
            r is Ok <==> accepted_document(self@),
            r matches Ok(s) ==> s@ == decode_utf8(self@),
            r matches Err(e) ==> e is ValidationError,
    {
        if self.body.len() > MAX_SVG_SIZE {
            return Err(ServiceError::ValidationError(String::from_str("SVG file too large")));
        }
        let marker: Vec<u8> = vec!['<' as u8, 's' as u8, 'v' as u8, 'g' as u8];
        assert(marker@ == svg_marker());
        let has_marker = find_bytes(self.body.as_slice(), marker.as_slice());
        let ghost body = self.body@;
        match utf8_text(self.body) {
            None => Err(ServiceError::ValidationError(String::from_str("Invalid UTF-8 content"))),
            Some(text) => {
                if has_marker {
                    Ok(text)
                } else {
                    Err(
                        ServiceError::ValidationError(
                            String::from_str("Response does not contain SVG content"),
                        ),
                    )
                }
            },
        }
    }
}

/// A body past the document ceiling is never accepted, whatever it holds;
/// the fetcher refuses it with a validation error.
pub proof fn lemma_oversized_document_refused(body: Seq<u8>)
    requires
        body.len() > MAX_SVG_SIZE,
    ensures
        !accepted_document(body),
{
}

} // verus!
