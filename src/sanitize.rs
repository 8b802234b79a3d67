//! Refuses documents that carry executable or entity-expanding constructs.
use vstd::prelude::*;
use vstd::utf8::encode_utf8;
use crate::error::{ServiceError, ServiceResult};
use crate::text::{contains_bytes, find_bytes, lower_ascii, lowered};

verus! {

pub open spec fn script_element() -> Seq<u8> {
    seq!['<' as u8, 's' as u8, 'c' as u8, 'r' as u8, 'i' as u8, 'p' as u8, 't' as u8]
}

pub open spec fn script_scheme() -> Seq<u8> {
    seq![
        'j' as u8, 'a' as u8, 'v' as u8, 'a' as u8, 's' as u8, 'c' as u8,
        'r' as u8, 'i' as u8, 'p' as u8, 't' as u8, ':' as u8,
    ]
}

pub open spec fn entity_declaration() -> Seq<u8> {
    seq!['<' as u8, '!' as u8, 'e' as u8, 'n' as u8, 't' as u8, 'i' as u8, 't' as u8, 'y' as u8]
}

/// The document holds a script element, a script-scheme URI or an entity
/// declaration, in any mix of ASCII letter case.
pub open spec fn has_active_content(bytes: Seq<u8>) -> bool {
    let folded = lowered(bytes);
    contains_bytes(folded, script_element()) || contains_bytes(folded, script_scheme())
        || contains_bytes(folded, entity_declaration())
}

/// Hands the document on unchanged where it holds no active content, and
/// fails with a processing error where it does.
pub fn clean(text: String) -> (r: ServiceResult<String>)
    ensures
        r is Ok <==> !has_active_content(encode_utf8(text@)),
        r matches Ok(t) ==> t@ == text@,
        r matches Err(e) ==> e is SvgProcessingError,
{
    let script: Vec<u8> = vec![
        '<' as u8, 's' as u8, 'c' as u8, 'r' as u8, 'i' as u8, 'p' as u8, 't' as u8,
    ];
    let scheme: Vec<u8> = vec![
        'j' as u8, 'a' as u8, 'v' as u8, 'a' as u8, 's' as u8, 'c' as u8,
        'r' as u8, 'i' as u8, 'p' as u8, 't' as u8, ':' as u8,
    ];
    let entity: Vec<u8> = vec![
        '<' as u8, '!' as u8, 'e' as u8, 'n' as u8, 't' as u8, 'i' as u8, 't' as u8, 'y' as u8,
    ];
    assert(script@ == script_element());
    assert(scheme@ == script_scheme());
    assert(entity@ == entity_declaration());
    let folded = lower_ascii(text.as_str().as_bytes());
    let bytes = folded.as_slice();
    if find_bytes(bytes, script.as_slice()) || find_bytes(bytes, scheme.as_slice())
        || find_bytes(bytes, entity.as_slice()) {
        Err(ServiceError::SvgProcessingError(String::from_str("SVG contains potentially unsafe content")))
    } else {
        Ok(text)
    }
}

} // verus!
