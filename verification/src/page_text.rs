//! Ingestion of page text: one base64-encoded line becomes one page's bytes.
//!
//! The base64 alphabet and its decoding are owned by an outside crate; the
//! library only names its result, so that what happens after the decoding —
//! framing, conversion, aggregation — is specified and proved over those
//! bytes.

use vstd::prelude::*;

use crate::errors::PageTextError;
use crate::frame::read_page;
use crate::frame::spec_page_result;
use crate::frame::spec_page_samples;
use crate::sample::Sample;

verus! {

/// What standard-alphabet base64 decoding yields for a text: the decoded
/// bytes, or nothing when the text is not valid base64. A function of the
/// text alone.
pub uninterp spec fn spec_base64_decoding(text: Seq<char>) -> Option<Seq<u8>>;

#[verifier::external_type_specification]
#[verifier::external_body]
pub struct ExDecodeError(base64::DecodeError);

/// Relies on base64::decode: decoding with the standard alphabet and
/// padding, a pure function of the input text, failing exactly on text that
/// is not valid base64.
#[verifier::external_body]
fn base64_decode(text: &str) -> (r: Result<Vec<u8>, base64::DecodeError>)
    ensures
        match r {
            Ok(v) => spec_base64_decoding(text@) == Some(v@),
            Err(_) => spec_base64_decoding(text@) is None,
        },
{
    base64::decode(text)
}

/// Decodes one line of page text into page bytes; `None` when the line is
/// not valid base64.
pub fn decode_page_text(text: &str) -> (r: Option<Vec<u8>>)
    ensures
        match r {
            Some(v) => spec_base64_decoding(text@) == Some(v@),
            None => spec_base64_decoding(text@) is None,
        },
{
    match base64_decode(text) {
        Ok(v) => Some(v),
        Err(_) => None,
    }
}

/// Decodes one base64 line as one page, appending every decoded sample to
/// `messages` in wire order; the line's bytes are decoded exactly as
/// `read_page` decodes them.
pub fn read_page_text(text: &str, messages: &mut Vec<Sample>) -> (r: Result<(), PageTextError>)
    ensures
        match spec_base64_decoding(text@) {
            Some(bytes) => final(messages)@ == old(messages)@ + spec_page_samples(bytes) && r
                == (match spec_page_result(bytes) {
                Ok(()) => Ok::<(), PageTextError>(()),
                Err(e) => Err(PageTextError::Frame(e)),
            }),
            None => final(messages)@ == old(messages)@ && r == Err::<
                (),
                PageTextError,
            >(PageTextError::InvalidBase64),
        },
{
    match decode_page_text(text) {
        Some(bytes) => match read_page(bytes.as_slice(), messages) {
            Ok(()) => Ok(()),
            Err(e) => Err(PageTextError::Frame(e)),
        },
        None => Err(PageTextError::InvalidBase64),
    }
}

} // verus!
