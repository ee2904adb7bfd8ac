//! Slide images arrive as base64 text.
use vstd::prelude::*;

verus! {

#[verifier::external_type_specification]
#[verifier::external_body]
pub struct ExDecodeError(base64::DecodeError);

/// The bytes that a text encodes in padded standard-alphabet base64, or
/// `None` where the text is no such encoding.
pub uninterp spec fn base64_decoded(text: Seq<char>) -> Option<Seq<u8>>;

/// Relies on `base64::Engine::decode` with the `STANDARD` engine: the bytes
/// encoded by the text, or the reason it is not valid base64.
#[verifier::external_body]
fn decode_standard(text: &str) -> (r: Result<Vec<u8>, base64::DecodeError>)
    ensures
        r is Ok <==> base64_decoded(text@) is Some,
        r is Ok ==> r->Ok_0@ == base64_decoded(text@)->0,
{
    base64::Engine::decode(&base64::engine::general_purpose::STANDARD, text)
}

/// Why slide image data was refused.
#[derive(Debug)]
pub enum ImageDataError {
    /// The text is not valid standard base64.
    InvalidBase64(base64::DecodeError),
}

/// Decodes the base64 text of a slide image into its bytes.
pub fn decode_slide_image(png_base64: &str) -> (r: Result<Vec<u8>, ImageDataError>)
    ensures
        r is Ok <==> base64_decoded(png_base64@) is Some,
        r is Ok ==> r->Ok_0@ == base64_decoded(png_base64@)->0,
{
    match decode_standard(png_base64) {
        Ok(bytes) => Ok(bytes),
        Err(e) => Err(ImageDataError::InvalidBase64(e)),
    }
}

} // verus!
