//! Encoding a captured screen image into the payload handed to the front
//! end.
//!
//! The screen-capture collaborator produces the PNG bytes at the process
//! edge; this module owns the encoding step: the bytes become a padded
//! base64 string through the `base64` crate.

use vstd::prelude::*;
use base64::Engine;

verus! {

/// What the standard base64 alphabet, with padding, encodes `bytes` to.
pub uninterp spec fn base64_of(bytes: Seq<u8>) -> Seq<char>;

/// Relies on base64's `Engine::encode` with the `STANDARD` engine: encodes
/// arbitrary octets as padded base64. The result is a function of the
/// bytes alone; its length is four characters per three-byte group,
/// rounded up. The length bound keeps the engine's internal buffer size
/// from overflowing.
#[verifier::external_body]
fn base64_encode(bytes: &Vec<u8>) -> (r: String)
    requires
        bytes@.len() <= usize::MAX / 4,
    ensures
        r@ == base64_of(bytes@),
        r@.len() == 4 * ((bytes@.len() + 2) / 3),
{
    base64::engine::general_purpose::STANDARD.encode(bytes.as_slice())
}

/// Encodes one captured image, already serialized as PNG bytes, into its
/// base64 payload. An image too large for the encoder's buffer arithmetic
/// — beyond any real capture — is declined rather than attempted.
pub fn encode_capture(png: &Vec<u8>) -> (r: Option<String>)
    ensures
        png@.len() <= usize::MAX / 4 ==> (r matches Some(s) && s@ == base64_of(png@) && s@.len()
            == 4 * ((png@.len() + 2) / 3)),
        png@.len() > usize::MAX / 4 ==> r is None,
{
    if png.len() <= usize::MAX / 4 {
        Some(base64_encode(png))
    } else {
        None
    }
}

} // verus!
