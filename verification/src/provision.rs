//! The secret provisioner: fresh random secret material, and the base32 text
//! form in which secrets are exchanged and stored.

use vstd::prelude::*;

verus! {

/// The base32 text the encoder produces for `bytes`.
pub uninterp spec fn base32_of(bytes: Seq<u8>) -> Seq<char>;

/// The bytes the decoder yields for `text`; `None` where `text` is not valid
/// padded base32.
pub uninterp spec fn base32_decode_of(text: Seq<char>) -> Option<Seq<u8>>;

/// Relies on `data_encoding::BASE32.encode`: deterministic in its input, and
/// decoding an encoder output gives back the encoded bytes.
#[verifier::external_body]
pub(crate) fn encode_base32(bytes: &Vec<u8>) -> (r: String)
    requires
        bytes@.len() <= usize::MAX / 512,
    ensures
        r@ == base32_of(bytes@),
        base32_decode_of(r@) == Some(bytes@),
{
    data_encoding::BASE32.encode(bytes.as_slice())
}

/// Relies on `data_encoding::BASE32.decode`: deterministic in its input, an
/// error exactly where the input is not valid padded base32.
#[verifier::external_body]
pub(crate) fn decode_base32(text: &str) -> (r: Option<Vec<u8>>)
    requires
        text@.len() <= usize::MAX / 32,
    ensures
        (match r {
            Some(b) => base32_decode_of(text@) == Some(b@),
            None => base32_decode_of(text@) is None,
        }),
{
    match data_encoding::BASE32.decode(text.as_bytes()) {
        Ok(bytes) => Some(bytes),
        Err(_) => None,
    }
}

/// Relies on `rand::fill`: fills the buffer from the thread-local generator.
/// Only the length is promised; the contents are random.
#[verifier::external_body]
fn random_bytes_20() -> (r: Vec<u8>)
    ensures
        r@.len() == 20,
{
    let mut buf = vec![0u8; 20];
    rand::fill(buf.as_mut_slice());
    buf
}

/// Generates fresh secret material: twenty random bytes, returned as base32
/// text that decodes back to exactly those twenty bytes.
pub fn generate_secret_key() -> (r: String)
    ensures
        base32_decode_of(r@) matches Some(b) && b.len() == 20 && r@ == base32_of(b),
{
    let bytes = random_bytes_20();
    encode_base32(&bytes)
}

} // verus!
