//! Keyed message authentication: HMAC-SHA256 tags written as lowercase hex.

use crate::error::ClientError;
use hmac::{Hmac, Mac, NewMac};
use sha2::Sha256;
use vstd::prelude::*;

verus! {

/// The lowercase hexadecimal digit of a value below sixteen.
pub open spec fn lower_hex_digit(nibble: u8) -> char
    recommends
        nibble < 16,
{
    if nibble < 10 {
        (nibble + 48) as u8 as char
    } else {
        (nibble + 87) as u8 as char
    }
}

/// Whether `c` is one of `0`-`9` or `a`-`f`.
pub open spec fn is_lower_hex_digit(c: char) -> bool {
    ('0' <= c <= '9') || ('a' <= c <= 'f')
}

/// The lowercase hexadecimal text of a byte string: two digits per byte,
/// the high half of each byte first.
pub open spec fn hex_lower(bytes: Seq<u8>) -> Seq<char> {
    Seq::new(
        2 * bytes.len(),
        |i: int|
            if i % 2 == 0 {
                lower_hex_digit(bytes[i / 2] / 16)
            } else {
                lower_hex_digit(bytes[i / 2] % 16)
            },
    )
}

/// Whether every character of `text` is a lowercase hexadecimal digit.
pub open spec fn is_lower_hex(text: Seq<char>) -> bool {
    forall|i: int| 0 <= i < text.len() ==> is_lower_hex_digit(#[trigger] text[i])
}

/// The HMAC-SHA256 tag of `message` under `key`.
pub uninterp spec fn hmac_sha256(key: Seq<u8>, message: Seq<u8>) -> Seq<u8>;

/// The signature of `message` under `secret`: the tag in lowercase hex.
pub open spec fn signature(secret: Seq<u8>, message: Seq<u8>) -> Seq<char> {
    hex_lower(hmac_sha256(secret, message))
}

/// Length of every signature, in characters.
pub const SIGNATURE_LEN: usize = 64;

/// Hex text is twice as long as the bytes it encodes and holds only
/// lowercase hexadecimal digits.
pub proof fn lemma_hex_lower_shape(bytes: Seq<u8>)
    ensures
        hex_lower(bytes).len() == 2 * bytes.len(),
        is_lower_hex(hex_lower(bytes)),
{
    assert forall|i: int| 0 <= i < hex_lower(bytes).len() implies is_lower_hex_digit(
        #[trigger] hex_lower(bytes)[i],
    ) by {
        let b = bytes[i / 2];
        assert(b / 16 < 16 && b % 16 < 16);
    }
}

/// A signature depends on the secret and the message and on nothing else:
/// the same two give the same signature.
pub proof fn lemma_signature_deterministic(
    secret_a: Seq<u8>,
    message_a: Seq<u8>,
    secret_b: Seq<u8>,
    message_b: Seq<u8>,
)
    requires
        secret_a == secret_b,
        message_a == message_b,
    ensures
        signature(secret_a, message_a) == signature(secret_b, message_b),
{
}

/// Computes the tag with `Hmac<Sha256>` of the hmac crate: keyed with
/// `new_from_slice`, which takes a key of any length, fed the whole message
/// by one `update`, and read out by `finalize`. The tag is that of the
/// algorithm and is 32 bytes long, the output size of SHA-256.
#[verifier::external_body]
fn hmac_sha256_tag(key: &[u8], message: &[u8]) -> (tag: Vec<u8>)
    ensures
        tag@ == hmac_sha256(key@, message@),
        tag@.len() == 32,
{
    let mut mac = Hmac::<Sha256>::new_from_slice(key).expect("HMAC takes a key of any length");
    mac.update(message);
    mac.finalize().into_bytes().to_vec()
}

/// Calls `hex::encode`, which writes each byte as two digits taken from
/// `0123456789abcdef`, the high half first.
#[verifier::external_body]
fn hex_encode(bytes: &[u8]) -> (text: String)
    ensures
        text@ == hex_lower(bytes@),
{
    hex::encode(bytes)
}

/// Signs `message` with `secret`.
///
/// An empty secret is a fault of configuration; any other secret gives the
/// 64 lowercase hexadecimal digits of the HMAC-SHA256 tag, whatever the
/// message.
pub fn sign(secret: &[u8], message: &[u8]) -> (r: Result<String, ClientError>)
    ensures
        secret@.len() == 0 ==> r matches Err(ClientError::Configuration),
        secret@.len() != 0 ==> r is Ok,
        r matches Ok(text) ==> {
            &&& text@ == signature(secret@, message@)
            &&& text@.len() == SIGNATURE_LEN
            &&& is_lower_hex(text@)
        },
{
    if secret.len() == 0 {
        return Err(ClientError::Configuration);
    }
    let tag = hmac_sha256_tag(secret, message);
    proof {
        lemma_hex_lower_shape(tag@);
    }
    Ok(hex_encode(tag.as_slice()))
}

} // verus!
