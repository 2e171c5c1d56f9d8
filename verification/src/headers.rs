//! Header sets of public and private requests, kept in the http crate's
//! `HeaderMap`.

use crate::digits::{
    decimal_digits, decimal_string, decimal_value, lemma_decimal_digits_shape,
    lemma_decimal_round_trip,
};
use crate::error::ClientError;
use crate::signer::is_lower_hex;
use http::header::{HeaderMap, HeaderValue, InvalidHeaderValue};
use vstd::prelude::*;

verus! {

#[verifier::external_type_specification]
#[verifier::external_body]
#[verifier::reject_recursive_types(T)]
pub struct ExHeaderMap<T>(HeaderMap<T>);

#[verifier::external_type_specification]
#[verifier::external_body]
pub struct ExHeaderValue(HeaderValue);

#[verifier::external_type_specification]
#[verifier::external_body]
pub struct ExInvalidHeaderValue(InvalidHeaderValue);

/// What a header map holds: each name, as the map stores it, with the text
/// of the value under it.
pub uninterp spec fn header_entries(map: HeaderMap<HeaderValue>) -> Map<Seq<char>, Seq<char>>;

/// Name of the header that declares the body's type.
pub const CONTENT_TYPE: &'static str = "content-type";

/// The body type of every request.
pub const JSON_CONTENT: &'static str = "application/json; charset=utf-8";

/// Name of the header that identifies the caller.
pub const ACCESS_KEY: &'static str = "access-key";

/// Name of the header that carries the nonce.
pub const ACCESS_NONCE: &'static str = "access-nonce";

/// Name of the header that carries the signature.
pub const ACCESS_SIGNATURE: &'static str = "access-signature";

/// No header set of this library grows beyond this many names.
pub const HEADER_LIMIT: usize = 64;

/// Whether `c` may stand in a header name written in lower case.
pub open spec fn is_name_char(c: char) -> bool {
    ('a' <= c <= 'z') || ('0' <= c <= '9') || c == '-'
}

/// Whether `name` is a header name in lower case: one to 64 letters,
/// digits and hyphens.
pub open spec fn is_header_name(name: Seq<char>) -> bool {
    &&& 1 <= name.len() <= 64
    &&& forall|i: int| 0 <= i < name.len() ==> is_name_char(#[trigger] name[i])
}

/// Whether `c` may stand in a header value: anything but a control
/// character, and the tab.
pub open spec fn is_value_char(c: char) -> bool {
    (c >= ' ' && c != '\u{7f}') || c == '\t'
}

/// Whether `text` can be the value of a header.
pub open spec fn is_header_text(text: Seq<char>) -> bool {
    forall|i: int| 0 <= i < text.len() ==> is_value_char(#[trigger] text[i])
}

/// The header set without a header.
pub open spec fn no_entries() -> Map<Seq<char>, Seq<char>> {
    Map::empty()
}

/// The header set of a public request.
pub open spec fn public_entries() -> Map<Seq<char>, Seq<char>> {
    no_entries().insert(CONTENT_TYPE@, JSON_CONTENT@)
}

/// The header set of a private request made by `key` with the nonce written
/// as `nonce` and signed by `signature`.
pub open spec fn private_entries(key: Seq<char>, nonce: Seq<char>, signature: Seq<char>) -> Map<
    Seq<char>,
    Seq<char>,
> {
    public_entries().insert(ACCESS_KEY@, key).insert(ACCESS_NONCE@, nonce).insert(
        ACCESS_SIGNATURE@,
        signature,
    )
}

/// The message that a private GET signs: nonce, path and query, in that order.
pub open spec fn get_message(nonce: nat, path: Seq<char>, query: Seq<char>) -> Seq<char> {
    decimal_digits(nonce) + path + query
}

/// The message that a private POST signs: nonce, then the body.
pub open spec fn post_message(nonce: nat, body: Seq<char>) -> Seq<char> {
    decimal_digits(nonce) + body
}

/// Calls `HeaderMap::with_capacity`, which gives an empty map and panics
/// only on a capacity in the tens of thousands.
#[verifier::external_body]
fn empty_header_map(capacity: usize) -> (headers: HeaderMap<HeaderValue>)
    requires
        capacity <= HEADER_LIMIT,
    ensures
        header_entries(headers) == no_entries(),
{
    HeaderMap::with_capacity(capacity)
}

/// Makes the value with `HeaderValue::from_str` and stores it with
/// `HeaderMap::insert`.
///
/// `from_str` refuses a text that holds a control character other than the
/// tab, and nothing else; the map is then left as it was. `insert` puts the
/// value under the name in place of what was there. It takes a name of up to
/// 64 lowercase letters, digits and hyphens as it is written, and panics
/// only when the map already holds tens of thousands of names.
#[verifier::external_body]
fn insert_header(
    headers: &mut HeaderMap<HeaderValue>,
    name: &'static str,
    value: &str,
) -> (r: Result<(), InvalidHeaderValue>)
    requires
        is_header_name(name@),
        header_entries(*old(headers)).dom().finite(),
        header_entries(*old(headers)).len() < HEADER_LIMIT,
    ensures
        r is Ok <==> is_header_text(value@),
        r is Ok ==> header_entries(*final(headers)) == header_entries(*old(headers)).insert(
            name@,
            value@,
        ),
        r is Err ==> header_entries(*final(headers)) == header_entries(*old(headers)),
{
    let value = HeaderValue::from_str(value)?;
    headers.insert(name, value);
    Ok(())
}

/// The names of the four headers are header names, and no two are equal.
pub proof fn lemma_header_names()
    ensures
        is_header_name(CONTENT_TYPE@),
        is_header_name(ACCESS_KEY@),
        is_header_name(ACCESS_NONCE@),
        is_header_name(ACCESS_SIGNATURE@),
        CONTENT_TYPE@ != ACCESS_KEY@,
        CONTENT_TYPE@ != ACCESS_NONCE@,
        CONTENT_TYPE@ != ACCESS_SIGNATURE@,
        ACCESS_KEY@ != ACCESS_NONCE@,
        ACCESS_KEY@ != ACCESS_SIGNATURE@,
        ACCESS_NONCE@ != ACCESS_SIGNATURE@,
{
    reveal_strlit("content-type");
    reveal_strlit("access-key");
    reveal_strlit("access-nonce");
    reveal_strlit("access-signature");
    assert(CONTENT_TYPE@[0] != ACCESS_KEY@[0]);
    assert(ACCESS_KEY@.len() != ACCESS_NONCE@.len());
    assert(ACCESS_KEY@.len() != ACCESS_SIGNATURE@.len());
    assert(ACCESS_NONCE@.len() != ACCESS_SIGNATURE@.len());
}

/// The content type can be the value of a header.
pub proof fn lemma_json_content_is_header_text()
    ensures
        is_header_text(JSON_CONTENT@),
{
    reveal_strlit("application/json; charset=utf-8");
}

/// Digits and lowercase hexadecimal digits can stand in a header value.
pub proof fn lemma_plain_text_is_header_text(text: Seq<char>)
    requires
        crate::digits::all_digits(text) || is_lower_hex(text),
    ensures
        is_header_text(text),
{
    assert forall|i: int| 0 <= i < text.len() implies is_value_char(#[trigger] text[i]) by {
        if crate::digits::all_digits(text) {
            assert(crate::digits::is_digit(text[i]));
        } else {
            assert(crate::signer::is_lower_hex_digit(text[i]));
        }
    }
}

/// What a private header set holds under each of its four names, and that
/// it holds no other.
pub proof fn lemma_private_entries(key: Seq<char>, nonce: Seq<char>, signature: Seq<char>)
    ensures
        private_entries(key, nonce, signature).dom() =~= set![
            CONTENT_TYPE@,
            ACCESS_KEY@,
            ACCESS_NONCE@,
            ACCESS_SIGNATURE@,
        ],
        private_entries(key, nonce, signature)[CONTENT_TYPE@] == JSON_CONTENT@,
        private_entries(key, nonce, signature)[ACCESS_KEY@] == key,
        private_entries(key, nonce, signature)[ACCESS_NONCE@] == nonce,
        private_entries(key, nonce, signature)[ACCESS_SIGNATURE@] == signature,
{
    lemma_header_names();
}

/// A private header set made at a later instant carries another nonce, and
/// a greater one: read as numbers, the two stand as the instants do.
pub proof fn lemma_nonce_strictly_increases(
    key: Seq<char>,
    earlier: nat,
    later: nat,
    signature_a: Seq<char>,
    signature_b: Seq<char>,
)
    requires
        earlier < later,
    ensures
        private_entries(key, decimal_digits(earlier), signature_a)[ACCESS_NONCE@]
            != private_entries(key, decimal_digits(later), signature_b)[ACCESS_NONCE@],
        decimal_value(private_entries(key, decimal_digits(earlier), signature_a)[ACCESS_NONCE@])
            < decimal_value(
            private_entries(key, decimal_digits(later), signature_b)[ACCESS_NONCE@],
        ),
{
    lemma_private_entries(key, decimal_digits(earlier), signature_a);
    lemma_private_entries(key, decimal_digits(later), signature_b);
    lemma_decimal_round_trip(earlier);
    lemma_decimal_round_trip(later);
}

/// The header set of a public request: the content type and nothing else.
pub fn public_request_header() -> (map: HeaderMap<HeaderValue>)
    ensures
        header_entries(map) == public_entries(),
{
    let mut map = empty_header_map(1);
    proof {
        lemma_header_names();
        lemma_json_content_is_header_text();
    }
    match insert_header(&mut map, CONTENT_TYPE, JSON_CONTENT) {
        Ok(()) => map,
        Err(_) => vstd::pervasive::unreached(),
    }
}

/// The header set of a private request, from a nonce and a signature that
/// the caller has made.
///
/// It fails, with a fault of configuration, exactly when the key or the
/// signature cannot be the value of a header.
pub fn private_request_header(key: &str, nonce: u128, signature: &str) -> (r: Result<
    HeaderMap<HeaderValue>,
    ClientError,
>)
    ensures
        r is Ok <==> is_header_text(key@) && is_header_text(signature@),
        r matches Ok(map) ==> header_entries(map) == private_entries(
            key@,
            decimal_digits(nonce as nat),
            signature@,
        ),
        r matches Err(e) ==> e matches ClientError::Configuration,
{
    let mut map = empty_header_map(4);
    proof {
        lemma_header_names();
        lemma_json_content_is_header_text();
        lemma_decimal_digits_shape(nonce as nat);
        lemma_plain_text_is_header_text(decimal_digits(nonce as nat));
    }
    match insert_header(&mut map, CONTENT_TYPE, JSON_CONTENT) {
        Ok(()) => {},
        Err(_) => {
            return vstd::pervasive::unreached();
        },
    }
    if insert_header(&mut map, ACCESS_KEY, key).is_err() {
        return Err(ClientError::Configuration);
    }
    let nonce_text = decimal_string(nonce);
    match insert_header(&mut map, ACCESS_NONCE, nonce_text.as_str()) {
        Ok(()) => {},
        Err(_) => {
            return vstd::pervasive::unreached();
        },
    }
    if insert_header(&mut map, ACCESS_SIGNATURE, signature).is_err() {
        return Err(ClientError::Configuration);
    }
    Ok(map)
}

} // verus!
