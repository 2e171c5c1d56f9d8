//! The client: credentials, and the requests of each operation.

use crate::clock::{current_time_millis, MAX_CLOCK_MILLIS};
use crate::digits::{decimal_digits, decimal_string};
use crate::endpoint::{
    is_endpoint_outcome, is_plain_path, is_resolution, Authority, Endpoint, EndpointView,
};
use crate::error::ClientError;
use crate::headers::{
    get_message, header_entries, is_header_text, lemma_plain_text_is_header_text,
    post_message, private_entries, private_request_header, public_entries,
    public_request_header,
};
use crate::signer::{is_lower_hex, sign, signature, SIGNATURE_LEN};
use http::header::{HeaderMap, HeaderValue};
use vstd::prelude::*;
use vstd::string::*;
use vstd::utf8::encode_utf8;

verus! {

/// Path of the assets of the account.
pub const ASSETS_PATH: &'static str = "/v1/user/assets";

/// A client of the exchange. It owns the credentials for its whole life and
/// never changes them; without credentials it serves public calls only.
pub struct Bitbankcc {
    key: String,
    secret: String,
}

/// A text is not empty in UTF-8 unless it is empty.
pub proof fn lemma_encode_utf8_nonempty(text: Seq<char>)
    requires
        text.len() > 0,
    ensures
        encode_utf8(text).len() > 0,
{
}

impl Default for Bitbankcc {
    fn default() -> (client: Bitbankcc)
        ensures
            client.key().len() == 0,
            client.secret().len() == 0,
    {
        Bitbankcc { key: String::new(), secret: String::new() }
    }
}

impl Bitbankcc {
    /// The key that identifies the caller.
    pub closed spec fn key(&self) -> Seq<char> {
        self.key@
    }

    /// The secret that signs.
    pub closed spec fn secret(&self) -> Seq<char> {
        self.secret@
    }

    /// Whether the client can sign: whether it has a secret.
    pub open spec fn can_sign(&self) -> bool {
        self.secret().len() > 0
    }

    /// The signature that this client gives `message`.
    pub open spec fn signature_of(&self, message: Seq<char>) -> Seq<char> {
        signature(encode_utf8(self.secret()), encode_utf8(message))
    }

    /// The header set of a private request whose signed message is
    /// `message`, made at `nonce`.
    pub open spec fn signed_entries(&self, nonce: nat, message: Seq<char>) -> Map<
        Seq<char>,
        Seq<char>,
    > {
        private_entries(self.key(), decimal_digits(nonce), self.signature_of(message))
    }

    /// What a private header build gives for a nonce and a message: without
    /// a secret it cannot authenticate, with a key that no header can carry
    /// it is wrongly configured, else it gives the signed header set, whose
    /// signature has 64 characters.
    pub open spec fn private_outcome(
        &self,
        r: Result<HeaderMap<HeaderValue>, ClientError>,
        nonce: nat,
        message: Seq<char>,
    ) -> bool {
        if !self.can_sign() {
            r matches Err(ClientError::Authentication)
        } else if !is_header_text(self.key()) {
            r matches Err(ClientError::Configuration)
        } else {
            &&& r matches Ok(headers) && header_entries(headers) == self.signed_entries(
                nonce,
                message,
            )
            &&& self.signature_of(message).len() == SIGNATURE_LEN
        }
    }

    /// A client without credentials, for public calls.
    pub fn new() -> (client: Bitbankcc)
        ensures
            client.key().len() == 0,
            client.secret().len() == 0,
            !client.can_sign(),
    {
        Bitbankcc { key: String::new(), secret: String::new() }
    }

    /// A client with the given credentials.
    pub fn with_credentials(key: String, secret: String) -> (client: Bitbankcc)
        ensures
            client.key() == key@,
            client.secret() == secret@,
    {
        Bitbankcc { key, secret }
    }

    /// The address of `path` on the public host: of a well-formed path it
    /// is `https://`, the public host and the path as given.
    pub fn get_public_uri_builder(&self, path: String) -> (r: Result<Endpoint, ClientError>)
        ensures
            is_resolution(r, Authority::Public, path@),
            is_plain_path(path@) ==> is_endpoint_outcome(
                r,
                Ok(EndpointView { authority: Authority::Public, path: path@, query: None }),
            ),
    {
        Endpoint::resolve(Authority::Public, path.as_str())
    }

    /// The address of `path` on the private host: of a well-formed path it
    /// is `https://`, the private host and the path as given.
    pub fn get_private_uri_builder(&self, path: String) -> (r: Result<Endpoint, ClientError>)
        ensures
            is_resolution(r, Authority::Private, path@),
            is_plain_path(path@) ==> is_endpoint_outcome(
                r,
                Ok(EndpointView { authority: Authority::Private, path: path@, query: None }),
            ),
    {
        Endpoint::resolve(Authority::Private, path.as_str())
    }

    /// The header set of a public request. It needs no credentials.
    pub fn get_public_request_header(&self) -> (headers: HeaderMap<HeaderValue>)
        ensures
            header_entries(headers) == public_entries(),
    {
        public_request_header()
    }

    /// The header set of a private request from a nonce and a signature
    /// already made. It fails exactly when the key or the signature cannot
    /// stand in a header.
    pub fn make_private_request_header(&self, nonce: u128, sign: String) -> (r: Result<
        HeaderMap<HeaderValue>,
        ClientError,
    >)
        ensures
            r is Ok <==> is_header_text(self.key()) && is_header_text(sign@),
            r matches Ok(headers) ==> header_entries(headers) == private_entries(
                self.key(),
                decimal_digits(nonce as nat),
                sign@,
            ),
            r matches Err(e) ==> e matches ClientError::Configuration,
    {
        private_request_header(self.key.as_str(), nonce, sign.as_str())
    }

    /// Signs `message` with the secret: 64 lowercase hexadecimal digits, the
    /// same for the same secret and message. Without a secret the client is
    /// wrongly configured for signing.
    pub fn create_sign(&self, message: String) -> (r: Result<String, ClientError>)
        ensures
            !self.can_sign() ==> r matches Err(ClientError::Configuration),
            self.can_sign() ==> r is Ok,
            r matches Ok(text) ==> {
                &&& text@ == self.signature_of(message@)
                &&& text@.len() == SIGNATURE_LEN
                &&& is_lower_hex(text@)
            },
    {
        proof {
            if self.secret@.len() > 0 {
                lemma_encode_utf8_nonempty(self.secret@);
            }
        }
        sign(self.secret.as_str().as_bytes(), message.as_str().as_bytes())
    }

    /// The header set of a private request that signs `message` at `nonce`.
    fn signed_request_header(&self, nonce: u128, message: String) -> (r: Result<
        HeaderMap<HeaderValue>,
        ClientError,
    >)
        ensures
            self.private_outcome(r, nonce as nat, message@),
    {
        if self.secret.as_str().is_empty() {
            return Err(ClientError::Authentication);
        }
        match self.create_sign(message) {
            Ok(text) => {
                proof {
                    lemma_plain_text_is_header_text(text@);
                }
                self.make_private_request_header(nonce, text)
            },
            Err(_) => Err(ClientError::Authentication),
        }
    }

    /// The header set of a private GET of `path` and `query` at `nonce`:
    /// the signature is made over nonce, path and query in that order, as
    /// they are given.
    pub fn private_get_request_header_at(&self, nonce: u128, path: &str, query: &str) -> (r:
        Result<HeaderMap<HeaderValue>, ClientError>)
        ensures
            self.private_outcome(r, nonce as nat, get_message(nonce as nat, path@, query@)),
    {
        let mut message = decimal_string(nonce);
        message.append(path);
        message.append(query);
        self.signed_request_header(nonce, message)
    }

    /// The header set of a private POST of `json` at `nonce`: the signature
    /// is made over the nonce and then the body, as it is given.
    pub fn private_post_request_header_at(&self, nonce: u128, json: &str) -> (r: Result<
        HeaderMap<HeaderValue>,
        ClientError,
    >)
        ensures
            self.private_outcome(r, nonce as nat, post_message(nonce as nat, json@)),
    {
        let mut message = decimal_string(nonce);
        message.append(json);
        self.signed_request_header(nonce, message)
    }

    /// The header set of a private GET, with the clock read once for the
    /// nonce.
    pub fn get_private_get_request_header(&self, path: String, query: String) -> (r: Result<
        HeaderMap<HeaderValue>,
        ClientError,
    >)
        ensures
            exists|nonce: nat|
                nonce <= MAX_CLOCK_MILLIS && #[trigger] self.private_outcome(
                    r,
                    nonce,
                    get_message(nonce, path@, query@),
                ),
            !self.can_sign() ==> r matches Err(ClientError::Authentication),
    {
        let nonce = current_time_millis();
        let r = self.private_get_request_header_at(nonce, path.as_str(), query.as_str());
        assert(self.private_outcome(r, nonce as nat, get_message(nonce as nat, path@, query@)));
        r
    }

    /// The header set of a private POST, with the clock read once for the
    /// nonce.
    pub fn get_private_post_request_header(&self, json: String) -> (r: Result<
        HeaderMap<HeaderValue>,
        ClientError,
    >)
        ensures
            exists|nonce: nat|
                nonce <= MAX_CLOCK_MILLIS && #[trigger] self.private_outcome(
                    r,
                    nonce,
                    post_message(nonce, json@),
                ),
            !self.can_sign() ==> r matches Err(ClientError::Authentication),
    {
        let nonce = current_time_millis();
        let r = self.private_post_request_header_at(nonce, json.as_str());
        assert(self.private_outcome(r, nonce as nat, post_message(nonce as nat, json@)));
        r
    }
}

} // verus!
