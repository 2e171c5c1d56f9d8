//! The request of each operation, ready for the transport.

use crate::client::{Bitbankcc, ASSETS_PATH};
use crate::clock::{current_time_millis, MAX_CLOCK_MILLIS};
use crate::signer::SIGNATURE_LEN;
use crate::endpoint::{
    is_plain_path, path_and_query_parts, Authority, Endpoint, EndpointView,
};
use crate::error::ClientError;
use crate::headers::{get_message, header_entries, is_header_text, public_entries};
use crate::market::{
    candlestick_path, depth_path, make_candlestick_path, make_depth_path, make_ticker_path,
    ticker_path, CandleType, CurrencyPair,
};
use http::header::{HeaderMap, HeaderValue};
use vstd::prelude::*;
use vstd::string::*;

verus! {

/// How a request is made.
#[derive(Clone, Copy, Debug, PartialEq, Eq, Structural)]
pub enum Method {
    Get,
    Post,
}

/// All that the transport needs for one exchange.
#[derive(Debug)]
pub struct Request {
    pub method: Method,
    pub endpoint: Endpoint,
    pub headers: HeaderMap<HeaderValue>,
    pub body: Option<String>,
}

/// Whether `request` is a GET of `endpoint` with the header set `entries`
/// and without a body.
pub open spec fn is_get_of(
    request: Request,
    endpoint: EndpointView,
    entries: Map<Seq<char>, Seq<char>>,
) -> bool {
    &&& request.method == Method::Get
    &&& request.endpoint@ == endpoint
    &&& header_entries(request.headers) == entries
    &&& request.body is None
}

/// What the request of a public operation on `path` comes to.
///
/// It is a GET on the public host with the public header set, of the path
/// and query as the http crate splits them; a path that it refuses is an
/// invalid path. A plain path is never refused and stands in the address as
/// it is.
pub open spec fn public_get_outcome(r: Result<Request, ClientError>, path: Seq<char>) -> bool {
    &&& match path_and_query_parts(path) {
        Some(parts) => r matches Ok(request) && is_get_of(
            request,
            EndpointView { authority: Authority::Public, path: parts.path, query: parts.query },
            public_entries(),
        ),
        None => r matches Err(ClientError::InvalidPath),
    }
    &&& is_plain_path(path) ==> (r matches Ok(request) && is_get_of(
        request,
        EndpointView { authority: Authority::Public, path, query: None },
        public_entries(),
    ))
}

impl Bitbankcc {
    /// What the request for the assets comes to at `nonce`.
    ///
    /// Without a secret the client cannot authenticate; with a key that no
    /// header can carry it is wrongly configured. Else the request is a GET
    /// of the assets' path on the private host, signed over the nonce and
    /// that path with a signature of 64 characters.
    pub open spec fn assets_outcome(&self, r: Result<Request, ClientError>, nonce: nat) -> bool {
        if !self.can_sign() {
            r matches Err(ClientError::Authentication)
        } else if !is_header_text(self.key()) {
            r matches Err(ClientError::Configuration)
        } else {
            &&& r matches Ok(request) && is_get_of(
                request,
                EndpointView { authority: Authority::Private, path: ASSETS_PATH@, query: None },
                self.signed_entries(nonce, get_message(nonce, ASSETS_PATH@, Seq::empty())),
            )
            &&& self.signature_of(get_message(nonce, ASSETS_PATH@, Seq::empty())).len()
                == SIGNATURE_LEN
        }
    }

    /// The request of a public operation on `path`.
    fn public_get(&self, path: String) -> (r: Result<Request, ClientError>)
        ensures
            public_get_outcome(r, path@),
    {
        match self.get_public_uri_builder(path) {
            Ok(endpoint) => {
                let headers = self.get_public_request_header();
                Ok(Request { method: Method::Get, endpoint, headers, body: None })
            },
            Err(e) => Err(e),
        }
    }

    /// The request for the ticker of `pair`.
    pub fn ticker_request(&self, pair: &CurrencyPair) -> (r: Result<Request, ClientError>)
        ensures
            public_get_outcome(r, ticker_path(pair.text())),
    {
        self.public_get(make_ticker_path(pair))
    }

    /// The request for the order book of `pair`.
    pub fn depth_request(&self, pair: &CurrencyPair) -> (r: Result<Request, ClientError>)
        ensures
            public_get_outcome(r, depth_path(pair.text())),
    {
        self.public_get(make_depth_path(pair))
    }

    /// The request for the candlesticks of `pair` at the interval `candle`
    /// for the date `yyyymmdd`.
    pub fn candlestick_request(&self, pair: &CurrencyPair, candle: CandleType, yyyymmdd: &str) -> (r:
        Result<Request, ClientError>)
        ensures
            public_get_outcome(r, candlestick_path(pair.text(), candle.text(), yyyymmdd@)),
    {
        self.public_get(make_candlestick_path(pair, candle, yyyymmdd))
    }

    /// The request for the assets of the account, made at `nonce`.
    pub fn assets_request_at(&self, nonce: u128) -> (r: Result<Request, ClientError>)
        ensures
            self.assets_outcome(r, nonce as nat),
    {
        proof {
            reveal_strlit("/v1/user/assets");
            reveal_strlit("");
            assert(""@ =~= Seq::<char>::empty());
        }
        let endpoint = match self.get_private_uri_builder(ASSETS_PATH.to_owned()) {
            Ok(endpoint) => endpoint,
            Err(e) => {
                return vstd::pervasive::unreached();
            },
        };
        match self.private_get_request_header_at(nonce, ASSETS_PATH, "") {
            Ok(headers) => Ok(Request { method: Method::Get, endpoint, headers, body: None }),
            Err(e) => Err(e),
        }
    }

    /// The request for the assets of the account, with the clock read once
    /// for the nonce.
    pub fn assets_request(&self) -> (r: Result<Request, ClientError>)
        ensures
            exists|nonce: nat| nonce <= MAX_CLOCK_MILLIS && #[trigger] self.assets_outcome(r, nonce),
            !self.can_sign() ==> r matches Err(ClientError::Authentication),
    {
        let nonce = current_time_millis();
        let r = self.assets_request_at(nonce);
        assert(self.assets_outcome(r, nonce as nat));
        r
    }
}

} // verus!
