//! Addresses on the two hosts of the API.

use crate::error::ClientError;
use http::uri::{InvalidUri, PathAndQuery};
use vstd::prelude::*;
use vstd::string::*;

verus! {

#[verifier::external_type_specification]
#[verifier::external_body]
pub struct ExInvalidUri(InvalidUri);

/// The scheme of every address.
pub const SCHEME: &'static str = "https";

/// What stands between scheme and host.
pub const SCHEME_SEPARATOR: &'static str = "://";

/// What stands before a query.
pub const QUERY_MARK: &'static str = "?";

/// Host of the public API.
pub const ENDPOINT_PUBLIC: &'static str = "public.bitbank.cc";

/// Host of the private API.
pub const ENDPOINT_PRIVATE: &'static str = "api.bitbank.cc";

/// Which of the two hosts an address is on.
#[derive(Clone, Copy, Debug, PartialEq, Eq, Structural)]
pub enum Authority {
    Public,
    Private,
}

impl Authority {
    /// The host's name.
    pub open spec fn host(self) -> Seq<char> {
        match self {
            Authority::Public => ENDPOINT_PUBLIC@,
            Authority::Private => ENDPOINT_PRIVATE@,
        }
    }

    /// The host's name.
    pub fn host_name(self) -> (name: &'static str)
        ensures
            name@ == self.host(),
    {
        match self {
            Authority::Public => ENDPOINT_PUBLIC,
            Authority::Private => ENDPOINT_PRIVATE,
        }
    }
}

/// A path and, where there is one, the query behind it.
#[derive(Clone, Debug, PartialEq, Eq)]
pub struct PathParts {
    pub path: String,
    pub query: Option<String>,
}

/// A `PathParts` as plain text.
pub struct PathPartsView {
    pub path: Seq<char>,
    pub query: Option<Seq<char>>,
}

/// The text of an optional string.
pub open spec fn option_text(text: Option<String>) -> Option<Seq<char>> {
    match text {
        Some(t) => Some(t@),
        None => None,
    }
}

impl View for PathParts {
    type V = PathPartsView;

    open spec fn view(&self) -> PathPartsView {
        PathPartsView { path: self.path@, query: option_text(self.query) }
    }
}

/// An address: `https`, one of the two hosts, a path and perhaps a query.
#[derive(Clone, Debug, PartialEq, Eq)]
pub struct Endpoint {
    pub authority: Authority,
    pub path: String,
    pub query: Option<String>,
}

/// An `Endpoint` as plain text.
pub struct EndpointView {
    pub authority: Authority,
    pub path: Seq<char>,
    pub query: Option<Seq<char>>,
}

impl View for Endpoint {
    type V = EndpointView;

    open spec fn view(&self) -> EndpointView {
        EndpointView {
            authority: self.authority,
            path: self.path@,
            query: option_text(self.query),
        }
    }
}

impl EndpointView {
    /// The address written out: scheme, host, path, and the query behind a
    /// question mark where there is one.
    pub open spec fn url(self) -> Seq<char> {
        SCHEME@ + SCHEME_SEPARATOR@ + self.authority.host() + self.path + match self.query {
            Some(q) => QUERY_MARK@ + q,
            None => Seq::<char>::empty(),
        }
    }
}

/// How the http crate splits a path with its query, or `None` where it
/// refuses the text.
pub uninterp spec fn path_and_query_parts(raw: Seq<char>) -> Option<PathPartsView>;

/// Whether `c` is a letter or digit of ASCII, or one of `/`, `_`, `-`, `.`.
pub open spec fn is_plain_path_char(c: char) -> bool {
    ||| 'a' <= c <= 'z'
    ||| 'A' <= c <= 'Z'
    ||| '0' <= c <= '9'
    ||| c == '/'
    ||| c == '_'
    ||| c == '-'
    ||| c == '.'
}

/// Whether `text` holds only letters and digits of ASCII, `/`, `_`, `-`
/// and `.`.
pub open spec fn is_plain_text(text: Seq<char>) -> bool {
    forall|i: int| 0 <= i < text.len() ==> is_plain_path_char(#[trigger] text[i])
}

/// Whether `raw` is a path without a query, made of characters that need no
/// escaping.
pub open spec fn is_plain_path(raw: Seq<char>) -> bool {
    raw.len() >= 1 && is_plain_text(raw)
}

/// Plain texts joined are plain.
pub proof fn lemma_plain_text_concat(a: Seq<char>, b: Seq<char>)
    requires
        is_plain_text(a),
        is_plain_text(b),
    ensures
        is_plain_text(a + b),
{
    assert forall|i: int| 0 <= i < (a + b).len() implies is_plain_path_char(
        #[trigger] (a + b)[i],
    ) by {
        if i < a.len() {
            assert((a + b)[i] == a[i]);
        } else {
            assert((a + b)[i] == b[i - a.len()]);
        }
    }
}

/// Whether the http crate takes `c` in a path: `!`, `"`, `$` to `;`, `=`,
/// `@` to `_`, and `a` to `~`. It takes neither a blank nor `#`, `<`, `>`,
/// `?`, a backquote, a control character or anything outside ASCII.
pub open spec fn is_path_char(c: char) -> bool {
    ||| c == '!'
    ||| c == '"'
    ||| '$' <= c <= ';'
    ||| c == '='
    ||| '@' <= c <= '_'
    ||| 'a' <= c <= '~'
}

/// Whether the http crate takes `c` in a query: `!`, `$` to `;`, `=`, and
/// `?` to `~`.
pub open spec fn is_query_char(c: char) -> bool {
    ||| c == '!'
    ||| '$' <= c <= ';'
    ||| c == '='
    ||| '?' <= c <= '~'
}

/// Whether `text` holds only characters of a path.
pub open spec fn is_path_text(text: Seq<char>) -> bool {
    forall|i: int| 0 <= i < text.len() ==> is_path_char(#[trigger] text[i])
}

/// Whether `text` holds only characters of a query.
pub open spec fn is_query_text(text: Seq<char>) -> bool {
    forall|i: int| 0 <= i < text.len() ==> is_query_char(#[trigger] text[i])
}

/// Whether `raw` is a path without a query: not empty, and of characters
/// of a path only.
pub open spec fn is_whole_path(raw: Seq<char>) -> bool {
    raw.len() >= 1 && is_path_text(raw)
}

/// The http crate keeps the place of the `?` in 16 bits, of which the
/// greatest value stands for "no query".
pub const QUERY_PLACE_LIMIT: usize = 65535;

/// Whether `raw` is a path and a query with the `?` between them at `k`:
/// a path of at least one character before it, a query behind it.
pub open spec fn is_split_at(raw: Seq<char>, k: int) -> bool {
    &&& 1 <= k < raw.len()
    &&& k < QUERY_PLACE_LIMIT
    &&& raw[k] == '?'
    &&& is_path_text(raw.take(k))
    &&& is_query_text(raw.skip(k + 1))
}

/// Whether the first character of `raw` that is no character of a path
/// stands at `i` and neither begins a query nor cuts the text off.
pub open spec fn is_refused_at(raw: Seq<char>, i: int) -> bool {
    &&& 0 <= i < raw.len()
    &&& is_path_text(raw.take(i))
    &&& !is_path_char(raw[i])
    &&& raw[i] != '?'
    &&& raw[i] != '#'
}

/// Whether `raw` is a path of at least one character, alone or followed by
/// `?` and a query.
pub open spec fn is_well_formed(raw: Seq<char>) -> bool {
    is_whole_path(raw) || exists|k: int| #[trigger] is_split_at(raw, k)
}

/// The parts of a plain path: the path itself, and no query.
pub open spec fn plain_parts(raw: Seq<char>) -> PathPartsView {
    PathPartsView { path: raw, query: None }
}

/// The parts of a text with its `?` at `k`: what stands before it, and what
/// stands behind it.
pub open spec fn parts_at(raw: Seq<char>, k: int) -> PathPartsView {
    PathPartsView { path: raw.take(k), query: Some(raw.skip(k + 1)) }
}

/// A plain path is a path without a query.
pub proof fn lemma_plain_is_whole(raw: Seq<char>)
    requires
        is_plain_path(raw),
    ensures
        is_whole_path(raw),
{
    assert forall|i: int| 0 <= i < raw.len() implies is_path_char(#[trigger] raw[i]) by {
        assert(is_plain_path_char(raw[i]));
    }
}

/// What a parse has given, as plain text; `None` for a refusal.
pub open spec fn parsed_parts(parsed: Result<PathParts, InvalidUri>) -> Option<PathPartsView> {
    match parsed {
        Ok(parts) => Some(parts@),
        Err(_) => None,
    }
}

/// Parses with `PathAndQuery::try_from` of the http crate and reads the
/// parts with its `path` and `query`.
///
/// The parser goes through the text once. It takes the characters of a
/// path up to the first `?`, then those of a query, and drops what follows
/// a `#`; any other character makes it refuse the text. So a text of path
/// characters alone, if not empty, passes whole as the path with no query;
/// a path, `?` and a query split at the `?`; and a text whose first
/// character that is no path character is neither `?` nor `#` is refused.
#[verifier::external_body]
fn split_path_and_query(raw: &str) -> (r: Result<PathParts, InvalidUri>)
    ensures
        parsed_parts(r) == path_and_query_parts(raw@),
        is_whole_path(raw@) ==> parsed_parts(r) == Some(plain_parts(raw@)),
        forall|k: int| #[trigger] is_split_at(raw@, k) ==> parsed_parts(r) == Some(parts_at(raw@, k)),
        forall|i: int| #[trigger] is_refused_at(raw@, i) ==> parsed_parts(r) is None,
{
    let parsed = PathAndQuery::try_from(raw)?;
    Ok(PathParts { path: parsed.path().to_string(), query: parsed.query().map(String::from) })
}

/// The address that a parsed path gives on a host, or the error of a path
/// that did not parse.
pub open spec fn endpoint_of(authority: Authority, parts: Option<PathPartsView>) -> Result<
    EndpointView,
    ClientError,
> {
    match parts {
        Some(p) => Ok(EndpointView { authority, path: p.path, query: p.query }),
        None => Err(ClientError::InvalidPath),
    }
}

/// The address of `raw` on a host, written out: scheme, host, and `raw` as
/// it is.
pub open spec fn address(authority: Authority, raw: Seq<char>) -> Seq<char> {
    SCHEME@ + SCHEME_SEPARATOR@ + authority.host() + raw
}

/// Whether `r` is what resolving `raw` on a host comes to.
///
/// The address is made exactly when the http crate takes `raw` as a path
/// and query, and has the parts into which it splits `raw`. A path without a
/// query stands in it unchanged, a path with a query is split at the `?`,
/// and either way the address written out is scheme, host and `raw` itself.
/// A text whose path holds something that no path can hold is an invalid
/// path.
pub open spec fn is_resolution(
    r: Result<Endpoint, ClientError>,
    authority: Authority,
    raw: Seq<char>,
) -> bool {
    &&& is_endpoint_outcome(r, endpoint_of(authority, path_and_query_parts(raw)))
    &&& is_whole_path(raw) ==> is_endpoint_outcome(
        r,
        Ok(EndpointView { authority, path: raw, query: None }),
    )
    &&& forall|k: int| #[trigger]
        is_split_at(raw, k) ==> is_endpoint_outcome(
            r,
            Ok(EndpointView { authority, path: raw.take(k), query: Some(raw.skip(k + 1)) }),
        )
    &&& forall|i: int| #[trigger]
        is_refused_at(raw, i) ==> is_endpoint_outcome(r, Err(ClientError::InvalidPath))
    &&& is_well_formed(raw) ==> r is Ok && r->Ok_0@.url() == address(authority, raw)
}

/// Whether `r` is the outcome `expected`, the address taken as plain text.
pub open spec fn is_endpoint_outcome(
    r: Result<Endpoint, ClientError>,
    expected: Result<EndpointView, ClientError>,
) -> bool {
    match expected {
        Ok(view) => r matches Ok(endpoint) && endpoint@ == view,
        Err(_) => r matches Err(ClientError::InvalidPath),
    }
}

impl Endpoint {
    /// Puts a parsed path on a host; a path that did not parse is an
    /// invalid path.
    pub fn from_parsed(authority: Authority, parsed: Result<PathParts, InvalidUri>) -> (r: Result<
        Endpoint,
        ClientError,
    >)
        ensures
            is_endpoint_outcome(r, endpoint_of(authority, parsed_parts(parsed))),
    {
        match parsed {
            Ok(parts) => Ok(Endpoint { authority, path: parts.path, query: parts.query }),
            Err(_) => Err(ClientError::InvalidPath),
        }
    }

    /// The address of `raw`, a path with or without a query, on a host.
    ///
    /// It is made exactly when the http crate takes `raw` as a path and
    /// query. A well-formed `raw` always gives an address, which written out
    /// ends in `raw` as it was given; a plain path is well formed.
    pub fn resolve(authority: Authority, raw: &str) -> (r: Result<Endpoint, ClientError>)
        ensures
            is_resolution(r, authority, raw@),
            is_plain_path(raw@) ==> is_endpoint_outcome(
                r,
                Ok(EndpointView { authority, path: raw@, query: None }),
            ),
    {
        let r = Endpoint::from_parsed(authority, split_path_and_query(raw));
        proof {
            if is_plain_path(raw@) {
                lemma_plain_is_whole(raw@);
            }
            if is_whole_path(raw@) {
                lemma_plain_url(authority, raw@);
            } else if is_well_formed(raw@) {
                let k = choose|k: int| #[trigger] is_split_at(raw@, k);
                lemma_split_url(authority, raw@, k);
            }
        }
        r
    }

    /// Writes the address out.
    pub fn render(&self) -> (text: String)
        ensures
            text@ == self@.url(),
    {
        let mut text = String::new();
        text.append(SCHEME);
        text.append(SCHEME_SEPARATOR);
        text.append(self.authority.host_name());
        text.append(self.path.as_str());
        match &self.query {
            Some(q) => {
                text.append(QUERY_MARK);
                text.append(q.as_str());
                assert(text@ =~= self@.url());
            },
            None => {
                assert(text@ =~= self@.url());
            },
        }
        text
    }
}

/// The two hosts differ, from their first character on.
pub proof fn lemma_hosts_differ()
    ensures
        Authority::Public.host().len() > 0,
        Authority::Private.host().len() > 0,
        Authority::Public.host()[0] != Authority::Private.host()[0],
{
    reveal_strlit("public.bitbank.cc");
    reveal_strlit("api.bitbank.cc");
}

/// The address of a plain path is scheme, host and the path itself.
pub proof fn lemma_plain_url(authority: Authority, path: Seq<char>)
    ensures
        (EndpointView { authority, path, query: None }).url() == address(authority, path),
{
    let endpoint = EndpointView { authority, path, query: None };
    assert(endpoint.url() =~= address(authority, path));
}

/// The address of a path and query is scheme, host and the two with the
/// `?` between them, as they stood in the text that was split.
pub proof fn lemma_split_url(authority: Authority, raw: Seq<char>, k: int)
    requires
        0 <= k < raw.len(),
        raw[k] == '?',
    ensures
        (EndpointView { authority, path: raw.take(k), query: Some(raw.skip(k + 1)) }).url()
            == address(authority, raw),
{
    reveal_strlit("?");
    let endpoint = EndpointView { authority, path: raw.take(k), query: Some(raw.skip(k + 1)) };
    assert(QUERY_MARK@ =~= seq!['?']);
    assert(raw.take(k) + (QUERY_MARK@ + raw.skip(k + 1)) =~= raw);
    assert(endpoint.url() =~= SCHEME@ + SCHEME_SEPARATOR@ + authority.host() + (raw.take(k) + (
        QUERY_MARK@ + raw.skip(k + 1))));
}

/// An address written out begins with `https://` and the name of its own
/// host.
pub proof fn lemma_url_prefix(endpoint: EndpointView)
    ensures
        (SCHEME@ + SCHEME_SEPARATOR@ + endpoint.authority.host()).is_prefix_of(endpoint.url()),
        SCHEME@ + SCHEME_SEPARATOR@ =~= seq!['h', 't', 't', 'p', 's', ':', '/', '/'],
{
    reveal_strlit("https");
    reveal_strlit("://");
}

/// Two addresses that are written alike are on the same host: the written
/// form never puts a request for one host on the other.
pub proof fn lemma_url_tells_authority(a: EndpointView, b: EndpointView)
    requires
        a.url() == b.url(),
    ensures
        a.authority == b.authority,
{
    lemma_hosts_differ();
    lemma_url_prefix(a);
    lemma_url_prefix(b);
    let head = SCHEME@ + SCHEME_SEPARATOR@;
    assert(head.len() == 8);
    assert(a.url()[8] == (head + a.authority.host())[8]);
    assert(b.url()[8] == (head + b.authority.host())[8]);
    assert((head + a.authority.host())[8] == a.authority.host()[0]);
    assert((head + b.authority.host())[8] == b.authority.host()[0]);
}

} // verus!
