use bitbankcc::client::Bitbankcc;
use bitbankcc::endpoint::{Authority, Endpoint, PathParts, ENDPOINT_PRIVATE, ENDPOINT_PUBLIC};
use bitbankcc::error::ClientError;

fn by_http(authority: &str, raw: &str) -> Option<String> {
    http::uri::Builder::new()
        .scheme("https")
        .authority(authority)
        .path_and_query(raw)
        .build()
        .ok()
        .map(|uri| uri.to_string())
}

#[test]
fn hosts_are_the_two_fixed_ones() {
    assert_eq!(ENDPOINT_PUBLIC, "public.bitbank.cc");
    assert_eq!(ENDPOINT_PRIVATE, "api.bitbank.cc");
    assert_eq!(Authority::Public.host_name(), "public.bitbank.cc");
    assert_eq!(Authority::Private.host_name(), "api.bitbank.cc");
}

#[test]
fn public_endpoint_renders_on_the_public_host() {
    let client = Bitbankcc::new();
    let endpoint = client.get_public_uri_builder("/btc_jpy/ticker".to_string()).unwrap();
    assert_eq!(endpoint.authority, Authority::Public);
    assert_eq!(endpoint.path, "/btc_jpy/ticker");
    assert_eq!(endpoint.query, None);
    assert_eq!(endpoint.render(), "https://public.bitbank.cc/btc_jpy/ticker");
}

#[test]
fn private_endpoint_renders_on_the_private_host() {
    let client = Bitbankcc::new();
    let endpoint = client.get_private_uri_builder("/v1/user/assets".to_string()).unwrap();
    assert_eq!(endpoint.authority, Authority::Private);
    assert_eq!(endpoint.render(), "https://api.bitbank.cc/v1/user/assets");
}

#[test]
fn a_query_is_split_off_and_rendered_behind_a_question_mark() {
    let endpoint = Endpoint::resolve(Authority::Private, "/v1/user/spot/order?pair=btc_jpy&order_id=1")
        .unwrap();
    assert_eq!(endpoint.path, "/v1/user/spot/order");
    assert_eq!(endpoint.query.as_deref(), Some("pair=btc_jpy&order_id=1"));
    assert_eq!(
        endpoint.render(),
        "https://api.bitbank.cc/v1/user/spot/order?pair=btc_jpy&order_id=1"
    );
}

#[test]
fn an_empty_query_is_kept() {
    let endpoint = Endpoint::resolve(Authority::Public, "/x?").unwrap();
    assert_eq!(endpoint.path, "/x");
    assert_eq!(endpoint.query.as_deref(), Some(""));
    assert_eq!(endpoint.render(), "https://public.bitbank.cc/x?");
}

#[test]
fn a_malformed_path_is_an_invalid_path() {
    for raw in ["/with space", "/tab\there", "/new\nline", "/é", "/a?b c", "/<x>"] {
        assert_eq!(Endpoint::resolve(Authority::Public, raw), Err(ClientError::InvalidPath));
        assert_eq!(
            Bitbankcc::new().get_private_uri_builder(raw.to_string()),
            Err(ClientError::InvalidPath)
        );
    }
}

#[test]
fn what_follows_a_hash_is_dropped() {
    let endpoint = Endpoint::resolve(Authority::Public, "/x?a=1#frag").unwrap();
    assert_eq!(endpoint.path, "/x");
    assert_eq!(endpoint.query.as_deref(), Some("a=1"));
    let plain = Endpoint::resolve(Authority::Public, "/x#frag").unwrap();
    assert_eq!(plain.render(), "https://public.bitbank.cc/x");
}

#[test]
fn an_empty_path_is_the_root() {
    let endpoint = Endpoint::resolve(Authority::Public, "").unwrap();
    assert_eq!(endpoint.path, "/");
    assert_eq!(endpoint.render(), "https://public.bitbank.cc/");
}

#[test]
fn rendering_agrees_with_the_http_crate() {
    let raws = [
        "/btc_jpy/ticker",
        "/v1/user/assets",
        "/x?a=1",
        "/x?",
        "/x#f",
        "",
        "/",
        "*",
        "/a.b-c_d/E9",
        "/with space",
        "/q?x=%20&y={1}",
        "/p!$&'()*+,;=:@-._~{}|\"Z",
        "/p?q=?/:@!$&'()*+,;=a~|{}",
        "/a<b",
        "/a>b",
        "/a`b",
        "/a?b\"c",
        "/a?b<c",
        "?q",
    ];
    for raw in raws {
        for authority in [Authority::Public, Authority::Private] {
            let ours = Endpoint::resolve(authority, raw).ok().map(|e| e.render());
            assert_eq!(ours, by_http(authority.host_name(), raw));
        }
    }
}

#[test]
fn from_parsed_puts_the_parts_on_the_host() {
    let parts = PathParts { path: "/p".to_string(), query: Some("q".to_string()) };
    let endpoint = Endpoint::from_parsed(Authority::Private, Ok(parts)).unwrap();
    assert_eq!(
        endpoint,
        Endpoint {
            authority: Authority::Private,
            path: "/p".to_string(),
            query: Some("q".to_string())
        }
    );
    let refused = "/a b".parse::<http::uri::PathAndQuery>().unwrap_err();
    assert_eq!(
        Endpoint::from_parsed(Authority::Private, Err(refused)),
        Err(ClientError::InvalidPath)
    );
}

#[test]
fn the_written_form_tells_the_hosts_apart() {
    let public = Endpoint::resolve(Authority::Public, "/same").unwrap().render();
    let private = Endpoint::resolve(Authority::Private, "/same").unwrap().render();
    assert_ne!(public, private);
    assert!(public.starts_with("https://public.bitbank.cc/"));
    assert!(private.starts_with("https://api.bitbank.cc/"));
}

#[test]
fn a_well_formed_path_is_rendered_as_it_was_given() {
    let raws = [
        "/btc_jpy/ticker",
        "/v1/user/spot/order?pair=btc_jpy&order_id=1",
        "/p!$&'()*+,;=:@-._~{}|\"Z",
        "/p?q=?/:@!$&'()*+,;=a~|{}",
        "/x?",
        "*",
    ];
    for raw in raws {
        let public = Endpoint::resolve(Authority::Public, raw).unwrap();
        assert_eq!(public.render(), format!("https://public.bitbank.cc{}", raw));
        let private = Bitbankcc::new().get_private_uri_builder(raw.to_string()).unwrap();
        assert_eq!(private.render(), format!("https://api.bitbank.cc{}", raw));
    }
}

#[test]
fn a_long_path_with_a_query_splits_at_the_question_mark() {
    let path = format!("/{}", "a".repeat(65533));
    let raw = format!("{}?q=1", path);
    let endpoint = Endpoint::resolve(Authority::Public, &raw).unwrap();
    assert_eq!(endpoint.path, path);
    assert_eq!(endpoint.query.as_deref(), Some("q=1"));
    let whole = format!("/{}", "a".repeat(70000));
    let long = Endpoint::resolve(Authority::Public, &whole).unwrap();
    assert_eq!(long.path, whole);
    assert_eq!(long.query, None);
}

#[test]
fn what_no_path_can_hold_is_an_invalid_path() {
    for raw in ["/a b", " /a", "/a<b", "/a>b", "/a`b", "/a\u{7f}", "/\u{0}", "/√", "/a b?q", "/a\tb#f"] {
        assert_eq!(Endpoint::resolve(Authority::Private, raw), Err(ClientError::InvalidPath));
    }
}
