use bitbankcc::client::Bitbankcc;
use bitbankcc::clock::{current_time_millis, millis_or_zero, MAX_CLOCK_MILLIS};
use bitbankcc::digits::decimal_string;
use bitbankcc::error::ClientError;
use bitbankcc::signer::{sign, SIGNATURE_LEN};

const GOLDEN: &str = "0a324baf4132f736368d9d3c289d0d7c5b828bf8c92c2081c475c4b6211831d6";

#[test]
fn sign_reproduces_the_golden_digest() {
    let text = sign(b"abc", b"1680000000000/v1/user/assets").unwrap();
    assert_eq!(text, GOLDEN);
}

#[test]
fn sign_matches_the_rfc_4231_vector() {
    let text = sign(b"Jefe", b"what do ya want for nothing?").unwrap();
    assert_eq!(text, "5bdcc146bf60754e6a042426089575c75a003f089d2739839dec58b964ec3843");
}

#[test]
fn sign_takes_an_empty_message() {
    let text = sign(b"abc", b"").unwrap();
    assert_eq!(text, "e2636077506729a8f61aff2441332e40e844a8ad44489efd80210ea6d1f51088");
}

#[test]
fn sign_is_deterministic() {
    let first = sign(b"secret", b"message").unwrap();
    let second = sign(b"secret", b"message").unwrap();
    assert_eq!(first, second);
    let other = sign(b"secret", b"messagf").unwrap();
    assert_ne!(first, other);
}

#[test]
fn sign_gives_sixty_four_lowercase_hex_digits() {
    assert_eq!(SIGNATURE_LEN, 64);
    let long_secret = vec![7u8; 200];
    for (secret, message) in [
        (&b"a"[..], &b""[..]),
        (&b"abc"[..], &b"1680000000000/v1/user/assets"[..]),
        (&long_secret[..], &b"x"[..]),
    ] {
        let text = sign(secret, message).unwrap();
        assert_eq!(text.len(), 64);
        assert!(text.chars().all(|c| matches!(c, '0'..='9' | 'a'..='f')));
    }
}

#[test]
fn sign_refuses_an_empty_secret() {
    assert_eq!(sign(b"", b"anything"), Err(ClientError::Configuration));
    assert_eq!(sign(b"", b""), Err(ClientError::Configuration));
}

#[test]
fn create_sign_signs_with_the_clients_secret() {
    let client = Bitbankcc::with_credentials("key".to_string(), "abc".to_string());
    let text = client.create_sign("1680000000000/v1/user/assets".to_string()).unwrap();
    assert_eq!(text, GOLDEN);
}

#[test]
fn create_sign_signs_the_utf8_bytes() {
    let client = Bitbankcc::with_credentials("key".to_string(), "秘密".to_string());
    let text = client.create_sign("1円".to_string()).unwrap();
    assert_eq!(text, "31647648a2c5a7c1c155078c270c0b20e45fb742f6ca386c4f42f24acf003797");
}

#[test]
fn create_sign_without_a_secret_is_a_fault_of_configuration() {
    let client = Bitbankcc::new();
    assert_eq!(client.create_sign("m".to_string()), Err(ClientError::Configuration));
    let keyed = Bitbankcc::with_credentials("key".to_string(), String::new());
    assert_eq!(keyed.create_sign("m".to_string()), Err(ClientError::Configuration));
}

#[test]
fn default_client_has_no_credentials() {
    let client = Bitbankcc::default();
    assert_eq!(client.create_sign("m".to_string()), Err(ClientError::Configuration));
}

#[test]
fn decimal_string_writes_numbers_as_to_string_does() {
    for n in [0u128, 1, 9, 10, 11, 99, 100, 101, 1680000000000, u64::MAX as u128, u128::MAX] {
        assert_eq!(decimal_string(n), n.to_string());
    }
    assert_eq!(decimal_string(1680000000000), "1680000000000");
    assert_eq!(decimal_string(u128::MAX), "340282366920938463463374607431768211455");
}

#[test]
fn push_decimal_appends() {
    let mut text = String::from("n=");
    bitbankcc::digits::push_decimal(4207, &mut text);
    assert_eq!(text, "n=4207");
}

#[test]
fn the_clock_reads_after_the_year_2020() {
    let now = current_time_millis();
    assert!(now > 1_577_836_800_000);
    let later = current_time_millis();
    assert!(later + 60_000 > now);
}

#[test]
fn error_kinds_have_names() {
    assert_eq!(ClientError::Configuration.kind_name(), "configuration");
    assert_eq!(ClientError::Authentication.kind_name(), "authentication");
    assert_eq!(ClientError::InvalidPath.kind_name(), "invalid path");
    assert_eq!(ClientError::Transport { cause: "x".to_string() }.kind_name(), "transport");
    assert_eq!(
        ClientError::Exchange { code: 1, message: String::new() }.kind_name(),
        "exchange"
    );
}

#[test]
fn a_clock_before_the_epoch_reads_as_zero() {
    assert_eq!(millis_or_zero(None), 0);
    assert_eq!(millis_or_zero(Some(0)), 0);
    assert_eq!(millis_or_zero(Some(1680000000000)), 1680000000000);
    assert_eq!(millis_or_zero(Some(u128::MAX)), u128::MAX);
}

#[test]
fn the_clock_reads_no_more_than_a_span_of_time_holds() {
    assert_eq!(MAX_CLOCK_MILLIS, u64::MAX as u128 * 1000 + 999);
    assert_eq!(std::time::Duration::MAX.as_millis(), MAX_CLOCK_MILLIS);
    assert!(current_time_millis() <= MAX_CLOCK_MILLIS);
}
