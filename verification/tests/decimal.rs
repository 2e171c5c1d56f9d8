use bitbankcc::decimal::{parse_timestamp_text, Decimal};

#[test]
fn decimals_parse_into_sign_whole_and_fraction() {
    let d = Decimal::parse("123.456").unwrap();
    assert!(!d.is_negative());
    assert_eq!(d.whole_digits(), "123");
    assert_eq!(d.fraction_digits(), "456");

    let n = Decimal::parse("-0.5").unwrap();
    assert!(n.is_negative());
    assert_eq!(n.whole_digits(), "0");
    assert_eq!(n.fraction_digits(), "5");

    let whole = Decimal::parse("12").unwrap();
    assert_eq!(whole.whole_digits(), "12");
    assert_eq!(whole.fraction_digits(), "");

    let zeros = Decimal::parse("007.100").unwrap();
    assert_eq!(zeros.whole_digits(), "007");
    assert_eq!(zeros.fraction_digits(), "100");
}

#[test]
fn what_is_no_decimal_is_refused() {
    for bad in [
        "", "-", ".", "1.", ".5", "-.5", "1e5", "+1", " 1", "1 ", "1.2.3", "1..2", "--1", "1-",
        "0x10", "１２", "1.５", "é", "1,5", "NaN", "-1.2-",
    ] {
        assert_eq!(Decimal::parse(bad), None);
    }
}

#[test]
fn decimals_are_written_as_they_were_read() {
    for text in [
        "0",
        "-0",
        "1",
        "-1",
        "0.0",
        "123.456",
        "-0.00010000",
        "3700000",
        "99999999999999999999999999999999999999999999.000000000000000000000000000001",
    ] {
        assert_eq!(Decimal::parse(text).unwrap().to_text(), text);
    }
}

#[test]
fn equal_texts_give_equal_decimals() {
    assert_eq!(Decimal::parse("1.50"), Decimal::parse("1.50"));
    assert_ne!(Decimal::parse("1.50"), Decimal::parse("1.5"));
    assert_eq!(Decimal::parse("42"), Some(Decimal::from_integer(42)));
    assert_eq!(Decimal::parse("-42"), Some(Decimal::from_integer(-42)));
}

#[test]
fn timestamps_parse_from_digits() {
    assert_eq!(parse_timestamp_text("0"), Some(0));
    assert_eq!(parse_timestamp_text("1680000000000"), Some(1680000000000));
    assert_eq!(parse_timestamp_text("0001"), Some(1));
    assert_eq!(parse_timestamp_text("18446744073709551615"), Some(u64::MAX));
}

#[test]
fn what_is_no_timestamp_is_refused() {
    for bad in [
        "",
        "-1",
        "1.0",
        "12a",
        "a12",
        " 1",
        "18446744073709551616",
        "18446744073709551620",
        "99999999999999999999999",
        "１２",
    ] {
        assert_eq!(parse_timestamp_text(bad), None);
    }
}
