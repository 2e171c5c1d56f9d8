use bitbankcc::decimal::Decimal;
use bitbankcc::error::{ClientError, ExpectedKind, Mismatch, ObservedKind};
use bitbankcc::mapper::{
    conclude, conclude_body, decode_value, find_member, kind_of_shape, kind_of_wire, map_body,
    map_parts, map_response, DomainField, DomainValue, Shape, ShapeField,
};
use bitbankcc::shapes::{
    assets_shape, candlestick_shape, depth_shape, list_of, member, rows, ticker_shape,
};
use bitbankcc::wire::{TransportFailure, WireField, WireResponse, WireValue};

fn text(s: &str) -> WireValue {
    WireValue::Text(s.to_string())
}

fn field(name: &str, value: WireValue) -> WireField {
    WireField { name: name.to_string(), value }
}

fn record(fields: Vec<WireField>) -> WireValue {
    WireValue::Record(fields)
}

fn row(cells: &[&str]) -> WireValue {
    WireValue::List(cells.iter().map(|c| text(c)).collect())
}

fn success(data: WireValue) -> WireResponse {
    WireResponse { success: true, data }
}

fn failure(data: WireValue) -> WireResponse {
    WireResponse { success: false, data }
}

fn decimal(s: &str) -> DomainValue {
    DomainValue::Decimal(Decimal::parse(s).unwrap())
}

fn decode_error(expected: ExpectedKind, observed: ObservedKind) -> ClientError {
    ClientError::Decode { expected, observed }
}

fn ticker_data() -> WireValue {
    record(vec![
        field("sell", text("3700000")),
        field("buy", text("3699999")),
        field("high", text("3750000.5")),
        field("low", text("3600000")),
        field("open", text("3650000")),
        field("last", text("3700001")),
        field("vol", text("123.45670000")),
        field("timestamp", WireValue::Integer(1680000000000)),
    ])
}

#[test]
fn ticker_maps_to_typed_members() {
    let value = map_response(&success(ticker_data()), &ticker_shape()).unwrap();
    let expected = DomainValue::Record(vec![
        DomainField { name: "sell".to_string(), value: decimal("3700000") },
        DomainField { name: "buy".to_string(), value: decimal("3699999") },
        DomainField { name: "high".to_string(), value: decimal("3750000.5") },
        DomainField { name: "low".to_string(), value: decimal("3600000") },
        DomainField { name: "last".to_string(), value: decimal("3700001") },
        DomainField { name: "vol".to_string(), value: decimal("123.45670000") },
        DomainField { name: "timestamp".to_string(), value: DomainValue::Timestamp(1680000000000) },
    ]);
    assert_eq!(value, expected);
}

#[test]
fn decimal_members_keep_every_digit() {
    let value = map_response(&success(ticker_data()), &ticker_shape()).unwrap();
    let vol = value.get("vol").unwrap().as_decimal().unwrap();
    assert_eq!(vol.whole_digits(), "123");
    assert_eq!(vol.fraction_digits(), "45670000");
    assert!(!vol.is_negative());
    assert_eq!(vol.to_text(), "123.45670000");
    let precise = decode_value(
        &Shape::Decimal,
        &text("0.1000000000000000055511151231257827021181583404541015625"),
    )
    .unwrap();
    assert_eq!(
        precise.as_decimal().unwrap().to_text(),
        "0.1000000000000000055511151231257827021181583404541015625"
    );
    assert_eq!(value.get("timestamp").unwrap().as_timestamp(), Some(1680000000000));
}

#[test]
fn exchange_failure_keeps_its_code() {
    let data = record(vec![
        field("code", WireValue::Integer(70012)),
        field("message", text("insufficient funds")),
    ]);
    let r = map_response(&failure(data), &ticker_shape());
    assert_eq!(
        r,
        Err(ClientError::Exchange { code: 70012, message: "insufficient funds".to_string() })
    );
}

#[test]
fn exchange_failure_keeps_any_code() {
    for code in [0i64, 1, 10000, 20001, 70012, -5, i64::MAX, i64::MIN] {
        let data = record(vec![field("code", WireValue::Integer(code))]);
        for shape in [ticker_shape(), assets_shape(), Shape::Flag] {
            let r = map_response(&failure(data_clone(&data)), &shape);
            assert_eq!(r, Err(ClientError::Exchange { code, message: String::new() }));
        }
    }
}

fn data_clone(data: &WireValue) -> WireValue {
    match data {
        WireValue::Null => WireValue::Null,
        WireValue::Flag(b) => WireValue::Flag(*b),
        WireValue::Integer(n) => WireValue::Integer(*n),
        WireValue::Text(t) => WireValue::Text(t.clone()),
        WireValue::List(items) => WireValue::List(items.iter().map(data_clone).collect()),
        WireValue::Record(fields) => WireValue::Record(
            fields.iter().map(|f| field(&f.name, data_clone(&f.value))).collect(),
        ),
    }
}

#[test]
fn a_failure_is_a_failure_even_with_data_of_the_shape() {
    let mut fields = vec![field("code", WireValue::Integer(10000))];
    if let WireValue::Record(more) = ticker_data() {
        fields.extend(more);
    }
    let r = map_response(&failure(record(fields)), &ticker_shape());
    assert_eq!(r, Err(ClientError::Exchange { code: 10000, message: String::new() }));
}

#[test]
fn a_failure_without_a_code_cannot_be_decoded() {
    let no_code = record(vec![field("message", text("oops"))]);
    assert_eq!(
        map_response(&failure(no_code), &ticker_shape()),
        Err(decode_error(ExpectedKind::ErrorPayload, ObservedKind::Record))
    );
    let code_as_text = record(vec![field("code", text("70012"))]);
    assert_eq!(
        map_response(&failure(code_as_text), &ticker_shape()),
        Err(decode_error(ExpectedKind::ErrorPayload, ObservedKind::Record))
    );
    assert_eq!(
        map_response(&failure(WireValue::Null), &ticker_shape()),
        Err(decode_error(ExpectedKind::ErrorPayload, ObservedKind::Null))
    );
    assert_eq!(
        map_response(&failure(text("no")), &ticker_shape()),
        Err(decode_error(ExpectedKind::ErrorPayload, ObservedKind::Text))
    );
}

#[test]
fn a_message_that_is_no_text_reads_as_empty() {
    let data = record(vec![
        field("code", WireValue::Integer(3)),
        field("message", WireValue::Integer(4)),
    ]);
    assert_eq!(
        map_response(&failure(data), &Shape::Text),
        Err(ClientError::Exchange { code: 3, message: String::new() })
    );
}

#[test]
fn a_missing_member_cannot_be_decoded() {
    let data = record(vec![field("sell", text("1")), field("buy", text("2"))]);
    assert_eq!(
        map_response(&success(data), &ticker_shape()),
        Err(decode_error(ExpectedKind::Decimal, ObservedKind::Missing))
    );
    let no_instant = record(vec![
        field("sell", text("1")),
        field("buy", text("2")),
        field("high", text("3")),
        field("low", text("4")),
        field("last", text("5")),
        field("vol", text("6")),
    ]);
    assert_eq!(
        map_response(&success(no_instant), &ticker_shape()),
        Err(decode_error(ExpectedKind::Timestamp, ObservedKind::Missing))
    );
}

#[test]
fn a_member_of_another_kind_cannot_be_decoded() {
    let data = record(vec![field("sell", WireValue::Flag(true))]);
    assert_eq!(
        map_response(&success(data), &ticker_shape()),
        Err(decode_error(ExpectedKind::Decimal, ObservedKind::Flag))
    );
    let not_a_number = record(vec![field("sell", text("12,5"))]);
    assert_eq!(
        map_response(&success(not_a_number), &ticker_shape()),
        Err(decode_error(ExpectedKind::Decimal, ObservedKind::Text))
    );
    assert_eq!(
        map_response(&success(WireValue::List(vec![])), &ticker_shape()),
        Err(decode_error(ExpectedKind::Record, ObservedKind::List))
    );
    assert_eq!(
        map_response(&success(WireValue::Null), &depth_shape()),
        Err(decode_error(ExpectedKind::Record, ObservedKind::Null))
    );
}

#[test]
fn the_first_mismatch_is_reported() {
    let data = record(vec![
        field("sell", text("1")),
        field("buy", WireValue::Null),
        field("high", WireValue::Flag(false)),
    ]);
    assert_eq!(
        decode_value(&ticker_shape(), &data),
        Err(Mismatch { expected: ExpectedKind::Decimal, observed: ObservedKind::Null })
    );
    let list = WireValue::List(vec![text("1"), text("x"), WireValue::Null]);
    assert_eq!(
        decode_value(&list_of(Shape::Decimal), &list),
        Err(Mismatch { expected: ExpectedKind::Decimal, observed: ObservedKind::Text })
    );
}

#[test]
fn depth_maps_to_rows_of_quantities() {
    let data = record(vec![
        field("asks", WireValue::List(vec![row(&["3700000", "0.0100"]), row(&["3700001", "1"])])),
        field("bids", WireValue::List(vec![row(&["3699999", "0.5"])])),
        field("timestamp", text("1680000000000")),
    ]);
    let value = map_response(&success(data), &depth_shape()).unwrap();
    let asks = value.get("asks").unwrap().items().unwrap();
    assert_eq!(asks.len(), 2);
    assert_eq!(asks[0], DomainValue::List(vec![decimal("3700000"), decimal("0.0100")]));
    assert_eq!(asks[1].items().unwrap()[1], decimal("1"));
    let bids = value.get("bids").unwrap().items().unwrap();
    assert_eq!(bids.len(), 1);
    assert_eq!(value.get("timestamp").unwrap().as_timestamp(), Some(1680000000000));
    assert_eq!(value.get("nothing"), None);
}

#[test]
fn candlesticks_map_to_series_of_rows() {
    let bar = WireValue::List(vec![
        text("3650000"),
        text("3750000"),
        text("3600000"),
        text("3700000"),
        text("12.3456"),
        WireValue::Integer(1679961600000),
    ]);
    let series = record(vec![field("type", text("1hour")), field("ohlcv", WireValue::List(vec![bar]))]);
    let data = record(vec![
        field("candlestick", WireValue::List(vec![series])),
        field("timestamp", WireValue::Integer(1680000000000)),
    ]);
    let value = map_response(&success(data), &candlestick_shape()).unwrap();
    let all = value.get("candlestick").unwrap().items().unwrap();
    assert_eq!(all.len(), 1);
    assert_eq!(all[0].get("type").unwrap().as_text(), Some("1hour"));
    let bars = all[0].get("ohlcv").unwrap().items().unwrap();
    let cells = bars[0].items().unwrap();
    assert_eq!(cells.len(), 6);
    assert_eq!(cells[4], decimal("12.3456"));
    assert_eq!(cells[5].as_decimal().unwrap().to_text(), "1679961600000");
}

#[test]
fn assets_map_to_holdings() {
    let jpy = record(vec![
        field("asset", text("jpy")),
        field("amount_precision", WireValue::Integer(4)),
        field("onhand_amount", text("100000.0000")),
        field("locked_amount", text("0.0000")),
        field("free_amount", text("100000.0000")),
        field("stop_deposit", WireValue::Flag(false)),
    ]);
    let data = record(vec![field("assets", WireValue::List(vec![jpy]))]);
    let value = map_response(&success(data), &assets_shape()).unwrap();
    let holdings = value.get("assets").unwrap().items().unwrap();
    assert_eq!(holdings.len(), 1);
    assert_eq!(holdings[0].get("asset").unwrap().as_text(), Some("jpy"));
    assert_eq!(holdings[0].get("amount_precision").unwrap().as_integer(), Some(4));
    assert_eq!(holdings[0].get("free_amount").unwrap(), &decimal("100000.0000"));
    assert_eq!(holdings[0].get("stop_deposit"), None);
}

#[test]
fn leaves_map_by_kind() {
    assert_eq!(decode_value(&Shape::Flag, &WireValue::Flag(true)), Ok(DomainValue::Flag(true)));
    assert_eq!(decode_value(&Shape::Integer, &WireValue::Integer(-3)), Ok(DomainValue::Integer(-3)));
    assert_eq!(decode_value(&Shape::Text, &text("a")), Ok(DomainValue::Text("a".to_string())));
    assert_eq!(DomainValue::Flag(true).as_flag(), Some(true));
    assert_eq!(DomainValue::Flag(true).as_integer(), None);
    assert_eq!(DomainValue::Integer(1).as_text(), None);
    assert_eq!(DomainValue::Integer(1).as_decimal(), None);
    assert_eq!(DomainValue::Integer(1).as_timestamp(), None);
    assert_eq!(DomainValue::Integer(1).items(), None);
    assert_eq!(DomainValue::Integer(1).get("x"), None);
    assert_eq!(
        decode_value(&Shape::Integer, &text("1")),
        Err(Mismatch { expected: ExpectedKind::Integer, observed: ObservedKind::Text })
    );
    assert_eq!(
        decode_value(&Shape::Text, &WireValue::Integer(1)),
        Err(Mismatch { expected: ExpectedKind::Text, observed: ObservedKind::Integer })
    );
    assert_eq!(
        decode_value(&Shape::Flag, &WireValue::Null),
        Err(Mismatch { expected: ExpectedKind::Flag, observed: ObservedKind::Null })
    );
}

#[test]
fn integers_read_as_quantities() {
    let value = decode_value(&Shape::Decimal, &WireValue::Integer(-42)).unwrap();
    let d = value.as_decimal().unwrap();
    assert!(d.is_negative());
    assert_eq!(d.whole_digits(), "42");
    assert_eq!(d.fraction_digits(), "");
    assert_eq!(d.to_text(), "-42");
    let least = Decimal::from_integer(i64::MIN);
    assert_eq!(least.to_text(), "-9223372036854775808");
    assert_eq!(Decimal::from_integer(0).to_text(), "0");
    assert_eq!(Decimal::from_integer(i64::MAX).to_text(), "9223372036854775807");
}

#[test]
fn timestamps_read_from_integers_and_digits() {
    assert_eq!(
        decode_value(&Shape::Timestamp, &WireValue::Integer(0)),
        Ok(DomainValue::Timestamp(0))
    );
    assert_eq!(
        decode_value(&Shape::Timestamp, &text("1680000000000")),
        Ok(DomainValue::Timestamp(1680000000000))
    );
    assert_eq!(
        decode_value(&Shape::Timestamp, &WireValue::Integer(-1)),
        Err(Mismatch { expected: ExpectedKind::Timestamp, observed: ObservedKind::Integer })
    );
    assert_eq!(
        decode_value(&Shape::Timestamp, &text("16800x")),
        Err(Mismatch { expected: ExpectedKind::Timestamp, observed: ObservedKind::Text })
    );
    assert_eq!(
        decode_value(&Shape::Timestamp, &WireValue::Flag(true)),
        Err(Mismatch { expected: ExpectedKind::Timestamp, observed: ObservedKind::Flag })
    );
}

#[test]
fn the_first_member_of_a_name_is_the_one_read() {
    let fields = vec![field("a", text("1")), field("b", text("2")), field("a", text("3"))];
    assert_eq!(find_member(&fields, &"a".to_string()), Some(&text("1")));
    assert_eq!(find_member(&fields, &"b".to_string()), Some(&text("2")));
    assert_eq!(find_member(&fields, &"c".to_string()), None);
    let shape = Shape::Record(vec![member("a", Shape::Decimal)]);
    let value = decode_value(&shape, &record(fields)).unwrap();
    assert_eq!(value.get("a"), Some(&decimal("1")));
}

#[test]
fn an_empty_list_and_an_empty_record_map_to_empty_ones() {
    assert_eq!(decode_value(&rows(), &WireValue::List(vec![])), Ok(DomainValue::List(vec![])));
    assert_eq!(
        decode_value(&Shape::Record(vec![]), &record(vec![field("x", WireValue::Null)])),
        Ok(DomainValue::Record(vec![]))
    );
}

#[test]
fn kinds_are_told() {
    assert_eq!(kind_of_wire(&WireValue::Null), ObservedKind::Null);
    assert_eq!(kind_of_wire(&WireValue::Flag(true)), ObservedKind::Flag);
    assert_eq!(kind_of_wire(&WireValue::Integer(1)), ObservedKind::Integer);
    assert_eq!(kind_of_wire(&text("")), ObservedKind::Text);
    assert_eq!(kind_of_wire(&WireValue::List(vec![])), ObservedKind::List);
    assert_eq!(kind_of_wire(&record(vec![])), ObservedKind::Record);
    assert_eq!(kind_of_shape(&Shape::Decimal), ExpectedKind::Decimal);
    assert_eq!(kind_of_shape(&Shape::Timestamp), ExpectedKind::Timestamp);
    assert_eq!(kind_of_shape(&rows()), ExpectedKind::List);
    assert_eq!(kind_of_shape(&ticker_shape()), ExpectedKind::Record);
    let f: ShapeField = member("n", Shape::Flag);
    assert_eq!(f.name, "n");
    assert_eq!(f.shape, Shape::Flag);
}

#[test]
fn a_failed_transport_is_a_transport_error() {
    let failed = TransportFailure { cause: "connection reset".to_string() };
    assert_eq!(
        conclude(Err(failed), &ticker_shape()),
        Err(ClientError::Transport { cause: "connection reset".to_string() })
    );
}

#[test]
fn a_completed_exchange_is_mapped() {
    let ok = conclude(Ok(success(ticker_data())), &ticker_shape()).unwrap();
    assert_eq!(ok.get("last"), Some(&decimal("3700001")));
    let data = record(vec![field("code", WireValue::Integer(70012)), field("message", text("m"))]);
    assert_eq!(
        conclude(Ok(failure(data)), &ticker_shape()),
        Err(ClientError::Exchange { code: 70012, message: "m".to_string() })
    );
    assert_eq!(
        ClientError::Decode { expected: ExpectedKind::List, observed: ObservedKind::Null }
            .kind_name(),
        "decode"
    );
}

fn envelope(success: WireValue, data: WireValue) -> WireValue {
    record(vec![field("success", success), field("data", data)])
}

#[test]
fn an_envelope_with_success_one_is_a_success() {
    let body = envelope(WireValue::Integer(1), ticker_data());
    let value = map_body(&body, &ticker_shape()).unwrap();
    assert_eq!(value.get("buy"), Some(&decimal("3699999")));
    let flagged = envelope(WireValue::Flag(true), ticker_data());
    assert_eq!(map_body(&flagged, &ticker_shape()).unwrap(), value);
    assert_eq!(map_parts(true, &ticker_data(), &ticker_shape()).unwrap(), value);
}

#[test]
fn an_envelope_with_success_zero_is_a_failure() {
    let data = record(vec![field("code", WireValue::Integer(70012))]);
    let body = envelope(WireValue::Integer(0), data_clone(&data));
    assert_eq!(
        map_body(&body, &ticker_shape()),
        Err(ClientError::Exchange { code: 70012, message: String::new() })
    );
    let flagged = envelope(WireValue::Flag(false), data);
    assert_eq!(
        conclude_body(Ok(flagged), &ticker_shape()),
        Err(ClientError::Exchange { code: 70012, message: String::new() })
    );
}

#[test]
fn what_is_no_envelope_cannot_be_decoded() {
    let no_envelope = |observed| decode_error(ExpectedKind::Envelope, observed);
    assert_eq!(map_body(&text("<html>"), &ticker_shape()), Err(no_envelope(ObservedKind::Text)));
    assert_eq!(map_body(&WireValue::Null, &ticker_shape()), Err(no_envelope(ObservedKind::Null)));
    let no_data = record(vec![field("success", WireValue::Integer(1))]);
    assert_eq!(map_body(&no_data, &ticker_shape()), Err(no_envelope(ObservedKind::Record)));
    let no_success = record(vec![field("data", ticker_data())]);
    assert_eq!(map_body(&no_success, &ticker_shape()), Err(no_envelope(ObservedKind::Record)));
    let two = envelope(WireValue::Integer(2), ticker_data());
    assert_eq!(map_body(&two, &ticker_shape()), Err(no_envelope(ObservedKind::Record)));
    let worded = envelope(text("yes"), ticker_data());
    assert_eq!(map_body(&worded, &ticker_shape()), Err(no_envelope(ObservedKind::Record)));
}

#[test]
fn a_failed_transport_is_a_transport_error_for_a_body_too() {
    for cause in ["timed out", "", "dns: no such host"] {
        let failed = TransportFailure { cause: cause.to_string() };
        assert_eq!(
            conclude_body(Err(failed), &assets_shape()),
            Err(ClientError::Transport { cause: cause.to_string() })
        );
    }
}
