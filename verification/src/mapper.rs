//! From an answer of the exchange to typed values: one mapping, told by a
//! shape what to expect.

use crate::decimal::{
    lemma_parse_decimal_exact, parse_decimal, parse_timestamp, parse_timestamp_text, Decimal,
    DecimalView,
};
use crate::digits::{decimal_digits, lemma_decimal_digits_shape};
use crate::error::{ClientError, ClientErrorView, ExpectedKind, Mismatch, ObservedKind};
use crate::wire::{
    lemma_wire_list_view, lemma_wire_record_view, wire_list_view, wire_record_view,
    TransportFailure, WireField, WireResponse, WireValue, WireValueView,
};
use vstd::prelude::*;
use vstd::string::*;

verus! {

/// What an answer is expected to look like.
#[derive(Debug, PartialEq, Eq)]
pub enum Shape {
    /// A quantity: a decimal number as text, or an integer.
    Decimal,
    /// Milliseconds since the epoch: an integer that is not negative, or
    /// digits as text.
    Timestamp,
    Integer,
    Text,
    Flag,
    /// A list whose values all have one shape.
    List(Box<Shape>),
    /// A record with at least these members.
    Record(Vec<ShapeField>),
}

/// A member that a record is expected to have.
#[derive(Debug, PartialEq, Eq)]
pub struct ShapeField {
    pub name: String,
    pub shape: Shape,
}

/// A `Shape` as plain data.
pub enum ShapeView {
    Decimal,
    Timestamp,
    Integer,
    Text,
    Flag,
    List(Box<ShapeView>),
    Record(Seq<(Seq<char>, ShapeView)>),
}

impl Shape {
    /// The shape as plain data.
    pub open spec fn view(&self) -> ShapeView
        decreases self,
    {
        match self {
            Shape::Decimal => ShapeView::Decimal,
            Shape::Timestamp => ShapeView::Timestamp,
            Shape::Integer => ShapeView::Integer,
            Shape::Text => ShapeView::Text,
            Shape::Flag => ShapeView::Flag,
            Shape::List(inner) => ShapeView::List(Box::new(inner.view())),
            Shape::Record(fields) => ShapeView::Record(
                Seq::new(
                    fields.len() as nat,
                    |i: int|
                        if 0 <= i < fields.len() {
                            (fields[i].name@, fields[i].shape.view())
                        } else {
                            (Seq::empty(), ShapeView::Flag)
                        },
                ),
            ),
        }
    }
}

/// The members of an expected record as plain data.
pub open spec fn shape_record_view(fields: Seq<ShapeField>) -> Seq<(Seq<char>, ShapeView)> {
    Seq::new(fields.len(), |i: int| (fields[i].name@, fields[i].shape@))
}

/// An expected record's view is the list of its members' names and views.
pub proof fn lemma_shape_record_view(fields: Vec<ShapeField>)
    ensures
        Shape::Record(fields)@ == ShapeView::Record(shape_record_view(fields@)),
{
    assert(Shape::Record(fields)@->Record_0 =~= shape_record_view(fields@));
}

/// A typed value of the domain.
#[derive(Debug, PartialEq, Eq)]
pub enum DomainValue {
    Decimal(Decimal),
    /// Milliseconds since the epoch.
    Timestamp(u64),
    Integer(i64),
    Text(String),
    Flag(bool),
    List(Vec<DomainValue>),
    Record(Vec<DomainField>),
}

/// A named member of a typed record.
#[derive(Debug, PartialEq, Eq)]
pub struct DomainField {
    pub name: String,
    pub value: DomainValue,
}

/// A `DomainValue` as plain data.
pub enum DomainView {
    Decimal(DecimalView),
    Timestamp(u64),
    Integer(i64),
    Text(Seq<char>),
    Flag(bool),
    List(Seq<DomainView>),
    Record(Seq<(Seq<char>, DomainView)>),
}

impl DomainValue {
    /// The value as plain data.
    pub open spec fn view(&self) -> DomainView
        decreases self,
    {
        match self {
            DomainValue::Decimal(d) => DomainView::Decimal(d@),
            DomainValue::Timestamp(t) => DomainView::Timestamp(*t),
            DomainValue::Integer(n) => DomainView::Integer(*n),
            DomainValue::Text(t) => DomainView::Text(t@),
            DomainValue::Flag(b) => DomainView::Flag(*b),
            DomainValue::List(items) => DomainView::List(
                Seq::new(
                    items.len() as nat,
                    |i: int|
                        if 0 <= i < items.len() {
                            items[i].view()
                        } else {
                            DomainView::Flag(false)
                        },
                ),
            ),
            DomainValue::Record(fields) => DomainView::Record(
                Seq::new(
                    fields.len() as nat,
                    |i: int|
                        if 0 <= i < fields.len() {
                            (fields[i].name@, fields[i].value.view())
                        } else {
                            (Seq::empty(), DomainView::Flag(false))
                        },
                ),
            ),
        }
    }
}

/// The values of a typed list as plain data.
pub open spec fn domain_list_view(items: Seq<DomainValue>) -> Seq<DomainView> {
    Seq::new(items.len(), |i: int| items[i]@)
}

/// The members of a typed record as plain data.
pub open spec fn domain_record_view(fields: Seq<DomainField>) -> Seq<(Seq<char>, DomainView)> {
    Seq::new(fields.len(), |i: int| (fields[i].name@, fields[i].value@))
}

/// A typed list's view is the list of its values' views.
pub proof fn lemma_domain_list_view(items: Vec<DomainValue>)
    ensures
        DomainValue::List(items)@ == DomainView::List(domain_list_view(items@)),
{
    assert(DomainValue::List(items)@->List_0 =~= domain_list_view(items@));
}

/// A typed record's view is the list of its members' names and views.
pub proof fn lemma_domain_record_view(fields: Vec<DomainField>)
    ensures
        DomainValue::Record(fields)@ == DomainView::Record(domain_record_view(fields@)),
{
    assert(DomainValue::Record(fields)@->Record_0 =~= domain_record_view(fields@));
}

/// The kind of a shape.
pub open spec fn expected_kind(shape: ShapeView) -> ExpectedKind {
    match shape {
        ShapeView::Decimal => ExpectedKind::Decimal,
        ShapeView::Timestamp => ExpectedKind::Timestamp,
        ShapeView::Integer => ExpectedKind::Integer,
        ShapeView::Text => ExpectedKind::Text,
        ShapeView::Flag => ExpectedKind::Flag,
        ShapeView::List(_) => ExpectedKind::List,
        ShapeView::Record(_) => ExpectedKind::Record,
    }
}

/// The kind of a value of an answer.
pub open spec fn observed_kind(wire: WireValueView) -> ObservedKind {
    match wire {
        WireValueView::Null => ObservedKind::Null,
        WireValueView::Flag(_) => ObservedKind::Flag,
        WireValueView::Integer(_) => ObservedKind::Integer,
        WireValueView::Text(_) => ObservedKind::Text,
        WireValueView::List(_) => ObservedKind::List,
        WireValueView::Record(_) => ObservedKind::Record,
    }
}

/// The value of the first member called `name` among those from `from` on.
pub open spec fn lookup_from<T>(entries: Seq<(Seq<char>, T)>, name: Seq<char>, from: int) -> Option<
    T,
>
    decreases entries.len() - from,
{
    if from < 0 || from >= entries.len() {
        None
    } else if entries[from].0 == name {
        Some(entries[from].1)
    } else {
        lookup_from(entries, name, from + 1)
    }
}

/// The value of the first member called `name`.
pub open spec fn lookup<T>(entries: Seq<(Seq<char>, T)>, name: Seq<char>) -> Option<T> {
    lookup_from(entries, name, 0)
}

/// The quantity that an integer denotes.
pub open spec fn integer_decimal(n: i64) -> DecimalView {
    DecimalView {
        negative: n < 0,
        whole: decimal_digits(vstd::math::abs(n as int)),
        fraction: Seq::empty(),
    }
}

/// The typed value of `wire` read as `shape`, or the first mismatch.
///
/// Quantities keep every digit. A list is read value by value and a record
/// member by member, in the order of the shape; members that the shape does
/// not name are passed over.
pub open spec fn decode(shape: ShapeView, wire: WireValueView) -> Result<DomainView, Mismatch>
    decreases shape, 0nat,
{
    match (shape, wire) {
        (ShapeView::Decimal, WireValueView::Text(t)) => match parse_decimal(t) {
            Some(d) => Ok(DomainView::Decimal(d)),
            None => Err(
                Mismatch { expected: ExpectedKind::Decimal, observed: ObservedKind::Text },
            ),
        },
        (ShapeView::Decimal, WireValueView::Integer(n)) => Ok(DomainView::Decimal(integer_decimal(n))),
        (ShapeView::Timestamp, WireValueView::Integer(n)) => if n >= 0 {
            Ok(DomainView::Timestamp(n as u64))
        } else {
            Err(Mismatch { expected: ExpectedKind::Timestamp, observed: ObservedKind::Integer })
        },
        (ShapeView::Timestamp, WireValueView::Text(t)) => match parse_timestamp(t) {
            Some(millis) => Ok(DomainView::Timestamp(millis)),
            None => Err(
                Mismatch { expected: ExpectedKind::Timestamp, observed: ObservedKind::Text },
            ),
        },
        (ShapeView::Integer, WireValueView::Integer(n)) => Ok(DomainView::Integer(n)),
        (ShapeView::Text, WireValueView::Text(t)) => Ok(DomainView::Text(t)),
        (ShapeView::Flag, WireValueView::Flag(b)) => Ok(DomainView::Flag(b)),
        (ShapeView::List(inner), WireValueView::List(items)) => match decode_items(
            *inner,
            items,
            items.len(),
        ) {
            Ok(values) => Ok(DomainView::List(values)),
            Err(e) => Err(e),
        },
        (ShapeView::Record(fields), WireValueView::Record(entries)) => match decode_fields(
            fields,
            entries,
            fields.len(),
        ) {
            Ok(members) => Ok(DomainView::Record(members)),
            Err(e) => Err(e),
        },
        _ => Err(Mismatch { expected: expected_kind(shape), observed: observed_kind(wire) }),
    }
}

/// The first `count` values of a list read as `inner`, or the first
/// mismatch among them.
pub open spec fn decode_items(inner: ShapeView, items: Seq<WireValueView>, count: nat) -> Result<
    Seq<DomainView>,
    Mismatch,
>
    decreases inner, count + 1,
{
    if count == 0 || count > items.len() {
        Ok(Seq::empty())
    } else {
        match decode_items(inner, items, (count - 1) as nat) {
            Err(e) => Err(e),
            Ok(front) => match decode(inner, items[count - 1]) {
                Err(e) => Err(e),
                Ok(value) => Ok(front.push(value)),
            },
        }
    }
}

/// The first `count` members that a record is expected to have, read from
/// `entries`, or the first mismatch among them. A member that is not there
/// is a mismatch too.
pub open spec fn decode_fields(
    fields: Seq<(Seq<char>, ShapeView)>,
    entries: Seq<(Seq<char>, WireValueView)>,
    count: nat,
) -> Result<Seq<(Seq<char>, DomainView)>, Mismatch>
    decreases fields, count + 1,
{
    if count == 0 || count > fields.len() {
        Ok(Seq::empty())
    } else {
        match decode_fields(fields, entries, (count - 1) as nat) {
            Err(e) => Err(e),
            Ok(front) => {
                let field = fields[count - 1];
                match lookup(entries, field.0) {
                    None => Err(
                        Mismatch {
                            expected: expected_kind(field.1),
                            observed: ObservedKind::Missing,
                        },
                    ),
                    Some(wire) => match decode(field.1, wire) {
                        Err(e) => Err(e),
                        Ok(value) => Ok(front.push((field.0, value))),
                    },
                }
            },
        }
    }
}

/// Once a value of a list has failed, the list has failed with it.
pub proof fn lemma_decode_items_sticky(
    inner: ShapeView,
    items: Seq<WireValueView>,
    at: nat,
    count: nat,
)
    requires
        at <= count <= items.len(),
        decode_items(inner, items, at) is Err,
    ensures
        decode_items(inner, items, count) == decode_items(inner, items, at),
    decreases count,
{
    if count > at {
        lemma_decode_items_sticky(inner, items, at, (count - 1) as nat);
    }
}

/// Once a member of a record has failed, the record has failed with it.
pub proof fn lemma_decode_fields_sticky(
    fields: Seq<(Seq<char>, ShapeView)>,
    entries: Seq<(Seq<char>, WireValueView)>,
    at: nat,
    count: nat,
)
    requires
        at <= count <= fields.len(),
        decode_fields(fields, entries, at) is Err,
    ensures
        decode_fields(fields, entries, count) == decode_fields(fields, entries, at),
    decreases count,
{
    if count > at {
        lemma_decode_fields_sticky(fields, entries, at, (count - 1) as nat);
    }
}

/// A decoded value, or the mismatch, as plain data.
pub open spec fn decoded_view(r: Result<DomainValue, Mismatch>) -> Result<DomainView, Mismatch> {
    match r {
        Ok(value) => Ok(value@),
        Err(e) => Err(e),
    }
}

/// The kind of a value of an answer.
pub fn kind_of_wire(wire: &WireValue) -> (kind: ObservedKind)
    ensures
        kind == observed_kind(wire@),
{
    match wire {
        WireValue::Null => ObservedKind::Null,
        WireValue::Flag(_) => ObservedKind::Flag,
        WireValue::Integer(_) => ObservedKind::Integer,
        WireValue::Text(_) => ObservedKind::Text,
        WireValue::List(_) => ObservedKind::List,
        WireValue::Record(_) => ObservedKind::Record,
    }
}

/// The kind of a shape.
pub fn kind_of_shape(shape: &Shape) -> (kind: ExpectedKind)
    ensures
        kind == expected_kind(shape@),
{
    match shape {
        Shape::Decimal => ExpectedKind::Decimal,
        Shape::Timestamp => ExpectedKind::Timestamp,
        Shape::Integer => ExpectedKind::Integer,
        Shape::Text => ExpectedKind::Text,
        Shape::Flag => ExpectedKind::Flag,
        Shape::List(_) => ExpectedKind::List,
        Shape::Record(_) => ExpectedKind::Record,
    }
}

/// The view of a member that may be missing.
pub open spec fn member_view(member: Option<&WireValue>) -> Option<WireValueView> {
    match member {
        Some(value) => Some(value@),
        None => None,
    }
}

/// The first member of a record that is called `name`.
pub fn find_member<'a>(fields: &'a Vec<WireField>, name: &String) -> (r: Option<&'a WireValue>)
    ensures
        member_view(r) == lookup(wire_record_view(fields@), name@),
{
    let ghost entries = wire_record_view(fields@);
    let mut i: usize = 0;
    while i < fields.len()
        invariant
            i <= fields.len(),
            entries == wire_record_view(fields@),
            lookup(entries, name@) == lookup_from(entries, name@, i as int),
        decreases fields.len() - i,
    {
        if fields[i].name == *name {
            return Some(&fields[i].value);
        }
        i += 1;
    }
    None
}

/// Reads `wire` as `shape`: the typed value, or the first mismatch.
#[verifier::loop_isolation(false)]
pub fn decode_value(shape: &Shape, wire: &WireValue) -> (r: Result<DomainValue, Mismatch>)
    ensures
        decoded_view(r) == decode(shape@, wire@),
    decreases shape,
{
    match shape {
        Shape::Decimal => match wire {
            WireValue::Text(text) => match Decimal::parse(text.as_str()) {
                Some(d) => Ok(DomainValue::Decimal(d)),
                None => Err(
                    Mismatch { expected: ExpectedKind::Decimal, observed: ObservedKind::Text },
                ),
            },
            WireValue::Integer(n) => Ok(DomainValue::Decimal(Decimal::from_integer(*n))),
            _ => Err(Mismatch { expected: ExpectedKind::Decimal, observed: kind_of_wire(wire) }),
        },
        Shape::Timestamp => match wire {
            WireValue::Integer(n) => {
                if *n >= 0 {
                    Ok(DomainValue::Timestamp(*n as u64))
                } else {
                    Err(
                        Mismatch {
                            expected: ExpectedKind::Timestamp,
                            observed: ObservedKind::Integer,
                        },
                    )
                }
            },
            WireValue::Text(text) => match parse_timestamp_text(text.as_str()) {
                Some(millis) => Ok(DomainValue::Timestamp(millis)),
                None => Err(
                    Mismatch { expected: ExpectedKind::Timestamp, observed: ObservedKind::Text },
                ),
            },
            _ => Err(Mismatch { expected: ExpectedKind::Timestamp, observed: kind_of_wire(wire) }),
        },
        Shape::Integer => match wire {
            WireValue::Integer(n) => Ok(DomainValue::Integer(*n)),
            _ => Err(Mismatch { expected: ExpectedKind::Integer, observed: kind_of_wire(wire) }),
        },
        Shape::Text => match wire {
            WireValue::Text(text) => Ok(DomainValue::Text(text.clone())),
            _ => Err(Mismatch { expected: ExpectedKind::Text, observed: kind_of_wire(wire) }),
        },
        Shape::Flag => match wire {
            WireValue::Flag(b) => Ok(DomainValue::Flag(*b)),
            _ => Err(Mismatch { expected: ExpectedKind::Flag, observed: kind_of_wire(wire) }),
        },
        Shape::List(inner) => match wire {
            WireValue::List(items) => {
                let ghost wires = wire_list_view(items@);
                proof {
                    lemma_wire_list_view(*items);
                }
                let mut out: Vec<DomainValue> = Vec::new();
                let mut i: usize = 0;
                assert(domain_list_view(out@) =~= Seq::<DomainView>::empty());
                while i < items.len()
                    invariant
                        i <= items.len(),
                        decode_items(inner@, wires, i as nat) == Ok::<Seq<DomainView>, Mismatch>(
                            domain_list_view(out@),
                        ),
                    decreases items.len() - i,
                {
                    let ghost before = domain_list_view(out@);
                    match decode_value(&**inner, &items[i]) {
                        Ok(value) => {
                            out.push(value);
                            assert(domain_list_view(out@) =~= before.push(value@));
                        },
                        Err(e) => {
                            proof {
                                lemma_decode_items_sticky(
                                    inner@,
                                    wires,
                                    (i + 1) as nat,
                                    items.len() as nat,
                                );
                            }
                            return Err(e);
                        },
                    }
                    i += 1;
                }
                proof {
                    lemma_domain_list_view(out);
                }
                Ok(DomainValue::List(out))
            },
            _ => Err(Mismatch { expected: ExpectedKind::List, observed: kind_of_wire(wire) }),
        },
        Shape::Record(fields) => match wire {
            WireValue::Record(members) => {
                let ghost expected = shape_record_view(fields@);
                let ghost entries = wire_record_view(members@);
                proof {
                    lemma_shape_record_view(*fields);
                    lemma_wire_record_view(*members);
                }
                let mut out: Vec<DomainField> = Vec::new();
                let mut i: usize = 0;
                assert(domain_record_view(out@) =~= Seq::<(Seq<char>, DomainView)>::empty());
                while i < fields.len()
                    invariant
                        i <= fields.len(),
                        decode_fields(expected, entries, i as nat) == Ok::<
                            Seq<(Seq<char>, DomainView)>,
                            Mismatch,
                        >(domain_record_view(out@)),
                    decreases fields.len() - i,
                {
                    let ghost before = domain_record_view(out@);
                    let field = &fields[i];
                    let found = find_member(members, &field.name);
                    let decoded = match found {
                        Some(value) => decode_value(&field.shape, value),
                        None => Err(
                            Mismatch {
                                expected: kind_of_shape(&field.shape),
                                observed: ObservedKind::Missing,
                            },
                        ),
                    };
                    match decoded {
                        Ok(value) => {
                            let name = field.name.clone();
                            out.push(DomainField { name, value });
                            assert(domain_record_view(out@) =~= before.push((field.name@, value@)));
                        },
                        Err(e) => {
                            proof {
                                lemma_decode_fields_sticky(
                                    expected,
                                    entries,
                                    (i + 1) as nat,
                                    fields.len() as nat,
                                );
                            }
                            return Err(e);
                        },
                    }
                    i += 1;
                }
                proof {
                    lemma_domain_record_view(out);
                }
                Ok(DomainValue::Record(out))
            },
            _ => Err(Mismatch { expected: ExpectedKind::Record, observed: kind_of_wire(wire) }),
        },
    }
}

/// Name of the member that holds the code of a failure.
pub const CODE_FIELD: &'static str = "code";

/// Name of the member that holds the message of a failure.
pub const MESSAGE_FIELD: &'static str = "message";

/// The code and message of a failure: a record with an integer called
/// `code`, and with the message as text where there is one.
pub open spec fn error_payload(data: WireValueView) -> Option<(i64, Seq<char>)> {
    match data {
        WireValueView::Record(entries) => match lookup(entries, CODE_FIELD@) {
            Some(WireValueView::Integer(code)) => Some(
                (
                    code,
                    match lookup(entries, MESSAGE_FIELD@) {
                        Some(WireValueView::Text(message)) => message,
                        _ => Seq::empty(),
                    },
                ),
            ),
            _ => None,
        },
        _ => None,
    }
}

/// What an answer comes to when `shape` is expected.
///
/// A failure of the exchange is handed on with its code as it came. A
/// success is read as the shape; where it does not have the shape, or a
/// failure does not tell its code, the answer cannot be decoded.
pub open spec fn response_outcome(success: bool, data: WireValueView, shape: ShapeView) -> Result<
    DomainView,
    ClientErrorView,
> {
    if success {
        match decode(shape, data) {
            Ok(value) => Ok(value),
            Err(m) => Err(ClientErrorView::Decode { expected: m.expected, observed: m.observed }),
        }
    } else {
        match error_payload(data) {
            Some((code, message)) => Err(ClientErrorView::Exchange { code, message }),
            None => Err(
                ClientErrorView::Decode {
                    expected: ExpectedKind::ErrorPayload,
                    observed: observed_kind(data),
                },
            ),
        }
    }
}

/// What an exchange comes to: a transport that failed gives a transport
/// error with the cause that the transport gave, an answer gives what
/// `response_outcome` says.
pub open spec fn exchange_outcome(
    reply: Result<WireResponse, TransportFailure>,
    shape: ShapeView,
) -> Result<DomainView, ClientErrorView> {
    match reply {
        Ok(response) => response_outcome(response.success, response.data@, shape),
        Err(failure) => Err(ClientErrorView::Transport { cause: failure.cause@ }),
    }
}

/// The result of an operation as plain data.
pub open spec fn outcome_view(r: Result<DomainValue, ClientError>) -> Result<
    DomainView,
    ClientErrorView,
> {
    match r {
        Ok(value) => Ok(value@),
        Err(e) => Err(e@),
    }
}

/// Maps the two parts of an answer to the typed value that `shape` asks
/// for, or to the error that the answer amounts to.
pub fn map_parts(success: bool, data: &WireValue, shape: &Shape) -> (r: Result<
    DomainValue,
    ClientError,
>)
    ensures
        outcome_view(r) == response_outcome(success, data@, shape@),
{
    if success {
        return match decode_value(shape, data) {
            Ok(value) => Ok(value),
            Err(m) => Err(ClientError::Decode { expected: m.expected, observed: m.observed }),
        };
    }
    let undecodable = ClientError::Decode {
        expected: ExpectedKind::ErrorPayload,
        observed: kind_of_wire(data),
    };
    match data {
        WireValue::Record(members) => {
            proof {
                lemma_wire_record_view(*members);
            }
            let code_name = CODE_FIELD.to_owned();
            let message_name = MESSAGE_FIELD.to_owned();
            match find_member(members, &code_name) {
                Some(WireValue::Integer(code)) => {
                    let message = match find_member(members, &message_name) {
                        Some(WireValue::Text(text)) => text.clone(),
                        _ => String::new(),
                    };
                    Err(ClientError::Exchange { code: *code, message })
                },
                _ => Err(undecodable),
            }
        },
        _ => Err(undecodable),
    }
}

/// Maps an answer of the exchange to the typed value that `shape` asks for,
/// or to the error that the answer amounts to.
pub fn map_response(response: &WireResponse, shape: &Shape) -> (r: Result<DomainValue, ClientError>)
    ensures
        outcome_view(r) == response_outcome(response.success, response.data@, shape@),
{
    map_parts(response.success, &response.data, shape)
}

/// Name of the member of the envelope that tells success from failure.
pub const SUCCESS_FIELD: &'static str = "success";

/// Name of the member of the envelope that holds the data.
pub const DATA_FIELD: &'static str = "data";

/// The two parts of an answer as it comes: a record with the data and with
/// `success` as a flag, or as the integer 1 for success and 0 for failure.
pub open spec fn envelope_of(body: WireValueView) -> Option<(bool, WireValueView)> {
    match body {
        WireValueView::Record(entries) => match lookup(entries, DATA_FIELD@) {
            Some(data) => match lookup(entries, SUCCESS_FIELD@) {
                Some(WireValueView::Flag(b)) => Some((b, data)),
                Some(WireValueView::Integer(n)) => if n == 1 {
                    Some((true, data))
                } else if n == 0 {
                    Some((false, data))
                } else {
                    None
                },
                _ => None,
            },
            None => None,
        },
        _ => None,
    }
}

/// What an answer as it comes amounts to when `shape` is expected: what its
/// two parts amount to, and an answer that is no envelope cannot be decoded.
pub open spec fn body_outcome(body: WireValueView, shape: ShapeView) -> Result<
    DomainView,
    ClientErrorView,
> {
    match envelope_of(body) {
        Some((success, data)) => response_outcome(success, data, shape),
        None => Err(
            ClientErrorView::Decode {
                expected: ExpectedKind::Envelope,
                observed: observed_kind(body),
            },
        ),
    }
}

/// What an exchange comes to, from the answer as it comes.
pub open spec fn exchange_body_outcome(
    reply: Result<WireValue, TransportFailure>,
    shape: ShapeView,
) -> Result<DomainView, ClientErrorView> {
    match reply {
        Ok(body) => body_outcome(body@, shape),
        Err(failure) => Err(ClientErrorView::Transport { cause: failure.cause@ }),
    }
}

/// Maps an answer as it comes, envelope and all.
pub fn map_body(body: &WireValue, shape: &Shape) -> (r: Result<DomainValue, ClientError>)
    ensures
        outcome_view(r) == body_outcome(body@, shape@),
{
    let no_envelope = ClientError::Decode {
        expected: ExpectedKind::Envelope,
        observed: kind_of_wire(body),
    };
    match body {
        WireValue::Record(members) => {
            proof {
                lemma_wire_record_view(*members);
            }
            let data_name = DATA_FIELD.to_owned();
            let success_name = SUCCESS_FIELD.to_owned();
            match find_member(members, &data_name) {
                Some(data) => match find_member(members, &success_name) {
                    Some(WireValue::Flag(b)) => map_parts(*b, data, shape),
                    Some(WireValue::Integer(n)) => {
                        if *n == 1 {
                            map_parts(true, data, shape)
                        } else if *n == 0 {
                            map_parts(false, data, shape)
                        } else {
                            Err(no_envelope)
                        }
                    },
                    _ => Err(no_envelope),
                },
                None => Err(no_envelope),
            }
        },
        _ => Err(no_envelope),
    }
}

/// Ends an operation from the answer as it comes: the result of the
/// transport's one exchange becomes the one typed value or the one error.
pub fn conclude_body(reply: Result<WireValue, TransportFailure>, shape: &Shape) -> (r: Result<
    DomainValue,
    ClientError,
>)
    ensures
        outcome_view(r) == exchange_body_outcome(reply, shape@),
{
    match reply {
        Ok(body) => map_body(&body, shape),
        Err(failure) => Err(ClientError::Transport { cause: failure.cause }),
    }
}

/// Ends an operation: the result of the transport's one exchange becomes
/// the one typed value or the one error.
pub fn conclude(reply: Result<WireResponse, TransportFailure>, shape: &Shape) -> (r: Result<
    DomainValue,
    ClientError,
>)
    ensures
        outcome_view(r) == exchange_outcome(reply, shape@),
{
    match reply {
        Ok(response) => map_response(&response, shape),
        Err(failure) => Err(ClientError::Transport { cause: failure.cause }),
    }
}

/// Whether a typed value has a shape: each quantity well formed, each list
/// of one shape throughout, each record with the members of the shape, by
/// name and in its order.
pub open spec fn conforms(value: DomainView, shape: ShapeView) -> bool
    decreases shape,
{
    match (shape, value) {
        (ShapeView::Decimal, DomainView::Decimal(d)) => d.wf(),
        (ShapeView::Timestamp, DomainView::Timestamp(_)) => true,
        (ShapeView::Integer, DomainView::Integer(_)) => true,
        (ShapeView::Text, DomainView::Text(_)) => true,
        (ShapeView::Flag, DomainView::Flag(_)) => true,
        (ShapeView::List(inner), DomainView::List(values)) => forall|i: int|
            0 <= i < values.len() ==> conforms(#[trigger] values[i], *inner),
        (ShapeView::Record(fields), DomainView::Record(members)) => {
            &&& members.len() == fields.len()
            &&& forall|i: int|
                0 <= i < fields.len() ==> (#[trigger] members[i]).0 == fields[i].0 && conforms(
                    members[i].1,
                    fields[i].1,
                )
        },
        _ => false,
    }
}

/// Whatever is decoded has the shape that was asked for.
pub proof fn lemma_decode_conforms(shape: ShapeView, wire: WireValueView)
    requires
        decode(shape, wire) is Ok,
    ensures
        conforms(decode(shape, wire)->Ok_0, shape),
    decreases shape, 0nat,
{
    match (shape, wire) {
        (ShapeView::Decimal, WireValueView::Text(t)) => {
            lemma_parse_decimal_exact(t);
        },
        (ShapeView::Decimal, WireValueView::Integer(n)) => {
            lemma_decimal_digits_shape(vstd::math::abs(n as int) as nat);
        },
        (ShapeView::List(inner), WireValueView::List(items)) => {
            lemma_decode_items_conform(*inner, items, items.len());
        },
        (ShapeView::Record(fields), WireValueView::Record(entries)) => {
            lemma_decode_fields_conform(fields, entries, fields.len());
        },
        _ => {},
    }
}

/// The decoded values of a list are as many as were read, and each has the
/// shape asked for.
pub proof fn lemma_decode_items_conform(inner: ShapeView, items: Seq<WireValueView>, count: nat)
    requires
        count <= items.len(),
        decode_items(inner, items, count) is Ok,
    ensures
        decode_items(inner, items, count)->Ok_0.len() == count,
        forall|i: int|
            0 <= i < count ==> conforms(
                #[trigger] decode_items(inner, items, count)->Ok_0[i],
                inner,
            ),
    decreases inner, count + 1,
{
    if count > 0 {
        lemma_decode_items_conform(inner, items, (count - 1) as nat);
        lemma_decode_conforms(inner, items[count - 1]);
    }
}

/// The decoded members of a record are those of the shape, by name and in
/// its order, and each has the shape asked for.
pub proof fn lemma_decode_fields_conform(
    fields: Seq<(Seq<char>, ShapeView)>,
    entries: Seq<(Seq<char>, WireValueView)>,
    count: nat,
)
    requires
        count <= fields.len(),
        decode_fields(fields, entries, count) is Ok,
    ensures
        decode_fields(fields, entries, count)->Ok_0.len() == count,
        forall|i: int|
            0 <= i < count ==> (#[trigger] decode_fields(fields, entries, count)->Ok_0[i]).0
                == fields[i].0 && conforms(
                decode_fields(fields, entries, count)->Ok_0[i].1,
                fields[i].1,
            ),
    decreases fields, count + 1,
{
    if count > 0 {
        lemma_decode_fields_conform(fields, entries, (count - 1) as nat);
        let field = fields[count - 1];
        lemma_decode_conforms(field.1, lookup(entries, field.0)->0);
    }
}

/// A success whose data have the shape comes to a typed value of that
/// shape, and to no error.
pub proof fn lemma_success_is_typed(data: WireValueView, shape: ShapeView)
    requires
        decode(shape, data) is Ok,
    ensures
        response_outcome(true, data, shape) matches Ok(value) && conforms(value, shape),
{
    lemma_decode_conforms(shape, data);
}

/// A failure that tells its code comes to an exchange error with that very
/// code, whatever shape was expected.
pub proof fn lemma_failure_keeps_code(
    entries: Seq<(Seq<char>, WireValueView)>,
    code: i64,
    shape: ShapeView,
)
    requires
        lookup(entries, CODE_FIELD@) == Some(WireValueView::Integer(code)),
    ensures
        response_outcome(false, WireValueView::Record(entries), shape) matches Err(
            ClientErrorView::Exchange { code: kept, .. },
        ) && kept == code,
{
}

impl DomainValue {
    /// The quantity, where the value is one.
    pub fn as_decimal(&self) -> (r: Option<&Decimal>)
        ensures
            match r {
                Some(d) => self@ == DomainView::Decimal(d@),
                None => !(self@ is Decimal),
            },
    {
        match self {
            DomainValue::Decimal(d) => Some(d),
            _ => None,
        }
    }

    /// The instant in milliseconds, where the value is one.
    pub fn as_timestamp(&self) -> (r: Option<u64>)
        ensures
            match r {
                Some(millis) => self@ == DomainView::Timestamp(millis),
                None => !(self@ is Timestamp),
            },
    {
        match self {
            DomainValue::Timestamp(millis) => Some(*millis),
            _ => None,
        }
    }

    /// The integer, where the value is one.
    pub fn as_integer(&self) -> (r: Option<i64>)
        ensures
            match r {
                Some(n) => self@ == DomainView::Integer(n),
                None => !(self@ is Integer),
            },
    {
        match self {
            DomainValue::Integer(n) => Some(*n),
            _ => None,
        }
    }

    /// The text, where the value is one.
    pub fn as_text(&self) -> (r: Option<&str>)
        ensures
            match r {
                Some(text) => self@ == DomainView::Text(text@),
                None => !(self@ is Text),
            },
    {
        match self {
            DomainValue::Text(text) => Some(text.as_str()),
            _ => None,
        }
    }

    /// The flag, where the value is one.
    pub fn as_flag(&self) -> (r: Option<bool>)
        ensures
            match r {
                Some(b) => self@ == DomainView::Flag(b),
                None => !(self@ is Flag),
            },
    {
        match self {
            DomainValue::Flag(b) => Some(*b),
            _ => None,
        }
    }

    /// The values of the list, where the value is one.
    pub fn items(&self) -> (r: Option<&Vec<DomainValue>>)
        ensures
            match r {
                Some(values) => self@ == DomainView::List(domain_list_view(values@)),
                None => !(self@ is List),
            },
    {
        match self {
            DomainValue::List(values) => {
                proof {
                    lemma_domain_list_view(*values);
                }
                Some(values)
            },
            _ => None,
        }
    }

    /// The first member called `name`, where the value is a record that has
    /// one.
    pub fn get(&self, name: &str) -> (r: Option<&DomainValue>)
        ensures
            match self@ {
                DomainView::Record(members) => match r {
                    Some(value) => lookup(members, name@) == Some(value@),
                    None => lookup(members, name@) is None,
                },
                _ => r is None,
            },
    {
        match self {
            DomainValue::Record(fields) => {
                proof {
                    lemma_domain_record_view(*fields);
                }
                let ghost members = domain_record_view(fields@);
                let wanted = name.to_owned();
                let mut i: usize = 0;
                while i < fields.len()
                    invariant
                        i <= fields.len(),
                        wanted@ == name@,
                        self@ == DomainView::Record(members),
                        members == domain_record_view(fields@),
                        lookup(members, name@) == lookup_from(members, name@, i as int),
                    decreases fields.len() - i,
                {
                    if fields[i].name == wanted {
                        return Some(&fields[i].value);
                    }
                    i += 1;
                }
                None
            },
            _ => None,
        }
    }
}

} // verus!
