//! What the exchange answers, after the JSON has been read.

use vstd::prelude::*;

verus! {

/// A value of an answer.
#[derive(Debug, PartialEq, Eq)]
pub enum WireValue {
    Null,
    Flag(bool),
    Integer(i64),
    Text(String),
    List(Vec<WireValue>),
    Record(Vec<WireField>),
}

/// A named member of a record.
#[derive(Debug, PartialEq, Eq)]
pub struct WireField {
    pub name: String,
    pub value: WireValue,
}

/// A `WireValue` as plain data.
pub enum WireValueView {
    Null,
    Flag(bool),
    Integer(i64),
    Text(Seq<char>),
    List(Seq<WireValueView>),
    Record(Seq<(Seq<char>, WireValueView)>),
}

impl WireValue {
    /// The value as plain data.
    pub open spec fn view(&self) -> WireValueView
        decreases self,
    {
        match self {
            WireValue::Null => WireValueView::Null,
            WireValue::Flag(b) => WireValueView::Flag(*b),
            WireValue::Integer(n) => WireValueView::Integer(*n),
            WireValue::Text(t) => WireValueView::Text(t@),
            WireValue::List(items) => WireValueView::List(
                Seq::new(
                    items.len() as nat,
                    |i: int|
                        if 0 <= i < items.len() {
                            items[i].view()
                        } else {
                            WireValueView::Null
                        },
                ),
            ),
            WireValue::Record(fields) => WireValueView::Record(
                Seq::new(
                    fields.len() as nat,
                    |i: int|
                        if 0 <= i < fields.len() {
                            (fields[i].name@, fields[i].value.view())
                        } else {
                            (Seq::empty(), WireValueView::Null)
                        },
                ),
            ),
        }
    }
}

/// The values of a list as plain data.
pub open spec fn wire_list_view(items: Seq<WireValue>) -> Seq<WireValueView> {
    Seq::new(items.len(), |i: int| items[i]@)
}

/// The members of a record as plain data.
pub open spec fn wire_record_view(fields: Seq<WireField>) -> Seq<(Seq<char>, WireValueView)> {
    Seq::new(fields.len(), |i: int| (fields[i].name@, fields[i].value@))
}

/// A list's view is the list of its values' views.
pub proof fn lemma_wire_list_view(items: Vec<WireValue>)
    ensures
        WireValue::List(items)@ == WireValueView::List(wire_list_view(items@)),
{
    assert(WireValue::List(items)@->List_0 =~= wire_list_view(items@));
}

/// A record's view is the list of its members' names and views.
pub proof fn lemma_wire_record_view(fields: Vec<WireField>)
    ensures
        WireValue::Record(fields)@ == WireValueView::Record(wire_record_view(fields@)),
{
    assert(WireValue::Record(fields)@->Record_0 =~= wire_record_view(fields@));
}

/// An answer of the exchange: whether the call succeeded, and the data,
/// which on failure tell why.
#[derive(Debug, PartialEq, Eq)]
pub struct WireResponse {
    pub success: bool,
    pub data: WireValue,
}

/// That the transport could not complete an exchange, and what it gave as
/// the cause.
#[derive(Clone, Debug, PartialEq, Eq)]
pub struct TransportFailure {
    pub cause: String,
}

} // verus!
