//! The shape that each operation expects of its answer.

use crate::mapper::{lemma_shape_record_view, Shape, ShapeField, ShapeView};
use vstd::prelude::*;
use vstd::string::*;

verus! {

/// A list of lists of quantities: the rows of an order book or of a chart.
pub open spec fn rows_view() -> ShapeView {
    ShapeView::List(Box::new(ShapeView::List(Box::new(ShapeView::Decimal))))
}

/// What a ticker looks like: the best prices, the day's range, the last
/// price and the volume as quantities, and the instant.
pub open spec fn ticker_shape_view() -> ShapeView {
    ShapeView::Record(
        seq![
            ("sell"@, ShapeView::Decimal),
            ("buy"@, ShapeView::Decimal),
            ("high"@, ShapeView::Decimal),
            ("low"@, ShapeView::Decimal),
            ("last"@, ShapeView::Decimal),
            ("vol"@, ShapeView::Decimal),
            ("timestamp"@, ShapeView::Timestamp),
        ],
    )
}

/// What an order book looks like: rows of price and amount on either side,
/// and the instant.
pub open spec fn depth_shape_view() -> ShapeView {
    ShapeView::Record(
        seq![("asks"@, rows_view()), ("bids"@, rows_view()), ("timestamp"@, ShapeView::Timestamp)],
    )
}

/// What one series of bars looks like: its interval, and rows of open,
/// high, low, close, volume and instant.
pub open spec fn series_shape_view() -> ShapeView {
    ShapeView::Record(seq![("type"@, ShapeView::Text), ("ohlcv"@, rows_view())])
}

/// What candlesticks look like: the series, and the instant.
pub open spec fn candlestick_shape_view() -> ShapeView {
    ShapeView::Record(
        seq![
            ("candlestick"@, ShapeView::List(Box::new(series_shape_view()))),
            ("timestamp"@, ShapeView::Timestamp),
        ],
    )
}

/// What the holding of one asset looks like.
pub open spec fn asset_shape_view() -> ShapeView {
    ShapeView::Record(
        seq![
            ("asset"@, ShapeView::Text),
            ("amount_precision"@, ShapeView::Integer),
            ("onhand_amount"@, ShapeView::Decimal),
            ("locked_amount"@, ShapeView::Decimal),
            ("free_amount"@, ShapeView::Decimal),
        ],
    )
}

/// What the assets of an account look like: the holdings, asset by asset.
pub open spec fn assets_shape_view() -> ShapeView {
    ShapeView::Record(seq![("assets"@, ShapeView::List(Box::new(asset_shape_view())))])
}

/// A member called `name` of the shape `shape`.
pub fn member(name: &str, shape: Shape) -> (field: ShapeField)
    ensures
        field.name@ == name@,
        field.shape == shape,
{
    ShapeField { name: name.to_owned(), shape }
}

/// The shape of a list of `inner`.
pub fn list_of(inner: Shape) -> (shape: Shape)
    ensures
        shape@ == ShapeView::List(Box::new(inner@)),
{
    Shape::List(Box::new(inner))
}

/// The shape of rows of quantities.
pub fn rows() -> (shape: Shape)
    ensures
        shape@ == rows_view(),
{
    list_of(list_of(Shape::Decimal))
}

/// The shape of a ticker.
pub fn ticker_shape() -> (shape: Shape)
    ensures
        shape@ == ticker_shape_view(),
{
    let mut fields: Vec<ShapeField> = Vec::new();
    fields.push(member("sell", Shape::Decimal));
    fields.push(member("buy", Shape::Decimal));
    fields.push(member("high", Shape::Decimal));
    fields.push(member("low", Shape::Decimal));
    fields.push(member("last", Shape::Decimal));
    fields.push(member("vol", Shape::Decimal));
    fields.push(member("timestamp", Shape::Timestamp));
    proof {
        lemma_shape_record_view(fields);
        assert(Shape::Record(fields)@->Record_0 =~= ticker_shape_view()->Record_0);
    }
    Shape::Record(fields)
}

/// The shape of an order book.
pub fn depth_shape() -> (shape: Shape)
    ensures
        shape@ == depth_shape_view(),
{
    let mut fields: Vec<ShapeField> = Vec::new();
    fields.push(member("asks", rows()));
    fields.push(member("bids", rows()));
    fields.push(member("timestamp", Shape::Timestamp));
    proof {
        lemma_shape_record_view(fields);
        assert(Shape::Record(fields)@->Record_0 =~= depth_shape_view()->Record_0);
    }
    Shape::Record(fields)
}

/// The shape of one series of bars.
pub fn series_shape() -> (shape: Shape)
    ensures
        shape@ == series_shape_view(),
{
    let mut fields: Vec<ShapeField> = Vec::new();
    fields.push(member("type", Shape::Text));
    fields.push(member("ohlcv", rows()));
    proof {
        lemma_shape_record_view(fields);
        assert(Shape::Record(fields)@->Record_0 =~= series_shape_view()->Record_0);
    }
    Shape::Record(fields)
}

/// The shape of candlesticks.
pub fn candlestick_shape() -> (shape: Shape)
    ensures
        shape@ == candlestick_shape_view(),
{
    let mut fields: Vec<ShapeField> = Vec::new();
    fields.push(member("candlestick", list_of(series_shape())));
    fields.push(member("timestamp", Shape::Timestamp));
    proof {
        lemma_shape_record_view(fields);
        assert(Shape::Record(fields)@->Record_0 =~= candlestick_shape_view()->Record_0);
    }
    Shape::Record(fields)
}

/// The shape of the holding of one asset.
pub fn asset_shape() -> (shape: Shape)
    ensures
        shape@ == asset_shape_view(),
{
    let mut fields: Vec<ShapeField> = Vec::new();
    fields.push(member("asset", Shape::Text));
    fields.push(member("amount_precision", Shape::Integer));
    fields.push(member("onhand_amount", Shape::Decimal));
    fields.push(member("locked_amount", Shape::Decimal));
    fields.push(member("free_amount", Shape::Decimal));
    proof {
        lemma_shape_record_view(fields);
        assert(Shape::Record(fields)@->Record_0 =~= asset_shape_view()->Record_0);
    }
    Shape::Record(fields)
}

/// The shape of the assets of an account.
pub fn assets_shape() -> (shape: Shape)
    ensures
        shape@ == assets_shape_view(),
{
    let mut fields: Vec<ShapeField> = Vec::new();
    fields.push(member("assets", list_of(asset_shape())));
    proof {
        lemma_shape_record_view(fields);
        assert(Shape::Record(fields)@->Record_0 =~= assets_shape_view()->Record_0);
    }
    Shape::Record(fields)
}

} // verus!
