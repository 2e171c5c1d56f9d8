//! Markets and bar intervals, and the paths of the public operations.

use crate::endpoint::{is_plain_path, is_plain_text, lemma_plain_text_concat};
use vstd::prelude::*;
use vstd::string::*;

verus! {

/// What begins every path and parts its segments.
pub const SLASH: &'static str = "/";

/// What stands between the two assets of a pair.
pub const PAIR_SEPARATOR: &'static str = "_";

/// Last segment of the path of a ticker.
pub const TICKER_SEGMENT: &'static str = "/ticker";

/// Last segment of the path of an order book.
pub const DEPTH_SEGMENT: &'static str = "/depth";

/// The segment before the interval in the path of candlesticks.
pub const CANDLESTICK_SEGMENT: &'static str = "/candlestick/";

/// A market: the asset traded and the asset it is priced in.
#[derive(Clone, Debug, PartialEq, Eq)]
pub struct CurrencyPair {
    pub base: String,
    pub quote: String,
}

impl CurrencyPair {
    /// The pair's identifier: base, `_`, quote.
    pub open spec fn text(&self) -> Seq<char> {
        self.base@ + PAIR_SEPARATOR@ + self.quote@
    }

    /// The market of `base` priced in `quote`.
    pub fn new(base: &str, quote: &str) -> (pair: CurrencyPair)
        ensures
            pair.base@ == base@,
            pair.quote@ == quote@,
    {
        CurrencyPair { base: base.to_owned(), quote: quote.to_owned() }
    }

    /// The pair's identifier.
    pub fn to_text(&self) -> (text: String)
        ensures
            text@ == self.text(),
    {
        let mut text = String::new();
        text.append(self.base.as_str());
        text.append(PAIR_SEPARATOR);
        text.append(self.quote.as_str());
        assert(text@ =~= self.text());
        text
    }
}

/// The interval that one bar of a candlestick chart spans.
#[derive(Clone, Copy, Debug, PartialEq, Eq, Structural)]
pub enum CandleType {
    OneMin,
    FiveMin,
    FifteenMin,
    ThirtyMin,
    OneHour,
    FourHour,
    EightHour,
    TwelveHour,
    OneDay,
    OneWeek,
    OneMonth,
}

impl CandleType {
    /// The interval as the exchange writes it.
    pub open spec fn text(self) -> Seq<char> {
        match self {
            CandleType::OneMin => "1min"@,
            CandleType::FiveMin => "5min"@,
            CandleType::FifteenMin => "15min"@,
            CandleType::ThirtyMin => "30min"@,
            CandleType::OneHour => "1hour"@,
            CandleType::FourHour => "4hour"@,
            CandleType::EightHour => "8hour"@,
            CandleType::TwelveHour => "12hour"@,
            CandleType::OneDay => "1day"@,
            CandleType::OneWeek => "1week"@,
            CandleType::OneMonth => "1month"@,
        }
    }

    /// The interval as the exchange writes it.
    pub fn as_text(self) -> (text: &'static str)
        ensures
            text@ == self.text(),
    {
        match self {
            CandleType::OneMin => "1min",
            CandleType::FiveMin => "5min",
            CandleType::FifteenMin => "15min",
            CandleType::ThirtyMin => "30min",
            CandleType::OneHour => "1hour",
            CandleType::FourHour => "4hour",
            CandleType::EightHour => "8hour",
            CandleType::TwelveHour => "12hour",
            CandleType::OneDay => "1day",
            CandleType::OneWeek => "1week",
            CandleType::OneMonth => "1month",
        }
    }
}

/// Path of the ticker of a pair.
pub open spec fn ticker_path(pair: Seq<char>) -> Seq<char> {
    SLASH@ + pair + TICKER_SEGMENT@
}

/// Path of the order book of a pair.
pub open spec fn depth_path(pair: Seq<char>) -> Seq<char> {
    SLASH@ + pair + DEPTH_SEGMENT@
}

/// Path of the candlesticks of a pair, by interval and date.
pub open spec fn candlestick_path(pair: Seq<char>, candle: Seq<char>, date: Seq<char>) -> Seq<
    char,
> {
    SLASH@ + pair + CANDLESTICK_SEGMENT@ + candle + SLASH@ + date
}

/// The path of the ticker of `pair`.
pub fn make_ticker_path(pair: &CurrencyPair) -> (path: String)
    ensures
        path@ == ticker_path(pair.text()),
{
    let mut path = String::new();
    path.append(SLASH);
    path.append(pair.to_text().as_str());
    path.append(TICKER_SEGMENT);
    assert(path@ =~= ticker_path(pair.text()));
    path
}

/// The path of the order book of `pair`.
pub fn make_depth_path(pair: &CurrencyPair) -> (path: String)
    ensures
        path@ == depth_path(pair.text()),
{
    let mut path = String::new();
    path.append(SLASH);
    path.append(pair.to_text().as_str());
    path.append(DEPTH_SEGMENT);
    assert(path@ =~= depth_path(pair.text()));
    path
}

/// The path of the candlesticks of `pair` at the interval `candle` for
/// `date`, which is written into the path as it is given.
pub fn make_candlestick_path(pair: &CurrencyPair, candle: CandleType, date: &str) -> (path: String)
    ensures
        path@ == candlestick_path(pair.text(), candle.text(), date@),
{
    let mut path = String::new();
    path.append(SLASH);
    path.append(pair.to_text().as_str());
    path.append(CANDLESTICK_SEGMENT);
    path.append(candle.as_text());
    path.append(SLASH);
    path.append(date);
    assert(path@ =~= candlestick_path(pair.text(), candle.text(), date@));
    path
}

/// The fixed parts of the paths are plain.
pub proof fn lemma_segments_plain()
    ensures
        is_plain_path(SLASH@),
        is_plain_text(PAIR_SEPARATOR@),
        is_plain_text(TICKER_SEGMENT@),
        is_plain_text(DEPTH_SEGMENT@),
        is_plain_text(CANDLESTICK_SEGMENT@),
{
    reveal_strlit("/");
    reveal_strlit("_");
    reveal_strlit("/ticker");
    reveal_strlit("/depth");
    reveal_strlit("/candlestick/");
}

/// Every interval is written in plain text.
pub proof fn lemma_candle_text_plain(candle: CandleType)
    ensures
        is_plain_text(candle.text()),
{
    reveal_strlit("1min");
    reveal_strlit("5min");
    reveal_strlit("15min");
    reveal_strlit("30min");
    reveal_strlit("1hour");
    reveal_strlit("4hour");
    reveal_strlit("8hour");
    reveal_strlit("12hour");
    reveal_strlit("1day");
    reveal_strlit("1week");
    reveal_strlit("1month");
}

/// The paths of a pair whose assets are written in plain text are plain
/// paths, and so is the path of its candlesticks for a date in plain text.
pub proof fn lemma_pair_paths_plain(pair: CurrencyPair, candle: CandleType, date: Seq<char>)
    requires
        is_plain_text(pair.base@),
        is_plain_text(pair.quote@),
    ensures
        is_plain_path(ticker_path(pair.text())),
        is_plain_path(depth_path(pair.text())),
        is_plain_text(date) ==> is_plain_path(candlestick_path(pair.text(), candle.text(), date)),
{
    lemma_segments_plain();
    lemma_candle_text_plain(candle);
    lemma_plain_text_concat(pair.base@, PAIR_SEPARATOR@);
    lemma_plain_text_concat(pair.base@ + PAIR_SEPARATOR@, pair.quote@);
    let head = SLASH@ + pair.text();
    lemma_plain_text_concat(SLASH@, pair.text());
    lemma_plain_text_concat(head, TICKER_SEGMENT@);
    lemma_plain_text_concat(head, DEPTH_SEGMENT@);
    if is_plain_text(date) {
        lemma_plain_text_concat(head, CANDLESTICK_SEGMENT@);
        lemma_plain_text_concat(head + CANDLESTICK_SEGMENT@, candle.text());
        lemma_plain_text_concat(head + CANDLESTICK_SEGMENT@ + candle.text(), SLASH@);
        lemma_plain_text_concat(head + CANDLESTICK_SEGMENT@ + candle.text() + SLASH@, date);
    }
}

} // verus!
