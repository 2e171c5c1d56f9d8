//! Exact decimal quantities and timestamps, read from text without any
//! rounding.

use crate::digits::{
    all_digits, decimal_digits, decimal_string, decimal_value, is_digit,
    lemma_decimal_digits_shape,
};
use vstd::prelude::*;
use vstd::string::*;

verus! {

/// A decimal number as its digits: a sign, the digits before the point and
/// those behind it.
pub struct DecimalView {
    pub negative: bool,
    pub whole: Seq<char>,
    pub fraction: Seq<char>,
}

impl DecimalView {
    /// Whether the digits are digits, with at least one before the point.
    pub open spec fn wf(self) -> bool {
        &&& self.whole.len() >= 1
        &&& all_digits(self.whole)
        &&& all_digits(self.fraction)
    }

    /// All the digits read as one number: the quantity is this, divided by
    /// ten to the power of `scale`, with the sign.
    pub open spec fn coefficient(self) -> nat {
        decimal_value(self.whole + self.fraction)
    }

    /// How many digits stand behind the point.
    pub open spec fn scale(self) -> nat {
        self.fraction.len()
    }

    /// The number written out: a `-` where it is negative, the digits, and a
    /// point where digits follow it.
    pub open spec fn text(self) -> Seq<char> {
        (if self.negative {
            seq!['-']
        } else {
            Seq::<char>::empty()
        }) + self.whole + (if self.fraction.len() > 0 {
            seq!['.'] + self.fraction
        } else {
            Seq::<char>::empty()
        })
    }
}

/// How many digits `text` begins with.
pub open spec fn digit_prefix_len(text: Seq<char>) -> nat
    decreases text.len(),
{
    if text.len() == 0 || !is_digit(text[0]) {
        0
    } else {
        1 + digit_prefix_len(text.drop_first())
    }
}

/// Reads digits, with or without a point and digits behind it.
pub open spec fn parse_unsigned(negative: bool, body: Seq<char>) -> Option<DecimalView> {
    let n = digit_prefix_len(body) as int;
    if n == 0 {
        None
    } else if n == body.len() {
        Some(DecimalView { negative, whole: body, fraction: Seq::empty() })
    } else if body[n] == '.' && n + 1 < body.len() && all_digits(body.skip(n + 1)) {
        Some(DecimalView { negative, whole: body.take(n), fraction: body.skip(n + 1) })
    } else {
        None
    }
}

/// Reads a decimal number: an optional `-`, one or more digits, and
/// optionally a point with one or more digits behind it. Nothing else is a
/// number: no exponent, no blank, no `+`.
pub open spec fn parse_decimal(text: Seq<char>) -> Option<DecimalView> {
    if text.len() > 0 && text[0] == '-' {
        parse_unsigned(true, text.skip(1))
    } else {
        parse_unsigned(false, text)
    }
}

/// Reads a timestamp: one or more digits that denote a number of 64 bits.
pub open spec fn parse_timestamp(text: Seq<char>) -> Option<u64> {
    if text.len() >= 1 && all_digits(text) && decimal_value(text) <= u64::MAX {
        Some(decimal_value(text) as u64)
    } else {
        None
    }
}

/// The digit prefix of `text` is `n` long when the first `n` characters are
/// digits and the next one, if there is one, is not.
pub proof fn lemma_digit_prefix_len(text: Seq<char>, n: int)
    requires
        0 <= n <= text.len(),
        forall|i: int| 0 <= i < n ==> is_digit(#[trigger] text[i]),
        n == text.len() || !is_digit(text[n]),
    ensures
        digit_prefix_len(text) == n,
    decreases n,
{
    if n > 0 {
        let rest = text.drop_first();
        assert forall|i: int| 0 <= i < n - 1 implies is_digit(#[trigger] rest[i]) by {
            assert(rest[i] == text[i + 1]);
        }
        lemma_digit_prefix_len(rest, n - 1);
    }
}

/// A digit string denotes at least what any of its beginnings denotes.
pub proof fn lemma_decimal_value_prefix(text: Seq<char>, n: int)
    requires
        0 <= n <= text.len(),
    ensures
        decimal_value(text.take(n)) <= decimal_value(text),
    decreases text.len() - n,
{
    if n == text.len() {
        assert(text.take(n) =~= text);
    } else {
        lemma_decimal_value_prefix(text, n + 1);
        assert(text.take(n + 1).drop_last() =~= text.take(n));
    }
}

/// What a parsed number holds is well formed, and written out it is the
/// text that was parsed.
pub proof fn lemma_parse_decimal_exact(text: Seq<char>)
    requires
        parse_decimal(text) is Some,
    ensures
        parse_decimal(text)->0.wf(),
        parse_decimal(text)->0.text() == text,
{
    let negative = text.len() > 0 && text[0] == '-';
    let body = if negative {
        text.skip(1)
    } else {
        text
    };
    let n = digit_prefix_len(body) as int;
    lemma_digit_prefix_bounds(body);
    let d = parse_decimal(text)->0;
    if n == body.len() {
        assert(body.take(n) =~= body);
        assert(d.text() =~= text);
    } else {
        assert(d.whole + (seq!['.'] + d.fraction) =~= body);
        assert(d.text() =~= text);
    }
}

/// The digit prefix lies within the text and holds digits only.
pub proof fn lemma_digit_prefix_bounds(text: Seq<char>)
    ensures
        digit_prefix_len(text) <= text.len(),
        all_digits(text.take(digit_prefix_len(text) as int)),
        digit_prefix_len(text) < text.len() ==> !is_digit(text[digit_prefix_len(text) as int]),
    decreases text.len(),
{
    if text.len() == 0 || !is_digit(text[0]) {
    } else {
        let rest = text.drop_first();
        lemma_digit_prefix_bounds(rest);
        let n = digit_prefix_len(text) as int;
        assert forall|i: int| 0 <= i < n implies is_digit(#[trigger] text.take(n)[i]) by {
            if i > 0 {
                assert(text.take(n)[i] == rest.take(n - 1)[i - 1]);
            }
        }
        if n < text.len() {
            assert(text[n] == rest[n - 1]);
        }
    }
}

/// An exact decimal quantity of any precision.
#[derive(Clone, Debug, PartialEq, Eq)]
pub struct Decimal {
    negative: bool,
    whole: String,
    fraction: String,
}

impl View for Decimal {
    type V = DecimalView;

    closed spec fn view(&self) -> DecimalView {
        DecimalView { negative: self.negative, whole: self.whole@, fraction: self.fraction@ }
    }
}

/// The view of a number that may be missing.
pub open spec fn decimal_option_view(d: Option<Decimal>) -> Option<DecimalView> {
    match d {
        Some(d) => Some(d@),
        None => None,
    }
}

/// How many characters from `from` on are digits; all of them are ASCII.
fn scan_digits(text: &str, from: usize) -> (end: usize)
    requires
        is_ascii(text),
        from <= text@.len(),
    ensures
        from <= end <= text@.len(),
        end - from == digit_prefix_len(text@.skip(from as int)),
        forall|i: int| from <= i < end ==> is_digit(#[trigger] text@[i]),
        end < text@.len() ==> !is_digit(text@[end as int]),
{
    broadcast use is_ascii_spec_bytes;

    let bytes = text.as_bytes();
    let mut end = from;
    while end < bytes.len() && 48 <= bytes[end] && bytes[end] <= 57
        invariant
            is_ascii(text),
            bytes@ == text.spec_bytes(),
            bytes@.len() == text@.len(),
            from <= end <= text@.len(),
            forall|i: int| from <= i < end ==> is_digit(#[trigger] text@[i]),
        decreases text@.len() - end,
    {
        assert(bytes@[end as int] == text@[end as int] as u8);
        end += 1;
    }
    proof {
        if end < text@.len() {
            assert(bytes@[end as int] == text@[end as int] as u8);
        }
        let rest = text@.skip(from as int);
        assert forall|i: int| 0 <= i < end - from implies is_digit(#[trigger] rest[i]) by {
            assert(rest[i] == text@[from + i]);
        }
        lemma_digit_prefix_len(rest, end - from);
    }
    end
}

impl Decimal {
    /// Reads a decimal number from text, exactly: every digit is kept.
    pub fn parse(text: &str) -> (r: Option<Decimal>)
        ensures
            decimal_option_view(r) == parse_decimal(text@),
    {
        if !text.is_ascii() {
            proof {
                lemma_not_ascii_not_decimal(text@);
            }
            return None;
        }
        broadcast use is_ascii_spec_bytes;

        let len = text.as_bytes().len();
        let negative = len > 0 && text.as_bytes()[0] == 45;
        proof {
            if len > 0 {
                assert(text.spec_bytes()[0] == text@[0] as u8);
            }
        }
        let start: usize = if negative {
            1
        } else {
            0
        };
        let ghost body = text@.skip(start as int);
        assert(parse_decimal(text@) == parse_unsigned(negative, body)) by {
            if !negative {
                assert(body =~= text@);
            }
        }
        let end = scan_digits(text, start);
        if end == start {
            return None;
        }
        if end == len {
            let whole = text.substring_ascii(start, end).to_owned();
            assert(whole@ =~= body);
            let r = Decimal { negative, whole, fraction: String::new() };
            return Some(r);
        }
        assert(text.spec_bytes()[end as int] == text@[end as int] as u8);
        assert(body[end - start] == text@[end as int]);
        if text.as_bytes()[end] != 46 || end + 1 >= len {
            return None;
        }
        let last = scan_digits(text, end + 1);
        let ghost tail = body.skip(end - start + 1);
        assert(tail =~= text@.skip(end + 1));
        if last != len {
            assert(!is_digit(tail[last - end - 1]));
            return None;
        }
        assert(all_digits(tail)) by {
            assert forall|i: int| 0 <= i < tail.len() implies is_digit(#[trigger] tail[i]) by {
                assert(tail[i] == text@[end + 1 + i]);
            }
        }
        let whole = text.substring_ascii(start, end).to_owned();
        let fraction = text.substring_ascii(end + 1, len).to_owned();
        assert(whole@ =~= body.take(end - start));
        assert(fraction@ =~= tail);
        Some(Decimal { negative, whole, fraction })
    }

    /// The decimal number of an integer: its digits, and none behind the
    /// point.
    pub fn from_integer(n: i64) -> (d: Decimal)
        ensures
            d@ == (DecimalView {
                negative: n < 0,
                whole: decimal_digits(vstd::math::abs(n as int)),
                fraction: Seq::empty(),
            }),
            d@.wf(),
    {
        let magnitude: u128 = if n < 0 {
            (-(n as i128)) as u128
        } else {
            n as u128
        };
        proof {
            lemma_decimal_digits_shape(magnitude as nat);
        }
        Decimal { negative: n < 0, whole: decimal_string(magnitude), fraction: String::new() }
    }

    /// Whether the number carries a minus sign.
    pub fn is_negative(&self) -> (b: bool)
        ensures
            b == self@.negative,
    {
        self.negative
    }

    /// The digits before the point.
    pub fn whole_digits(&self) -> (text: &str)
        ensures
            text@ == self@.whole,
    {
        self.whole.as_str()
    }

    /// The digits behind the point.
    pub fn fraction_digits(&self) -> (text: &str)
        ensures
            text@ == self@.fraction,
    {
        self.fraction.as_str()
    }

    /// The number written out.
    pub fn to_text(&self) -> (text: String)
        ensures
            text@ == self@.text(),
    {
        proof {
            reveal_strlit("-");
            reveal_strlit(".");
        }
        let mut text = String::new();
        if self.negative {
            text.append("-");
        }
        text.append(self.whole.as_str());
        if self.fraction.as_str().unicode_len() > 0 {
            text.append(".");
            text.append(self.fraction.as_str());
        }
        assert(text@ =~= self@.text());
        text
    }
}

/// A text with a character outside ASCII is no decimal number and no
/// timestamp.
pub proof fn lemma_not_ascii_not_decimal(text: Seq<char>)
    requires
        !vstd::utf8::is_ascii_chars(text),
    ensures
        parse_decimal(text) is None,
        parse_timestamp(text) is None,
{
    let k = choose|k: int| 0 <= k < text.len() && !('\0' <= #[trigger] text[k] <= '\u{7f}');
    assert(!is_digit(text[k]) && text[k] != '-' && text[k] != '.');
    if parse_decimal(text) is Some {
        lemma_parse_decimal_exact(text);
        let d = parse_decimal(text)->0;
        let sign: Seq<char> = if d.negative {
            seq!['-']
        } else {
            Seq::empty()
        };
        let tail: Seq<char> = if d.fraction.len() > 0 {
            seq!['.'] + d.fraction
        } else {
            Seq::empty()
        };
        assert(text == sign + d.whole + tail);
        if k < sign.len() {
        } else if k < sign.len() + d.whole.len() {
            assert(text[k] == d.whole[k - sign.len()]);
        } else {
            let j = k - sign.len() - d.whole.len();
            assert(text[k] == tail[j]);
            if j > 0 {
                assert(tail[j] == d.fraction[j - 1]);
            }
        }
    }
}

/// Reads a timestamp in milliseconds from its digits.
pub fn parse_timestamp_text(text: &str) -> (r: Option<u64>)
    ensures
        r == parse_timestamp(text@),
{
    if !text.is_ascii() {
        proof {
            lemma_not_ascii_not_decimal(text@);
        }
        return None;
    }
    broadcast use is_ascii_spec_bytes;

    let bytes = text.as_bytes();
    let len = bytes.len();
    if len == 0 {
        return None;
    }
    let mut value: u64 = 0;
    let mut i: usize = 0;
    while i < len
        invariant
            is_ascii(text),
            bytes@ == text.spec_bytes(),
            len == text@.len(),
            0 <= i <= len,
            all_digits(text@.take(i as int)),
            value == decimal_value(text@.take(i as int)),
        decreases len - i,
    {
        let b = bytes[i];
        assert(b == text@[i as int] as u8);
        let ghost next = text@.take(i + 1);
        assert(next.drop_last() =~= text@.take(i as int));
        assert(next.last() == text@[i as int]);
        if b < 48 || b > 57 {
            assert(!is_digit(text@[i as int]));
            return None;
        }
        let digit = (b - 48) as u64;
        if value > (u64::MAX - digit) / 10 {
            proof {
                assert(decimal_value(next) > u64::MAX);
                lemma_decimal_value_prefix(text@, i + 1);
            }
            return None;
        }
        value = value * 10 + digit;
        assert(all_digits(next)) by {
            assert forall|j: int| 0 <= j < next.len() implies is_digit(#[trigger] next[j]) by {
                if j < i {
                    assert(next[j] == text@.take(i as int)[j]);
                }
            }
        }
        i += 1;
    }
    assert(text@.take(len as int) =~= text@);
    Some(value)
}

} // verus!
