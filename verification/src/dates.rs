//! Day boxes: a `YYYY-MM-DD` typed by hand, read by chrono, and what the
//! season and exchange editors do with it.

use vstd::prelude::*;
use chrono::Datelike;
use crate::numbers::{trimmed, trim_text};
use crate::textutil::{decimal, push_char, push_decimal};
use crate::tuning::{ExchangeTuning, MarketTuning};

verus! {

/// A calendar day.
#[derive(Clone, Copy, Debug, PartialEq, Eq, Structural)]
pub struct CalendarDay {
    pub year: i32,
    pub month: u32,
    pub day: u32,
}

/// The day chrono's `NaiveDate::parse_from_str(text, format)` reads from
/// `text`, as (year, month, day), or `None` where it refuses.
pub uninterp spec fn parsed_day(text: Seq<char>, format: Seq<char>) -> Option<(i32, u32, u32)>;

/// `chrono::NaiveDate::parse_from_str`, the day handed back as its year,
/// month and day (`Datelike`). Claimed of chrono: the result is a function
/// of the text and the format alone, named `parsed_day`; which texts a
/// format accepts is left to chrono.
#[verifier::external_body]
fn parse_day(text: &str, format: &str) -> (day: Option<CalendarDay>)
    ensures
        match day {
            Some(d) => parsed_day(text@, format@) == Some((d.year, d.month, d.day)),
            None => parsed_day(text@, format@) is None,
        },
{
    match chrono::NaiveDate::parse_from_str(text, format) {
        Ok(date) => Some(CalendarDay { year: date.year(), month: date.month(), day: date.day() }),
        Err(_) => None,
    }
}

/// The day a `YYYY-MM-DD` box holds, read by chrono.
pub open spec fn iso_day(text: Seq<char>) -> Option<(i32, u32, u32)> {
    parsed_day(text, "%Y-%m-%d"@)
}

/// `n` written with at least `width` digits, zeros in front.
pub open spec fn zero_padded(n: nat, width: nat) -> Seq<char>
    decreases width,
{
    if decimal(n).len() >= width {
        decimal(n)
    } else {
        seq!['0'] + zero_padded(n, (width - 1) as nat)
    }
}

/// A day as chrono displays a `NaiveDate`: years 0 to 9999 as four digits,
/// other years signed and padded to four digits; month and day as two.
pub open spec fn day_text(d: CalendarDay) -> Seq<char> {
    let year = if 0 <= d.year <= 9999 {
        zero_padded(d.year as nat, 4)
    } else if d.year < 0 {
        seq!['-'] + zero_padded((-d.year) as nat, 4)
    } else {
        seq!['+'] + zero_padded(d.year as nat, 4)
    };
    year + seq!['-'] + zero_padded(d.month as nat, 2) + seq!['-'] + zero_padded(d.day as nat, 2)
}

proof fn lemma_decimal_len_grows(n: nat)
    ensures
        decimal(n).len() >= 1,
        n >= 10 ==> decimal(n).len() >= 2,
        n >= 100 ==> decimal(n).len() >= 3,
        n >= 1000 ==> decimal(n).len() >= 4,
        n < 10 ==> decimal(n).len() == 1,
        10 <= n < 100 ==> decimal(n).len() == 2,
        100 <= n < 1000 ==> decimal(n).len() == 3,
    decreases n,
{
    if n >= 10 {
        lemma_decimal_len_grows(n / 10);
    }
}

fn push_padded(out: &mut String, n: u64, width: u64)
    requires
        width <= 4,
    ensures
        final(out)@ == old(out)@ + zero_padded(n as nat, width as nat),
{
    proof {
        lemma_decimal_len_grows(n as nat);
    }
    let digits: u64 = if n < 10 {
        1
    } else if n < 100 {
        2
    } else if n < 1000 {
        3
    } else {
        4
    };
    let mut zeros: u64 = if digits < width { width - digits } else { 0 };
    let ghost start = old(out)@;
    let mut w: u64 = width;
    while zeros > 0
        invariant
            zeros <= w <= width <= 4,
            digits >= 1,
            zeros == (if digits < w { w - digits } else { 0 }),
            (n < 1000 ==> decimal(n as nat).len() == digits),
            (n >= 1000 ==> decimal(n as nat).len() >= 4),
            (n >= 1000 ==> digits == 4),
            start + zero_padded(n as nat, width as nat) == out@ + zero_padded(n as nat, w as nat),
        decreases zeros,
    {
        let ghost before = out@;
        push_char(out, '0');
        proof {
            assert(decimal(n as nat).len() < w);
            assert(zero_padded(n as nat, w as nat) == seq!['0'] + zero_padded(n as nat, (w - 1) as nat));
            assert(out@ + zero_padded(n as nat, (w - 1) as nat) =~= before + zero_padded(n as nat, w as nat));
        }
        zeros = zeros - 1;
        w = w - 1;
    }
    proof {
        assert(decimal(n as nat).len() >= w);
        assert(zero_padded(n as nat, w as nat) == decimal(n as nat));
    }
    push_decimal(out, n as u128);
}

/// A day as chrono displays it, `YYYY-MM-DD`.
pub fn day_string(d: CalendarDay) -> (s: String)
    ensures
        s@ == day_text(d),
{
    let mut s = String::new();
    let y = d.year as i64;
    if 0 <= y && y <= 9999 {
        push_padded(&mut s, y as u64, 4);
    } else if y < 0 {
        push_char(&mut s, '-');
        push_padded(&mut s, (-y) as u64, 4);
    } else {
        push_char(&mut s, '+');
        push_padded(&mut s, y as u64, 4);
    }
    push_char(&mut s, '-');
    push_padded(&mut s, d.month as u64, 2);
    push_char(&mut s, '-');
    push_padded(&mut s, d.day as u64, 2);
    assert(s@ =~= day_text(d));
    s
}

/// What a season boundary box asks for.
#[derive(Clone, Copy, Debug, PartialEq, Eq, Structural)]
pub enum SeasonBoundary {
    /// The box is empty: right now.
    Now,
    /// That UTC day's midnight.
    Midnight(CalendarDay),
    /// Not a `YYYY-MM-DD` day; refused (never silently "now").
    Refused,
}

/// What a season boundary box asks for: empty means now, a day means that
/// day's midnight, anything else is refused.
pub fn season_boundary(raw: &str) -> (b: SeasonBoundary)
    ensures
        trimmed(raw@).len() == 0 ==> b == SeasonBoundary::Now,
        trimmed(raw@).len() > 0 ==> match iso_day(trimmed(raw@)) {
            Some((year, month, day)) => b == SeasonBoundary::Midnight(CalendarDay { year, month, day }),
            None => b == SeasonBoundary::Refused,
        },
{
    let text = trim_text(raw);
    if text.as_str().is_empty() {
        return SeasonBoundary::Now;
    }
    match parse_day(text.as_str(), "%Y-%m-%d") {
        Some(day) => SeasonBoundary::Midnight(day),
        None => SeasonBoundary::Refused,
    }
}

/// What the exchange page's day box means: empty is back to live (the
/// empty setting), a day is that day in chrono's own spelling, anything else
/// is refused (`None`) and the setting stays.
pub open spec fn as_of_value(raw: Seq<char>) -> Option<Seq<char>> {
    if trimmed(raw).len() == 0 {
        Some(Seq::empty())
    } else {
        match iso_day(trimmed(raw)) {
            Some((year, month, day)) => Some(day_text(CalendarDay { year, month, day })),
            None => None,
        }
    }
}

/// Applies the exchange page's day box to the tuning: `None` when the box
/// does not hold a day (nothing changes; the caller logs it), otherwise
/// whether the setting changed.
pub fn apply_exchange_as_of(tuning: &mut MarketTuning, raw: &str) -> (outcome: Option<bool>)
    ensures
        as_of_value(raw@) is None ==> outcome is None && *final(tuning) == *old(tuning),
        as_of_value(raw@) is Some ==> {
            let v = as_of_value(raw@).unwrap();
            &&& outcome == Some(old(tuning).exchange.as_of_day@ != v)
            &&& final(tuning).exchange.as_of_day@ == v
            &&& final(tuning).exchange == (ExchangeTuning { as_of_day: final(tuning).exchange.as_of_day, ..old(tuning).exchange })
            &&& *final(tuning) == (MarketTuning { exchange: final(tuning).exchange, ..*old(tuning) })
        },
{
    let text = trim_text(raw);
    let value = if text.as_str().is_empty() {
        String::new()
    } else {
        match parse_day(text.as_str(), "%Y-%m-%d") {
            Some(day) => day_string(day),
            None => return None,
        }
    };
    assert(value@ == as_of_value(raw@).unwrap());
    Some(tuning.set_exchange_as_of(value))
}

} // verus!
