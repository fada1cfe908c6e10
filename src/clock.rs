//! Timestamps shown on the pages: an instant in UTC held as calendar fields,
//! and the text forms the pages print.
use crate::text::{padded, padded_text, push_char};
use chrono::{Datelike, Timelike};
use vstd::prelude::*;

verus! {

/// An instant in UTC as calendar and clock fields.
///
/// `nanosecond` counts from the start of the second; values from one billion
/// on mark a leap second.
#[derive(Clone, Copy, Debug, PartialEq, Eq, Structural)]
pub struct UtcDateTime {
    pub year: i32,
    pub month: u32,
    pub day: u32,
    pub hour: u32,
    pub minute: u32,
    pub second: u32,
    pub nanosecond: u32,
}

impl UtcDateTime {
    /// The ranges that calendar and clock fields keep.
    pub open spec fn wf(&self) -> bool {
        &&& 1 <= self.month <= 12
        &&& 1 <= self.day <= 31
        &&& self.hour <= 23
        &&& self.minute <= 59
        &&& self.second <= 59
        &&& self.nanosecond <= 1_999_999_999
    }

    /// The second as printed: a leap second shows as one more.
    pub open spec fn shown_second(&self) -> nat {
        (self.second + self.nanosecond / 1_000_000_000) as nat
    }

    /// `HH:MM:SS UTC`.
    pub open spec fn clock_view(&self) -> Seq<char> {
        padded(self.hour as nat, 2) + seq![':'] + padded(self.minute as nat, 2) + seq![':']
            + padded(self.shown_second(), 2) + " UTC"@
    }

    /// `YYYY-MM-DD HH:MM:SS UTC`.
    pub open spec fn date_time_view(&self) -> Seq<char> {
        year_view(self.year as int) + seq!['-'] + padded(self.month as nat, 2) + seq!['-']
            + padded(self.day as nat, 2) + seq![' '] + self.clock_view()
    }

    /// The time of day as `HH:MM:SS UTC`.
    pub fn clock_text(&self) -> (r: String)
        ensures
            r@ == self.clock_view(),
    {
        let mut r = padded_text(self.hour as u64, 2);
        push_char(&mut r, ':');
        let m = padded_text(self.minute as u64, 2);
        r.append(m.as_str());
        push_char(&mut r, ':');
        let shown: u64 = self.second as u64 + (self.nanosecond / 1_000_000_000) as u64;
        let s = padded_text(shown, 2);
        r.append(s.as_str());
        r.append(" UTC");
        r
    }

    /// The instant as `YYYY-MM-DD HH:MM:SS UTC`.
    pub fn date_time_text(&self) -> (r: String)
        ensures
            r@ == self.date_time_view(),
    {
        let mut r = year_text(self.year);
        push_char(&mut r, '-');
        let mo = padded_text(self.month as u64, 2);
        r.append(mo.as_str());
        push_char(&mut r, '-');
        let d = padded_text(self.day as u64, 2);
        r.append(d.as_str());
        push_char(&mut r, ' ');
        let c = self.clock_text();
        r.append(c.as_str());
        assert(r@ =~= self.date_time_view());
        r
    }
}

/// A year as printed: four digits from 0 to 9999, else a sign and at least four digits.
pub open spec fn year_view(y: int) -> Seq<char> {
    if 0 <= y <= 9999 {
        padded(y as nat, 4)
    } else if y < 0 {
        seq!['-'] + padded((-y) as nat, 4)
    } else {
        seq!['+'] + padded(y as nat, 4)
    }
}

/// A year as printed: four digits from 0 to 9999, else a sign and at least four digits.
pub fn year_text(y: i32) -> (r: String)
    ensures
        r@ == year_view(y as int),
{
    if 0 <= y && y <= 9999 {
        padded_text(y as u64, 4)
    } else {
        let mut r = String::new();
        let magnitude: u64 = if y < 0 {
            push_char(&mut r, '-');
            (-(y as i64)) as u64
        } else {
            push_char(&mut r, '+');
            y as u64
        };
        let p = padded_text(magnitude, 4);
        r.append(p.as_str());
        r
    }
}

/// What an RFC 3339 text denotes, moved to UTC; `None` where it is no such text.
pub uninterp spec fn rfc3339_in_utc(s: Seq<char>) -> Option<UtcDateTime>;

/// Relies on chrono's `DateTime::parse_from_rfc3339`, then `with_timezone(&Utc)`
/// and the `Datelike` / `Timelike` field getters, whose documented ranges
/// `wf` restates.
#[verifier::external_body]
fn parse_rfc3339_utc(s: &str) -> (r: Option<UtcDateTime>)
    ensures
        r == rfc3339_in_utc(s@),
        r matches Some(d) ==> d.wf(),
{
    match chrono::DateTime::parse_from_rfc3339(s) {
        Ok(dt) => {
            let u = dt.with_timezone(&chrono::Utc);
            Some(UtcDateTime {
                year: u.year(),
                month: u.month(),
                day: u.day(),
                hour: u.hour(),
                minute: u.minute(),
                second: u.second(),
                nanosecond: u.nanosecond(),
            })
        },
        Err(_) => None,
    }
}

/// What a timestamp field shows: an RFC 3339 instant as `YYYY-MM-DD HH:MM:SS UTC`,
/// any other text as it is.
pub open spec fn timestamp_view(ts: Seq<char>) -> Seq<char> {
    match rfc3339_in_utc(ts) {
        Some(d) => d.date_time_view(),
        None => ts,
    }
}

/// Shows an RFC 3339 instant as `YYYY-MM-DD HH:MM:SS UTC`; other text is kept.
pub fn format_timestamp(ts: &str) -> (r: String)
    ensures
        r@ == timestamp_view(ts@),
{
    match parse_rfc3339_utc(ts) {
        Some(d) => d.date_time_text(),
        None => ts.to_owned(),
    }
}

} // verus!
