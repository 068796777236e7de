//! Calendar dates as plain year/month/day values.
//!
//! All date logic the library needs (successor and predecessor days,
//! adding a shelf-life offset, ordering) is defined here over the
//! proleptic Gregorian calendar and verified; nothing in this module
//! touches a clock.

use crate::text::{
    is_digit_char, digit_value, push_pad2, push_pad4, push_u64_digits, spec_digits, spec_pad2,
    spec_pad4, char_to_digit,
};
use vstd::prelude::*;

verus! {

/// Largest year the library works with; parsing and the clock stay far
/// below it, so day arithmetic never leaves the well-formed range.
pub const MAX_YEAR: i32 = 1000000;

/// A calendar date in the proleptic Gregorian calendar.
#[derive(Clone, Copy, Debug, PartialEq, Eq, Structural)]
pub struct Date {
    pub year: i32,
    pub month: u8,
    pub day: u8,
}

pub open spec fn is_leap_year(y: int) -> bool {
    y % 4 == 0 && (y % 100 != 0 || y % 400 == 0)
}

pub open spec fn days_in_month(y: int, m: int) -> int {
    if m == 2 {
        if is_leap_year(y) {
            29
        } else {
            28
        }
    } else if m == 4 || m == 6 || m == 9 || m == 11 {
        30
    } else {
        31
    }
}

/// Executable twin of [`is_leap_year`].
pub fn leap_year(y: i32) -> (r: bool)
    requires
        0 <= y,
    ensures
        r == is_leap_year(y as int),
{
    y % 4 == 0 && (y % 100 != 0 || y % 400 == 0)
}

/// Executable twin of [`days_in_month`].
pub fn month_length(y: i32, m: u8) -> (r: u8)
    requires
        0 <= y,
        1 <= m <= 12,
    ensures
        r as int == days_in_month(y as int, m as int),
{
    if m == 2 {
        if leap_year(y) {
            29
        } else {
            28
        }
    } else if m == 4 || m == 6 || m == 9 || m == 11 {
        30
    } else {
        31
    }
}

impl Date {
    /// A well-formed date: a real calendar day inside the year range the
    /// library supports.
    pub open spec fn wf(self) -> bool {
        &&& 0 <= self.year <= MAX_YEAR
        &&& 1 <= self.month <= 12
        &&& 1 <= self.day <= days_in_month(self.year as int, self.month as int)
    }

    /// The earliest well-formed date; the only one without a predecessor.
    pub open spec fn is_min(self) -> bool {
        self.year == 0 && self.month == 1 && self.day == 1
    }

    /// The day after `self`.
    pub open spec fn next(self) -> Date {
        if self.day < days_in_month(self.year as int, self.month as int) {
            Date { year: self.year, month: self.month, day: (self.day + 1) as u8 }
        } else if self.month < 12 {
            Date { year: self.year, month: (self.month + 1) as u8, day: 1 }
        } else {
            Date { year: (self.year + 1) as i32, month: 1, day: 1 }
        }
    }

    /// The day before `self`.
    pub open spec fn prev(self) -> Date {
        if self.day > 1 {
            Date { year: self.year, month: self.month, day: (self.day - 1) as u8 }
        } else if self.month > 1 {
            Date {
                year: self.year,
                month: (self.month - 1) as u8,
                day: days_in_month(self.year as int, self.month as int - 1) as u8,
            }
        } else {
            Date { year: (self.year - 1) as i32, month: 12, day: 31 }
        }
    }

    /// `self` advanced by `n` days.
    pub open spec fn plus_days(self, n: nat) -> Date
        decreases n,
    {
        if n == 0 {
            self
        } else {
            self.next().plus_days((n - 1) as nat)
        }
    }

    /// Ordering of calendar dates: `self` is on or before `other`.
    pub open spec fn le(self, other: Date) -> bool {
        ||| self.year < other.year
        ||| (self.year == other.year && self.month < other.month)
        ||| (self.year == other.year && self.month == other.month && self.day <= other.day)
    }

    /// Executable ordering test.
    pub fn leq(&self, other: &Date) -> (r: bool)
        ensures
            r == self.le(*other),
    {
        if self.year != other.year {
            self.year < other.year
        } else if self.month != other.month {
            self.month < other.month
        } else {
            self.day <= other.day
        }
    }

    /// Executable successor day.
    pub fn next_day(self) -> (r: Date)
        requires
            self.wf(),
            self.year < MAX_YEAR,
        ensures
            r == self.next(),
            r.wf(),
            r.year <= self.year + 1,
    {
        let dim = month_length(self.year, self.month);
        if self.day < dim {
            Date { year: self.year, month: self.month, day: self.day + 1 }
        } else if self.month < 12 {
            Date { year: self.year, month: self.month + 1, day: 1 }
        } else {
            Date { year: self.year + 1, month: 1, day: 1 }
        }
    }

    /// Executable predecessor day.
    pub fn prev_day(self) -> (r: Date)
        requires
            self.wf(),
            !self.is_min(),
        ensures
            r == self.prev(),
            r.wf(),
    {
        if self.day > 1 {
            Date { year: self.year, month: self.month, day: self.day - 1 }
        } else if self.month > 1 {
            let dim = month_length(self.year, self.month - 1);
            Date { year: self.year, month: self.month - 1, day: dim }
        } else {
            Date { year: self.year - 1, month: 12, day: 31 }
        }
    }

    /// Executable day-offset addition.
    pub fn add_days(self, n: u32) -> (r: Date)
        requires
            self.wf(),
            self.year + n <= MAX_YEAR,
        ensures
            r == self.plus_days(n as nat),
            r.wf(),
            r.year <= self.year + n,
    {
        let mut cur = self;
        let mut i: u32 = 0;
        while i < n
            invariant
                0 <= i <= n,
                cur.wf(),
                cur.year <= self.year + i,
                self.year + n <= MAX_YEAR,
                self.plus_days(n as nat) == cur.plus_days((n - i) as nat),
            decreases n - i,
        {
            cur = cur.next_day();
            i = i + 1;
        }
        cur
    }
}

/// The year written in decimal: four digits zero-padded, more only for
/// years past 9999.
pub open spec fn spec_year_digits(y: nat) -> Seq<char> {
    if y < 10000 {
        spec_pad4(y)
    } else {
        spec_digits(y)
    }
}

/// `YYYY-MM-DD`, the form dates take in stored rows.
pub open spec fn spec_iso_date(d: Date) -> Seq<char> {
    spec_year_digits(d.year as nat) + seq!['-'] + spec_pad2(d.month as nat) + seq!['-'] + spec_pad2(
        d.day as nat,
    )
}

/// `YYYYMMDDTHH0000Z`, the basic UTC stamp calendar links use, at a fixed
/// whole hour `h`.
pub open spec fn spec_compact_stamp(d: Date, h: nat) -> Seq<char> {
    spec_year_digits(d.year as nat) + spec_pad2(d.month as nat) + spec_pad2(d.day as nat)
        + seq!['T'] + spec_pad2(h) + seq!['0', '0', '0', '0', 'Z']
}

/// `YYYY-MM-DDTHH:00:00`, the extended stamp at a fixed whole hour `h`.
pub open spec fn spec_iso_stamp(d: Date, h: nat) -> Seq<char> {
    spec_iso_date(d) + seq!['T'] + spec_pad2(h) + seq![':', '0', '0', ':', '0', '0']
}

/// The English month name.
pub open spec fn spec_month_name(m: nat) -> Seq<char> {
    if m == 1 {
        "January"@
    } else if m == 2 {
        "February"@
    } else if m == 3 {
        "March"@
    } else if m == 4 {
        "April"@
    } else if m == 5 {
        "May"@
    } else if m == 6 {
        "June"@
    } else if m == 7 {
        "July"@
    } else if m == 8 {
        "August"@
    } else if m == 9 {
        "September"@
    } else if m == 10 {
        "October"@
    } else if m == 11 {
        "November"@
    } else {
        "December"@
    }
}

/// `Month DD, YYYY`, the human-readable date of the reminder summary.
pub open spec fn spec_human_date(d: Date) -> Seq<char> {
    spec_month_name(d.month as nat) + seq![' '] + spec_pad2(d.day as nat) + seq![',', ' ']
        + spec_year_digits(d.year as nat)
}

impl Date {
    /// Appends this date as `YYYY-MM-DD`.
    pub fn push_iso(self, out: &mut Vec<char>)
        requires
            self.wf(),
        ensures
            final(out)@ == old(out)@ + spec_iso_date(self),
    {
        if self.year < 10000 {
            push_pad4(out, self.year as u64);
        } else {
            push_u64_digits(out, self.year as u64);
        }
        out.push('-');
        push_pad2(out, self.month as u64);
        out.push('-');
        push_pad2(out, self.day as u64);
        assert(out@ =~= old(out)@ + spec_iso_date(self));
    }

    /// Appends this date as a basic UTC stamp at the whole hour `h`.
    pub fn push_compact_stamp(self, out: &mut Vec<char>, h: u8)
        requires
            self.wf(),
            h < 24,
        ensures
            final(out)@ == old(out)@ + spec_compact_stamp(self, h as nat),
    {
        if self.year < 10000 {
            push_pad4(out, self.year as u64);
        } else {
            push_u64_digits(out, self.year as u64);
        }
        push_pad2(out, self.month as u64);
        push_pad2(out, self.day as u64);
        out.push('T');
        push_pad2(out, h as u64);
        out.push('0');
        out.push('0');
        out.push('0');
        out.push('0');
        out.push('Z');
        assert(out@ =~= old(out)@ + spec_compact_stamp(self, h as nat));
    }

    /// Appends this date as an extended stamp at the whole hour `h`.
    pub fn push_iso_stamp(self, out: &mut Vec<char>, h: u8)
        requires
            self.wf(),
            h < 24,
        ensures
            final(out)@ == old(out)@ + spec_iso_stamp(self, h as nat),
    {
        self.push_iso(out);
        out.push('T');
        push_pad2(out, h as u64);
        out.push(':');
        out.push('0');
        out.push('0');
        out.push(':');
        out.push('0');
        out.push('0');
        assert(out@ =~= old(out)@ + spec_iso_stamp(self, h as nat));
    }

    /// Appends this date as `Month DD, YYYY`.
    pub fn push_human(self, out: &mut Vec<char>)
        requires
            self.wf(),
        ensures
            final(out)@ == old(out)@ + spec_human_date(self),
    {
        let m = self.month;
        if m == 1 {
            crate::text::append_str(out, "January");
        } else if m == 2 {
            crate::text::append_str(out, "February");
        } else if m == 3 {
            crate::text::append_str(out, "March");
        } else if m == 4 {
            crate::text::append_str(out, "April");
        } else if m == 5 {
            crate::text::append_str(out, "May");
        } else if m == 6 {
            crate::text::append_str(out, "June");
        } else if m == 7 {
            crate::text::append_str(out, "July");
        } else if m == 8 {
            crate::text::append_str(out, "August");
        } else if m == 9 {
            crate::text::append_str(out, "September");
        } else if m == 10 {
            crate::text::append_str(out, "October");
        } else if m == 11 {
            crate::text::append_str(out, "November");
        } else {
            crate::text::append_str(out, "December");
        }
        out.push(' ');
        push_pad2(out, self.day as u64);
        out.push(',');
        out.push(' ');
        if self.year < 10000 {
            push_pad4(out, self.year as u64);
        } else {
            push_u64_digits(out, self.year as u64);
        }
        assert(out@ =~= old(out)@ + spec_human_date(self));
    }

    /// This date as a `YYYY-MM-DD` string.
    pub fn iso_string(self) -> (r: String)
        requires
            self.wf(),
        ensures
            r@ == spec_iso_date(self),
    {
        let mut out: Vec<char> = Vec::new();
        self.push_iso(&mut out);
        crate::text::chars_to_string(&out)
    }
}

/// The result of reading a date written as `DD-MM-YYYY`: exactly ten
/// characters, two digit groups separated by `-`, naming a real calendar
/// day.
pub open spec fn spec_parse_dmy(s: Seq<char>) -> Option<Date> {
    if s.len() == 10 && s[2] == '-' && s[5] == '-' && is_digit_char(s[0]) && is_digit_char(s[1])
        && is_digit_char(s[3]) && is_digit_char(s[4]) && is_digit_char(s[6]) && is_digit_char(s[7])
        && is_digit_char(s[8]) && is_digit_char(s[9]) {
        let day = digit_value(s[0]) * 10 + digit_value(s[1]);
        let month = digit_value(s[3]) * 10 + digit_value(s[4]);
        let year = digit_value(s[6]) * 1000 + digit_value(s[7]) * 100 + digit_value(s[8]) * 10
            + digit_value(s[9]);
        if 1 <= month <= 12 && 1 <= day <= days_in_month(year, month) {
            Some(Date { year: year as i32, month: month as u8, day: day as u8 })
        } else {
            None
        }
    } else {
        None
    }
}

/// Reads a `DD-MM-YYYY` date.
pub fn parse_dmy(v: &Vec<char>) -> (r: Option<Date>)
    ensures
        r == spec_parse_dmy(v@),
        r is Some ==> r->0.wf() && r->0.year <= 9999,
{
    if v.len() != 10 {
        return None;
    }
    if !(v[2] == '-' && v[5] == '-') {
        return None;
    }
    let d0 = char_to_digit(v[0]);
    let d1 = char_to_digit(v[1]);
    let m0 = char_to_digit(v[3]);
    let m1 = char_to_digit(v[4]);
    let y0 = char_to_digit(v[6]);
    let y1 = char_to_digit(v[7]);
    let y2 = char_to_digit(v[8]);
    let y3 = char_to_digit(v[9]);
    match (d0, d1, m0, m1, y0, y1, y2, y3) {
        (
            Some(d0),
            Some(d1),
            Some(m0),
            Some(m1),
            Some(y0),
            Some(y1),
            Some(y2),
            Some(y3),
        ) => {
            let day: u32 = d0 as u32 * 10 + d1 as u32;
            let month: u32 = m0 as u32 * 10 + m1 as u32;
            let year: u32 = y0 as u32 * 1000 + y1 as u32 * 100 + y2 as u32 * 10 + y3 as u32;
            if 1 <= month && month <= 12 {
                let dim = month_length(year as i32, month as u8);
                if 1 <= day && day <= dim as u32 {
                    Some(Date { year: year as i32, month: month as u8, day: day as u8 })
                } else {
                    None
                }
            } else {
                None
            }
        },
        _ => None,
    }
}

/// A date never precedes itself strictly after adding days: adding any
/// number of days moves a well-formed date forward (or keeps it in place).
pub proof fn lemma_plus_days_le(d: Date, n: nat)
    requires
        d.wf(),
        d.year + n <= MAX_YEAR,
    ensures
        d.le(d.plus_days(n)),
        d.plus_days(n).wf(),
        d.plus_days(n).year <= d.year + n,
    decreases n,
{
    if n > 0 {
        lemma_plus_days_le(d.next(), (n - 1) as nat);
    }
}

} // verus!
