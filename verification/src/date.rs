//! Calendar dates of the proleptic Gregorian calendar, in the range that
//! `chrono::NaiveDate` supports. Parsing, formatting and day arithmetic are
//! done by `chrono`; this module holds the date as plain values.
use vstd::prelude::*;
use crate::text::{decimal, zero_pad};
use chrono::Datelike;

verus! {

/// Earliest year that `chrono::NaiveDate` represents.
pub const MIN_YEAR: i32 = -262143;

/// Latest year that `chrono::NaiveDate` represents.
pub const MAX_YEAR: i32 = 262142;

pub open spec fn is_leap_year(y: int) -> bool {
    (y % 4 == 0 && y % 100 != 0) || y % 400 == 0
}

pub open spec fn days_in_month(y: int, m: int) -> int {
    if m == 2 {
        if is_leap_year(y) {
            29
        } else {
            28
        }
    } else if m == 4 || m == 6 || m == 9 || m == 11 {
        30
    } else {
        31
    }
}

/// `(y, m, d)` names an existing day within chrono's range.
pub open spec fn valid_ymd(y: int, m: int, d: int) -> bool {
    &&& MIN_YEAR <= y <= MAX_YEAR
    &&& 1 <= m <= 12
    &&& 1 <= d <= days_in_month(y, m)
}

/// Strict chronological order on `(year, month, day)` triples.
pub open spec fn date_lt(a: (int, int, int), b: (int, int, int)) -> bool {
    ||| a.0 < b.0
    ||| (a.0 == b.0 && a.1 < b.1)
    ||| (a.0 == b.0 && a.1 == b.1 && a.2 < b.2)
}

pub open spec fn date_le(a: (int, int, int), b: (int, int, int)) -> bool {
    date_lt(a, b) || a == b
}

/// The following day.
pub open spec fn following_day(v: (int, int, int)) -> (int, int, int) {
    if v.2 < days_in_month(v.0, v.1) {
        (v.0, v.1, v.2 + 1)
    } else if v.1 < 12 {
        (v.0, v.1 + 1, 1)
    } else {
        (v.0 + 1, 1, 1)
    }
}

/// Text of a year as chrono's `%Y` writes it: four digits, zero padded, for
/// years 0 to 9999; otherwise an explicit sign followed by at least four digits.
pub open spec fn year_text(y: int) -> Seq<char> {
    if 0 <= y <= 9999 {
        zero_pad(decimal(y as nat), 4)
    } else if y > 9999 {
        seq!['+'] + zero_pad(decimal(y as nat), 4)
    } else {
        seq!['-'] + zero_pad(decimal((-y) as nat), 4)
    }
}

/// Text of a date as chrono's `%Y-%m-%d` writes it.
pub open spec fn iso_date_text(v: (int, int, int)) -> Seq<char> {
    year_text(v.0) + seq!['-'] + zero_pad(decimal(v.1 as nat), 2) + seq!['-'] + zero_pad(
        decimal(v.2 as nat),
        2,
    )
}

/// A day of the calendar.
#[derive(Clone, Copy, Debug, PartialEq, Eq, Hash, Structural)]
pub struct Date {
    year: i32,
    month: u32,
    day: u32,
}

impl Date {
    #[verifier::type_invariant]
    spec fn inv(self) -> bool {
        valid_ymd(self.year as int, self.month as int, self.day as int)
    }

    /// `(year, month, day)`.
    pub closed spec fn view(self) -> (int, int, int) {
        (self.year as int, self.month as int, self.day as int)
    }

    /// Views determine dates.
    pub broadcast proof fn lemma_view_injective(a: Date, b: Date)
        ensures
            #![trigger a@, b@]
            a@ == b@ <==> a == b,
    {
    }

    /// Every date names an existing day of the supported range; a caller
    /// learns it of `self` by calling this.
    pub fn validity(&self)
        ensures
            valid_ymd(self@.0, self@.1, self@.2),
    {
        proof {
            use_type_invariant(self);
        }
    }

    /// The date with the given year, month and day, or `None` when that day
    /// does not exist or lies outside the supported range.
    pub fn from_ymd_opt(year: i32, month: u32, day: u32) -> (r: Option<Date>)
        ensures
            r is Some <==> valid_ymd(year as int, month as int, day as int),
            r matches Some(d) ==> d@ == (year as int, month as int, day as int),
    {
        if year < MIN_YEAR || year > MAX_YEAR || month < 1 || month > 12 || day < 1 {
            return None;
        }
        let leap = (year % 4 == 0 && year % 100 != 0) || year % 400 == 0;
        assert(leap == is_leap_year(year as int));
        let limit: u32 = if month == 2 {
            if leap {
                29
            } else {
                28
            }
        } else if month == 4 || month == 6 || month == 9 || month == 11 {
            30
        } else {
            31
        };
        if day > limit {
            None
        } else {
            Some(Date { year, month, day })
        }
    }

    pub fn year(&self) -> (r: i32)
        ensures
            r == self@.0,
    {
        self.year
    }

    pub fn month(&self) -> (r: u32)
        ensures
            r == self@.1,
    {
        self.month
    }

    pub fn day(&self) -> (r: u32)
        ensures
            r == self@.2,
    {
        self.day
    }

    /// Whether both are the same day.
    pub fn same_day(&self, other: &Date) -> (r: bool)
        ensures
            r == (self@ == other@),
    {
        self.year == other.year && self.month == other.month && self.day == other.day
    }

    /// Whether `self` comes strictly before `other`.
    pub fn is_before(&self, other: &Date) -> (r: bool)
        ensures
            r == date_lt(self@, other@),
    {
        self.year < other.year || (self.year == other.year && self.month < other.month) || (
        self.year == other.year && self.month == other.month && self.day < other.day)
    }

    /// The following day (`NaiveDate::checked_add_days` with one day); `None`
    /// only for the last supported day.
    pub fn next_day(&self) -> (r: Option<Date>)
        ensures
            r is None <==> self@ == (MAX_YEAR as int, 12int, 31int),
            r matches Some(n) ==> n@ == following_day(self@),
    {
        chrono_add_one_day(*self)
    }

    /// `%Y-%m-%d` text of the date.
    pub fn iso_text(&self) -> (r: String)
        ensures
            r@ == iso_date_text(self@),
    {
        chrono_format_date(*self, DASHED_FORMAT)
    }

    /// `%Y年%m月%d日` text of the date.
    pub fn cn_text(&self) -> (r: String)
        ensures
            r@ == cn_date_text(self@),
    {
        chrono_format_date(*self, CN_FORMAT)
    }
}

/// Calls `chrono::NaiveDate::checked_add_days` with one day. chrono documents
/// that it gives the next calendar day and `None` past `NaiveDate::MAX`
/// (the last day of `MAX_YEAR`).
#[verifier::external_body]
fn chrono_add_one_day(d: Date) -> (r: Option<Date>)
    ensures
        r is None <==> d@ == (MAX_YEAR as int, 12int, 31int),
        r matches Some(n) ==> n@ == following_day(d@),
{
    chrono::NaiveDate::from_ymd_opt(d.year, d.month, d.day)
        .and_then(|x| x.checked_add_days(chrono::Days::new(1)))
        .map(|x| Date { year: x.year(), month: x.month(), day: x.day() })
}

/// Calls `chrono::NaiveDate::format`. chrono writes `%Y` as four
/// zero-padded digits for years 0 to 9999 and with an explicit sign
/// otherwise, `%m` and `%d` as two zero-padded digits, and other characters
/// of the layout as they are. chrono panics on a layout it cannot read, so
/// only the two layouts this library uses are admitted.
#[verifier::external_body]
fn chrono_format_date(d: Date, format: &str) -> (r: String)
    requires
        format@ == DASHED_FORMAT@ || format@ == CN_FORMAT@,
    ensures
        format@ == DASHED_FORMAT@ ==> r@ == iso_date_text(d@),
        format@ == CN_FORMAT@ ==> r@ == cn_date_text(d@),
{
    match chrono::NaiveDate::from_ymd_opt(d.year, d.month, d.day) {
        Some(x) => x.format(format).to_string(),
        None => String::new(),
    }
}

/// chrono's layout for dates written the Chinese way, `YYYY年MM月DD日`.
pub const CN_FORMAT: &'static str = "%Y年%m月%d日";

/// Text of a date as chrono's `%Y年%m月%d日` writes it.
pub open spec fn cn_date_text(v: (int, int, int)) -> Seq<char> {
    year_text(v.0) + seq!['年'] + zero_pad(decimal(v.1 as nat), 2) + seq!['月'] + zero_pad(
        decimal(v.2 as nat),
        2,
    ) + seq!['日']
}

/// What `chrono::NaiveDate::parse_from_str(text, format)` gives, as
/// `(year, month, day)`.
pub uninterp spec fn naive_date_parse(text: Seq<char>, format: Seq<char>) -> Option<(int, int, int)>;

/// Four ASCII digits `s[i..i + n]` as a number.
pub open spec fn digits_value(s: Seq<char>, i: int, n: int) -> int
    decreases n,
{
    if n <= 0 {
        0
    } else {
        digits_value(s, i, n - 1) * 10 + (s[i + n - 1] as int - '0' as int)
    }
}

pub open spec fn all_digits(s: Seq<char>, i: int, n: int) -> bool {
    forall|k: int| i <= k < i + n ==> '0' <= #[trigger] s[k] <= '9'
}

/// `s` is `YYYY-MM-DD` with ASCII digits.
pub open spec fn is_dashed_date_text(s: Seq<char>) -> bool {
    &&& s.len() == 10
    &&& all_digits(s, 0, 4)
    &&& s[4] == '-'
    &&& all_digits(s, 5, 2)
    &&& s[7] == '-'
    &&& all_digits(s, 8, 2)
}

/// `s` is `YYYYMMDD` with ASCII digits.
pub open spec fn is_compact_date_text(s: Seq<char>) -> bool {
    s.len() == 8 && all_digits(s, 0, 8)
}

/// The date that an exact `YYYY-MM-DD` text spells, if it exists.
pub open spec fn dashed_date_fields(s: Seq<char>) -> Option<(int, int, int)> {
    let v = (digits_value(s, 0, 4), digits_value(s, 5, 2), digits_value(s, 8, 2));
    if is_dashed_date_text(s) && valid_ymd(v.0, v.1, v.2) {
        Some(v)
    } else {
        None
    }
}

/// The date that an exact `YYYYMMDD` text spells, if it exists.
pub open spec fn compact_date_fields(s: Seq<char>) -> Option<(int, int, int)> {
    let v = (digits_value(s, 0, 4), digits_value(s, 4, 2), digits_value(s, 6, 2));
    if is_compact_date_text(s) && valid_ymd(v.0, v.1, v.2) {
        Some(v)
    } else {
        None
    }
}

/// chrono's layout for `YYYY-MM-DD`.
pub const DASHED_FORMAT: &'static str = "%Y-%m-%d";

/// chrono's layout for `YYYYMMDD`.
pub const COMPACT_FORMAT: &'static str = "%Y%m%d";

/// A text that spells a date exactly is read as that date.
pub open spec fn exact_reading(r: Option<Date>, exact: Option<(int, int, int)>) -> bool {
    exact matches Some(v) ==> r matches Some(d) && d@ == v
}

/// Calls `chrono::NaiveDate::parse_from_str`. chrono only yields dates that
/// exist, and it reads a text that spells a date exactly in the given
/// numeric layout (`%Y-%m-%d` or `%Y%m%d`) as that date. What it accepts
/// beyond those exact layouts (leading blanks, one-digit fields, signs) is
/// left to the name `naive_date_parse`.
#[verifier::external_body]
fn chrono_parse_date(text: &str, format: &str) -> (r: Option<Date>)
    ensures
        r is Some <==> naive_date_parse(text@, format@) is Some,
        r matches Some(d) ==> naive_date_parse(text@, format@) == Some(d@),
        format@ == DASHED_FORMAT@ ==> exact_reading(r, dashed_date_fields(text@)),
        format@ == COMPACT_FORMAT@ ==> exact_reading(r, compact_date_fields(text@)),
{
    chrono::NaiveDate::parse_from_str(text, format).ok().map(
        |x| Date { year: x.year(), month: x.month(), day: x.day() },
    )
}

/// Date written as `%Y-%m-%d`, as chrono reads it.
pub fn parse_dashed_date(text: &str) -> (r: Option<Date>)
    ensures
        match r {
            Some(d) => naive_date_parse(text@, DASHED_FORMAT@) == Some(d@),
            None => naive_date_parse(text@, DASHED_FORMAT@) is None,
        },
        exact_reading(r, dashed_date_fields(text@)),
{
    chrono_parse_date(text, DASHED_FORMAT)
}

/// Date written as `%Y%m%d`, as chrono reads it.
pub fn parse_compact_date(text: &str) -> (r: Option<Date>)
    ensures
        match r {
            Some(d) => naive_date_parse(text@, COMPACT_FORMAT@) == Some(d@),
            None => naive_date_parse(text@, COMPACT_FORMAT@) is None,
        },
        exact_reading(r, compact_date_fields(text@)),
{
    chrono_parse_date(text, COMPACT_FORMAT)
}

} // verus!
