//! A wall-clock instant at second precision, and its two text forms.
use vstd::prelude::*;

verus! {

/// Earliest year that chrono's calendar dates can hold.
pub const MIN_YEAR: i32 = -262143;

/// Latest year that chrono's calendar dates can hold.
pub const MAX_YEAR: i32 = 262142;

pub open spec fn is_leap_year(y: int) -> bool {
    (y % 4 == 0 && y % 100 != 0) || y % 400 == 0
}

pub open spec fn days_in_month(y: int, m: int) -> int {
    if m == 2 {
        if is_leap_year(y) {
            29
        } else {
            28
        }
    } else if m == 4 || m == 6 || m == 9 || m == 11 {
        30
    } else {
        31
    }
}

pub open spec fn digit_char(d: nat) -> char
    recommends
        d < 10,
{
    seq!['0', '1', '2', '3', '4', '5', '6', '7', '8', '9'][d as int]
}

/// Decimal digits of `n`, left-padded with zeros to at least `width` digits.
pub open spec fn decimal(n: nat, width: nat) -> Seq<char>
    decreases n + width,
{
    if n < 10 && width <= 1 {
        seq![digit_char(n)]
    } else {
        decimal(n / 10, if width > 0 {
            (width - 1) as nat
        } else {
            0
        }).push(digit_char(n % 10))
    }
}

/// A year as `%Y` writes it: four digits within 0..=9999, otherwise a sign
/// and at least four digits.
pub open spec fn year_text(y: int) -> Seq<char> {
    if 0 <= y <= 9999 {
        decimal(y as nat, 4)
    } else if y < 0 {
        seq!['-'] + decimal((-y) as nat, 4)
    } else {
        seq!['+'] + decimal(y as nat, 4)
    }
}

pub open spec fn two_digits(n: int) -> Seq<char> {
    decimal(n as nat, 2)
}

/// A local date and time of day, to the second.
pub struct Timestamp {
    pub year: i32,
    pub month: u32,
    pub day: u32,
    pub hour: u32,
    pub minute: u32,
    pub second: u32,
}

impl Timestamp {
    /// A real calendar date within chrono's range, and a time of day without
    /// leap second.
    pub open spec fn wf(&self) -> bool {
        &&& MIN_YEAR <= self.year <= MAX_YEAR
        &&& 1 <= self.month <= 12
        &&& 1 <= self.day <= days_in_month(self.year as int, self.month as int)
        &&& self.hour < 24
        &&& self.minute < 60
        &&& self.second < 60
    }

    /// The form kept inside a record: `YYYY-MM-DD HH:MM:SS`.
    pub open spec fn record_text(&self) -> Seq<char> {
        year_text(self.year as int) + seq!['-'] + two_digits(self.month as int) + seq!['-']
            + two_digits(self.day as int) + seq![' '] + two_digits(self.hour as int) + seq![':']
            + two_digits(self.minute as int) + seq![':'] + two_digits(self.second as int)
    }

    /// The compact form used in file names: `YYYY-MM-DD_HHMMSS`.
    pub open spec fn stamp_text(&self) -> Seq<char> {
        year_text(self.year as int) + seq!['-'] + two_digits(self.month as int) + seq!['-']
            + two_digits(self.day as int) + seq!['_'] + two_digits(self.hour as int)
            + two_digits(self.minute as int) + two_digits(self.second as int)
    }

    /// The instant with these fields, where they name one.
    pub fn new(year: i32, month: u32, day: u32, hour: u32, minute: u32, second: u32) -> (r: Option<
        Timestamp,
    >)
        ensures
            r is Some <==> (Timestamp { year, month, day, hour, minute, second }).wf(),
            r is Some ==> r->0 == (Timestamp { year, month, day, hour, minute, second }),
    {
        if year < MIN_YEAR || year > MAX_YEAR || month < 1 || month > 12 || hour >= 24 || minute
            >= 60 || second >= 60 {
            return None;
        }
        let leap = (year % 4 == 0 && year % 100 != 0) || year % 400 == 0;
        let last: u32 = if month == 2 {
            if leap {
                29
            } else {
                28
            }
        } else if month == 4 || month == 6 || month == 9 || month == 11 {
            30
        } else {
            31
        };
        if day < 1 || day > last {
            return None;
        }
        Some(Timestamp { year, month, day, hour, minute, second })
    }

    /// The record form of this instant.
    pub fn record_date(&self) -> (r: String)
        requires
            self.wf(),
        ensures
            r@ == self.record_text(),
    {
        format_timestamp(self, "%Y-%m-%d %H:%M:%S")
    }

    /// The file-name form of this instant.
    pub fn file_stamp(&self) -> (r: String)
        requires
            self.wf(),
        ensures
            r@ == self.stamp_text(),
    {
        format_timestamp(self, "%Y-%m-%d_%H%M%S")
    }
}

pub open spec fn record_pattern() -> Seq<char> {
    "%Y-%m-%d %H:%M:%S"@
}

pub open spec fn stamp_pattern() -> Seq<char> {
    "%Y-%m-%d_%H%M%S"@
}

/// Relies on chrono's `NaiveDate::from_ymd_opt`, `NaiveDate::and_hms_opt` and
/// `NaiveDateTime::format`: a valid date and time are accepted, and the two
/// patterns write zero-padded fields (`%Y` with a sign outside 0..=9999).
#[verifier::external_body]
fn format_timestamp(t: &Timestamp, pattern: &str) -> (r: String)
    requires
        t.wf(),
        pattern@ == record_pattern() || pattern@ == stamp_pattern(),
    ensures
        pattern@ == record_pattern() ==> r@ == t.record_text(),
        pattern@ == stamp_pattern() ==> r@ == t.stamp_text(),
{
    let date = chrono::NaiveDate::from_ymd_opt(t.year, t.month, t.day).unwrap();
    date.and_hms_opt(t.hour, t.minute, t.second).unwrap().format(pattern).to_string()
}

/// Relies on chrono's conversion of the system clock into `DateTime<Local>`
/// (`From<SystemTime>`), which also takes a clock set before 1970: the local
/// wall-clock time, whose fields chrono keeps within a valid date and time (a
/// leap second reads as second 59).
#[verifier::external_body]
pub(crate) fn local_now() -> (r: Timestamp)
    ensures
        r.wf(),
{
    let now = chrono::DateTime::<chrono::Local>::from(std::time::SystemTime::now()).naive_local();
    Timestamp {
        year: chrono::Datelike::year(&now),
        month: chrono::Datelike::month(&now),
        day: chrono::Datelike::day(&now),
        hour: chrono::Timelike::hour(&now),
        minute: chrono::Timelike::minute(&now),
        second: chrono::Timelike::second(&now),
    }
}

} // verus!
