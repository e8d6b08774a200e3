//! The instant a record was issued, held as plain calendar fields.
//!
//! The only operations the sinks need from a time value are its civil
//! fields (for text layout) and a conversion to the machine's local
//! offset. The fields live here as plain integers with their ranges as
//! an invariant; the clock reading and the time-zone lookup are the two
//! trusted calls into the `time` and `bp3d_os` crates.

use vstd::prelude::*;
use vstd::string::StringExecFns;

verus! {

/// An absolute instant with its civil (calendar) fields.
///
/// `weekday` counts days from Sunday, so `0` is Sunday and `6` is
/// Saturday. The civil fields describe the instant in some fixed offset
/// (UTC when produced by [`Timestamp::now_utc`]); `unix_seconds` always
/// counts from the Unix epoch in UTC.
#[derive(Clone, Copy, Debug, PartialEq, Eq, Structural)]
pub struct Timestamp {
    unix_seconds: i64,
    year: i32,
    month: u8,
    day: u8,
    weekday: u8,
    hour: u8,
    minute: u8,
    second: u8,
}

impl Timestamp {
    /// Every civil field lies in its calendar range.
    pub open spec fn wf(self) -> bool {
        &&& -9999 <= self.spec_year() <= 9999
        &&& 1 <= self.spec_month() <= 12
        &&& 1 <= self.spec_day() <= 31
        &&& self.spec_weekday() < 7
        &&& self.spec_hour() < 24
        &&& self.spec_minute() < 60
        &&& self.spec_second() < 60
    }

    /// Seconds since the Unix epoch, at the specification level.
    pub closed spec fn spec_unix_seconds(self) -> i64 {
        self.unix_seconds
    }

    /// The year, at the specification level.
    pub closed spec fn spec_year(self) -> i32 {
        self.year
    }

    /// The month (1 to 12), at the specification level.
    pub closed spec fn spec_month(self) -> u8 {
        self.month
    }

    /// The day of the month (1 to 31), at the specification level.
    pub closed spec fn spec_day(self) -> u8 {
        self.day
    }

    /// Days since Sunday (0 to 6), at the specification level.
    pub closed spec fn spec_weekday(self) -> u8 {
        self.weekday
    }

    /// The hour (0 to 23), at the specification level.
    pub closed spec fn spec_hour(self) -> u8 {
        self.hour
    }

    /// The minute (0 to 59), at the specification level.
    pub closed spec fn spec_minute(self) -> u8 {
        self.minute
    }

    /// The second (0 to 59), at the specification level.
    pub closed spec fn spec_second(self) -> u8 {
        self.second
    }

    /// Builds a timestamp from plain fields, refusing out-of-range ones.
    pub fn new(
        unix_seconds: i64,
        year: i32,
        month: u8,
        day: u8,
        weekday: u8,
        hour: u8,
        minute: u8,
        second: u8,
    ) -> (r: Option<Timestamp>)
        ensures
            r is Some <==> {
                &&& -9999 <= year <= 9999
                &&& 1 <= month <= 12
                &&& 1 <= day <= 31
                &&& weekday < 7
                &&& hour < 24
                &&& minute < 60
                &&& second < 60
            },
            r is Some ==> {
                let t = r->Some_0;
                &&& t.wf()
                &&& t.spec_unix_seconds() == unix_seconds
                &&& t.spec_year() == year
                &&& t.spec_month() == month
                &&& t.spec_day() == day
                &&& t.spec_weekday() == weekday
                &&& t.spec_hour() == hour
                &&& t.spec_minute() == minute
                &&& t.spec_second() == second
            },
    {
        if -9999 <= year && year <= 9999 && 1 <= month && month <= 12 && 1 <= day && day <= 31
            && weekday < 7 && hour < 24 && minute < 60 && second < 60 {
            Some(Timestamp { unix_seconds, year, month, day, weekday, hour, minute, second })
        } else {
            None
        }
    }

    /// Seconds since the Unix epoch.
    pub fn unix_seconds(&self) -> (r: i64)
        ensures
            r == self.spec_unix_seconds(),
    {
        self.unix_seconds
    }

    /// The year.
    pub fn year(&self) -> (r: i32)
        ensures
            r == self.spec_year(),
    {
        self.year
    }

    /// The month, 1 to 12.
    pub fn month(&self) -> (r: u8)
        ensures
            r == self.spec_month(),
    {
        self.month
    }

    /// The day of the month, 1 to 31.
    pub fn day(&self) -> (r: u8)
        ensures
            r == self.spec_day(),
    {
        self.day
    }

    /// Days since Sunday, 0 to 6.
    pub fn weekday(&self) -> (r: u8)
        ensures
            r == self.spec_weekday(),
    {
        self.weekday
    }

    /// The hour, 0 to 23.
    pub fn hour(&self) -> (r: u8)
        ensures
            r == self.spec_hour(),
    {
        self.hour
    }

    /// The minute, 0 to 59.
    pub fn minute(&self) -> (r: u8)
        ensures
            r == self.spec_minute(),
    {
        self.minute
    }

    /// The second, 0 to 59.
    pub fn second(&self) -> (r: u8)
        ensures
            r == self.spec_second(),
    {
        self.second
    }

    /// The instant now, in UTC.
    ///
    /// Relies on `time::OffsetDateTime::now_utc` and its field accessors:
    /// `month` yields 1 to 12, `day` 1 to 31, `weekday` 0 to 6 days from
    /// Sunday, `hour` 0 to 23, `minute` and `second` 0 to 59, and `year`
    /// stays within ±9999.
    #[verifier::external_body]
    pub fn now_utc() -> (r: Timestamp)
        ensures
            r.wf(),
    {
        let t = time::OffsetDateTime::now_utc();
        let (hour, minute, second) = t.to_hms();
        let (unix_seconds, year, month) = (t.unix_timestamp(), t.year(), u8::from(t.month()));
        let (day, weekday) = (t.day(), t.weekday().number_days_from_sunday());
        Timestamp { unix_seconds, year, month, day, weekday, hour, minute, second }
    }

    /// The same instant with its civil fields moved to the machine's
    /// local offset, or unchanged when no offset can be determined.
    ///
    /// Relies on `time::OffsetDateTime::from_unix_timestamp` and
    /// `checked_to_offset`, and on
    /// `bp3d_os::time::LocalUtcOffset::local_offset_at` for the offset
    /// lookup; the result depends on the machine's environment, so
    /// nothing is promised beyond the field ranges. When no offset can
    /// be determined, or shifting would leave the supported year range,
    /// the instant keeps its UTC fields.
    #[verifier::external_body]
    pub fn to_local(&self) -> (r: Timestamp)
        requires
            self.wf(),
        ensures
            r.wf(),
            r.spec_unix_seconds() == self.spec_unix_seconds(),
    {
        let dt = match time::OffsetDateTime::from_unix_timestamp(self.unix_seconds) {
            Ok(d) => d,
            Err(_) => return *self,
        };
        let t = match <time::UtcOffset as bp3d_os::time::LocalUtcOffset>::local_offset_at(dt) {
            Some(o) => dt.checked_to_offset(o).unwrap_or(dt),
            None => dt,
        };
        let (hour, minute, second) = t.to_hms();
        let (unix_seconds, year, month) = (self.unix_seconds, t.year(), u8::from(t.month()));
        let (day, weekday) = (t.day(), t.weekday().number_days_from_sunday());
        Timestamp { unix_seconds, year, month, day, weekday, hour, minute, second }
    }
}

/// The single decimal digit `d` as a one-character string.
pub open spec fn spec_digit(d: int) -> Seq<char> {
    if d == 0 {
        "0"@
    } else if d == 1 {
        "1"@
    } else if d == 2 {
        "2"@
    } else if d == 3 {
        "3"@
    } else if d == 4 {
        "4"@
    } else if d == 5 {
        "5"@
    } else if d == 6 {
        "6"@
    } else if d == 7 {
        "7"@
    } else if d == 8 {
        "8"@
    } else {
        "9"@
    }
}

/// `n` as exactly two decimal digits (zero-padded).
pub open spec fn spec_2d(n: int) -> Seq<char> {
    spec_digit(n / 10) + spec_digit(n % 10)
}

/// `n` as exactly four decimal digits (zero-padded).
pub open spec fn spec_4d(n: int) -> Seq<char> {
    spec_digit(n / 1000) + spec_digit((n / 100) % 10) + spec_digit((n / 10) % 10) + spec_digit(
        n % 10,
    )
}

fn digit_str(d: u8) -> (r: &'static str)
    requires
        d < 10,
    ensures
        r@ == spec_digit(d as int),
{
    match d {
        0 => "0",
        1 => "1",
        2 => "2",
        3 => "3",
        4 => "4",
        5 => "5",
        6 => "6",
        7 => "7",
        8 => "8",
        _ => "9",
    }
}

/// Writes `n` as two zero-padded decimal digits.
pub fn format_2d(n: u8) -> (r: String)
    requires
        n < 100,
    ensures
        r@ == spec_2d(n as int),
{
    let mut s = String::from_str(digit_str(n / 10));
    s.append(digit_str(n % 10));
    s
}

/// Writes `n` as four zero-padded decimal digits.
pub fn format_4d(n: u16) -> (r: String)
    requires
        n < 10000,
    ensures
        r@ == spec_4d(n as int),
{
    let mut s = String::from_str(digit_str((n / 1000) as u8));
    s.append(digit_str(((n / 100) % 10) as u8));
    s.append(digit_str(((n / 10) % 10) as u8));
    s.append(digit_str((n % 10) as u8));
    s
}

/// The three-letter English name of weekday `w` (0 is Sunday).
pub open spec fn spec_day_name(w: int) -> Seq<char> {
    if w == 0 {
        "Sun"@
    } else if w == 1 {
        "Mon"@
    } else if w == 2 {
        "Tue"@
    } else if w == 3 {
        "Wed"@
    } else if w == 4 {
        "Thu"@
    } else if w == 5 {
        "Fri"@
    } else {
        "Sat"@
    }
}

/// The three-letter English name of month `m` (1 is January).
pub open spec fn spec_month_name(m: int) -> Seq<char> {
    if m == 1 {
        "Jan"@
    } else if m == 2 {
        "Feb"@
    } else if m == 3 {
        "Mar"@
    } else if m == 4 {
        "Apr"@
    } else if m == 5 {
        "May"@
    } else if m == 6 {
        "Jun"@
    } else if m == 7 {
        "Jul"@
    } else if m == 8 {
        "Aug"@
    } else if m == 9 {
        "Sep"@
    } else if m == 10 {
        "Oct"@
    } else if m == 11 {
        "Nov"@
    } else {
        "Dec"@
    }
}

/// The weekday name as an executable value.
pub fn day_name(w: u8) -> (r: &'static str)
    requires
        w < 7,
    ensures
        r@ == spec_day_name(w as int),
{
    match w {
        0 => "Sun",
        1 => "Mon",
        2 => "Tue",
        3 => "Wed",
        4 => "Thu",
        5 => "Fri",
        _ => "Sat",
    }
}

/// The month name as an executable value.
pub fn month_name(m: u8) -> (r: &'static str)
    requires
        1 <= m <= 12,
    ensures
        r@ == spec_month_name(m as int),
{
    match m {
        1 => "Jan",
        2 => "Feb",
        3 => "Mar",
        4 => "Apr",
        5 => "May",
        6 => "Jun",
        7 => "Jul",
        8 => "Aug",
        9 => "Sep",
        10 => "Oct",
        11 => "Nov",
        _ => "Dec",
    }
}

/// The hour of `h` on the 12-hour clock: 0 becomes 12, 13 becomes 1.
pub open spec fn spec_hour12(h: int) -> int {
    if h == 0 {
        12
    } else if h > 12 {
        h - 12
    } else {
        h
    }
}

/// The terminal-sink time layout: `Day Mon DD hh:mm:ss AM/PM`.
pub open spec fn spec_time_str(ts: Timestamp) -> Seq<char> {
    spec_day_name(ts.spec_weekday() as int) + " "@ + spec_month_name(ts.spec_month() as int) + " "@
        + spec_2d(ts.spec_day() as int) + " "@ + spec_2d(spec_hour12(ts.spec_hour() as int))
        + ":"@ + spec_2d(ts.spec_minute() as int) + ":"@ + spec_2d(ts.spec_second() as int) + " "@
        + (if ts.spec_hour() < 12 {
        "AM"@
    } else {
        "PM"@
    })
}

/// Formats a timestamp in the terminal-sink layout
/// `Day Mon DD hh:mm:ss AM/PM` (12-hour clock, uppercase AM/PM).
pub fn format_time_str(ts: &Timestamp) -> (r: String)
    requires
        ts.wf(),
    ensures
        r@ == spec_time_str(*ts),
{
    let hour = ts.hour();
    let h12: u8 = if hour == 0 {
        12
    } else if hour > 12 {
        hour - 12
    } else {
        hour
    };
    let mut s = String::from_str(day_name(ts.weekday()));
    s.append(" ");
    s.append(month_name(ts.month()));
    s.append(" ");
    s.append(format_2d(ts.day()).as_str());
    s.append(" ");
    s.append(format_2d(h12).as_str());
    s.append(":");
    s.append(format_2d(ts.minute()).as_str());
    s.append(":");
    s.append(format_2d(ts.second()).as_str());
    s.append(" ");
    s.append(if hour < 12 { "AM" } else { "PM" });
    proof {
        assert(s@ =~= spec_time_str(*ts));
    }
    s
}

/// The file-sink time layout: `YYYY-MM-DD hh:mm:ss`, with a leading `-`
/// for years before the common era.
pub open spec fn spec_iso_time_str(ts: Timestamp) -> Seq<char> {
    (if ts.spec_year() < 0 {
        "-"@
    } else {
        Seq::<char>::empty()
    }) + spec_4d(if ts.spec_year() < 0 {
        -(ts.spec_year() as int)
    } else {
        ts.spec_year() as int
    }) + "-"@ + spec_2d(ts.spec_month() as int) + "-"@ + spec_2d(ts.spec_day() as int) + " "@
        + spec_2d(ts.spec_hour() as int) + ":"@ + spec_2d(ts.spec_minute() as int) + ":"@
        + spec_2d(ts.spec_second() as int)
}

/// Formats a timestamp in the file-sink layout `YYYY-MM-DD hh:mm:ss`.
pub fn format_iso_time_str(ts: &Timestamp) -> (r: String)
    requires
        ts.wf(),
    ensures
        r@ == spec_iso_time_str(*ts),
{
    let year = ts.year();
    let mut s = String::new();
    if year < 0 {
        s.append("-");
    }
    let y_abs: u16 = if year < 0 {
        (-year) as u16
    } else {
        year as u16
    };
    s.append(format_4d(y_abs).as_str());
    s.append("-");
    s.append(format_2d(ts.month()).as_str());
    s.append("-");
    s.append(format_2d(ts.day()).as_str());
    s.append(" ");
    s.append(format_2d(ts.hour()).as_str());
    s.append(":");
    s.append(format_2d(ts.minute()).as_str());
    s.append(":");
    s.append(format_2d(ts.second()).as_str());
    proof {
        assert(s@ =~= spec_iso_time_str(*ts));
    }
    s
}

} // verus!
