//! Calendar dates and minute-precision time stamps, and the calls into
//! `chrono` that parse, print and step them.

use vstd::prelude::*;

verus! {

/// The first year that `chrono` can hold.
pub const MIN_YEAR: i32 = -262143;

/// The last year that `chrono` can hold.
pub const MAX_YEAR: i32 = 262142;

/// Whether `year` is a leap year of the proleptic Gregorian calendar.
pub open spec fn is_leap_year(year: int) -> bool {
    year % 4 == 0 && (year % 100 != 0 || year % 400 == 0)
}

/// The number of days of a month.
pub open spec fn days_in_month(year: int, month: int) -> int {
    if month == 2 {
        if is_leap_year(year) {
            29
        } else {
            28
        }
    } else if month == 4 || month == 6 || month == 9 || month == 11 {
        30
    } else {
        31
    }
}

/// Whether the three numbers name a day of the calendar that `chrono` can hold.
pub open spec fn valid_date(year: int, month: int, day: int) -> bool {
    &&& MIN_YEAR <= year <= MAX_YEAR
    &&& 1 <= month <= 12
    &&& 1 <= day <= days_in_month(year, month)
}

/// The day after a valid date, as year, month and day.
pub open spec fn day_after(year: int, month: int, day: int) -> (int, int, int) {
    if day < days_in_month(year, month) {
        (year, month, day + 1)
    } else if month < 12 {
        (year, month + 1, 1)
    } else {
        (year + 1, 1, 1)
    }
}

/// The day before a valid date, as year, month and day.
pub open spec fn day_before(year: int, month: int, day: int) -> (int, int, int) {
    if day > 1 {
        (year, month, day - 1)
    } else if month > 1 {
        (year, month - 1, days_in_month(year, month - 1))
    } else {
        (year - 1, 12, 31)
    }
}

/// What `chrono::NaiveDateTime::parse_from_str` makes of a text under a
/// format: year, month, day, hour and minute, or nothing where it rejects
/// the text.
pub uninterp spec fn parsed_date_time_with(text: Seq<char>, format: Seq<char>) -> Option<
    (int, int, int, int, int),
>;

/// What `chrono::NaiveDateTime::format` prints for a minute under a format.
pub uninterp spec fn date_time_text_with(
    year: int,
    month: int,
    day: int,
    hour: int,
    minute: int,
    format: Seq<char>,
) -> Seq<char>;

/// What `chrono::NaiveDate::parse_from_str` makes of a text under a format:
/// year, month and day, or nothing where it rejects the text.
pub uninterp spec fn parsed_date_with(text: Seq<char>, format: Seq<char>) -> Option<(int, int, int)>;

/// What the `FromStr` impl of `chrono::NaiveDate` makes of a text.
pub uninterp spec fn parsed_date(text: Seq<char>) -> Option<(int, int, int)>;

/// What `chrono::NaiveDate::format` prints for a day under a format.
pub uninterp spec fn formatted_date(year: int, month: int, day: int, format: Seq<char>) -> Seq<char>;

/// The format of the time stamp of a record: year, month and day with
/// hyphens between them, a space, and hour and minute with a colon.
pub open spec fn stamp_format() -> Seq<char> {
    "%Y-%m-%d %H:%M"@
}

/// The format of a date: year, month and day with hyphens between them.
pub open spec fn date_format() -> Seq<char> {
    "%Y-%m-%d"@
}

/// The format of a year alone.
pub open spec fn year_format() -> Seq<char> {
    "%Y"@
}

/// The format of the date bar: the date, a space and the short name of the
/// day of the week.
pub open spec fn label_format() -> Seq<char> {
    "%Y-%m-%d %a"@
}

/// What a text holds when read as the time stamp of a record.
pub open spec fn parsed_date_time(text: Seq<char>) -> Option<(int, int, int, int, int)> {
    parsed_date_time_with(text, stamp_format())
}

/// A minute as the time stamp of a record.
pub open spec fn date_time_text(year: int, month: int, day: int, hour: int, minute: int) -> Seq<
    char,
> {
    date_time_text_with(year, month, day, hour, minute, stamp_format())
}

/// What a text holds when read as a date.
pub open spec fn parsed_ymd(text: Seq<char>) -> Option<(int, int, int)> {
    parsed_date_with(text, date_format())
}

/// A day as year, month and day with hyphens between them.
pub open spec fn date_text(year: int, month: int, day: int) -> Seq<char> {
    formatted_date(year, month, day, date_format())
}

/// The year of a day.
pub open spec fn year_text(date: Date) -> Seq<char> {
    formatted_date(date.year as int, date.month as int, date.day as int, year_format())
}

/// A day as the date bar shows it.
pub open spec fn label_text(date: Date) -> Seq<char> {
    formatted_date(date.year as int, date.month as int, date.day as int, label_format())
}

/// The formats under which the library prints a day.
pub open spec fn is_date_format(format: Seq<char>) -> bool {
    format == date_format() || format == year_format() || format == label_format()
}

/// The characters that a printed date or time stamp is made of.
pub open spec fn is_stamp_char(c: char) -> bool {
    ('0' <= c <= '9') || c == '-' || c == '+' || c == ':' || c == ' '
}

/// Every character of `text` is one of a printed date or time stamp.
pub open spec fn is_stamp_text(text: Seq<char>) -> bool {
    forall|i: int| 0 <= i < text.len() ==> is_stamp_char(#[trigger] text[i])
}

/// A day of the proleptic Gregorian calendar. The derived order is that of
/// the calendar.
#[derive(Clone, Copy, Debug, PartialEq, Eq, PartialOrd, Ord, Structural)]
pub struct Date {
    pub year: i32,
    pub month: u32,
    pub day: u32,
}

/// A minute of a day of the calendar.
#[derive(Clone, Copy, Debug, PartialEq, Eq, Structural)]
pub struct Timestamp {
    pub date: Date,
    pub hour: u32,
    pub minute: u32,
}

/// Whether `year` is a leap year.
pub fn leap_year(year: i32) -> (b: bool)
    requires
        MIN_YEAR <= year <= MAX_YEAR,
    ensures
        b == is_leap_year(year as int),
{
    let y: u32 = (year + 400000) as u32;
    assert(is_leap_year(year as int) == is_leap_year(y as int));
    y % 4 == 0 && (y % 100 != 0 || y % 400 == 0)
}

/// The number of days of month `month` of `year`.
pub fn month_length(year: i32, month: u32) -> (n: u32)
    requires
        MIN_YEAR <= year <= MAX_YEAR,
    ensures
        n == days_in_month(year as int, month as int),
{
    if month == 2 {
        if leap_year(year) {
            29
        } else {
            28
        }
    } else if month == 4 || month == 6 || month == 9 || month == 11 {
        30
    } else {
        31
    }
}

/// Whether the first day comes before the second in the calendar: years
/// are compared first, then months, then days.
pub open spec fn comes_before(a: (int, int, int), b: (int, int, int)) -> bool {
    a.0 < b.0 || (a.0 == b.0 && (a.1 < b.1 || (a.1 == b.1 && a.2 < b.2)))
}

impl Date {
    /// Whether this day comes before `other` in the calendar.
    pub fn is_before(&self, other: &Date) -> (b: bool)
        ensures
            b == comes_before(self.fields(), other.fields()),
    {
        self.year < other.year || (self.year == other.year && (self.month < other.month || (
        self.month == other.month && self.day < other.day)))
    }

    /// The date names a day that exists and that `chrono` can hold.
    pub open spec fn wf(&self) -> bool {
        valid_date(self.year as int, self.month as int, self.day as int)
    }

    /// Year, month and day as mathematical integers.
    pub open spec fn fields(&self) -> (int, int, int) {
        (self.year as int, self.month as int, self.day as int)
    }

    /// The date of the given year, month and day, where there is such a day.
    pub fn new(year: i32, month: u32, day: u32) -> (r: Option<Date>)
        ensures
            r == if valid_date(year as int, month as int, day as int) {
                Some(Date { year, month, day })
            } else {
                None
            },
    {
        if year < MIN_YEAR || year > MAX_YEAR || month < 1 || month > 12 || day < 1 {
            return None;
        }
        if day > month_length(year, month) {
            return None;
        }
        Some(Date { year, month, day })
    }
}

impl Timestamp {
    /// The date is valid, and hour and minute are those of a clock.
    pub open spec fn wf(&self) -> bool {
        self.date.wf() && self.hour < 24 && self.minute < 60
    }

    /// Year, month, day, hour and minute as mathematical integers.
    pub open spec fn fields(&self) -> (int, int, int, int, int) {
        (
            self.date.year as int,
            self.date.month as int,
            self.date.day as int,
            self.hour as int,
            self.minute as int,
        )
    }

    /// The time stamp of the given minute, where there is such a minute.
    pub fn new(year: i32, month: u32, day: u32, hour: u32, minute: u32) -> (r: Option<Timestamp>)
        ensures
            r == if valid_date(year as int, month as int, day as int) && hour < 24 && minute < 60 {
                Some(Timestamp { date: Date { year, month, day }, hour, minute })
            } else {
                None
            },
    {
        match Date::new(year, month, day) {
            Some(date) => {
                if hour < 24 && minute < 60 {
                    Some(Timestamp { date, hour, minute })
                } else {
                    None
                }
            },
            None => None,
        }
    }
}

/// Calls `chrono::NaiveDateTime::parse_from_str`. Trusted: the result is
/// the named one, and every value that `chrono` hands out is a minute of a
/// day that exists.
#[verifier::external_body]
pub(crate) fn chrono_parse_date_time(text: &str, format: &str) -> (r: Option<Timestamp>)
    ensures
        match r {
            Some(t) => t.wf() && parsed_date_time_with(text@, format@) == Some(t.fields()),
            None => parsed_date_time_with(text@, format@) is None,
        },
{
    let t = chrono::NaiveDateTime::parse_from_str(text, format).ok()?;
    Some(
        Timestamp {
            date: Date {
                year: chrono::Datelike::year(&t),
                month: chrono::Datelike::month(&t),
                day: chrono::Datelike::day(&t),
            },
            hour: chrono::Timelike::hour(&t),
            minute: chrono::Timelike::minute(&t),
        },
    )
}

/// Calls `chrono::NaiveDateTime::format` with the format of a record's time
/// stamp. Trusted: the result is the named one; it is made of digits,
/// signs, a colon and a space; and `chrono` parses it back under the same
/// format to the same minute.
#[verifier::external_body]
pub(crate) fn chrono_format_date_time(t: &Timestamp, format: &str) -> (r: String)
    requires
        t.wf(),
        format@ == stamp_format(),
    ensures
        r@ == date_time_text_with(
            t.date.year as int,
            t.date.month as int,
            t.date.day as int,
            t.hour as int,
            t.minute as int,
            format@,
        ),
        is_stamp_text(r@),
        parsed_date_time_with(r@, format@) == Some(t.fields()),
{
    let d = chrono::NaiveDate::from_ymd_opt(t.date.year, t.date.month, t.date.day).unwrap();
    d.and_hms_opt(t.hour, t.minute, 0).unwrap().format(format).to_string()
}

/// Calls `chrono::NaiveDate::parse_from_str`. Trusted: the result is the
/// named one, and a day that exists. Where `chrono` rejects the text, the
/// error holds what `chrono` says of it; nothing is stated of those words.
#[verifier::external_body]
pub(crate) fn chrono_parse_date(text: &str, format: &str) -> (r: Result<Date, String>)
    ensures
        match r {
            Ok(d) => d.wf() && parsed_date_with(text@, format@) == Some(d.fields()),
            Err(_) => parsed_date_with(text@, format@) is None,
        },
{
    let d = chrono::NaiveDate::parse_from_str(text, format).map_err(|error| error.to_string())?;
    Ok(
        Date {
            year: chrono::Datelike::year(&d),
            month: chrono::Datelike::month(&d),
            day: chrono::Datelike::day(&d),
        },
    )
}

/// Calls the `FromStr` impl of `chrono::NaiveDate`. Trusted: the result is
/// the named one, and a day that exists.
#[verifier::external_body]
pub(crate) fn parse_date(text: &str) -> (r: Option<Date>)
    ensures
        match r {
            Some(d) => d.wf() && parsed_date(text@) == Some(d.fields()),
            None => parsed_date(text@) is None,
        },
{
    let d = text.parse::<chrono::NaiveDate>().ok()?;
    Some(
        Date {
            year: chrono::Datelike::year(&d),
            month: chrono::Datelike::month(&d),
            day: chrono::Datelike::day(&d),
        },
    )
}

/// Calls `chrono::NaiveDate::format` with one of the formats under which
/// the library prints a day. Trusted: the result is the named one.
#[verifier::external_body]
pub(crate) fn chrono_format_date(d: &Date, format: &str) -> (r: String)
    requires
        d.wf(),
        is_date_format(format@),
    ensures
        r@ == formatted_date(d.year as int, d.month as int, d.day as int, format@),
{
    chrono::NaiveDate::from_ymd_opt(d.year, d.month, d.day).unwrap().format(format).to_string()
}

/// Reads a text as the time stamp of a record.
pub fn parse_date_time(text: &str) -> (r: Option<Timestamp>)
    ensures
        match r {
            Some(t) => t.wf() && parsed_date_time(text@) == Some(t.fields()),
            None => parsed_date_time(text@) is None,
        },
{
    chrono_parse_date_time(text, "%Y-%m-%d %H:%M")
}

/// Prints a minute as the time stamp of a record. The text is made of
/// digits, signs, a colon and a space, and is read back as the same minute.
pub fn format_date_time(t: &Timestamp) -> (r: String)
    requires
        t.wf(),
    ensures
        r@ == date_time_text(
            t.date.year as int,
            t.date.month as int,
            t.date.day as int,
            t.hour as int,
            t.minute as int,
        ),
        is_stamp_text(r@),
        parsed_date_time(r@) == Some(t.fields()),
{
    chrono_format_date_time(t, "%Y-%m-%d %H:%M")
}

/// Reads a text as a date.
pub fn parse_ymd(text: &str) -> (r: Option<Date>)
    ensures
        match r {
            Some(d) => d.wf() && parsed_ymd(text@) == Some(d.fields()),
            None => parsed_ymd(text@) is None,
        },
{
    match chrono_parse_date(text, "%Y-%m-%d") {
        Ok(d) => Some(d),
        Err(_) => None,
    }
}

/// Prints a day as year, month and day with hyphens between them.
pub fn format_date(d: &Date) -> (r: String)
    requires
        d.wf(),
    ensures
        r@ == date_text(d.year as int, d.month as int, d.day as int),
{
    chrono_format_date(d, "%Y-%m-%d")
}

/// Prints the year of a day.
pub fn format_year(d: &Date) -> (r: String)
    requires
        d.wf(),
    ensures
        r@ == year_text(*d),
{
    chrono_format_date(d, "%Y")
}

/// Prints a day as the date bar shows it: the date and the short name of
/// the day of the week.
pub fn date_label(d: &Date) -> (r: String)
    requires
        d.wf(),
    ensures
        r@ == label_text(*d),
{
    chrono_format_date(d, "%Y-%m-%d %a")
}

/// The day after `d`, or nothing behind the last day of the calendar.
pub fn add_one_day(d: &Date) -> (r: Option<Date>)
    requires
        d.wf(),
    ensures
        r is Some <==> !(d.year == MAX_YEAR && d.month == 12 && d.day == 31),
        r is Some ==> r->0.wf() && r->0.fields() == day_after(
            d.year as int,
            d.month as int,
            d.day as int,
        ),
{
    if d.day < month_length(d.year, d.month) {
        Some(Date { year: d.year, month: d.month, day: d.day + 1 })
    } else if d.month < 12 {
        Some(Date { year: d.year, month: d.month + 1, day: 1 })
    } else if d.year < MAX_YEAR {
        Some(Date { year: d.year + 1, month: 1, day: 1 })
    } else {
        None
    }
}

/// The day before `d`, or nothing before the first day of the calendar.
pub fn sub_one_day(d: &Date) -> (r: Option<Date>)
    requires
        d.wf(),
    ensures
        r is Some <==> !(d.year == MIN_YEAR && d.month == 1 && d.day == 1),
        r is Some ==> r->0.wf() && r->0.fields() == day_before(
            d.year as int,
            d.month as int,
            d.day as int,
        ),
{
    if d.day > 1 {
        Some(Date { year: d.year, month: d.month, day: d.day - 1 })
    } else if d.month > 1 {
        Some(Date { year: d.year, month: d.month - 1, day: month_length(d.year, d.month - 1) })
    } else if d.year > MIN_YEAR {
        Some(Date { year: d.year - 1, month: 12, day: 31 })
    } else {
        None
    }
}

/// Today's date on the local clock, from `chrono::Local::now`. Trusted: it
/// is a day that exists.
#[verifier::external_body]
pub fn get_today_date() -> (r: Date)
    ensures
        r.wf(),
{
    let d = chrono::Local::now().date_naive();
    Date {
        year: chrono::Datelike::year(&d),
        month: chrono::Datelike::month(&d),
        day: chrono::Datelike::day(&d),
    }
}

/// The current minute on the local clock, from `chrono::Local::now`.
/// Trusted: it is a minute of a day that exists.
#[verifier::external_body]
pub fn date_time_now() -> (r: Timestamp)
    ensures
        r.wf(),
{
    let t = chrono::Local::now().naive_local();
    Timestamp {
        date: Date {
            year: chrono::Datelike::year(&t),
            month: chrono::Datelike::month(&t),
            day: chrono::Datelike::day(&t),
        },
        hour: chrono::Timelike::hour(&t),
        minute: chrono::Timelike::minute(&t),
    }
}

} // verus!
