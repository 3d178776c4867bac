use vstd::prelude::*;

verus! {

/// The earliest year that a `Date` can hold.
pub const MIN_YEAR: i32 = -262143;

/// The latest year that a `Date` can hold.
pub const MAX_YEAR: i32 = 262142;

/// Leap years of the proleptic Gregorian calendar.
pub open spec fn is_leap_year(year: int) -> bool {
    (year % 4 == 0 && year % 100 != 0) || year % 400 == 0
}

/// The number of days in a month (1 to 12) of a year.
pub open spec fn days_in_month(year: int, month: int) -> int {
    if month == 2 {
        if is_leap_year(year) {
            29
        } else {
            28
        }
    } else if month == 4 || month == 6 || month == 9 || month == 11 {
        30
    } else {
        31
    }
}

/// A calendar day that exists, within the years a `Date` can hold.
pub open spec fn is_valid_date(year: int, month: int, day: int) -> bool {
    &&& MIN_YEAR <= year <= MAX_YEAR
    &&& 1 <= month <= 12
    &&& 1 <= day <= days_in_month(year, month)
}

/// The last `width` decimal digits of `n`, zero-padded.
pub open spec fn decimal_digits(n: int, width: nat) -> Seq<char>
    decreases width,
{
    if width == 0 {
        seq![]
    } else {
        decimal_digits(n / 10, (width - 1) as nat).push(('0' as int + n % 10) as char)
    }
}

/// The ISO calendar text (`%Y-%m-%d`) of a day.
pub uninterp spec fn iso_date_text(year: i32, month: u32, day: u32) -> Seq<char>;

/// Relies on chrono's `NaiveDate::from_ymd_opt`, which accepts every valid
/// date, and on its `%Y-%m-%d` formatting: four zero-padded year digits for
/// the years 0 to 9999, then two-digit month and day.
#[verifier::external_body]
fn format_date(year: i32, month: u32, day: u32) -> (r: String)
    requires
        is_valid_date(year as int, month as int, day as int),
    ensures
        r@ == iso_date_text(year, month, day),
        0 <= year <= 9999 ==> r@ == decimal_digits(year as int, 4) + seq!['-']
            + decimal_digits(month as int, 2) + seq!['-'] + decimal_digits(day as int, 2),
{
    chrono::NaiveDate::from_ymd_opt(year, month, day)
        .expect("a valid date")
        .format("%Y-%m-%d")
        .to_string()
}

/// A day of the proleptic Gregorian calendar.
#[derive(Debug, Clone, Copy, PartialEq, Eq, Structural)]
pub struct Date {
    year: i32,
    month: u32,
    day: u32,
}

impl View for Date {
    type V = (i32, u32, u32);

    closed spec fn view(&self) -> (i32, u32, u32) {
        (self.year, self.month, self.day)
    }
}

impl Date {
    #[verifier::type_invariant]
    spec fn inv(self) -> bool {
        is_valid_date(self.year as int, self.month as int, self.day as int)
    }

    /// The day with the given year, month (1 to 12) and day of the month, if
    /// it exists.
    pub fn from_ymd_opt(year: i32, month: u32, day: u32) -> (r: Option<Date>)
        ensures
            r is Some <==> is_valid_date(year as int, month as int, day as int),
            r matches Some(d) ==> d@ == (year, month, day),
    {
        if year < MIN_YEAR || year > MAX_YEAR || month < 1 || month > 12 || day < 1 {
            return None;
        }
        let leap = (year % 4 == 0 && year % 100 != 0) || year % 400 == 0;
        assert(leap == is_leap_year(year as int));
        let last: u32 = if month == 2 {
            if leap {
                29
            } else {
                28
            }
        } else if month == 4 || month == 6 || month == 9 || month == 11 {
            30
        } else {
            31
        };
        if day > last {
            None
        } else {
            Some(Date { year, month, day })
        }
    }

    pub fn year(&self) -> (r: i32)
        ensures
            r == self@.0,
    {
        self.year
    }

    pub fn month(&self) -> (r: u32)
        ensures
            r == self@.1,
    {
        self.month
    }

    pub fn day(&self) -> (r: u32)
        ensures
            r == self@.2,
    {
        self.day
    }

    /// The ISO calendar text of this day.
    pub open spec fn text(self) -> Seq<char> {
        iso_date_text(self@.0, self@.1, self@.2)
    }

    /// The ISO calendar text of this day, `YYYY-MM-DD` for the years 0 to 9999.
    pub fn iso_text(&self) -> (r: String)
        ensures
            r@ == self.text(),
    {
        proof {
            use_type_invariant(self);
        }
        format_date(self.year, self.month, self.day)
    }
}

/// The text that chrono displays for the UTC instant `secs` seconds and
/// `nanos` nanoseconds after the Unix epoch.
pub uninterp spec fn utc_timestamp_text(secs: i64, nanos: u32) -> Seq<char>;

/// An instant, as seconds and nanoseconds after the Unix epoch.
#[derive(Debug, Clone, Copy, PartialEq, Eq, Structural)]
pub struct Timestamp {
    pub secs: i64,
    pub nanos: u32,
}

/// Relies on chrono's `Utc::now`, and on the `Display` of `DateTime<Utc>`
/// for its text, which depends on the instant alone.
#[verifier::external_body]
fn utc_now() -> (r: (Timestamp, String))
    ensures
        r.1@ == utc_timestamp_text(r.0.secs, r.0.nanos),
{
    let now = chrono::Utc::now();
    (Timestamp { secs: now.timestamp(), nanos: now.timestamp_subsec_nanos() }, now.to_string())
}

impl Timestamp {
    /// The current instant, with the text it is displayed as.
    pub fn now() -> (r: (Timestamp, String))
        ensures
            r.1@ == r.0.text(),
    {
        utc_now()
    }

    pub open spec fn text(self) -> Seq<char> {
        utc_timestamp_text(self.secs, self.nanos)
    }
}

} // verus!
