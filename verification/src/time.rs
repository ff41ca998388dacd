//! Calendar dates and UTC instants, with calendar arithmetic done by `chrono`.

use chrono::{DateTime, Datelike, Local, NaiveDate, TimeDelta, TimeZone, Utc};
use vstd::prelude::*;
use crate::text::{decimal_digits, digit_char, digit_character, joined, number_text, push_char, repeated};

verus! {

/// Earliest year a `chrono::NaiveDate` can hold.
pub const MIN_YEAR: i32 = -262143;

/// Latest year a `chrono::NaiveDate` can hold.
pub const MAX_YEAR: i32 = 262142;

/// Whether a proleptic Gregorian year is a leap year.
pub open spec fn is_leap_year(year: int) -> bool {
    (year % 4 == 0 && year % 100 != 0) || year % 400 == 0
}

/// Number of days in a month of a year.
pub open spec fn days_in_month(year: int, month: int) -> int {
    if month == 2 {
        if is_leap_year(year) {
            29
        } else {
            28
        }
    } else if month == 4 || month == 6 || month == 9 || month == 11 {
        30
    } else {
        31
    }
}

/// Whether (year, month, day) names a date that `chrono::NaiveDate` can hold.
pub open spec fn valid_civil_date(date: (int, int, int)) -> bool {
    &&& MIN_YEAR as int <= date.0 <= MAX_YEAR as int
    &&& 1 <= date.1 <= 12
    &&& 1 <= date.2 <= days_in_month(date.0, date.1)
}

/// Chronological order of valid dates: (year, month, day) compared lexicographically.
pub open spec fn date_on_or_before(left: (int, int, int), right: (int, int, int)) -> bool {
    ||| left.0 < right.0
    ||| left.0 == right.0 && left.1 < right.1
    ||| left.0 == right.0 && left.1 == right.1 && left.2 <= right.2
}

/// The date that `NaiveDate::checked_add_signed` gives `days` days after `date`: the date of
/// the day number so many days on, where that lies within `chrono`'s range.
#[verifier::opaque]
pub open spec fn chrono_date_plus_days(date: (int, int, int), days: int) -> Option<(int, int, int)> {
    if day_number_in_range(days_from_epoch(date) + days) {
        Some(date_of_day_number(days_from_epoch(date) + days))
    } else {
        None
    }
}

/// The proleptic Gregorian date of a day number (days from 1970-01-01).
pub open spec fn date_of_day_number(day: int) -> (int, int, int) {
    let shifted = day + 719468;
    let era = shifted / 146097;
    let day_of_era = shifted - era * 146097;
    let year_of_era = (day_of_era - day_of_era / 1460 + day_of_era / 36524 - day_of_era / 146096) / 365;
    let day_of_year = day_of_era - (365 * year_of_era + year_of_era / 4 - year_of_era / 100);
    let shifted_month = (5 * day_of_year + 2) / 153;
    let day_of_month = day_of_year - (153 * shifted_month + 2) / 5 + 1;
    let month = if shifted_month < 10 {
        shifted_month + 3
    } else {
        shifted_month - 9
    };
    let year = year_of_era + era * 400 + if month <= 2 {
        1int
    } else {
        0int
    };
    (year, month, day_of_month)
}

/// The number of days from 1970-01-01 to a date of the proleptic Gregorian calendar.
pub open spec fn days_from_epoch(date: (int, int, int)) -> int {
    let year = if date.1 <= 2 {
        date.0 - 1
    } else {
        date.0
    };
    let era = year / 400;
    let year_of_era = year - era * 400;
    let shifted_month = if date.1 > 2 {
        date.1 - 3
    } else {
        date.1 + 9
    };
    let day_of_year = (153 * shifted_month + 2) / 5 + date.2 - 1;
    let day_of_era = year_of_era * 365 + year_of_era / 4 - year_of_era / 100 + day_of_year;
    era * 146097 + day_of_era - 719468
}

/// The weekday of a date counted from Monday (0) to Sunday (6); 1970-01-01 was a Thursday.
pub open spec fn weekday_from_monday_of(date: (int, int, int)) -> int {
    (days_from_epoch(date) + 3) % 7
}


/// Whether `DateTime::<Utc>::from_timestamp` accepts a (seconds, nanoseconds) pair: the day
/// of the seconds lies within `chrono`'s range, and the nanoseconds are below two seconds,
/// at or above one second only in the last second of a minute (a leap second).
#[verifier::opaque]
pub open spec fn chrono_representable(instant: (int, int)) -> bool {
    &&& day_number_in_range(instant.0 / 86400)
    &&& 0 <= instant.1 < 2_000_000_000
    &&& (instant.1 < 1_000_000_000 || (instant.0 % 86400) % 60 == 59)
}

/// The UTC calendar date (`DateTime::<Utc>::date_naive`) of an instant: the date of the day
/// number of its seconds.
#[verifier::opaque]
pub open spec fn chrono_utc_date(instant: (int, int)) -> (int, int, int) {
    date_of_day_number(instant.0 / 86400)
}

/// The text that `DateTime::<Utc>::to_rfc3339` writes for an instant.
pub uninterp spec fn chrono_rfc3339_text(instant: (int, int)) -> Seq<char>;

/// The instant that `str::parse::<DateTime<Utc>>` reads from a text, as (seconds,
/// nanoseconds) since the Unix epoch.
pub uninterp spec fn chrono_parsed_instant(text: Seq<char>) -> Option<(int, int)>;

/// The instant `DateTime::from_timestamp_millis` gives for a millisecond timestamp.
pub uninterp spec fn chrono_instant_from_millis(milliseconds: int) -> Option<(int, int)>;

/// A proleptic Gregorian calendar date.
#[derive(Clone, Copy, Debug, PartialEq, Eq, Structural)]
pub struct CivilDate {
    year: i32,
    month: u32,
    day: u32,
}

impl View for CivilDate {
    type V = (int, int, int);

    closed spec fn view(&self) -> (int, int, int) {
        (self.year as int, self.month as int, self.day as int)
    }
}

impl CivilDate {
    #[verifier::type_invariant]
    spec fn valid(self) -> bool {
        valid_civil_date(self@)
    }

    /// Builds a date from year, month and day, as `NaiveDate::from_ymd_opt` accepts them.
    pub fn from_ymd(year: i32, month: u32, day: u32) -> (result: Option<CivilDate>)
        ensures
            result is Some <==> valid_civil_date((year as int, month as int, day as int)),
            result matches Some(date) ==> date@ == (year as int, month as int, day as int),
    {
        if year < MIN_YEAR || year > MAX_YEAR || month < 1 || month > 12 || day < 1 {
            return None;
        }
        let leap = (year % 4 == 0 && year % 100 != 0) || year % 400 == 0;
        let month_length: u32 = if month == 2 {
            if leap {
                29
            } else {
                28
            }
        } else if month == 4 || month == 6 || month == 9 || month == 11 {
            30
        } else {
            31
        };
        if day > month_length {
            None
        } else {
            Some(CivilDate { year, month, day })
        }
    }

    /// The year.
    pub fn year(&self) -> (result: i32)
        ensures
            result as int == self@.0,
    {
        self.year
    }

    /// The month, one-based.
    pub fn month(&self) -> (result: u32)
        ensures
            result as int == self@.1,
    {
        self.month
    }

    /// The day of the month, one-based.
    pub fn day(&self) -> (result: u32)
        ensures
            result as int == self@.2,
    {
        self.day
    }

    /// Every date is valid.
    pub fn valid_bounds(&self)
        ensures
            valid_civil_date(self@),
    {
        proof {
            use_type_invariant(self);
        }
    }

    /// The date as `NaiveDate`'s `Display` writes it.
    pub fn text(&self) -> (result: String)
        ensures
            result@ == civil_date_text(self@),
    {
        date_to_text(self)
    }

    /// The first day of this date's month.
    pub fn first_of_month(&self) -> (result: CivilDate)
        ensures
            result@ == (self@.0, self@.1, 1int),
    {
        proof {
            use_type_invariant(self);
        }
        CivilDate { year: self.year, month: self.month, day: 1 }
    }

    /// Whether this date is on or before another.
    pub fn is_on_or_before(&self, other: &CivilDate) -> (result: bool)
        ensures
            result == date_on_or_before(self@, other@),
    {
        self.year < other.year || (self.year == other.year && self.month < other.month) || (
        self.year == other.year && self.month == other.month && self.day <= other.day)
    }

    /// Whether two dates are the same day.
    pub fn same_day(&self, other: &CivilDate) -> (result: bool)
        ensures
            result == (self@ == other@),
            result == (*self == *other),
    {
        self.year == other.year && self.month == other.month && self.day == other.day
    }
}

/// Whether a (seconds, nanoseconds) pair names a `DateTime<Utc>`, by
/// `DateTime::from_timestamp(..).is_some()`.
#[verifier::external_body]
fn timestamp_is_representable(seconds: i64, nanoseconds: u32) -> (result: bool)
    ensures
        result == chrono_representable((seconds as int, nanoseconds as int)),
{
    DateTime::from_timestamp(seconds, nanoseconds).is_some()
}

/// A UTC instant, as the (seconds, nanoseconds) since the Unix epoch that
/// `DateTime::<Utc>::timestamp` and `timestamp_subsec_nanos` give.
#[derive(Clone, Copy, Debug, PartialEq, Eq, Structural)]
pub struct UtcInstant {
    seconds: i64,
    nanoseconds: u32,
}

impl View for UtcInstant {
    type V = (int, int);

    closed spec fn view(&self) -> (int, int) {
        (self.seconds as int, self.nanoseconds as int)
    }
}

/// Chronological order of instants: (seconds, nanoseconds) compared lexicographically.
pub open spec fn instant_on_or_before(left: (int, int), right: (int, int)) -> bool {
    left.0 < right.0 || (left.0 == right.0 && left.1 <= right.1)
}

impl UtcInstant {
    #[verifier::type_invariant]
    spec fn representable(self) -> bool {
        chrono_representable(self@)
    }

    /// Builds an instant from seconds and nanoseconds since the Unix epoch, when `chrono`
    /// can represent it.
    pub fn from_timestamp(seconds: i64, nanoseconds: u32) -> (result: Option<UtcInstant>)
        ensures
            result is Some <==> chrono_representable((seconds as int, nanoseconds as int)),
            result matches Some(instant) ==> instant@ == (seconds as int, nanoseconds as int),
    {
        if timestamp_is_representable(seconds, nanoseconds) {
            Some(UtcInstant { seconds, nanoseconds })
        } else {
            None
        }
    }

    /// Whether the instant's UTC date leaves a whole day of room inside `chrono`'s range, so
    /// that its local date can be taken in any time zone.
    pub fn leaves_room_for_local_date(&self) -> (result: bool)
        ensures
            result == inside_chrono_days(chrono_utc_date(self@)),
    {
        let date = utc_date_of(self);
        let year = date.year();
        let month = date.month();
        let day = date.day();
        !(year == MIN_YEAR && month == 1 && day == 1) && !(year == MAX_YEAR && month == 12 && day == 31)
    }

    /// Seconds since the Unix epoch.
    pub fn seconds(&self) -> (result: i64)
        ensures
            result as int == self@.0,
    {
        self.seconds
    }

    /// Nanoseconds past the second.
    pub fn nanoseconds(&self) -> (result: u32)
        ensures
            result as int == self@.1,
    {
        self.nanoseconds
    }

    /// Whether this instant is on or before another.
    pub fn is_on_or_before(&self, other: &UtcInstant) -> (result: bool)
        ensures
            result == instant_on_or_before(self@, other@),
    {
        self.seconds < other.seconds || (self.seconds == other.seconds && self.nanoseconds
            <= other.nanoseconds)
    }
}

/// The view of an optional date.
pub open spec fn date_option_view(date: Option<CivilDate>) -> Option<(int, int, int)> {
    match date {
        Some(value) => Some(value@),
        None => None,
    }
}

/// The view of an optional instant.
pub open spec fn instant_option_view(instant: Option<UtcInstant>) -> Option<(int, int)> {
    match instant {
        Some(value) => Some(value@),
        None => None,
    }
}

/// Adds a number of days to a date with `NaiveDate::checked_add_signed`; the result stays
/// a valid date, its day number is the date's plus the days, at most a thousand days move it
/// less than three years, and it exists whenever its day number lies within chrono's range
/// (in particular whenever the date is at least three years inside that range and at most a
/// thousand days are added or taken).
#[verifier::external_body]
pub(crate) fn date_plus_days(date: &CivilDate, days: i64) -> (result: Option<CivilDate>)
    requires
        -1_000_000 <= days <= 1_000_000,
    ensures
        date_option_view(result) == chrono_date_plus_days(date@, days as int),
        result matches Some(value) ==> valid_civil_date(value@),
        -1000 <= days <= 1000 ==> (result matches Some(value) ==> date@.0 - 3 <= value@.0 <= date@.0 + 3),
        MIN_YEAR as int + 3 <= date@.0 <= MAX_YEAR as int - 3 && -1000 <= days <= 1000
            ==> result is Some,
        result matches Some(value) ==> days_from_epoch(value@) == days_from_epoch(date@) + days,
        day_number_in_range(days_from_epoch(date@) + days) ==> result is Some,
{
    NaiveDate::from_ymd_opt(date.year, date.month, date.day).unwrap().checked_add_signed(
        TimeDelta::days(days),
    ).map(|value| CivilDate { year: value.year(), month: value.month(), day: value.day() })
}

/// The weekday of a date counted from Monday, with `Weekday::num_days_from_monday`: 0 for
/// Monday to 6 for Sunday, in the proleptic Gregorian calendar that `NaiveDate` uses.
#[verifier::external_body]
pub(crate) fn weekday_from_monday(date: &CivilDate) -> (result: u32)
    ensures
        result as int == weekday_from_monday_of(date@),
        result < 7,
{
    NaiveDate::from_ymd_opt(date.year, date.month, date.day).unwrap().weekday().num_days_from_monday()
}

/// Two decimal digits of a number below a hundred.
pub open spec fn two_digit_text(value: int) -> Seq<char> {
    seq![digit_char((value / 10) as nat), digit_char((value % 10) as nat)]
}

/// The digits of a number, padded on the left with zeros to at least four.
pub open spec fn four_digit_text(value: nat) -> Seq<char> {
    if decimal_digits(value).len() >= 4 {
        decimal_digits(value)
    } else {
        repeated('0', (4 - decimal_digits(value).len()) as nat) + decimal_digits(value)
    }
}

/// A date as `NaiveDate`'s `Display` writes it: `YYYY-MM-DD` for years 0 to 9999, and
/// otherwise the year with its sign and at least four digits, then `-MM-DD`.
pub open spec fn civil_date_text(date: (int, int, int)) -> Seq<char> {
    let year = if 0 <= date.0 <= 9999 {
        two_digit_text(date.0 / 100) + two_digit_text(date.0 % 100)
    } else if date.0 < 0 {
        "-"@ + four_digit_text((-date.0) as nat)
    } else {
        "+"@ + four_digit_text(date.0 as nat)
    };
    year + "-"@ + two_digit_text(date.1) + "-"@ + two_digit_text(date.2)
}

/// Writes a date with `NaiveDate`'s `Display`, which writes the year as two pairs of
/// digits for years 0 to 9999 and with `{:+05}` otherwise, then the month and day as two
/// digits each, separated by `-`.
#[verifier::external_body]
pub(crate) fn date_to_text(date: &CivilDate) -> (result: String)
    ensures
        result@ == civil_date_text(date@),
{
    NaiveDate::from_ymd_opt(date.year, date.month, date.day).unwrap().to_string()
}

/// Reads an instant from a text with `str::parse::<DateTime<Utc>>`; an instant that
/// comes out can be built again from its timestamp, as `chrono` documents.
#[verifier::external_body]
pub(crate) fn parse_utc_instant(text: &str) -> (result: Option<UtcInstant>)
    ensures
        instant_option_view(result) == chrono_parsed_instant(text@),
{
    text.parse::<DateTime<Utc>>().ok().map(
        |value| UtcInstant { seconds: value.timestamp(), nanoseconds: value.timestamp_subsec_nanos() },
    )
}

/// Reads an instant from RFC 3339 text, as `DateTime<Utc>`'s `FromStr` reads it.
pub fn parse_instant(text: &str) -> (result: Option<UtcInstant>)
    ensures
        instant_option_view(result) == chrono_parsed_instant(text@),
{
    parse_utc_instant(text)
}

/// Builds an instant from a millisecond timestamp with `DateTime::from_timestamp_millis`;
/// an instant that comes out holds the floor of the milliseconds over a thousand as
/// seconds and the remaining milliseconds as nanoseconds.
#[verifier::external_body]
pub(crate) fn instant_from_millis(milliseconds: i64) -> (result: Option<UtcInstant>)
    ensures
        instant_option_view(result) == chrono_instant_from_millis(milliseconds as int),
        result matches Some(value) ==> value@ == (
            milliseconds as int / 1000,
            (milliseconds as int % 1000) * 1_000_000,
        ),
{
    DateTime::from_timestamp_millis(milliseconds).map(
        |value| UtcInstant { seconds: value.timestamp(), nanoseconds: value.timestamp_subsec_nanos() },
    )
}

/// The UTC calendar date of an instant, with `DateTime::<Utc>::date_naive`.
#[verifier::external_body]
pub(crate) fn utc_date_of(instant: &UtcInstant) -> (result: CivilDate)
    ensures
        result@ == chrono_utc_date(instant@),
{
    let date = DateTime::from_timestamp(instant.seconds, instant.nanoseconds).unwrap().date_naive();
    CivilDate { year: date.year(), month: date.month(), day: date.day() }
}

/// Writes an instant with `DateTime::<Utc>::to_rfc3339`.
#[verifier::external_body]
pub(crate) fn instant_to_rfc3339(instant: &UtcInstant) -> (result: String)
    ensures
        result@ == chrono_rfc3339_text(instant@),
{
    DateTime::from_timestamp(instant.seconds, instant.nanoseconds).unwrap().to_rfc3339()
}

/// The first day that `chrono` can represent.
pub open spec fn chrono_first_day() -> (int, int, int) {
    (MIN_YEAR as int, 1, 1)
}

/// The last day that `chrono` can represent.
pub open spec fn chrono_last_day() -> (int, int, int) {
    (MAX_YEAR as int, 12, 31)
}

/// Whether a date leaves a whole day of room on both sides inside `chrono`'s range, so that
/// moving an instant on it by a time-zone offset stays representable.
pub open spec fn inside_chrono_days(date: (int, int, int)) -> bool {
    date != chrono_first_day() && date != chrono_last_day()
}

/// Whether a date is the given date, the day after it, or the day before it.
pub open spec fn within_a_day(date: (int, int, int), reference: (int, int, int)) -> bool {
    ||| date == reference
    ||| Some(date) == chrono_date_plus_days(reference, 1)
    ||| Some(date) == chrono_date_plus_days(reference, -1)
}

/// The calendar date of an instant in the machine's local time zone: the UTC date-time
/// moved by the local offset that `<Local as TimeZone>::offset_from_utc_datetime` gives,
/// with `NaiveDateTime::checked_add_signed`, then `NaiveDateTime::date`. Which date comes out
/// depends on the time zone of the process; what holds for every zone is stated: `chrono`
/// keeps every offset strictly between -86 400 and 86 400 seconds, so the local date is the
/// UTC date or a day next to it, and the move can leave the representable range only from
/// `chrono`'s first or last day (then `None`).
#[verifier::external_body]
pub(crate) fn local_date_of(instant: &UtcInstant) -> (result: Option<CivilDate>)
    ensures
        result matches Some(date) ==> within_a_day(date@, chrono_utc_date(instant@)),
        inside_chrono_days(chrono_utc_date(instant@)) ==> result is Some,
{
    let utc = DateTime::from_timestamp(instant.seconds, instant.nanoseconds).unwrap().naive_utc();
    let offset = Local.offset_from_utc_datetime(&utc).local_minus_utc();
    utc.checked_add_signed(TimeDelta::seconds(offset as i64)).map(
        |local| CivilDate { year: local.date().year(), month: local.date().month(), day: local.date().day() },
    )
}

/// A twelve-hour clock time as `%-I:%M%P` writes it: the hour without padding, `:`, the
/// minute in two digits, then `am` or `pm`.
pub open spec fn clock_label(hour: nat, minute: nat, afternoon: bool) -> Seq<char> {
    decimal_digits(hour) + ":"@ + seq![digit_char(minute / 10), digit_char(minute % 10)] + if afternoon {
        "pm"@
    } else {
        "am"@
    }
}

/// The twelve-hour clock time of a wall-clock reading given in seconds since the Unix epoch:
/// the hour of the day (12 for midnight and noon), the minute, and `am` before noon.
pub open spec fn time_of_day_label(seconds: int) -> Seq<char> {
    let day_seconds = seconds % 86400;
    let hour = day_seconds / 3600;
    let minute = (day_seconds % 3600) / 60;
    clock_label(
        if hour % 12 == 0 {
            12
        } else {
            (hour % 12) as nat
        },
        minute as nat,
        hour >= 12,
    )
}

/// The twelve-hour clock time that a UTC reading in seconds shows under an offset in seconds.
pub open spec fn offset_clock_label(seconds: int, offset: int) -> Seq<char> {
    time_of_day_label(seconds + offset)
}

/// The offset of the machine's local time zone from UTC at an instant, in seconds, with
/// `<Local as TimeZone>::offset_from_utc_datetime` and `FixedOffset::local_minus_utc`. It
/// depends on the time zone of the process, so only what `chrono` keeps of every offset is
/// stated: it lies strictly between -86 400 and 86 400 seconds.
#[verifier::external_body]
pub(crate) fn local_offset_seconds(instant: &UtcInstant) -> (result: i32)
    ensures
        -86400 < result < 86400,
{
    let utc = DateTime::from_timestamp(instant.seconds, instant.nanoseconds).unwrap().naive_utc();
    Local.offset_from_utc_datetime(&utc).local_minus_utc()
}

/// Writes the local wall-clock time of an instant as `%-I:%M%P` does (for example
/// `10:05am`): the instant moved by the local offset, read as a time of day.
pub fn local_time_label(instant: &UtcInstant) -> (result: String)
    ensures
        exists|offset: int| -86400 < offset < 86400 && result@ == #[trigger] offset_clock_label(instant@.0, offset),
{
    let offset = local_offset_seconds(instant);
    let local: i128 = instant.seconds() as i128 + offset as i128;
    let remainder: i128 = local % 86400;
    let day_seconds: i128 = if remainder < 0 {
        remainder + 86400
    } else {
        remainder
    };
    let ghost reading = instant@.0 + offset as int;
    proof {
        assert(local as int == reading);
        assert(day_seconds as int == reading % 86400);
        assert(0 <= day_seconds < 86400);
    }
    let hour: i128 = day_seconds / 3600;
    let minute: i128 = (day_seconds % 3600) / 60;
    proof {
        assert(0 <= hour < 24);
        assert(0 <= minute < 60);
    }
    let shown_hour: i128 = if hour % 12 == 0 {
        12
    } else {
        hour % 12
    };
    let mut label = number_text(shown_hour as usize);
    let ghost hour_text = label@;
    push_char(&mut label, ':');
    push_char(&mut label, digit_character((minute / 10) as usize));
    push_char(&mut label, digit_character((minute % 10) as usize));
    let ghost minute_text = seq![digit_char((minute / 10) as nat), digit_char((minute % 10) as nat)];
    proof {
        reveal_strlit(":");
        assert(label@ =~= hour_text + ":"@ + minute_text);
    }
    let result = if hour >= 12 {
        joined(label.as_str(), "pm")
    } else {
        joined(label.as_str(), "am")
    };
    proof {
        let hour12: nat = if hour % 12 == 0 {
            12
        } else {
            (hour % 12) as nat
        };
        assert(hour_text == decimal_digits(hour12));
        assert(result@ == clock_label(hour12, minute as nat, hour >= 12));
        assert(result@ == time_of_day_label(reading));
        assert(result@ == offset_clock_label(instant@.0, offset as int));
    }
    result
}

/// The current calendar date in the machine's local time zone, with `Local::now` and
/// `date_naive`. It depends on the clock and the time zone, so nothing is stated of it
/// beyond its being a valid date.
#[verifier::external_body]
pub(crate) fn current_local_date() -> (result: CivilDate) {
    let date = Local::now().date_naive();
    CivilDate { year: date.year(), month: date.month(), day: date.day() }
}

/// Whether a day number (days from 1970-01-01) names a date within `chrono`'s range.
pub open spec fn day_number_in_range(day: int) -> bool {
    days_from_epoch(chrono_first_day()) <= day <= days_from_epoch(chrono_last_day())
}

/// The day number of a date equals that of the first of its month plus the days after it.
pub proof fn lemma_days_within_month(date: (int, int, int))
    ensures
        days_from_epoch(date) == days_from_epoch((date.0, date.1, 1)) + date.2 - 1,
{
}

/// The number of days from 1970-01-01 to a valid date.
pub fn day_number(date: &CivilDate) -> (result: i64)
    ensures
        result as int == days_from_epoch(date@),
{
    date.valid_bounds();
    let month = date.month() as i64;
    let day = date.day() as i64;
    let year: i64 = if month <= 2 {
        date.year() as i64 - 1
    } else {
        date.year() as i64
    };
    let shifted_year: i64 = year + 400_000;
    let era: i64 = shifted_year / 400;
    let year_of_era: i64 = shifted_year - era * 400;
    let shifted_month: i64 = if month > 2 {
        month - 3
    } else {
        month + 9
    };
    let day_of_year: i64 = (153 * shifted_month + 2) / 5 + day - 1;
    let day_of_era: i64 = year_of_era * 365 + year_of_era / 4 - year_of_era / 100 + day_of_year;
    proof {
        let spec_year = if date@.1 <= 2 {
            date@.0 - 1
        } else {
            date@.0
        };
        assert(spec_year == year as int);
        assert(shifted_year as int / 400 == spec_year / 400 + 1000);
        assert(year_of_era as int == spec_year - (spec_year / 400) * 400);
    }
    (era - 1000) * 146097 + day_of_era - 719468
}

/// Within a 400-year era, the year and day of year that `date_of_day_number` derives from a
/// day of the era lie in range: a year below 400 and a day of year below 366.
proof fn lemma_era_day_bounds(day_of_era: int)
    requires
        0 <= day_of_era <= 146096,
    ensures
        ({
            let year_of_era = (day_of_era - day_of_era / 1460 + day_of_era / 36524 - day_of_era / 146096) / 365;
            &&& 0 <= year_of_era <= 399
            &&& 0 <= day_of_era - (365 * year_of_era + year_of_era / 4 - year_of_era / 100) <= 365
        }),
{
    let year_of_era = (day_of_era - day_of_era / 1460 + day_of_era / 36524 - day_of_era / 146096) / 365;
    assert(0 <= year_of_era <= 399) by (nonlinear_arith)
        requires
            0 <= day_of_era <= 146096,
            year_of_era == (day_of_era - day_of_era / 1460 + day_of_era / 36524 - day_of_era / 146096) / 365,
    ;
    let day_of_year = day_of_era - (365 * year_of_era + year_of_era / 4 - year_of_era / 100);
    assert(0 <= day_of_year <= 365) by (nonlinear_arith)
        requires
            0 <= day_of_era <= 146096,
            year_of_era == (day_of_era - day_of_era / 1460 + day_of_era / 36524 - day_of_era / 146096) / 365,
            day_of_year == day_of_era - (365 * year_of_era + year_of_era / 4 - year_of_era / 100),
    ;
}

/// Day numbers and dates correspond: the day number of the date of a day number is that day
/// number.
pub proof fn lemma_day_number_round_trip(day: int)
    ensures
        days_from_epoch(date_of_day_number(day)) == day,
{
    let shifted = day + 719468;
    let era = shifted / 146097;
    let day_of_era = shifted - era * 146097;
    assert(0 <= day_of_era <= 146096);
    lemma_era_day_bounds(day_of_era);
    let year_of_era = (day_of_era - day_of_era / 1460 + day_of_era / 36524 - day_of_era / 146096) / 365;
    let day_of_year = day_of_era - (365 * year_of_era + year_of_era / 4 - year_of_era / 100);
    let shifted_month = (5 * day_of_year + 2) / 153;
    assert(0 <= shifted_month <= 11) by (nonlinear_arith)
        requires
            0 <= day_of_year <= 365,
            shifted_month == (5 * day_of_year + 2) / 153,
    ;
    let date = date_of_day_number(day);
    let year = if date.1 <= 2 {
        date.0 - 1
    } else {
        date.0
    };
    assert(year == year_of_era + era * 400);
    assert(year / 400 == era) by (nonlinear_arith)
        requires
            year == year_of_era + era * 400,
            0 <= year_of_era <= 399,
    ;
    assert(year - (year / 400) * 400 == year_of_era);
}

/// Moving a date by a number of days within `chrono`'s range gives the date whose day number
/// is the date's plus those days, and never leaves the range.
pub proof fn lemma_date_plus_days_moves_day_number(date: (int, int, int), days: int)
    ensures
        chrono_date_plus_days(date, days) is Some <==> day_number_in_range(days_from_epoch(date) + days),
        chrono_date_plus_days(date, days) matches Some(value) ==> days_from_epoch(value) == days_from_epoch(date)
            + days,
{
    reveal(chrono_date_plus_days);
    lemma_day_number_round_trip(days_from_epoch(date) + days);
}

} // verus!
