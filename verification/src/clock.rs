//! Instants, and what a clock in Melbourne shows at them.
use vstd::prelude::*;
use crate::digits::{
    digit, four_digits_at, lemma_four_digits_spell, lemma_padded_fits, lemma_padded_holds_digits, lemma_padded_tells_numbers_apart,
    lemma_two_digits_spell, lemma_two_digits_tell_numbers_apart, padded, two_digits, two_digits_at,
};

verus! {

/// The first second, counted from the start of 1970 in UTC, that an instant can
/// have.
pub const MIN_SECONDS: i64 = -8_334_601_228_800;

/// The last second, counted from the start of 1970 in UTC, that an instant can
/// have.
pub const MAX_SECONDS: i64 = 8_210_266_876_799;

/// The last year whose dates can be read. In its last hours in UTC the next year
/// has begun in Melbourne.
pub const MAX_YEAR: i32 = 262_142;

/// The second, counted from the start of 1970 in UTC, from which Melbourne keeps
/// zone time and no longer its own.
pub const ZONE_TIME_START: i64 = -2_364_111_592;

/// A point in time.
#[derive(Clone, Copy, Debug, PartialEq, Eq, Structural)]
pub struct Instant {
    /// The second, counted from the start of 1970 in UTC.
    pub seconds: i64,
    /// The nanoseconds since that second. They pass a full second only within a
    /// leap second, which lengthens the last second of a minute.
    pub nanos: u32,
}

impl Instant {
    /// The instant lies on the calendar.
    pub open spec fn valid(self) -> bool {
        &&& MIN_SECONDS <= self.seconds <= MAX_SECONDS
        &&& self.nanos < 1_000_000_000 || self.nanos < 2_000_000_000 && self.seconds % 60 == 59
    }
}

/// A clock reading, to the second, with the zone time in force.
pub struct LocalTime {
    /// The year of the Gregorian calendar.
    pub year: int,
    /// The month, from 1.
    pub month: int,
    /// The day of the month, from 1.
    pub day: int,
    /// The day of the week, from Sunday as 0.
    pub weekday: int,
    /// The hour, from 0.
    pub hour: int,
    /// The minute, from 0.
    pub minute: int,
    /// The second, from 0.
    pub second: int,
    /// The abbreviated name of the zone time.
    pub zone: Seq<char>,
    /// The seconds by which the clock is ahead of UTC.
    pub offset: int,
}

/// The year has a leap day.
pub open spec fn is_leap_year(year: int) -> bool {
    year % 4 == 0 && (year % 100 != 0 || year % 400 == 0)
}

/// How many days a month has in a year.
pub open spec fn days_in_month(year: int, month: int) -> int {
    if month == 2 {
        if is_leap_year(year) {
            29
        } else {
            28
        }
    } else if month == 4 || month == 6 || month == 9 || month == 11 {
        30
    } else {
        31
    }
}

/// The days from the start of 1970 to a date of the Gregorian calendar. Years
/// are taken to start in March, so that a leap day ends its year.
pub open spec fn day_number(year: int, month: int, day: int) -> int {
    let y = if month <= 2 {
        year - 1
    } else {
        year
    };
    let m = (month + 9) % 12;
    365 * y + y / 4 - y / 100 + y / 400 + (153 * m + 2) / 5 + day - 719469
}

impl LocalTime {
    /// The date is one of the calendar, and the fields of the time lie where those
    /// of a clock lie.
    pub open spec fn valid(self) -> bool {
        &&& 1 <= self.month <= 12
        &&& 1 <= self.day <= days_in_month(self.year, self.month)
        &&& 0 <= self.weekday <= 6
        &&& 0 <= self.hour <= 23
        &&& 0 <= self.minute <= 59
        &&& 0 <= self.second <= 59
    }

    /// The minutes from the start of 1970, by this clock, to the reading.
    pub open spec fn minutes(self) -> int {
        day_number(self.year, self.month, self.day) * 1440 + self.hour * 60 + self.minute
    }

    /// This is what the clock shows at a second counted from the start of 1970
    /// in UTC: so many seconds ahead, with the weekday that the date has, the
    /// first of 1970 being a Thursday.
    pub open spec fn shown_at(self, seconds: int) -> bool {
        &&& self.valid()
        &&& self.minutes() == (seconds + self.offset) / 60
        &&& self.second == (seconds + self.offset) % 60
        &&& self.weekday == (day_number(self.year, self.month, self.day) + 4) % 7
    }

    /// The zone time is one that Melbourne has at a second counted from the start
    /// of 1970 in UTC: eastern standard or daylight time, and before there was
    /// zone time the city's own.
    pub open spec fn in_melbourne(self, seconds: int) -> bool {
        if seconds >= ZONE_TIME_START {
            ||| self.zone == "AEST"@ && self.offset == 36000
            ||| self.zone == "AEDT"@ && self.offset == 39600
        } else {
            self.zone == "LMT"@ && self.offset == 34792
        }
    }
}

/// What a clock in Melbourne shows at a second counted from the start of 1970
/// in UTC, by the time zone database.
pub uninterp spec fn melbourne_local(seconds: i64) -> LocalTime;

/// The instant that a date and time with an offset names, where the text is one.
pub uninterp spec fn instant_of(text: Seq<char>) -> Option<Instant>;

/// A year in at least four digits, with a sign where it is not one of 0 to 9999.
pub open spec fn year_text(year: int) -> Seq<char> {
    if 0 <= year <= 9999 {
        padded(year as nat, 4)
    } else if year < 0 {
        seq!['-'] + padded((-year) as nat, 4)
    } else {
        seq!['+'] + padded(year as nat, 4)
    }
}

/// The English name of a weekday, in three letters.
pub open spec fn weekday_text(weekday: int) -> Seq<char> {
    if weekday == 0 {
        "Sun"@
    } else if weekday == 1 {
        "Mon"@
    } else if weekday == 2 {
        "Tue"@
    } else if weekday == 3 {
        "Wed"@
    } else if weekday == 4 {
        "Thu"@
    } else if weekday == 5 {
        "Fri"@
    } else {
        "Sat"@
    }
}

/// The English name of a month, in three letters.
pub open spec fn month_text(month: int) -> Seq<char> {
    if month == 1 {
        "Jan"@
    } else if month == 2 {
        "Feb"@
    } else if month == 3 {
        "Mar"@
    } else if month == 4 {
        "Apr"@
    } else if month == 5 {
        "May"@
    } else if month == 6 {
        "Jun"@
    } else if month == 7 {
        "Jul"@
    } else if month == 8 {
        "Aug"@
    } else if month == 9 {
        "Sep"@
    } else if month == 10 {
        "Oct"@
    } else if month == 11 {
        "Nov"@
    } else {
        "Dec"@
    }
}

/// The fraction of a second: nothing where there is none, and else a point with
/// as many groups of three digits as it takes.
pub open spec fn fraction_text(nanos: int) -> Seq<char> {
    let fraction = nanos % 1_000_000_000;
    if fraction == 0 {
        Seq::empty()
    } else if fraction % 1_000_000 == 0 {
        seq!['.'] + padded((fraction / 1_000_000) as nat, 3)
    } else if fraction % 1_000 == 0 {
        seq!['.'] + padded((fraction / 1_000) as nat, 6)
    } else {
        seq!['.'] + padded(fraction as nat, 9)
    }
}

/// How far a clock is ahead of UTC, in hours and minutes, to the nearest minute.
pub open spec fn offset_text(offset: int) -> Seq<char> {
    let ahead = if offset < 0 {
        -offset
    } else {
        offset
    };
    let minutes = (ahead + 30) / 60;
    seq![
        if offset < 0 {
            '-'
        } else {
            '+'
        },
    ] + two_digits(minutes / 60) + seq![':'] + two_digits(minutes % 60)
}

/// Year, month and day, a hyphen, hour and minute.
pub open spec fn compact_text(local: LocalTime) -> Seq<char> {
    year_text(local.year) + two_digits(local.month) + two_digits(local.day) + seq!['-']
        + two_digits(local.hour) + two_digits(local.minute)
}

/// Weekday, day, month, hour and minute, and the zone time.
pub open spec fn spoken_text(local: LocalTime) -> Seq<char> {
    weekday_text(local.weekday) + seq![' '] + two_digits(local.day) + seq![' '] + month_text(
        local.month,
    ) + seq![' '] + two_digits(local.hour) + seq![':'] + two_digits(local.minute) + seq![' ']
        + local.zone
}

/// What follows the year in a date and time of ISO 8601, up to the seconds; a
/// leap second counts as the sixtieth.
pub open spec fn stamp_middle(local: LocalTime, nanos: int) -> Seq<char> {
    seq!['-'] + two_digits(local.month) + seq!['-'] + two_digits(local.day) + seq!['T']
        + two_digits(local.hour) + seq![':'] + two_digits(local.minute) + seq![':'] + two_digits(
        local.second + nanos / 1_000_000_000,
    )
}

/// The date and time of ISO 8601, with the offset.
pub open spec fn stamp_text(local: LocalTime, nanos: int) -> Seq<char> {
    year_text(local.year) + stamp_middle(local, nanos) + fraction_text(nanos) + offset_text(
        local.offset,
    )
}

/// This is what a Melbourne clock shows at a second counted from the start of
/// 1970 in UTC.
pub open spec fn is_reading(local: LocalTime, seconds: i64) -> bool {
    local.shown_at(seconds as int) && local.in_melbourne(seconds as int)
}

/// The text is a Melbourne clock reading in the compact layout.
pub open spec fn is_compact(text: Seq<char>, instant: Instant, local: LocalTime) -> bool {
    is_reading(local, instant.seconds) && text == compact_text(local)
}

/// The text is a Melbourne clock reading in the spoken layout.
pub open spec fn is_spoken(text: Seq<char>, instant: Instant, local: LocalTime) -> bool {
    is_reading(local, instant.seconds) && text == spoken_text(local)
}

/// The text is a Melbourne clock reading in the layout of ISO 8601.
pub open spec fn is_stamp(text: Seq<char>, instant: Instant, local: LocalTime) -> bool {
    is_reading(local, instant.seconds) && text == stamp_text(local, instant.nanos as int)
}

/// The text names the instant, where Melbourne keeps zone time (before, the offset
/// is written to the nearest minute only) and the calendar has the year.
pub open spec fn names_instant(text: Seq<char>, instant: Instant, local: LocalTime) -> bool {
    instant.seconds >= ZONE_TIME_START && local.year <= MAX_YEAR ==> instant_of(text) == Some(instant)
}

/// `str::parse` into chrono's `DateTime<FixedOffset>`: the instant that the text
/// names, or `None` where the text is refused. The offset that the text is
/// written in is left off. A `DateTime` lies on the calendar. How the text is
/// read is not stated.
#[verifier::external_body]
pub(crate) fn parse_instant(text: &str) -> (instant: Option<Instant>)
    ensures
        instant == instant_of(text@),
        instant matches Some(instant) ==> instant.valid(),
{
    match text.parse::<chrono::DateTime<chrono::FixedOffset>>() {
        Ok(time) => Some(
            Instant { seconds: time.timestamp(), nanos: time.timestamp_subsec_nanos() },
        ),
        Err(_) => None,
    }
}

/// `chrono::Local::now`: the present instant. A `DateTime` lies on the calendar;
/// which instant it is depends on the clock.
#[verifier::external_body]
pub(crate) fn now() -> (instant: Instant)
    ensures
        instant.valid(),
{
    let time = chrono::Local::now().fixed_offset();
    Instant { seconds: time.timestamp(), nanos: time.timestamp_subsec_nanos() }
}

/// The instant is one that the machine's clock gave as the present.
pub closed spec fn is_present(instant: Instant) -> bool {
    call_ensures(now, (), instant)
}

/// The clock gave exactly what counts as the present.
pub(crate) proof fn law_present_comes_from_the_clock(instant: Instant)
    ensures
        is_present(instant) <==> call_ensures(now, (), instant),
{
}

/// chrono's `DateTime::with_timezone` to `Australia::Melbourne`, written out by
/// `DateTime::format`: the reading of a Melbourne clock at that instant, in one
/// of the three layouts that are used here. The layout of ISO 8601 is one that
/// `str::parse` reads: it gives the instant back. When daylight time is in force
/// is not stated. A valid instant exists, and each layout can be written.
#[verifier::external_body]
pub(crate) fn format_melbourne(instant: Instant, layout: &str) -> (text: String)
    requires
        instant.valid(),
        layout@ == "%Y%m%d-%H%M"@ || layout@ == "%a %d %b %H:%M %Z"@ || layout@
            == "%Y-%m-%dT%H:%M:%S%.f%:z"@,
    ensures
        layout@ == "%Y%m%d-%H%M"@ ==> is_compact(text@, instant, melbourne_local(instant.seconds)),
        layout@ == "%a %d %b %H:%M %Z"@ ==> is_spoken(
            text@,
            instant,
            melbourne_local(instant.seconds),
        ),
        layout@ == "%Y-%m-%dT%H:%M:%S%.f%:z"@ ==> is_stamp(
            text@,
            instant,
            melbourne_local(instant.seconds),
        ) && names_instant(text@, instant, melbourne_local(instant.seconds)),
{
    let time = chrono::DateTime::from_timestamp(instant.seconds, instant.nanos).unwrap();
    let local = time.with_timezone(&chrono_tz::Australia::Melbourne);
    local.format(layout).to_string()
}

/// The text gives in Melbourne time what another text gives: the instant that the
/// other names, or the other as it is where it names none.
pub open spec fn gives_in_melbourne_time(text: Seq<char>, given: Seq<char>) -> bool {
    match instant_of(given) {
        Some(instant) => {
            let local = melbourne_local(instant.seconds);
            instant.valid() && is_stamp(text, instant, local) && names_instant(text, instant, local)
        },
        None => text == given,
    }
}

/// Writes an instant in Melbourne time.
pub fn stamp(instant: Instant) -> (text: String)
    requires
        instant.valid(),
    ensures
        is_stamp(text@, instant, melbourne_local(instant.seconds)),
        names_instant(text@, instant, melbourne_local(instant.seconds)),
{
    format_melbourne(instant, "%Y-%m-%dT%H:%M:%S%.f%:z")
}

/// Rewrites a date and time in Melbourne time; a text that is none stays as it
/// is.
pub fn in_melbourne_time(given: &str) -> (text: String)
    ensures
        gives_in_melbourne_time(text@, given@),
{
    match parse_instant(given) {
        Some(instant) => stamp(instant),
        None => given.to_owned(),
    }
}

/// Equal texts stand for equal years.
pub proof fn lemma_year_text_tells_years_apart(a: int, b: int)
    requires
        year_text(a) == year_text(b),
    ensures
        a == b,
{
    let abs_a = if a < 0 { (-a) as nat } else { a as nat };
    let abs_b = if b < 0 { (-b) as nat } else { b as nat };
    lemma_padded_holds_digits(abs_a, 4);
    lemma_padded_holds_digits(abs_b, 4);
    let first = year_text(a)[0];
    assert(first == year_text(b)[0]);
    if 0 <= a <= 9999 {
        assert(first == padded(abs_a, 4)[0]);
    } else {
        assert(year_text(a).skip(1) =~= padded(abs_a, 4));
    }
    if 0 <= b <= 9999 {
        assert(first == padded(abs_b, 4)[0]);
    } else {
        assert(year_text(b).skip(1) =~= padded(abs_b, 4));
    }
    lemma_padded_tells_numbers_apart(abs_a, abs_b, 4, 4);
}

/// Equal texts stand for equal fractions of a second.
proof fn lemma_fraction_text_tells_fractions_apart(a: int, b: int)
    requires
        0 <= a,
        0 <= b,
        fraction_text(a) == fraction_text(b),
    ensures
        a % 1_000_000_000 == b % 1_000_000_000,
{
    lemma_fraction_digits(a);
    lemma_fraction_digits(b);
    let text = fraction_text(a);
    if text.len() > 0 {
        let digits = text.skip(1);
        let fa = a % 1_000_000_000;
        let fb = b % 1_000_000_000;
        if text.len() == 4 {
            lemma_padded_tells_numbers_apart(
                (fa / 1_000_000) as nat,
                (fb / 1_000_000) as nat,
                3,
                3,
            );
        } else if text.len() == 7 {
            lemma_padded_tells_numbers_apart((fa / 1_000) as nat, (fb / 1_000) as nat, 6, 6);
        } else {
            lemma_padded_tells_numbers_apart(fa as nat, fb as nat, 9, 9);
        }
    }
}

/// The length of the text of a fraction tells how it is written.
proof fn lemma_fraction_digits(nanos: int)
    requires
        0 <= nanos,
    ensures
        ({
            let fraction = nanos % 1_000_000_000;
            let text = fraction_text(nanos);
            &&& text.len() == 0 || text.len() == 4 || text.len() == 7 || text.len() == 10
            &&& text.len() == 0 ==> fraction == 0
            &&& text.len() == 4 ==> fraction % 1_000_000 == 0 && text.skip(1) == padded(
                (fraction / 1_000_000) as nat,
                3,
            )
            &&& text.len() == 7 ==> fraction % 1_000 == 0 && text.skip(1) == padded(
                (fraction / 1_000) as nat,
                6,
            )
            &&& text.len() == 10 ==> text.skip(1) == padded(fraction as nat, 9)
        }),
{
    let fraction = nanos % 1_000_000_000;
    let text = fraction_text(nanos);
    assert(vstd::arithmetic::power::pow(10, 3) == 1_000 && vstd::arithmetic::power::pow(10, 6)
        == 1_000_000 && vstd::arithmetic::power::pow(10, 9) == 1_000_000_000) by {
        reveal_with_fuel(vstd::arithmetic::power::pow, 10);
    }
    if fraction == 0 {
    } else if fraction % 1_000_000 == 0 {
        lemma_padded_fits((fraction / 1_000_000) as nat, 3, 1_000);
        assert(text.skip(1) =~= padded((fraction / 1_000_000) as nat, 3));
    } else if fraction % 1_000 == 0 {
        lemma_padded_fits((fraction / 1_000) as nat, 6, 1_000_000);
        assert(text.skip(1) =~= padded((fraction / 1_000) as nat, 6));
    } else {
        lemma_padded_fits(fraction as nat, 9, 1_000_000_000);
        assert(text.skip(1) =~= padded(fraction as nat, 9));
    }
}

/// After the first character the text of a year holds digits alone.
proof fn lemma_year_text_holds_digits(year: int)
    ensures
        year_text(year).len() >= 4,
        forall|i: int| 1 <= i < year_text(year).len() ==> #[trigger] year_text(year)[i] != '-',
{
    let n = if year < 0 { (-year) as nat } else { year as nat };
    lemma_padded_holds_digits(n, 4);
    assert forall|i: int| 1 <= i < year_text(year).len() implies #[trigger] year_text(year)[i]
        != '-' by {
        if 0 <= year <= 9999 {
            assert(year_text(year)[i] == padded(n, 4)[i]);
        } else {
            assert(year_text(year)[i] == padded(n, 4)[i - 1]);
        }
    }
}

/// The parts of a stamp.
proof fn lemma_stamp_parts(local: LocalTime, nanos: int)
    ensures
        ({
            let text = stamp_text(local, nanos);
            let n = year_text(local.year).len() as int;
            let f = fraction_text(nanos).len() as int;
            &&& text.len() == n + 15 + f + 6
            &&& text.take(n) == year_text(local.year)
            &&& text[n] == '-'
            &&& text.subrange(n + 1, n + 3) == two_digits(local.month)
            &&& text.subrange(n + 4, n + 6) == two_digits(local.day)
            &&& text.subrange(n + 7, n + 9) == two_digits(local.hour)
            &&& text.subrange(n + 10, n + 12) == two_digits(local.minute)
            &&& text.subrange(n + 13, n + 15) == two_digits(local.second + nanos / 1_000_000_000)
            &&& text.subrange(n + 15, n + 15 + f) == fraction_text(nanos)
            &&& text.subrange(n + 15 + f, n + 15 + f + 6) == offset_text(local.offset)
        }),
{
    let text = stamp_text(local, nanos);
    let n = year_text(local.year).len() as int;
    let f = fraction_text(nanos).len() as int;
    let middle = stamp_middle(local, nanos);
    assert(middle.len() == 15);
    assert(text.take(n) =~= year_text(local.year));
    assert(text[n] == middle[0]);
    assert(text.subrange(n + 1, n + 3) =~= two_digits(local.month));
    assert(text.subrange(n + 4, n + 6) =~= two_digits(local.day));
    assert(text.subrange(n + 7, n + 9) =~= two_digits(local.hour));
    assert(text.subrange(n + 10, n + 12) =~= two_digits(local.minute));
    assert(text.subrange(n + 13, n + 15) =~= two_digits(local.second + nanos / 1_000_000_000));
    assert(text.subrange(n + 15, n + 15 + f) =~= fraction_text(nanos));
    assert(text.subrange(n + 15 + f, n + 15 + f + 6) =~= offset_text(local.offset));
}

/// Equal stamps stand for equal fields.
proof fn lemma_stamp_tells_the_fields(la: LocalTime, lb: LocalTime, na: int, nb: int)
    requires
        la.valid(),
        lb.valid(),
        0 <= na < 2_000_000_000,
        0 <= nb < 2_000_000_000,
        stamp_text(la, na) == stamp_text(lb, nb),
    ensures
        la.minutes() == lb.minutes(),
        la.second + na / 1_000_000_000 == lb.second + nb / 1_000_000_000,
        na % 1_000_000_000 == nb % 1_000_000_000,
        offset_text(la.offset) == offset_text(lb.offset),
{
    let text = stamp_text(la, na);
    let n = year_text(la.year).len() as int;
    let m = year_text(lb.year).len() as int;
    assert(n == m) by {
        lemma_stamp_parts(la, na);
        lemma_stamp_parts(lb, nb);
        lemma_year_text_holds_digits(la.year);
        lemma_year_text_holds_digits(lb.year);
        if n < m {
            assert(text[n] == text.take(m)[n]);
        } else if m < n {
            assert(text[m] == text.take(n)[m]);
        }
    }
    lemma_stamp_parts(la, na);
    lemma_stamp_parts(lb, nb);
    lemma_year_text_tells_years_apart(la.year, lb.year);
    lemma_two_digits_tell_numbers_apart(la.month, lb.month);
    lemma_two_digits_tell_numbers_apart(la.day, lb.day);
    lemma_two_digits_tell_numbers_apart(la.hour, lb.hour);
    lemma_two_digits_tell_numbers_apart(la.minute, lb.minute);
    lemma_two_digits_tell_numbers_apart(
        la.second + na / 1_000_000_000,
        lb.second + nb / 1_000_000_000,
    );
    lemma_fraction_text_tells_fractions_apart(na, nb);
}

/// The two zone times are written apart.
proof fn lemma_offset_text_tells_zone_times_apart(a: int, b: int)
    requires
        a == 36000 || a == 39600,
        b == 36000 || b == 39600,
        offset_text(a) == offset_text(b),
    ensures
        a == b,
{
    assert(offset_text(36000)[2] == digit(0));
    assert(offset_text(39600)[2] == digit(1));
}

/// Equal readings of a clock that is whole minutes ahead stand for equal instants.
#[verifier::spinoff_prover]
proof fn lemma_readings_tell_the_instant(a: Instant, b: Instant, ahead: int, minute: int)
    requires
        a.valid(),
        b.valid(),
        ahead % 60 == 0,
        minute == (a.seconds + ahead) / 60,
        minute == (b.seconds + ahead) / 60,
        (a.seconds + ahead) % 60 + a.nanos as int / 1_000_000_000 == (b.seconds + ahead) % 60
            + b.nanos as int / 1_000_000_000,
        a.nanos as int % 1_000_000_000 == b.nanos as int % 1_000_000_000,
    ensures
        a == b,
{
    let whole_a = a.nanos as int / 1_000_000_000;
    let whole_b = b.nanos as int / 1_000_000_000;
    let second_a = (a.seconds + ahead) % 60;
    let second_b = (b.seconds + ahead) % 60;
    lemma_whole_seconds(a.nanos as int);
    lemma_whole_seconds(b.nanos as int);
    lemma_minutes_keep_the_second(a.seconds as int, ahead);
    lemma_minutes_keep_the_second(b.seconds as int, ahead);
    assert(second_a < 60 && second_b < 60);
    assert(whole_a == 1 ==> second_a == 59);
    assert(whole_b == 1 ==> second_b == 59);
    assert(whole_a == whole_b);
    assert(second_a == second_b);
    vstd::arithmetic::div_mod::lemma_fundamental_div_mod(a.seconds + ahead, 60);
    vstd::arithmetic::div_mod::lemma_fundamental_div_mod(b.seconds + ahead, 60);
    vstd::arithmetic::div_mod::lemma_fundamental_div_mod(a.nanos as int, 1_000_000_000);
    vstd::arithmetic::div_mod::lemma_fundamental_div_mod(b.nanos as int, 1_000_000_000);
}

/// Nanoseconds below two seconds make one whole second or none.
proof fn lemma_whole_seconds(nanos: int)
    requires
        0 <= nanos < 2_000_000_000,
    ensures
        nanos / 1_000_000_000 == if nanos >= 1_000_000_000 { 1int } else { 0 },
{
    if nanos >= 1_000_000_000 {
        vstd::arithmetic::div_mod::lemma_fundamental_div_mod_converse(
            nanos,
            1_000_000_000,
            1,
            nanos - 1_000_000_000,
        );
    } else {
        vstd::arithmetic::div_mod::lemma_fundamental_div_mod_converse(
            nanos,
            1_000_000_000,
            0,
            nanos,
        );
    }
}

/// Whole minutes do not change the second within the minute.
proof fn lemma_minutes_keep_the_second(seconds: int, ahead: int)
    requires
        ahead % 60 == 0,
    ensures
        (seconds + ahead) % 60 == seconds % 60,
{
    vstd::arithmetic::div_mod::lemma_fundamental_div_mod(seconds, 60);
    vstd::arithmetic::div_mod::lemma_fundamental_div_mod(ahead, 60);
    let q = seconds / 60 + ahead / 60;
    assert(seconds + ahead == q * 60 + seconds % 60);
    vstd::arithmetic::div_mod::lemma_fundamental_div_mod_converse(
        seconds + ahead,
        60,
        q,
        seconds % 60,
    );
}

/// The days up to the first of March of a year.
spec fn days_to_march(year: int) -> int {
    365 * year + year / 4 - year / 100 + year / 400
}

/// No year starts before an earlier one.
#[verifier::spinoff_prover]
proof fn lemma_years_follow_each_other(a: int, b: int)
    requires
        a <= b,
    ensures
        days_to_march(a) <= days_to_march(b),
{
}

/// A quotient grows by one where the next number can be divided, and stays where
/// not.
proof fn lemma_next_quotient(n: int, d: int)
    requires
        d > 0,
    ensures
        (n + 1) / d - n / d == if (n + 1) % d == 0 { 1int } else { 0 },
{
    let q = n / d;
    let r = n % d;
    vstd::arithmetic::div_mod::lemma_fundamental_div_mod(n, d);
    if r + 1 == d {
        assert(n + 1 == (q + 1) * d) by (nonlinear_arith)
            requires
                n == d * q + r,
                r + 1 == d,
        ;
        vstd::arithmetic::div_mod::lemma_fundamental_div_mod_converse(n + 1, d, q + 1, 0);
    } else {
        assert(n + 1 == q * d + (r + 1)) by (nonlinear_arith)
            requires
                n == d * q + r,
        ;
        vstd::arithmetic::div_mod::lemma_fundamental_div_mod_converse(n + 1, d, q, r + 1);
    }
}

/// What 400 divides 100 divides, and what 100 divides 4 divides.
#[verifier::spinoff_prover]
proof fn lemma_centuries_divide_by_four(n: int)
    ensures
        n % 400 == 0 ==> n % 100 == 0,
        n % 100 == 0 ==> n % 4 == 0,
{
}

/// From March to March there are 365 days, and one more where the year that the
/// last month belongs to has a leap day.
proof fn lemma_length_of_a_year(year: int)
    ensures
        days_to_march(year + 1) - days_to_march(year) == if is_leap_year(year + 1) {
            366int
        } else {
            365
        },
{
    lemma_next_quotient(year, 4);
    lemma_next_quotient(year, 100);
    lemma_next_quotient(year, 400);
    lemma_centuries_divide_by_four(year + 1);
}

/// The days before a month, counted from March, and the days of the month make no
/// more than those up to the end of February.
#[verifier::spinoff_prover]
proof fn lemma_months_fit(year: int, month: int)
    requires
        1 <= month <= 12,
    ensures
        ({
            let before = (153 * ((month + 9) % 12) + 2) / 5;
            &&& 0 <= before
            &&& month == 2 ==> before == 337
            &&& month != 2 ==> before + days_in_month(year, month) <= 337
        }),
{
}

/// The days of a year that starts in March end where the next such year starts.
#[verifier::spinoff_prover]
proof fn lemma_dates_stay_in_their_year(year: int, month: int, day: int)
    requires
        1 <= month <= 12,
        1 <= day <= days_in_month(year, month),
    ensures
        ({
            let y = if month <= 2 { year - 1 } else { year };
            days_to_march(y) < day_number(year, month, day) + 719469 <= days_to_march(y + 1)
        }),
{
    let y = if month <= 2 { year - 1 } else { year };
    lemma_months_fit(year, month);
    lemma_length_of_a_year(y);
    let before = (153 * ((month + 9) % 12) + 2) / 5;
    assert(day_number(year, month, day) + 719469 == days_to_march(y) + before + day);
}

/// Equal numbers of days stand for equal dates.
#[verifier::spinoff_prover]
pub proof fn lemma_day_number_tells_dates_apart(
    year: int,
    month: int,
    day: int,
    other_year: int,
    other_month: int,
    other_day: int,
)
    requires
        1 <= month <= 12,
        1 <= day <= days_in_month(year, month),
        1 <= other_month <= 12,
        1 <= other_day <= days_in_month(other_year, other_month),
        day_number(year, month, day) == day_number(other_year, other_month, other_day),
    ensures
        year == other_year,
        month == other_month,
        day == other_day,
{
    lemma_dates_stay_in_their_year(year, month, day);
    lemma_dates_stay_in_their_year(other_year, other_month, other_day);
    let y = if month <= 2 { year - 1 } else { year };
    let z = if other_month <= 2 { other_year - 1 } else { other_year };
    if y < z {
        lemma_years_follow_each_other(y + 1, z);
    } else if z < y {
        lemma_years_follow_each_other(z + 1, y);
    }
    assert(y == z);
}

/// The instant and the zone time fix all that the clock shows.
pub proof fn law_reading_is_fixed(a: LocalTime, b: LocalTime, seconds: i64)
    requires
        is_reading(a, seconds),
        is_reading(b, seconds),
        a.offset == b.offset,
    ensures
        a == b,
{
    assert(day_number(a.year, a.month, a.day) == day_number(b.year, b.month, b.day));
    lemma_day_number_tells_dates_apart(a.year, a.month, a.day, b.year, b.month, b.day);
}

/// Since Melbourne keeps zone time, a stamp names one instant, to the
/// nanosecond.
pub proof fn law_stamp_tells_the_instant(a: Instant, b: Instant, text: Seq<char>)
    requires
        a.valid(),
        b.valid(),
        a.seconds >= ZONE_TIME_START,
        b.seconds >= ZONE_TIME_START,
        is_stamp(text, a, melbourne_local(a.seconds)),
        is_stamp(text, b, melbourne_local(b.seconds)),
    ensures
        a == b,
{
    let la = melbourne_local(a.seconds);
    let lb = melbourne_local(b.seconds);
    lemma_stamp_tells_the_fields(la, lb, a.nanos as int, b.nanos as int);
    lemma_offset_text_tells_zone_times_apart(la.offset, lb.offset);
    lemma_readings_tell_the_instant(a, b, la.offset, la.minutes());
}

/// A text that names the same instant, in whatever offset it is written, is
/// rewritten alike.
pub proof fn law_same_instant_same_stamp(
    text: Seq<char>,
    given: Seq<char>,
    other_text: Seq<char>,
    other: Seq<char>,
)
    requires
        instant_of(given) is Some,
        instant_of(given) == instant_of(other),
        gives_in_melbourne_time(text, given),
        gives_in_melbourne_time(other_text, other),
    ensures
        text == other_text,
{
}

/// A date and time that is rewritten still names the instant that it named, and
/// to rewrite it again changes nothing.
pub proof fn law_rewriting_keeps_the_instant(
    text: Seq<char>,
    given: Seq<char>,
    again: Seq<char>,
    instant: Instant,
)
    requires
        instant_of(given) == Some(instant),
        instant.seconds >= ZONE_TIME_START,
        melbourne_local(instant.seconds).year <= MAX_YEAR,
        gives_in_melbourne_time(text, given),
        gives_in_melbourne_time(again, text),
    ensures
        instant_of(text) == Some(instant),
        again == text,
{
}

/// The zone time is eastern standard or daylight time, and the offset with it,
/// ever since Melbourne keeps zone time.
pub proof fn law_zone_time_is_eastern(local: LocalTime, seconds: i64)
    requires
        is_reading(local, seconds),
        seconds >= ZONE_TIME_START,
    ensures
        local.zone == "AEST"@ || local.zone == "AEDT"@,
        local.zone == "AEST"@ <==> local.offset == 36000,
        local.zone == "AEDT"@ <==> local.offset == 39600,
        local.zone == "AEST"@ ==> offset_text(local.offset) == "+10:00"@,
        local.zone == "AEDT"@ ==> offset_text(local.offset) == "+11:00"@,
{
    reveal_strlit("AEST");
    reveal_strlit("AEDT");
    reveal_strlit("+10:00");
    reveal_strlit("+11:00");
    assert("AEST"@[2] != "AEDT"@[2]);
    if local.offset == 36000 {
        assert(offset_text(local.offset) =~= "+10:00"@);
    } else {
        assert(offset_text(local.offset) =~= "+11:00"@);
    }
}

/// What a Melbourne clock shows follows from the second by arithmetic: so many
/// hours and minutes into the day, ten or eleven hours ahead of UTC since there
/// is zone time.
#[verifier::spinoff_prover]
pub proof fn law_reading_follows_from_the_second(seconds: i64)
    requires
        is_reading(melbourne_local(seconds), seconds),
    ensures
        ({
            let local = melbourne_local(seconds);
            let ahead = seconds + local.offset;
            &&& local.hour * 3600 + local.minute * 60 + local.second == ahead % 86400
            &&& day_number(local.year, local.month, local.day) == ahead / 86400
            &&& local.weekday == (ahead / 86400 + 4) % 7
            &&& 1 <= local.month <= 12
            &&& 1 <= local.day <= 31
            &&& 0 <= local.hour < 24
            &&& 0 <= local.minute < 60
            &&& 0 <= local.second < 60
            &&& seconds >= ZONE_TIME_START ==> {
                ||| local.offset == 36000 && local.zone == "AEST"@
                ||| local.offset == 39600 && local.zone == "AEDT"@
            }
        }),
{
    let local = melbourne_local(seconds);
    let ahead = seconds + local.offset;
    let days = day_number(local.year, local.month, local.day);
    assert(days * 1440 + local.hour * 60 + local.minute == ahead / 60);
    assert(ahead == days * 86400 + local.hour * 3600 + local.minute * 60 + local.second);
}

/// A written instant spells what the Melbourne clock shows, character by
/// character: date, `T`, time to the second, and last how far the clock is ahead.
#[verifier::spinoff_prover]
pub proof fn law_stamp_spells_the_reading(instant: Instant, text: String)
    requires
        instant.valid(),
        call_ensures(stamp, (instant,), text),
        0 <= melbourne_local(instant.seconds).year <= 9999,
        instant.seconds >= ZONE_TIME_START,
    ensures
        ({
            let local = melbourne_local(instant.seconds);
            let t = text@;
            let n = t.len() as int;
            &&& n == 25 || n == 29 || n == 32 || n == 35
            &&& n == 25 <==> instant.nanos as int % 1_000_000_000 == 0
            &&& four_digits_at(t, 0) == local.year
            &&& t[4] == '-' && two_digits_at(t, 5) == local.month
            &&& t[7] == '-' && two_digits_at(t, 8) == local.day
            &&& t[10] == 'T' && two_digits_at(t, 11) == local.hour
            &&& t[13] == ':' && two_digits_at(t, 14) == local.minute
            &&& t[16] == ':' && two_digits_at(t, 17) == local.second + instant.nanos as int
                / 1_000_000_000
            &&& n > 25 ==> t[19] == '.'
            &&& t[n - 6] == '+' && t[n - 3] == ':'
            &&& two_digits_at(t, n - 5) * 3600 + two_digits_at(t, n - 2) * 60 == local.offset
            &&& local.hour * 3600 + local.minute * 60 + local.second == (instant.seconds
                + local.offset) % 86400
            &&& day_number(local.year, local.month, local.day) == (instant.seconds + local.offset)
                / 86400
        }),
{
    let local = melbourne_local(instant.seconds);
    let nanos = instant.nanos as int;
    let t = text@;
    let f = fraction_text(nanos);
    let o = offset_text(local.offset);
    law_reading_follows_from_the_second(instant.seconds);
    lemma_four_digits_spell(local.year as nat);
    lemma_two_digits_spell(local.month);
    lemma_two_digits_spell(local.day);
    lemma_two_digits_spell(local.hour);
    lemma_two_digits_spell(local.minute);
    lemma_two_digits_spell(local.second + nanos / 1_000_000_000);
    lemma_fraction_digits(nanos);
    lemma_stamp_parts(local, nanos);
    let middle = stamp_middle(local, nanos);
    let year = year_text(local.year);
    assert(year.len() == 4);
    assert(t == year + middle + f + o);
    assert(middle.len() == 15);
    assert forall|i: int| 0 <= i < 4 implies t[i] == year[i] by {}
    assert forall|i: int| 0 <= i < 15 implies t[4 + i] == middle[i] by {}
    assert(middle[0] == '-' && middle[3] == '-' && middle[6] == 'T' && middle[9] == ':'
        && middle[12] == ':');
    assert(t[4] == middle[0] && t[7] == middle[3] && t[10] == middle[6] && t[13] == middle[9]
        && t[16] == middle[12]);
    assert(t[5] == two_digits(local.month)[0] && t[6] == two_digits(local.month)[1]);
    assert(t[8] == two_digits(local.day)[0] && t[9] == two_digits(local.day)[1]);
    assert(t[11] == two_digits(local.hour)[0] && t[12] == two_digits(local.hour)[1]);
    assert(t[14] == two_digits(local.minute)[0] && t[15] == two_digits(local.minute)[1]);
    let second = local.second + nanos / 1_000_000_000;
    assert(t[17] == two_digits(second)[0] && t[18] == two_digits(second)[1]);
    let n = t.len() as int;
    assert(o.len() == 6);
    assert forall|i: int| 0 <= i < 6 implies t[n - 6 + i] == o[i] by {}
    assert(t[n - 6] == o[0] && t[n - 5] == o[1] && t[n - 4] == o[2] && t[n - 3] == o[3] && t[n - 2]
        == o[4] && t[n - 1] == o[5]);
    lemma_two_digits_spell(local.offset / 3600);
    lemma_two_digits_spell(0);
    assert((local.offset + 30) / 60 / 60 == local.offset / 3600);
    if f.len() > 0 {
        assert(t[19] == f[0]);
    }
}

/// A date and time is written as its instant is, whatever text and offset it was
/// given in, and names the same instant still. A text that is none is left alone.
pub proof fn law_only_dates_and_times_are_rewritten(given: &str, text: String, stamped: String)
    requires
        call_ensures(in_melbourne_time, (given,), text),
    ensures
        instant_of(given@) is None ==> text@ == given@,
        instant_of(given@) matches Some(instant) ==> {
            &&& call_ensures(stamp, (instant,), stamped) ==> text@ == stamped@
            &&& text@ == stamp_text(melbourne_local(instant.seconds), instant.nanos as int)
            &&& instant.seconds >= ZONE_TIME_START && melbourne_local(instant.seconds).year
                <= MAX_YEAR ==> instant_of(text@) == Some(instant)
        },
{
}

/// Every instant of the calendar is written as the Melbourne clock shows it, in
/// whatever year, and what is written in zone time can be read again.
pub proof fn law_stamp_is_read_off_the_clock(instant: Instant, text: String)
    requires
        instant.valid(),
        call_ensures(stamp, (instant,), text),
    ensures
        text@ == stamp_text(melbourne_local(instant.seconds), instant.nanos as int),
        instant.seconds >= ZONE_TIME_START && melbourne_local(instant.seconds).year <= MAX_YEAR
            ==> instant_of(text@) == Some(instant),
{
}

/// A year that four digits cannot spell is written with its sign first, and its
/// distance from the year 0 behind it.
pub proof fn law_far_years_have_a_sign(year: int)
    ensures
        0 <= year <= 9999 ==> year_text(year).len() == 4 && four_digits_at(year_text(year), 0)
            == year,
        year > 9999 ==> year_text(year)[0] == '+' && year_text(year).skip(1) == padded(
            year as nat,
            4,
        ),
        year < 0 ==> year_text(year)[0] == '-' && year_text(year).skip(1) == padded(
            (-year) as nat,
            4,
        ),
{
    if 0 <= year <= 9999 {
        lemma_four_digits_spell(year as nat);
    } else if year < 0 {
        assert(year_text(year).skip(1) =~= padded((-year) as nat, 4));
    } else {
        assert(year_text(year).skip(1) =~= padded(year as nat, 4));
    }
}

} // verus!
