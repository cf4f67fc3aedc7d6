//! Days of the week, times of day at minute resolution, and the local clock.

use chrono::Datelike;
use chrono::Timelike;
use vstd::prelude::*;
use vstd::string::*;

use crate::text::same_text;

verus! {

/// The number of minutes in a day.
pub const MINUTES_PER_DAY: u16 = 1440;

/// A day of the week.
#[derive(Clone, Copy, Debug, PartialEq, Eq, Structural)]
pub enum Day {
    Monday,
    Tuesday,
    Wednesday,
    Thursday,
    Friday,
    Saturday,
    Sunday,
}

impl Day {
    /// The canonical English name of the day.
    pub open spec fn name_of(self) -> Seq<char> {
        match self {
            Day::Monday => "Monday"@,
            Day::Tuesday => "Tuesday"@,
            Day::Wednesday => "Wednesday"@,
            Day::Thursday => "Thursday"@,
            Day::Friday => "Friday"@,
            Day::Saturday => "Saturday"@,
            Day::Sunday => "Sunday"@,
        }
    }

    /// The day that a text names, if it is one of the seven canonical names
    /// (exactly, capital first letter).
    pub open spec fn named(name: Seq<char>) -> Option<Day> {
        if name == "Monday"@ {
            Some(Day::Monday)
        } else if name == "Tuesday"@ {
            Some(Day::Tuesday)
        } else if name == "Wednesday"@ {
            Some(Day::Wednesday)
        } else if name == "Thursday"@ {
            Some(Day::Thursday)
        } else if name == "Friday"@ {
            Some(Day::Friday)
        } else if name == "Saturday"@ {
            Some(Day::Saturday)
        } else if name == "Sunday"@ {
            Some(Day::Sunday)
        } else {
            None
        }
    }

    /// Reads a day from its canonical name.
    pub fn from_name(name: &str) -> (r: Option<Day>)
        ensures
            r == Day::named(name@),
    {
        if same_text(name, "Monday") {
            Some(Day::Monday)
        } else if same_text(name, "Tuesday") {
            Some(Day::Tuesday)
        } else if same_text(name, "Wednesday") {
            Some(Day::Wednesday)
        } else if same_text(name, "Thursday") {
            Some(Day::Thursday)
        } else if same_text(name, "Friday") {
            Some(Day::Friday)
        } else if same_text(name, "Saturday") {
            Some(Day::Saturday)
        } else if same_text(name, "Sunday") {
            Some(Day::Sunday)
        } else {
            None
        }
    }

    /// The canonical name of the day.
    pub fn name(self) -> (r: &'static str)
        ensures
            r@ == self.name_of(),
    {
        match self {
            Day::Monday => "Monday",
            Day::Tuesday => "Tuesday",
            Day::Wednesday => "Wednesday",
            Day::Thursday => "Thursday",
            Day::Friday => "Friday",
            Day::Saturday => "Saturday",
            Day::Sunday => "Sunday",
        }
    }
}

/// Each day is the one that its own name names: the seven names are distinct.
pub proof fn lemma_day_name_round_trip(day: Day)
    ensures
        Day::named(day.name_of()) == Some(day),
{
    reveal_strlit("Monday");
    reveal_strlit("Tuesday");
    reveal_strlit("Wednesday");
    reveal_strlit("Thursday");
    reveal_strlit("Friday");
    reveal_strlit("Saturday");
    reveal_strlit("Sunday");
    // The names differ in length or in their first letter.
    assert("Monday"@.len() == 6 && "Monday"@[0] == 'M');
    assert("Tuesday"@.len() == 7);
    assert("Wednesday"@.len() == 9);
    assert("Thursday"@.len() == 8 && "Thursday"@[0] == 'T');
    assert("Friday"@.len() == 6 && "Friday"@[0] == 'F');
    assert("Saturday"@.len() == 8 && "Saturday"@[0] == 'S');
    assert("Sunday"@.len() == 6 && "Sunday"@[0] == 'S');
}

/// Whether a character is a decimal digit.
pub open spec fn is_digit(c: char) -> bool {
    '0' <= c <= '9'
}

/// The value of a decimal digit.
pub open spec fn digit_value(c: char) -> int
    recommends
        is_digit(c),
{
    c as int - '0' as int
}

/// The minute of the day that a text of the form `HH:MM` names: two digits,
/// a colon, two digits, with the hour below 24 and the minute below 60.
/// Any other text names none.
pub open spec fn clock_minutes(text: Seq<char>) -> Option<int> {
    if text.len() == 5 && is_digit(text[0]) && is_digit(text[1]) && text[2] == ':' && is_digit(
        text[3],
    ) && is_digit(text[4]) && 10 * digit_value(text[0]) + digit_value(text[1]) < 24 && 10
        * digit_value(text[3]) + digit_value(text[4]) < 60 {
        Some(
            60 * (10 * digit_value(text[0]) + digit_value(text[1])) + 10 * digit_value(text[3])
                + digit_value(text[4]),
        )
    } else {
        None
    }
}

/// How many colons a text holds.
pub open spec fn colon_count(text: Seq<char>) -> nat
    decreases text.len(),
{
    if text.len() == 0 {
        0
    } else {
        colon_count(text.drop_last()) + if text.last() == ':' {
            1nat
        } else {
            0nat
        }
    }
}

/// The number of whole minutes from one minute of the day forward to another,
/// wrapping at midnight: between 0 and 1439.
pub open spec fn forward_gap(from: int, to: int) -> int {
    (to - from) % 1440
}

/// The code of the character `0`.
const ASCII_ZERO: u8 = 48;

/// The code of the character `9`.
const ASCII_NINE: u8 = 57;

/// The code of the colon.
const ASCII_COLON: u8 = 58;

/// Whether a byte is the code of a decimal digit.
fn is_digit_byte(b: u8) -> (r: bool)
    ensures
        r == (ASCII_ZERO <= b <= ASCII_NINE),
{
    ASCII_ZERO <= b && b <= ASCII_NINE
}

/// A time of day at minute resolution.
#[derive(Clone, Copy, Debug)]
pub struct TimeOfDay {
    minutes: u16,
}

impl TimeOfDay {
    #[verifier::type_invariant]
    spec fn within_a_day(self) -> bool {
        self.minutes < MINUTES_PER_DAY
    }

    /// Minutes since midnight.
    pub closed spec fn minute_of_day(self) -> int {
        self.minutes as int
    }

    /// The time `hour:minute`, if the hour is below 24 and the minute below 60.
    pub fn new(hour: u32, minute: u32) -> (r: Option<TimeOfDay>)
        ensures
            hour < 24 && minute < 60 ==> (r matches Some(t) && t.minute_of_day() == 60 * hour
                + minute),
            !(hour < 24 && minute < 60) ==> r is None,
    {
        if hour < 24 && minute < 60 {
            Some(TimeOfDay { minutes: (hour * 60 + minute) as u16 })
        } else {
            None
        }
    }

    /// Reads a time written as `HH:MM`.
    pub fn parse(text: &str) -> (r: Option<TimeOfDay>)
        ensures
            match r {
                Some(t) => clock_minutes(text@) == Some(t.minute_of_day()),
                None => clock_minutes(text@) is None,
            },
    {
        if !text.is_ascii() {
            return None;
        }
        proof {
            vstd::utf8::is_ascii_chars_encode_utf8(text@);
        }
        if text.as_bytes().len() != 5 {
            return None;
        }
        let h1 = text.get_ascii(0);
        let h0 = text.get_ascii(1);
        let colon = text.get_ascii(2);
        let m1 = text.get_ascii(3);
        let m0 = text.get_ascii(4);
        if !(is_digit_byte(h1) && is_digit_byte(h0) && colon == ASCII_COLON && is_digit_byte(m1)
            && is_digit_byte(m0)) {
            return None;
        }
        let hour: u32 = (10 * (h1 - ASCII_ZERO) + (h0 - ASCII_ZERO)) as u32;
        let minute: u32 = (10 * (m1 - ASCII_ZERO) + (m0 - ASCII_ZERO)) as u32;
        proof {
            vstd::utf8::is_ascii_chars_nat_bound(text@);
        }
        TimeOfDay::new(hour, minute)
    }

    /// Minutes since midnight.
    pub fn minutes(self) -> (r: u16)
        ensures
            r == self.minute_of_day(),
            r < MINUTES_PER_DAY,
    {
        proof {
            use_type_invariant(&self);
        }
        self.minutes
    }

    /// The number of whole minutes from this time forward to `later`,
    /// wrapping at midnight.
    pub fn minutes_until(self, later: TimeOfDay) -> (r: u16)
        ensures
            r == forward_gap(self.minute_of_day(), later.minute_of_day()),
            r < MINUTES_PER_DAY,
    {
        proof {
            use_type_invariant(&self);
            use_type_invariant(&later);
        }
        if later.minutes >= self.minutes {
            later.minutes - self.minutes
        } else {
            later.minutes + MINUTES_PER_DAY - self.minutes
        }
    }
}

/// A text that names a time of day holds exactly one colon.
pub proof fn lemma_clock_text_has_one_colon(text: Seq<char>)
    requires
        clock_minutes(text) is Some,
    ensures
        colon_count(text) == 1,
{
    let t4 = text.drop_last();
    let t3 = t4.drop_last();
    let t2 = t3.drop_last();
    let t1 = t2.drop_last();
    assert(colon_count(t1.drop_last()) == 0);
    assert(colon_count(t1) == 0);
    assert(colon_count(t2) == 0);
    assert(colon_count(t3) == 1);
    assert(colon_count(t4) == 1);
}

/// Two texts that name the same time of day are the same text.
pub proof fn lemma_clock_text_unique(a: Seq<char>, b: Seq<char>)
    requires
        clock_minutes(a) is Some,
        clock_minutes(a) == clock_minutes(b),
    ensures
        a == b,
{
}

/// The forward gap lies within a day, and is zero exactly between equal times.
pub proof fn lemma_forward_gap_bounds(from: int, to: int)
    requires
        0 <= from < 1440,
        0 <= to < 1440,
    ensures
        0 <= forward_gap(from, to) < 1440,
        forward_gap(from, to) == 0 <==> from == to,
        forward_gap(from, to) == if to >= from {
            to - from
        } else {
            to + 1440 - from
        },
{
}

/// An instant that no clock reading is later than, in milliseconds since the
/// start of 1970: the length of 262144 years of 366 days each. No reading is
/// earlier than the start of 1970 itself.
pub const LAST_INSTANT_MILLIS: i64 = 8_289_622_425_600_000;

/// One reading of the local clock.
#[derive(Clone, Copy, Debug)]
pub struct ClockReading {
    /// Milliseconds since the start of 1970 (UTC), leap seconds not counted.
    pub epoch_millis: i64,
    /// The local day of the week.
    pub day: Day,
    /// The local time of day, truncated to the minute.
    pub time: TimeOfDay,
}

/// Reads the local clock with `chrono::Local::now()` and takes the reading
/// apart with `timestamp_millis`, `weekday`, `hour` and `minute`.
///
/// Of the instant it is claimed only that it is not before the start of 1970
/// and no later than [`LAST_INSTANT_MILLIS`]: `Local::now()` takes the time
/// that has passed since 1970 from the system clock, chrono holds no date
/// after `NaiveDate::MAX`, which lies in the year 262142, and
/// `timestamp_millis` counts from 1970. The hour is claimed to lie in `0..=23`
/// and the minute in `0..=59`, as `chrono::Timelike` documents.
///
/// `Local::now()` panics if the system clock is set before 1970, and if the
/// time-zone data of the system gives no usable offset from UTC.
#[verifier::external_body]
fn local_now() -> (r: (i64, Day, u32, u32))
    ensures
        0 <= r.0 <= LAST_INSTANT_MILLIS,
        r.2 < 24,
        r.3 < 60,
{
    let now = chrono::Local::now();
    let day = match now.weekday() {
        chrono::Weekday::Mon => Day::Monday,
        chrono::Weekday::Tue => Day::Tuesday,
        chrono::Weekday::Wed => Day::Wednesday,
        chrono::Weekday::Thu => Day::Thursday,
        chrono::Weekday::Fri => Day::Friday,
        chrono::Weekday::Sat => Day::Saturday,
        chrono::Weekday::Sun => Day::Sunday,
    };
    (now.timestamp_millis(), day, now.hour(), now.minute())
}

impl ClockReading {
    /// Reads the local clock. The instant, the day and the time are whatever
    /// the clock shows; the instant lies between the start of 1970 and the
    /// last that the clock can show, and the time is a minute of the day.
    pub fn now() -> (r: ClockReading)
        ensures
            0 <= r.epoch_millis <= LAST_INSTANT_MILLIS,
            0 <= r.time.minute_of_day() < MINUTES_PER_DAY,
    {
        let (epoch_millis, day, hour, minute) = local_now();
        let time = TimeOfDay { minutes: (hour * 60 + minute) as u16 };
        ClockReading { epoch_millis, day, time }
    }
}

} // verus!
