//! The clock: the civil hour of an instant, the key of its ranking bucket and
//! the time left until the hour ends.

use crate::text::{
    four_digits, is_digit, lemma_padded_shape, push_four_digits, push_two_digits, two_digits,
};
use vstd::prelude::*;

verus! {

/// Seconds in an hour.
pub const SECONDS_PER_HOUR: i64 = 3600;

/// The offset, in hours, by which the ranking buckets run ahead of UTC unless
/// the caller configures another.
pub const DEFAULT_OFFSET_HOURS: i64 = 2;

/// The year, month and day of the month, in the proleptic Gregorian
/// calendar, of the day that lies `day` days after 1970-01-01; or `None`
/// where the calendar library cannot represent that day.
pub uninterp spec fn utc_calendar_date(day: int) -> Option<(int, int, int)>;

/// The number of the day, counted from 1970-01-01, on which the instant
/// `secs` falls in UTC.
pub open spec fn day_number(secs: int) -> int {
    secs / 86400
}

/// The hour of the day, in UTC, of the instant `secs`.
pub open spec fn hour_of_day(secs: int) -> int {
    (secs / 3600) % 24
}

/// The minute of the hour of the instant `secs`.
pub open spec fn minute_of_hour(secs: int) -> int {
    (secs / 60) % 60
}

/// What a civil hour is, as mathematics.
pub struct CivilHourView {
    pub year: int,
    pub month: int,
    pub day: int,
    pub hour: int,
    pub minute: int,
}

impl CivilHourView {
    /// The ranges within which the fields of a civil hour lie.
    pub open spec fn wf(self) -> bool {
        &&& 0 <= self.year <= 9999
        &&& 1 <= self.month <= 12
        &&& 1 <= self.day <= 31
        &&& 0 <= self.hour <= 23
        &&& 0 <= self.minute <= 59
    }

    /// The key of the ranking bucket of this hour: `YYYYMMDD-HH`.
    pub open spec fn bucket_key(self) -> Seq<char> {
        four_digits(self.year as nat) + two_digits(self.month as nat) + two_digits(
            self.day as nat,
        ) + seq!['-'] + two_digits(self.hour as nat)
    }

    /// Whole minutes until the hour ends, counting the minute under way: 60
    /// at the top of the hour, 1 in its last minute.
    pub open spec fn minutes_to_next_hour(self) -> int {
        60 - self.minute
    }

    /// The seconds for which a cache entry written now stays alive.
    pub open spec fn seconds_to_next_hour(self) -> int {
        60 * self.minutes_to_next_hour()
    }
}

/// Whether `key` has the shape of a bucket key: eight digits, a hyphen, two
/// digits.
pub open spec fn is_bucket_key(key: Seq<char>) -> bool {
    &&& key.len() == 11
    &&& forall|i: int| 0 <= i < 8 ==> is_digit(#[trigger] key[i])
    &&& key[8] == '-'
    &&& is_digit(key[9])
    &&& is_digit(key[10])
}

/// The civil hour of the instant `secs`, where the calendar library can
/// represent it and its year has four digits.
pub open spec fn civil_hour_of(secs: int) -> Option<CivilHourView> {
    match utc_calendar_date(day_number(secs)) {
        Some((year, month, day)) => {
            let clock = CivilHourView {
                year,
                month,
                day,
                hour: hour_of_day(secs),
                minute: minute_of_hour(secs),
            };
            if clock.wf() {
                Some(clock)
            } else {
                None
            }
        },
        None => None,
    }
}

/// The instant `offset_hours` hours after `now`.
pub open spec fn shifted(now: int, offset_hours: int) -> int {
    now + 3600 * offset_hours
}

/// The civil hour of the instant `offset_hours` hours after `now`, where that
/// instant fits the machine's seconds counter.
pub open spec fn civil_hour_shifted(now: int, offset_hours: int) -> Option<CivilHourView> {
    if i64::MIN <= 3600 * offset_hours <= i64::MAX && i64::MIN <= shifted(now, offset_hours)
        <= i64::MAX {
        civil_hour_of(shifted(now, offset_hours))
    } else {
        None
    }
}

/// A date and hour of the civil calendar, with the minute within the hour.
#[derive(Clone, Copy, Debug, PartialEq, Eq)]
pub struct CivilHour {
    year: u32,
    month: u32,
    day: u32,
    hour: u32,
    minute: u32,
}

impl View for CivilHour {
    type V = CivilHourView;

    closed spec fn view(&self) -> CivilHourView {
        CivilHourView {
            year: self.year as int,
            month: self.month as int,
            day: self.day as int,
            hour: self.hour as int,
            minute: self.minute as int,
        }
    }
}

/// `chrono::DateTime::from_timestamp` with no nanoseconds, then the `year`,
/// `month`, `day`, `hour` and `minute` of `chrono::Datelike` and
/// `chrono::Timelike` on what it returns. The contract claims: a day has
/// 86400 seconds, and the date depends on the number of the day alone; the
/// call fails exactly where the date of that day has no value; the month
/// lies in 1..=12 and the day in 1..=31; the hour and the minute are those
/// of the count of seconds. Believed, not proved.
#[verifier::external_body]
fn chrono_utc_fields(secs: i64) -> (fields: Option<(i32, u32, u32, u32, u32)>)
    ensures
        match fields {
            Some((year, month, day, hour, minute)) => {
                &&& utc_calendar_date(day_number(secs as int)) == Some(
                    (year as int, month as int, day as int),
                )
                &&& 1 <= month <= 12
                &&& 1 <= day <= 31
                &&& hour == hour_of_day(secs as int)
                &&& minute == minute_of_hour(secs as int)
            },
            None => utc_calendar_date(day_number(secs as int)) is None,
        },
{
    let at = chrono::DateTime::from_timestamp(secs, 0)?;
    Some(
        (
            chrono::Datelike::year(&at),
            chrono::Datelike::month(&at),
            chrono::Datelike::day(&at),
            chrono::Timelike::hour(&at),
            chrono::Timelike::minute(&at),
        ),
    )
}

/// Shifting an instant by whole hours keeps its minute of the hour.
pub proof fn lemma_shift_keeps_minute(now: int, offset_hours: int)
    ensures
        minute_of_hour(shifted(now, offset_hours)) == minute_of_hour(now),
{
    let k = offset_hours;
    assert((now + 3600 * k) / 60 == now / 60 + 60 * k) by {
        vstd::arithmetic::div_mod::lemma_mod_bound(now, 60);
        vstd::arithmetic::div_mod::lemma_fundamental_div_mod(now, 60);
        vstd::arithmetic::div_mod::lemma_fundamental_div_mod_converse(
            now + 3600 * k,
            60,
            now / 60 + 60 * k,
            now % 60,
        );
    }
    assert((now / 60 + 60 * k) % 60 == (now / 60) % 60) by {
        vstd::arithmetic::div_mod::lemma_mod_multiples_vanish(k, now / 60, 60);
    }
}

/// The day of an instant is the day of its hour.
pub proof fn lemma_day_of_hour(secs: int)
    ensures
        day_number(secs) == (secs / 3600) / 24,
{
    let hours = secs / 3600;
    let rest = secs % 3600;
    vstd::arithmetic::div_mod::lemma_fundamental_div_mod(secs, 3600);
    vstd::arithmetic::div_mod::lemma_mod_bound(secs, 3600);
    vstd::arithmetic::div_mod::lemma_fundamental_div_mod(hours, 24);
    vstd::arithmetic::div_mod::lemma_mod_bound(hours, 24);
    vstd::arithmetic::div_mod::lemma_fundamental_div_mod_converse(
        secs,
        86400,
        hours / 24,
        3600 * (hours % 24) + rest,
    );
}

/// Two instants within one hour have the same day, the same hour of the day
/// and so the same civil hour but for the minute.
pub proof fn lemma_same_hour(a: int, b: int)
    requires
        a / 3600 == b / 3600,
    ensures
        day_number(a) == day_number(b),
        hour_of_day(a) == hour_of_day(b),
        civil_hour_of(a) is Some <==> civil_hour_of(b) is Some,
        civil_hour_of(a) is Some ==> civil_hour_of(a)->0.bucket_key() == civil_hour_of(
            b,
        )->0.bucket_key(),
{
    lemma_day_of_hour(a);
    lemma_day_of_hour(b);
    vstd::arithmetic::div_mod::lemma_mod_bound(a / 60, 60);
    vstd::arithmetic::div_mod::lemma_mod_bound(b / 60, 60);
}

/// The key of a civil hour has the shape of a bucket key.
pub proof fn lemma_bucket_key_shape(clock: CivilHourView)
    ensures
        is_bucket_key(clock.bucket_key()),
{
    lemma_padded_shape(clock.year as nat);
    lemma_padded_shape(clock.month as nat);
    lemma_padded_shape(clock.day as nat);
    lemma_padded_shape(clock.hour as nat);
    let key = clock.bucket_key();
    let year = four_digits(clock.year as nat);
    let month = two_digits(clock.month as nat);
    let day = two_digits(clock.day as nat);
    let hour = two_digits(clock.hour as nat);
    assert(key.len() == 11);
    assert forall|i: int| 0 <= i < 8 implies is_digit(#[trigger] key[i]) by {
        if i < 4 {
            assert(key[i] == year[i]);
        } else if i < 6 {
            assert(key[i] == month[i - 4]);
        } else {
            assert(key[i] == day[i - 6]);
        }
    }
    assert(key[8] == '-');
    assert(key[9] == hour[0]);
    assert(key[10] == hour[1]);
}

impl CivilHour {
    /// The civil hour with the given fields, where each lies in its range:
    /// a year of four digits, a month of the year, a day up to 31, an hour of
    /// the day, a minute of the hour.
    pub fn new(
        year: u32,
        month: u32,
        day: u32,
        hour: u32,
        minute: u32,
    ) -> (clock: Option<CivilHour>)
        ensures
            ({
                let fields = CivilHourView {
                    year: year as int,
                    month: month as int,
                    day: day as int,
                    hour: hour as int,
                    minute: minute as int,
                };
                match clock {
                    Some(c) => fields.wf() && c@ == fields,
                    None => !fields.wf(),
                }
            }),
    {
        if year <= 9999 && 1 <= month && month <= 12 && 1 <= day && day <= 31 && hour <= 23
            && minute <= 59 {
            Some(CivilHour { year, month, day, hour, minute })
        } else {
            None
        }
    }

    #[verifier::type_invariant]
    spec fn inv(self) -> bool {
        self@.wf()
    }

    /// The key of the ranking bucket of this hour: `YYYYMMDD-HH`.
    pub fn bucket_key(&self) -> (key: String)
        ensures
            key@ == self@.bucket_key(),
            is_bucket_key(key@),
    {
        let mut key = String::new();
        push_four_digits(&mut key, self.year);
        push_two_digits(&mut key, self.month);
        push_two_digits(&mut key, self.day);
        key.append("-");
        push_two_digits(&mut key, self.hour);
        proof {
            reveal_strlit("-");
            assert("-"@ =~= seq!['-']);
            assert(key@ =~= self@.bucket_key());
            lemma_bucket_key_shape(self@);
        }
        key
    }

    /// Whole minutes until the hour ends, counting the minute under way.
    pub fn minutes_to_next_hour(&self) -> (minutes: u32)
        ensures
            minutes == self@.minutes_to_next_hour(),
            1 <= minutes <= 60,
            self@.wf(),
    {
        proof {
            use_type_invariant(self);
        }
        60 - self.minute
    }

    /// The seconds for which a cache entry written now stays alive: sixty for
    /// each minute left.
    pub fn seconds_to_next_hour(&self) -> (seconds: u64)
        ensures
            seconds == self@.seconds_to_next_hour(),
            60 <= seconds <= 3600,
    {
        let minutes = self.minutes_to_next_hour();
        60 * (minutes as u64)
    }
}

/// The civil hour of the instant `secs` seconds after the epoch, in UTC.
pub fn civil_hour(secs: i64) -> (clock: Option<CivilHour>)
    ensures
        match clock {
            Some(c) => civil_hour_of(secs as int) == Some(c@),
            None => civil_hour_of(secs as int) is None,
        },
{
    match chrono_utc_fields(secs) {
        Some((year, month, day, hour, minute)) => {
            if 0 <= year && year <= 9999 {
                CivilHour::new(year as u32, month, day, hour, minute)
            } else {
                None
            }
        },
        None => None,
    }
}

/// The civil hour of the instant `offset_hours` hours after `now`. The
/// minute is that of `now` itself, whatever the offset.
pub fn civil_hour_at(now: i64, offset_hours: i64) -> (clock: Option<CivilHour>)
    ensures
        match clock {
            Some(c) => civil_hour_shifted(now as int, offset_hours as int) == Some(c@),
            None => civil_hour_shifted(now as int, offset_hours as int) is None,
        },
        clock matches Some(c) ==> c@.minute == minute_of_hour(now as int) && c@.hour
            == hour_of_day(shifted(now as int, offset_hours as int)),
{
    proof {
        lemma_shift_keeps_minute(now as int, offset_hours as int);
    }
    match offset_hours.checked_mul(SECONDS_PER_HOUR) {
        Some(shift) => match now.checked_add(shift) {
            Some(at) => civil_hour(at),
            None => None,
        },
        None => None,
    }
}

/// The key of the ranking bucket of the instant `offset_hours` hours after
/// `now`, truncated to its hour.
pub fn bucket_key(now: i64, offset_hours: i64) -> (key: Option<String>)
    ensures
        match key {
            Some(k) => civil_hour_shifted(now as int, offset_hours as int) matches Some(c)
                && k@ == c.bucket_key() && is_bucket_key(k@),
            None => civil_hour_shifted(now as int, offset_hours as int) is None,
        },
{
    match civil_hour_at(now, offset_hours) {
        Some(clock) => Some(clock.bucket_key()),
        None => None,
    }
}

} // verus!
