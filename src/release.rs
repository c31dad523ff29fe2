use chrono::{Datelike, TimeZone, Timelike};
use vstd::prelude::*;
use vstd::string::StringExecFns;

use crate::text::{decimal, push_char, push_decimal, push_signed_decimal, signed_decimal};

verus! {

/// Day number (days from the common era, 0001-01-01 being day 1) of the first
/// date that a `Puzzle` may carry.
pub const FIRST_DAY: i32 = 1;

/// Day number of 9999-12-31, the last date that a `Puzzle` may carry.
pub const LAST_DAY: i32 = 3_652_059;

/// Seconds in an hour.
pub const SECONDS_PER_HOUR: u32 = 3600;

/// New York wall clock at a Unix instant given in nanoseconds: the local date as
/// a day number, and the seconds since local midnight.
pub uninterp spec fn new_york_wall_clock(t: int) -> (int, int);

/// The Unix instant, in nanoseconds, at which the New York wall clock shows the
/// given hour on the given day, when there is exactly one such instant and it
/// fits in an `i64`.
pub uninterp spec fn new_york_instant(day: int, hour: int) -> Option<int>;

/// Relies on chrono's `DateTime::from_timestamp_nanos`, `with_timezone` with
/// chrono_tz's `America::New_York`, `date_naive().num_days_from_ce()` and
/// `time().num_seconds_from_midnight()`. Every `i64` of nanoseconds lies between
/// 1677 and 2262, so the local date lies well inside the supported days.
#[verifier::external_body]
fn wall_clock(t: i64) -> (r: (i32, u32))
    ensures
        r.0 as int == new_york_wall_clock(t as int).0,
        r.1 as int == new_york_wall_clock(t as int).1,
        FIRST_DAY < r.0 < LAST_DAY,
        r.1 < 86400,
{
    let local = chrono::DateTime::from_timestamp_nanos(t).with_timezone(&chrono_tz::America::New_York);
    (local.date_naive().num_days_from_ce(), local.time().num_seconds_from_midnight())
}

/// Relies on chrono's `NaiveDate::from_num_days_from_ce_opt` and `and_hms_opt`,
/// chrono_tz's `America::New_York.from_local_datetime(..).single()`, and
/// `timestamp_nanos_opt`. An instant found this way shows, in New York, the
/// wall-clock time that it was made from.
#[verifier::external_body]
fn instant_of(day: i32, hour: u32) -> (r: Option<i64>)
    ensures
        r.is_some() == new_york_instant(day as int, hour as int).is_some(),
        r.is_some() ==> r.unwrap() as int == new_york_instant(day as int, hour as int).unwrap(),
        r.is_some() ==> new_york_wall_clock(r.unwrap() as int) == (day as int, hour as int * 3600),
{
    let naive = chrono::NaiveDate::from_num_days_from_ce_opt(day)?.and_hms_opt(hour, 0, 0)?;
    chrono_tz::America::New_York.from_local_datetime(&naive).single()?.timestamp_nanos_opt()
}

/// Year, month and day of the date with the given day number.
pub uninterp spec fn calendar_date(day: int) -> (int, int, int);

/// The date with the given day number written out in English, as
/// "Friday, March 15 2024" (weekday, month, space-padded day, year).
pub uninterp spec fn long_date_text(day: int) -> Seq<char>;

/// Relies on chrono's `NaiveDate::from_num_days_from_ce_opt` and its
/// `year`, `month` (1 to 12) and `day` (1 to 31).
#[verifier::external_body]
fn civil_date(day: i32) -> (r: (i32, u32, u32))
    requires
        FIRST_DAY <= day <= LAST_DAY,
    ensures
        (r.0 as int, r.1 as int, r.2 as int) == calendar_date(day as int),
        1 <= r.1 <= 12,
        1 <= r.2 <= 31,
{
    let date = chrono::NaiveDate::from_num_days_from_ce_opt(day).unwrap();
    (date.year(), date.month(), date.day())
}

/// Relies on chrono's `NaiveDate::from_num_days_from_ce_opt` and `format`
/// with the pattern "%A, %B %e %Y".
#[verifier::external_body]
fn long_date(day: i32) -> (r: String)
    requires
        FIRST_DAY <= day <= LAST_DAY,
    ensures
        r@ == long_date_text(day as int),
{
    chrono::NaiveDate::from_num_days_from_ce_opt(day).unwrap().format("%A, %B %e %Y").to_string()
}

/// Text of an announcement before the puzzle's date.
pub const ANNOUNCEMENT_HEAD: &'static str = "\u{200B}TEST The mini of ";

/// Text of an announcement after the puzzle's date.
pub const ANNOUNCEMENT_TAIL: &'static str = " just came out! Play it online at https://nytimes.com/crosswords/game/mini or in the app.\nOnce you're done, click the :white_check_mark: below so you can share your thoughts.";

/// Name of the companion channel of the puzzle of `day`: "year-month-day" in
/// decimal, without leading zeros.
pub open spec fn channel_name_of(day: int) -> Seq<char> {
    signed_decimal(calendar_date(day).0) + seq!['-'] + decimal(calendar_date(day).1 as nat) + seq!['-']
        + decimal(calendar_date(day).2 as nat)
}

/// The announcement posted for the puzzle of `day`.
pub open spec fn announcement_text(day: int) -> Seq<char> {
    ANNOUNCEMENT_HEAD@ + long_date_text(day) + ANNOUNCEMENT_TAIL@
}

/// Day of the week of a day number: 0 for Monday up to 6 for Sunday
/// (0001-01-01 was a Monday in the proleptic Gregorian calendar).
pub open spec fn weekday_of(day: int) -> int {
    (day - 1) % 7
}

/// Hour of the day, in New York, at which the puzzle of `day` is replaced:
/// 18:00 on Saturdays and Sundays, 22:00 on the other days.
pub open spec fn reveal_hour_of(day: int) -> int {
    if weekday_of(day) >= 5 {
        18
    } else {
        22
    }
}

/// The day of the puzzle that is current when the New York wall clock shows
/// `seconds` past midnight on `day`.
pub open spec fn release_day_at(day: int, seconds: int) -> int {
    if seconds < reveal_hour_of(day) * 3600 {
        day
    } else {
        day + 1
    }
}

/// The day of the puzzle that is current at the instant `t` (Unix nanoseconds).
pub open spec fn current_day(t: int) -> int {
    release_day_at(new_york_wall_clock(t).0, new_york_wall_clock(t).1)
}

/// The instant at which the puzzle of `day` is replaced, when it can be given.
pub open spec fn replacement_of(day: int) -> Option<int> {
    new_york_instant(day, reveal_hour_of(day))
}

/// One daily puzzle, identified by its date in New York as a day number.
#[derive(Clone, Copy, Debug, PartialEq, Eq, Structural)]
pub struct Puzzle {
    pub days: i32,
}

impl Puzzle {
    /// The date lies between 0001-01-01 and 9999-12-31.
    pub open spec fn wf(self) -> bool {
        FIRST_DAY <= self.days <= LAST_DAY
    }

    pub open spec fn succ_spec(self) -> Puzzle {
        Puzzle { days: (self.days + 1) as i32 }
    }

    pub open spec fn pred_spec(self) -> Puzzle {
        Puzzle { days: (self.days - 1) as i32 }
    }

    /// The puzzle of the date with this day number, if it is a supported date.
    pub fn of(days: i32) -> (r: Option<Puzzle>)
        ensures
            r.is_some() == (FIRST_DAY <= days <= LAST_DAY),
            r.is_some() ==> r.unwrap().days == days && r.unwrap().wf(),
    {
        if FIRST_DAY <= days && days <= LAST_DAY {
            Some(Puzzle { days })
        } else {
            None
        }
    }

    /// The next puzzle.
    pub fn succ(self) -> (r: Puzzle)
        requires
            self.wf(),
            self.days < LAST_DAY,
        ensures
            r == self.succ_spec(),
            r.wf(),
    {
        Puzzle { days: self.days + 1 }
    }

    /// The previous puzzle.
    pub fn pred(self) -> (r: Puzzle)
        requires
            self.wf(),
            self.days > FIRST_DAY,
        ensures
            r == self.pred_spec(),
            r.wf(),
    {
        Puzzle { days: self.days - 1 }
    }

    /// Day of the week of this puzzle's date, 0 for Monday up to 6 for Sunday.
    pub fn weekday(self) -> (r: u32)
        requires
            self.wf(),
        ensures
            r as int == weekday_of(self.days as int),
            r < 7,
    {
        ((self.days - 1) % 7) as u32
    }

    /// Hour of the day, in New York, at which this puzzle is replaced.
    pub fn reveal_hour(self) -> (r: u32)
        requires
            self.wf(),
        ensures
            r as int == reveal_hour_of(self.days as int),
            weekday_of(self.days as int) >= 5 ==> r == 18,
            weekday_of(self.days as int) < 5 ==> r == 22,
    {
        if self.weekday() >= 5 {
            18
        } else {
            22
        }
    }

    /// The puzzle that is current when the New York wall clock shows `seconds`
    /// past midnight on the day with number `day`: that day's puzzle before its
    /// reveal hour, the next day's from the reveal hour on.
    pub fn release_at(day: i32, seconds: u32) -> (r: Puzzle)
        requires
            FIRST_DAY <= day < LAST_DAY,
        ensures
            r.days == release_day_at(day as int, seconds as int),
            r.wf(),
    {
        let today = Puzzle { days: day };
        if seconds < today.reveal_hour() * SECONDS_PER_HOUR {
            today
        } else {
            today.succ()
        }
    }

    /// The puzzle that is current at the instant `t`, in nanoseconds since the
    /// Unix epoch. The reveal hours lie far from the hours at which New York's
    /// offset changes, so comparing wall-clock time of day is the same as
    /// comparing `t` with the replacement instant.
    pub fn current_as_of(t: i64) -> (r: Puzzle)
        ensures
            r.days == current_day(t as int),
            r.wf(),
            r.days > FIRST_DAY,
    {
        let (day, seconds) = wall_clock(t);
        Puzzle::release_at(day, seconds)
    }

    /// The puzzle that an announcement posted at `posted_at` (Unix nanoseconds)
    /// refers to.
    pub fn from_announcement(posted_at: i64) -> (r: Puzzle)
        ensures
            r.days == current_day(posted_at as int),
            r.wf(),
            r.days > FIRST_DAY,
    {
        Puzzle::current_as_of(posted_at)
    }

    /// The instant, in Unix nanoseconds, at which this puzzle's replacement comes
    /// out: its date at the reveal hour in New York. `None` where that wall-clock
    /// time is not a single instant that fits in an `i64`.
    pub fn replacement_time(self) -> (r: Option<i64>)
        requires
            self.wf(),
        ensures
            r.is_some() == replacement_of(self.days as int).is_some(),
            r.is_some() ==> r.unwrap() as int == replacement_of(self.days as int).unwrap(),
            r.is_some() ==> current_day(r.unwrap() as int) == self.days + 1,
    {
        instant_of(self.days, self.reveal_hour())
    }
    /// Year, month and day of this puzzle's date.
    pub fn ymd(self) -> (r: (i32, u32, u32))
        requires
            self.wf(),
        ensures
            (r.0 as int, r.1 as int, r.2 as int) == calendar_date(self.days as int),
    {
        civil_date(self.days)
    }

    /// This puzzle's date written out, as "Friday, March 15 2024".
    pub fn describe(self) -> (r: String)
        requires
            self.wf(),
        ensures
            r@ == long_date_text(self.days as int),
    {
        long_date(self.days)
    }

    /// The announcement of this puzzle.
    pub fn to_announcement(self) -> (r: String)
        requires
            self.wf(),
        ensures
            r@ == announcement_text(self.days as int),
    {
        let date = self.describe();
        let mut text = String::from_str(ANNOUNCEMENT_HEAD);
        text.append(date.as_str());
        text.append(ANNOUNCEMENT_TAIL);
        text
    }

    /// Name of this puzzle's companion channel, as "2024-3-15".
    pub fn to_channel_name(self) -> (r: String)
        requires
            self.wf(),
        ensures
            r@ == channel_name_of(self.days as int),
    {
        let (year, month, day) = self.ymd();
        let mut name = String::new();
        push_signed_decimal(&mut name, year as i64);
        push_char(&mut name, '-');
        push_decimal(&mut name, month as u64);
        push_char(&mut name, '-');
        push_decimal(&mut name, day as u64);
        assert(name@ =~= channel_name_of(self.days as int));
        name
    }
}

/// Going back one puzzle and forward one again gives the same puzzle, for every
/// puzzle that `Puzzle::current_as_of` can return.
pub proof fn lemma_pred_succ(p: Puzzle)
    requires
        p.wf(),
        p.days > FIRST_DAY,
    ensures
        p.pred_spec().wf(),
        p.pred_spec().days < LAST_DAY,
        p.pred_spec().succ_spec() == p,
{
}

/// The reveal hour is exclusive below and inclusive at: one second before it
/// the puzzle of the day is current, at it the next puzzle is.
pub proof fn lemma_reveal_boundary(p: Puzzle)
    requires
        p.wf(),
    ensures
        release_day_at(p.days as int, reveal_hour_of(p.days as int) * 3600 - 1) == p.days,
        release_day_at(p.days as int, reveal_hour_of(p.days as int) * 3600) == p.days + 1,
        release_day_at(p.days as int, reveal_hour_of(p.days as int) * 3600) == p.succ_spec().days,
{
}

/// Saturdays and Sundays are revealed at another hour than the other days.
pub proof fn lemma_weekend_hour(weekend: int, weekday: int)
    requires
        weekday_of(weekend) >= 5,
        weekday_of(weekday) < 5,
    ensures
        reveal_hour_of(weekend) == 18,
        reveal_hour_of(weekday) == 22,
        reveal_hour_of(weekend) != reveal_hour_of(weekday),
{
}

} // verus!
