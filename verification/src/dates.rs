//! Calendar dates, and the day of a tournament that a date falls on.

use crate::model::{opt_text, Basho};
use crate::text::{
    byte_range, chars_of, four_digit_text, push_four_digits, push_two_digits, slice_bytes,
    two_digit_text,
};
use crate::tournament::{latest_basho_month, most_recent_basho_ym, TournamentId, MAX_YEAR};
use chrono::Datelike;
use vstd::prelude::*;

verus! {

/// The first year of the calendar.
pub const FIRST_CALENDAR_YEAR: i32 = -262143;

/// The last year of the calendar.
pub const LAST_CALENDAR_YEAR: i32 = 262142;

/// The first day of a tournament.
pub const FIRST_DAY: u8 = 1;

/// The last day of a tournament.
pub const LAST_DAY: u8 = 15;

/// A day of the calendar: year, month and day of the month.
#[derive(Clone, Copy, Debug, PartialEq, Eq, Structural)]
pub struct Date {
    pub year: i32,
    pub month: u32,
    pub day: u32,
}

/// Whether `year` is a leap year of the Gregorian calendar, which is taken to
/// hold before its introduction too.
pub open spec fn is_leap_year(year: int) -> bool {
    year % 4 == 0 && (year % 100 != 0 || year % 400 == 0)
}

/// How many days `month` has in `year`; none for a month that there is not.
pub open spec fn days_in_month(year: int, month: int) -> int {
    if month == 2 {
        if is_leap_year(year) {
            29
        } else {
            28
        }
    } else if month == 4 || month == 6 || month == 9 || month == 11 {
        30
    } else if 1 <= month <= 12 {
        31
    } else {
        0
    }
}

/// What `NaiveDate::parse_from_str` of chrono reads from a text under the
/// format `%Y-%m-%d`: year, month and day, or nothing where it reports an
/// error.
pub uninterp spec fn iso_date_read(s: Seq<char>) -> Option<(int, int, int)>;

/// The number of days from the second date to the first as chrono counts
/// them, by `NaiveDate::signed_duration_since` and `TimeDelta::num_days`;
/// negative where the first date is the earlier one.
pub uninterp spec fn days_apart(
    year: int,
    month: int,
    day: int,
    from_year: int,
    from_month: int,
    from_day: int,
) -> int;

/// The day of the week of a date as chrono counts it, by `Datelike::weekday`
/// and `Weekday::num_days_from_sunday`: 0 for a Sunday up to 6 for a Saturday.
pub uninterp spec fn days_from_sunday(year: int, month: int, day: int) -> int;

impl Date {
    /// Whether the calendar has this day.
    pub open spec fn is_calendar_date(self) -> bool {
        &&& FIRST_CALENDAR_YEAR <= self.year <= LAST_CALENDAR_YEAR
        &&& 1 <= self.day <= days_in_month(self.year as int, self.month as int)
    }

    /// Whether this day comes before `other`.
    pub open spec fn spec_before(self, other: Date) -> bool {
        self.year < other.year || (self.year == other.year && (self.month < other.month || (
        self.month == other.month && self.day < other.day)))
    }

    /// The date as chrono reads it.
    pub open spec fn triple(self) -> (int, int, int) {
        (self.year as int, self.month as int, self.day as int)
    }

    /// The text of the date: year, month and day with hyphens between them,
    /// the year in four digits, or with its sign and in at least four digits
    /// where it is negative or has more than four.
    pub open spec fn text(self) -> Seq<char> {
        let year = if 0 <= self.year <= 9999 {
            four_digit_text(self.year as nat)
        } else if self.year < 0 {
            seq!['-'] + four_digit_text((-self.year) as nat)
        } else {
            seq!['+'] + four_digit_text(self.year as nat)
        };
        year + seq!['-'] + two_digit_text(self.month as nat) + seq!['-']
            + two_digit_text(self.day as nat)
    }

    pub fn new(year: i32, month: u32, day: u32) -> (d: Date)
        ensures
            d == (Date { year, month, day }),
    {
        Date { year, month, day }
    }

    /// Whether the calendar has this day.
    pub fn on_calendar(&self) -> (b: bool)
        ensures
            b == self.is_calendar_date(),
    {
        if self.year < FIRST_CALENDAR_YEAR || self.year > LAST_CALENDAR_YEAR {
            return false;
        }
        // Moving the year by a multiple of 400 keeps the leap years where they are.
        let shifted: i32 = self.year + 262400;
        let leap = shifted % 4 == 0 && (shifted % 100 != 0 || shifted % 400 == 0);
        assert(leap == is_leap_year(self.year as int));
        let days: u32 = if self.month == 2 {
            if leap {
                29
            } else {
                28
            }
        } else if self.month == 4 || self.month == 6 || self.month == 9 || self.month == 11 {
            30
        } else if 1 <= self.month && self.month <= 12 {
            31
        } else {
            0
        };
        1 <= self.day && self.day <= days
    }

    /// Whether this day comes before `other`.
    pub fn before(&self, other: &Date) -> (b: bool)
        ensures
            b == self.spec_before(*other),
    {
        self.year < other.year || (self.year == other.year && (self.month < other.month || (
        self.month == other.month && self.day < other.day)))
    }

    /// The number of whole years from `base` until this day; nothing where
    /// `base` is the later day by that count.
    pub open spec fn spec_years_since(self, base: Date) -> Option<int> {
        let years = if self.month < base.month || (self.month == base.month && self.day
            < base.day) {
            self.year - base.year - 1
        } else {
            self.year - base.year
        };
        if 0 <= years <= u32::MAX {
            Some(years)
        } else {
            None
        }
    }

    /// The number of whole years from `base` until this day.
    pub fn years_since(&self, base: Date) -> (r: Option<u32>)
        ensures
            r is Some <==> self.spec_years_since(base) is Some,
            r is Some ==> r.unwrap() == self.spec_years_since(base).unwrap(),
    {
        let mut years: i64 = self.year as i64 - base.year as i64;
        if self.month < base.month || (self.month == base.month && self.day < base.day) {
            years = years - 1;
        }
        if 0 <= years && years <= 0xffff_ffff {
            Some(years as u32)
        } else {
            None
        }
    }

    pub fn to_string(&self) -> (s: String)
        ensures
            s@ == self.text(),
    {
        let mut s = String::new();
        if 0 <= self.year && self.year <= 9999 {
            push_four_digits(&mut s, self.year as u32);
        } else if self.year < 0 {
            s.push('-');
            push_four_digits(&mut s, (-(self.year as i64)) as u32);
        } else {
            s.push('+');
            push_four_digits(&mut s, self.year as u32);
        }
        s.push('-');
        push_two_digits(&mut s, self.month);
        s.push('-');
        push_two_digits(&mut s, self.day);
        s
    }
}

/// Reads a date of the form year, month, day with hyphens between them.
///
/// Calls `NaiveDate::parse_from_str` of chrono with the format `%Y-%m-%d`. The
/// contract says that the outcome is a function of the text alone, under the
/// name [`iso_date_read`]; it says nothing of which texts are read.
#[verifier::external_body]
fn read_iso_date(s: &str) -> (r: Option<Date>)
    ensures
        r is Some <==> iso_date_read(s@) is Some,
        r is Some ==> iso_date_read(s@) == Some(r.unwrap().triple()),
{
    match chrono::NaiveDate::parse_from_str(s, "%Y-%m-%d") {
        Ok(d) => Some(Date { year: d.year(), month: d.month(), day: d.day() }),
        Err(_) => None,
    }
}

/// The number of days from `from` to `to`.
///
/// Makes both dates with `NaiveDate::from_ymd_opt` of chrono, which gives a
/// date just where the calendar has the day, and takes the whole days of
/// their difference; the contract gives that number the name [`days_apart`].
#[verifier::external_body]
fn days_between(to: Date, from: Date) -> (r: Option<i64>)
    ensures
        r is Some <==> (to.is_calendar_date() && from.is_calendar_date()),
        r is Some ==> r.unwrap() == days_apart(
            to.year as int,
            to.month as int,
            to.day as int,
            from.year as int,
            from.month as int,
            from.day as int,
        ),
{
    let a = chrono::NaiveDate::from_ymd_opt(to.year, to.month, to.day)?;
    let b = chrono::NaiveDate::from_ymd_opt(from.year, from.month, from.day)?;
    Some(a.signed_duration_since(b).num_days())
}

/// The day of the week of `date`, counted from Sunday.
///
/// Makes the date with `NaiveDate::from_ymd_opt` of chrono, which gives a date
/// just where the calendar has the day, and asks for
/// `weekday().num_days_from_sunday()`, which is 0 for a Sunday up to 6 for a
/// Saturday; the contract gives that number the name [`days_from_sunday`].
#[verifier::external_body]
fn weekday_from_sunday(date: Date) -> (r: Option<u32>)
    ensures
        r is Some <==> date.is_calendar_date(),
        r is Some ==> r.unwrap() == days_from_sunday(
            date.year as int,
            date.month as int,
            date.day as int,
        ) && r.unwrap() < 7,
{
    let d = chrono::NaiveDate::from_ymd_opt(date.year, date.month, date.day)?;
    Some(d.weekday().num_days_from_sunday())
}

/// The date that chrono read, as a date of this library.
pub open spec fn date_of(read: (int, int, int)) -> Date {
    Date { year: read.0 as i32, month: read.1 as u32, day: read.2 as u32 }
}

/// The characters of `s` that stand before its first `T`, all of them where it
/// has none.
pub open spec fn date_part(s: Seq<char>) -> Seq<char>
    decreases s.len(),
{
    if s.len() == 0 || s[0] == 'T' {
        Seq::empty()
    } else {
        seq![s[0]] + date_part(s.drop_first())
    }
}

/// The date that the text of a time stamp starts with, where the text before
/// its first `T` reads as a date.
pub open spec fn stamp_date(s: Seq<char>) -> Option<(int, int, int)> {
    iso_date_read(date_part(s))
}

/// The date that the first ten bytes of a time stamp read as, where the
/// stamp has as many and a character ends with the tenth.
pub open spec fn stamp_prefix_date(s: Seq<char>) -> Option<(int, int, int)> {
    match byte_range(s, 0, 10) {
        Some(head) => iso_date_read(head),
        None => None,
    }
}

/// The characters of `s` that stand before its first `T`.
pub fn date_part_of(s: &str) -> (r: String)
    ensures
        r@ == date_part(s@),
{
    let v = chars_of(s);
    let mut r = String::new();
    let mut i: usize = 0;
    assert(v@.skip(0) =~= v@);
    while i < v.len() && v[i] != 'T'
        invariant
            i <= v.len(),
            v@ == s@,
            date_part(s@) == r@ + date_part(v@.skip(i as int)),
        decreases v.len() - i,
    {
        assert(v@.skip(i as int).drop_first() =~= v@.skip(i + 1));
        assert(v@.skip(i as int)[0] == v@[i as int]);
        let ghost before = r@;
        r.push(v[i]);
        assert(r@ + date_part(v@.skip(i + 1)) =~= before + (seq![v@[i as int]] + date_part(
            v@.skip(i + 1),
        )));
        i = i + 1;
    }
    proof {
        if i < v.len() {
            assert(v@.skip(i as int)[0] == 'T');
        }
        assert(date_part(v@.skip(i as int)) =~= Seq::<char>::empty());
        assert(r@ + Seq::<char>::empty() =~= r@);
    }
    r
}

/// The date that a time stamp starts with: what stands before its first `T`,
/// read as a date.
pub fn stamp_date_of(s: &str) -> (r: Option<Date>)
    ensures
        r is Some <==> stamp_date(s@) is Some,
        r is Some ==> stamp_date(s@) == Some(r.unwrap().triple()),
{
    let head = date_part_of(s);
    read_iso_date(head.as_str())
}

/// The date that the first ten bytes of a time stamp read as.
pub fn stamp_prefix_date_of(s: &str) -> (r: Option<Date>)
    ensures
        r is Some <==> stamp_prefix_date(s@) is Some,
        r is Some ==> stamp_prefix_date(s@) == Some(r.unwrap().triple()),
{
    match slice_bytes(s, 0, 10) {
        Some(head) => read_iso_date(head),
        None => None,
    }
}

/// The day of a tournament that lies `days_since_start` days after its first
/// day: the first day before the start, the last one from the fifteenth day
/// on.
pub open spec fn day_after(days_since_start: int) -> int {
    if days_since_start < 0 {
        1
    } else if days_since_start > 14 {
        15
    } else {
        days_since_start + 1
    }
}

pub fn day_of_basho(days_since_start: i64) -> (day: u8)
    ensures
        day == day_after(days_since_start as int),
        FIRST_DAY <= day <= LAST_DAY,
{
    if days_since_start < 0 {
        FIRST_DAY
    } else if days_since_start > 14 {
        LAST_DAY
    } else {
        (days_since_start + 1) as u8
    }
}

/// The day of the month of the second Sunday, from the day of the week of the
/// first of the month counted from Sunday.
pub open spec fn second_sunday(first_from_sunday: int) -> int {
    8 + (7 - first_from_sunday) % 7
}

/// The second Sunday of a month, on which a tournament is taken to start
/// where nothing better is known; nothing for a month that the calendar does
/// not have.
pub fn approximate_basho_start(year: i32, month: u32) -> (r: Option<Date>)
    ensures
        r is Some <==> (Date { year, month, day: 1 }).is_calendar_date(),
        r is Some ==> r.unwrap() == (Date {
            year,
            month,
            day: second_sunday(days_from_sunday(year as int, month as int, 1)) as u32,
        }) && 8 <= r.unwrap().day <= 14 && r.unwrap().is_calendar_date(),
{
    let first = Date { year, month, day: 1 };
    match weekday_from_sunday(first) {
        Some(from_sunday) => {
            let days_to_first_sunday = (7 - from_sunday) % 7;
            let first_sunday_day = 1 + days_to_first_sunday;
            Some(Date { year, month, day: first_sunday_day + 7 })
        },
        None => None,
    }
}

/// How a tournament lies to a month: over, to come, or in that month.
#[derive(Clone, Copy, Debug, PartialEq, Eq, Structural)]
pub enum Timing {
    Past,
    Present,
    Future,
}

/// How the month of a tournament lies to the month of `today`.
pub open spec fn month_timing(id: TournamentId, today: Date) -> Timing {
    if id.spec_year() < today.year || (id.spec_year() == today.year && id.spec_month()
        < today.month) {
        Timing::Past
    } else if id.spec_year() > today.year || (id.spec_year() == today.year && id.spec_month()
        > today.month) {
        Timing::Future
    } else {
        Timing::Present
    }
}

/// How the month of a tournament lies to the month of `today`.
pub fn month_timing_of(id: TournamentId, today: Date) -> (t: Timing)
    ensures
        t == month_timing(id, today),
{
    let year = id.year();
    let month = id.month();
    if year < today.year || (year == today.year && month < today.month) {
        Timing::Past
    } else if year > today.year || (year == today.year && month > today.month) {
        Timing::Future
    } else {
        Timing::Present
    }
}

/// The day to start on that the months alone decide: the last day of a
/// tournament of an earlier month, the first day of one of a later month, and
/// nothing for one of this month.
pub open spec fn day_by_month(id: TournamentId, today: Date) -> Option<int> {
    match month_timing(id, today) {
        Timing::Past => Some(15),
        Timing::Future => Some(1),
        Timing::Present => None,
    }
}

/// The day of a tournament that `today` is, counted from the day `start`;
/// nothing where the calendar lacks one of the two days.
pub open spec fn day_counted_from(today: Date, start: Date) -> Option<int> {
    if today.is_calendar_date() && start.is_calendar_date() {
        Some(
            day_after(
                days_apart(
                    today.year as int,
                    today.month as int,
                    today.day as int,
                    start.year as int,
                    start.month as int,
                    start.day as int,
                ),
            ),
        )
    } else {
        None
    }
}

/// The start that is taken for a tournament of which none is known: the
/// second Sunday of its month, or the tenth where the calendar lacks the
/// month.
pub open spec fn assumed_start(id: TournamentId) -> Date {
    let first = Date { year: id.spec_year() as i32, month: id.spec_month() as u32, day: 1 };
    if first.is_calendar_date() {
        Date {
            day: second_sunday(days_from_sunday(id.spec_year(), id.spec_month(), 1)) as u32,
            ..first
        }
    } else {
        Date { day: 10, ..first }
    }
}

/// The day to start on in a tournament of this month, from the start date
/// that the tournament information gives, if it gives one: today counted from
/// the date that the first ten bytes of the start date read as; else today
/// counted from the assumed start; the first day where that cannot be counted
/// either.
pub open spec fn day_by_start(today: Date, id: TournamentId, start_date: Option<Seq<char>>) -> int {
    let known = match start_date {
        Some(s) => match stamp_prefix_date(s) {
            Some(read) => day_counted_from(today, date_of(read)),
            None => None,
        },
        None => None,
    };
    match known {
        Some(day) => day,
        None => match day_counted_from(today, assumed_start(id)) {
            Some(day) => day,
            None => 1,
        },
    }
}

/// The day to start on where the months decide it.
pub fn get_current_day_by_month(today: Date, id: TournamentId) -> (day: Option<u8>)
    ensures
        day is Some <==> day_by_month(id, today) is Some,
        day is Some ==> day.unwrap() == day_by_month(id, today).unwrap(),
{
    match month_timing_of(id, today) {
        Timing::Past => Some(LAST_DAY),
        Timing::Future => Some(FIRST_DAY),
        Timing::Present => None,
    }
}

/// Today counted as a day of the tournament that starts on `start`.
fn count_from(today: Date, start: Date) -> (day: Option<u8>)
    ensures
        day is Some <==> day_counted_from(today, start) is Some,
        day is Some ==> day.unwrap() == day_counted_from(today, start).unwrap(),
        day is Some ==> FIRST_DAY <= day.unwrap() <= LAST_DAY,
{
    match days_between(today, start) {
        Some(days) => Some(day_of_basho(days)),
        None => None,
    }
}

/// The day to start on in a tournament of this month, from the tournament
/// information where it could be had.
pub fn get_current_day_by_start(today: Date, id: TournamentId, info: Option<&Basho>) -> (day: u8)
    ensures
        day == day_by_start(
            today,
            id,
            match info {
                Some(basho) => opt_text(basho.start_date),
                None => None,
            },
        ),
        FIRST_DAY <= day <= LAST_DAY,
{
    if let Some(basho) = info {
        if let Some(start_date) = &basho.start_date {
            if let Some(start) = stamp_prefix_date_of(start_date.as_str()) {
                if let Some(day) = count_from(today, start) {
                    return day;
                }
            }
        }
    }
    let start = match approximate_basho_start(id.year(), id.month()) {
        Some(start) => start,
        None => Date { year: id.year(), month: id.month(), day: 10 },
    };
    match count_from(today, start) {
        Some(day) => day,
        None => FIRST_DAY,
    }
}

/// The day to start on: what the months decide, and in a tournament of this
/// month what the start of the tournament gives.
pub open spec fn current_day(today: Date, id: TournamentId, start_date: Option<Seq<char>>) -> int {
    match day_by_month(id, today) {
        Some(day) => day,
        None => day_by_start(today, id, start_date),
    }
}

/// The day to start on in a tournament, from the tournament information where
/// it could be had. The information is read only for a tournament of this
/// month.
pub fn get_current_day(today: Date, id: TournamentId, info: Option<&Basho>) -> (day: u8)
    ensures
        day == current_day(
            today,
            id,
            match info {
                Some(basho) => opt_text(basho.start_date),
                None => None,
            },
        ),
        FIRST_DAY <= day <= LAST_DAY,
{
    match get_current_day_by_month(today, id) {
        Some(day) => day,
        None => get_current_day_by_start(today, id, info),
    }
}

/// The tournament that is current on a day: that of the latest tournament
/// month that is not after the month of the day, in the year before for a
/// month before January; nothing where its year does not fit an identifier.
pub open spec fn current_basho(today: Date) -> Option<TournamentId> {
    let (year, month) = if today.month >= 1 {
        (today.year as int, latest_basho_month(today.month as int))
    } else {
        (today.year - 1, 11)
    };
    if 0 <= year <= MAX_YEAR {
        Some(TournamentId::of(year, month))
    } else {
        None
    }
}

/// The tournament that is current on a day.
pub fn get_current_basho_id(today: Date) -> (id: Option<TournamentId>)
    ensures
        id == current_basho(today),
{
    if today.month == 0 && today.year == i32::MIN {
        return None;
    }
    let (year, month) = most_recent_basho_ym(today.year, today.month);
    TournamentId::new(year, month)
}

} // verus!
