//! Instants, and the two texts in which the remote host and this client exchange them.

use vstd::prelude::*;

use crate::text::join3;
use crate::text::numeral;
use crate::text::write_numeral;

verus! {

/// The first second that the calendar covers, counted from the Unix epoch.
pub const FIRST_SECOND: i64 = -8_334_601_228_800;

/// The last second that the calendar covers, counted from the Unix epoch.
pub const LAST_SECOND: i64 = 8_210_266_876_799;

/// How `touch -t` wants an instant.
pub const TOUCH_FORMAT: &'static str = "%Y%m%d%H%M.%S";

/// An instant: whole seconds since the Unix epoch, and nanoseconds behind them.
pub struct Instant {
    pub secs: int,
    pub nanos: int,
}

/// The Unix epoch.
pub open spec fn epoch() -> Instant {
    Instant { secs: 0, nanos: 0 }
}

/// An instant of a system clock.
#[derive(Clone, Copy, Debug, PartialEq, Eq)]
pub struct Timestamp {
    secs: i64,
    nanos: u32,
}

impl View for Timestamp {
    type V = Instant;

    closed spec fn view(&self) -> Instant {
        Instant { secs: self.secs as int, nanos: self.nanos as int }
    }
}

/// Whether the nanoseconds of an instant make up less than a second.
pub open spec fn is_instant(t: Instant) -> bool {
    0 <= t.nanos < 1_000_000_000
}

/// Whether the calendar covers an instant, so that it can be written as a date.
pub open spec fn in_calendar(t: Instant) -> bool {
    FIRST_SECOND <= t.secs <= LAST_SECOND
}

impl Timestamp {
    #[verifier::type_invariant]
    spec fn valid(self) -> bool {
        is_instant(self@)
    }

    /// The instant `nanos` nanoseconds after `secs` seconds since the epoch, where the
    /// nanoseconds make up less than a second.
    pub fn new(secs: i64, nanos: u32) -> (r: Option<Timestamp>)
        ensures
            r is Some <==> nanos < 1_000_000_000,
            r is Some ==> r->0@ == (Instant { secs: secs as int, nanos: nanos as int }),
    {
        if nanos < 1_000_000_000 {
            Some(Timestamp { secs, nanos })
        } else {
            None
        }
    }

    /// The Unix epoch.
    pub fn unix_epoch() -> (r: Timestamp)
        ensures
            r@ == epoch(),
    {
        Timestamp { secs: 0, nanos: 0 }
    }

    /// Whole seconds since the epoch, rounded down.
    pub fn secs(&self) -> (r: i64)
        ensures
            r == self@.secs,
            is_instant(self@),
    {
        proof {
            use_type_invariant(self);
        }
        self.secs
    }

    /// Nanoseconds behind the whole seconds.
    pub fn nanos(&self) -> (r: u32)
        ensures
            r == self@.nanos,
            is_instant(self@),
    {
        proof {
            use_type_invariant(self);
        }
        self.nanos
    }

    /// Whether the calendar covers the instant, so that it can be written as a date.
    pub fn has_date(&self) -> (r: bool)
        ensures
            r == in_calendar(self@),
    {
        FIRST_SECOND <= self.secs && self.secs <= LAST_SECOND
    }

    /// Whole seconds since the epoch; none for an instant before it.
    pub fn secs_since_epoch(&self) -> (r: u64)
        ensures
            r == elapsed(self@),
    {
        if self.secs < 0 {
            0
        } else {
            self.secs as u64
        }
    }
}

/// Whole seconds from the epoch to `t`; none where `t` comes before it.
pub open spec fn elapsed(t: Instant) -> int {
    if t.secs < 0 {
        0
    } else {
        t.secs
    }
}

/// What `chrono::DateTime::format` makes of an instant in UTC.
pub uninterp spec fn utc_text(secs: int, nanos: int, format: Seq<char>) -> Seq<char>;

/// What `chrono::NaiveDate::parse_from_str` reads from a text, as the seconds from the
/// epoch to the first second of that day in UTC.
pub uninterp spec fn date_seconds(text: Seq<char>, format: Seq<char>) -> Option<i64>;

/// What `chrono::NaiveDateTime::parse_from_str` reads from a text, as seconds since the
/// epoch in UTC.
pub uninterp spec fn date_time_seconds(text: Seq<char>, format: Seq<char>) -> Option<i64>;

/// Calls `chrono::DateTime::from_timestamp`, which covers all of the calendar, and
/// `chrono::DateTime::format` on what it gives. The contract claims that the text depends
/// on the arguments alone; the one format that it is called with is a valid one, so that
/// the text can be written.
#[verifier::external_body]
fn format_utc(secs: i64, nanos: u32, format: &str) -> (r: String)
    requires
        is_instant(Instant { secs: secs as int, nanos: nanos as int }),
        in_calendar(Instant { secs: secs as int, nanos: nanos as int }),
        format@ == TOUCH_FORMAT@,
    ensures
        r@ == utc_text(secs as int, nanos as int, format@),
{
    chrono::DateTime::from_timestamp(secs, nanos).unwrap().format(format).to_string()
}

/// Calls `chrono::NaiveDate::parse_from_str` and turns the day that it reads into the
/// number of seconds up to its midnight in UTC. The contract claims that the result
/// depends on the arguments alone.
#[verifier::external_body]
fn parse_date(text: &str, format: &str) -> (r: Option<i64>)
    ensures
        r == date_seconds(text@, format@),
{
    let date = chrono::NaiveDate::parse_from_str(text, format).ok()?;
    Some(date.and_time(chrono::NaiveTime::MIN).and_utc().timestamp())
}

/// Calls `chrono::NaiveDateTime::parse_from_str` and turns what it reads into the number of
/// seconds up to it in UTC. The contract claims that the result depends on the arguments
/// alone.
#[verifier::external_body]
fn parse_date_time(text: &str, format: &str) -> (r: Option<i64>)
    ensures
        r == date_time_seconds(text@, format@),
{
    let time = chrono::NaiveDateTime::parse_from_str(text, format).ok()?;
    Some(time.and_utc().timestamp())
}

/// The instant `t` as text in UTC, in the form that `touch -t` wants.
pub fn fmt_time_utc(t: Timestamp) -> (r: String)
    requires
        in_calendar(t@),
    ensures
        r@ == utc_text(t@.secs, t@.nanos, TOUCH_FORMAT@),
{
    format_utc(t.secs(), t.nanos(), TOUCH_FORMAT)
}

/// The instant for a number of seconds that was read from a listing: the epoch where the
/// number is negative.
pub open spec fn listed_instant(secs: i64) -> Instant {
    if 0 <= secs {
        Instant { secs: secs as int, nanos: 0 }
    } else {
        epoch()
    }
}

/// The instant that a listing shows: the day where one could be read, otherwise the day and
/// time within the current year.
pub open spec fn listed_time(day: Option<i64>, day_and_time: Option<i64>) -> Option<Instant> {
    match day {
        Some(secs) => Some(listed_instant(secs)),
        None => match day_and_time {
            Some(secs) => Some(listed_instant(secs)),
            None => None,
        },
    }
}

/// The instant that a listing shows as `text`, read in the current year.
pub open spec fn lstime(
    text: Seq<char>,
    with_year: Seq<char>,
    with_hours: Seq<char>,
    this_year: nat,
) -> Option<Instant> {
    listed_time(
        date_seconds(text, with_year),
        date_time_seconds(text + " "@ + numeral(this_year, 10), with_hours + " %Y"@),
    )
}

/// The instant that a listing shows, from the two readings of it: as a day, and as a day
/// and time within the current year.
pub fn choose_time(day: Option<i64>, day_and_time: Option<i64>) -> (r: Option<Timestamp>)
    ensures
        match listed_time(day, day_and_time) {
            Some(t) => r is Some && r->0@ == t,
            None => r is None,
        },
{
    let secs: i64 = match day {
        Some(secs) => secs,
        None => match day_and_time {
            Some(secs) => secs,
            None => {
                return None;
            },
        },
    };
    if secs < 0 {
        Some(Timestamp::unix_epoch())
    } else {
        Some(Timestamp { secs, nanos: 0 })
    }
}

/// The instant that a listing shows as `text`: a day in the form `with_year`, or a day and
/// time of the current year in the form `with_hours`.
pub fn parse_lstime(text: &str, with_year: &str, with_hours: &str, this_year: u32) -> (r: Option<
    Timestamp,
>)
    ensures
        match lstime(text@, with_year@, with_hours@, this_year as nat) {
            Some(t) => r is Some && r->0@ == t,
            None => r is None,
        },
{
    let day = parse_date(text, with_year);
    let year = write_numeral(this_year, 10);
    let dated = join3(text, " ", year.as_str());
    let form = join3(with_hours, " %Y", "");
    proof {
        reveal_strlit("");
        assert(form@ == with_hours@ + " %Y"@);
    }
    let day_and_time = parse_date_time(dated.as_str(), form.as_str());
    choose_time(day, day_and_time)
}

/// An instant at or after the epoch is that many whole seconds away from it; before the epoch
/// no time has passed.
pub proof fn law_elapsed_seconds(t: Instant)
    ensures
        t.secs >= 0 ==> elapsed(t) == t.secs,
        t.secs <= 0 ==> elapsed(t) == 0,
{
}

/// The calendar covers the years from -262143 to 262142.
pub proof fn law_calendar_bounds(t: Instant)
    ensures
        in_calendar(t) <==> -8_334_601_228_800 <= t.secs <= 8_210_266_876_799,
{
}

/// A time of a listing that can be read as a day with its year is the start of that day.
/// Otherwise it is read as a day and a time with the current year written behind it. Nothing
/// that is read lies before the epoch, and nothing else is read.
pub proof fn law_listed_time_is_a_day_or_a_time_of_this_year(
    text: Seq<char>,
    with_year: Seq<char>,
    with_hours: Seq<char>,
    this_year: nat,
    year: Seq<char>,
)
    requires
        year == numeral(this_year, 10),
    ensures
        date_seconds(text, with_year) matches Some(secs) ==> lstime(
            text,
            with_year,
            with_hours,
            this_year,
        ) == Some(
            Instant {
                secs: if secs < 0 {
                    0
                } else {
                    secs as int
                },
                nanos: 0,
            },
        ),
        date_seconds(text, with_year) is None ==> (match date_time_seconds(
            text + " "@ + year,
            with_hours + " %Y"@,
        ) {
            Some(secs) => lstime(text, with_year, with_hours, this_year) == Some(
                Instant {
                    secs: if secs < 0 {
                        0
                    } else {
                        secs as int
                    },
                    nanos: 0,
                },
            ),
            None => lstime(text, with_year, with_hours, this_year) is None,
        }),
{
}

} // verus!
