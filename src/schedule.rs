use std::str::FromStr;

use chrono::TimeZone;
use vstd::prelude::*;

verus! {

/// Earliest instant handled, in milliseconds since the Unix epoch:
/// 0001-01-01T00:00:00Z.
pub const MIN_INSTANT_MS: i64 = -62135596800000;

/// Latest instant handled, in milliseconds since the Unix epoch:
/// 9999-12-31T23:59:59.999Z.
pub const MAX_INSTANT_MS: i64 = 253402300799999;

/// An instant (milliseconds since the Unix epoch) that the calendar
/// arithmetic can represent.
pub open spec fn in_range(ms: int) -> bool {
    MIN_INSTANT_MS <= ms <= MAX_INSTANT_MS
}

/// Whether the cron grammar accepts the expression.
pub uninterp spec fn cron_accepts(expression: Seq<char>) -> bool;

/// The first instant after `after_ms` that the expression designates,
/// evaluated in the execution time zone (Asia/Tokyo).
pub uninterp spec fn cron_next(expression: Seq<char>, after_ms: int) -> Option<int>;

/// Whether the instant, seen in the execution time zone, satisfies every
/// field of the expression.
pub uninterp spec fn cron_fires_at(expression: Seq<char>, at_ms: int) -> bool;

/// Relies on `cron::Schedule::from_str`: whether the expression parses.
#[verifier::external_body]
fn cron_parses(expression: &str) -> (r: bool)
    ensures
        r == cron_accepts(expression@),
{
    cron::Schedule::from_str(expression).is_ok()
}

/// Relies on `cron::Schedule::from_str` for an expression that parses, and on
/// the first item of `cron::Schedule::after` from the instant seen in
/// Asia/Tokyo. Its search starts one second after the given instant, builds
/// each candidate from the schedule's own field values (years 1970 to 2100)
/// and checks the day of week, so what it returns lies strictly later and
/// satisfies every field.
#[verifier::external_body]
fn cron_next_after(expression: &str, after_ms: i64) -> (r: Option<i64>)
    requires
        cron_accepts(expression@),
        in_range(after_ms as int),
    ensures
        r is Some <==> cron_next(expression@, after_ms as int) is Some,
        r is Some ==> {
            &&& cron_next(expression@, after_ms as int) == Some(r.unwrap() as int)
            &&& after_ms < r.unwrap()
            &&& in_range(r.unwrap() as int)
            &&& cron_fires_at(expression@, r.unwrap() as int)
        },
{
    let schedule = cron::Schedule::from_str(expression).ok()?;
    let start = chrono_tz::Asia::Tokyo.timestamp_millis_opt(after_ms).single()?;
    schedule.after(&start).next().map(|t| t.timestamp_millis())
}

/// Relies on `cron::Schedule::includes` for the instant seen in Asia/Tokyo.
#[verifier::external_body]
fn cron_matches_at(expression: &str, at_ms: i64) -> (r: bool)
    requires
        cron_accepts(expression@),
        in_range(at_ms as int),
    ensures
        r == cron_fires_at(expression@, at_ms as int),
{
    let schedule = cron::Schedule::from_str(expression).unwrap();
    schedule.includes(chrono_tz::Asia::Tokyo.timestamp_millis_opt(at_ms).unwrap())
}

/// Why a cron expression was refused.
#[derive(Debug, Clone, Copy, PartialEq, Eq, Structural)]
pub enum ScheduleError {
    /// The expression does not follow the cron grammar.
    InvalidExpression,
}

/// A cron expression that parses, evaluated in Asia/Tokyo.
#[derive(Debug, Clone)]
pub struct Schedule {
    expression: String,
}

impl View for Schedule {
    type V = Seq<char>;

    closed spec fn view(&self) -> Seq<char> {
        self.expression@
    }
}

impl Schedule {
    /// The schedule is made only of an expression that parses.
    pub open spec fn wf(&self) -> bool {
        cron_accepts(self@)
    }

    /// Parses a cron expression (seconds, minutes, hours, day of month,
    /// month, day of week, optional year).
    pub fn parse(expression: &str) -> (r: Result<Schedule, ScheduleError>)
        ensures
            r is Ok <==> cron_accepts(expression@),
            r is Ok ==> r.unwrap()@ == expression@ && r.unwrap().wf(),
            r is Err ==> r == Err::<Schedule, ScheduleError>(ScheduleError::InvalidExpression),
    {
        if cron_parses(expression) {
            Ok(Schedule { expression: expression.to_string() })
        } else {
            Err(ScheduleError::InvalidExpression)
        }
    }

    /// The expression this schedule was parsed from.
    pub fn expression(&self) -> (r: &str)
        ensures
            r@ == self@,
    {
        self.expression.as_str()
    }

    /// The first instant strictly after `instant_ms` that the schedule
    /// designates, or `None` when it never fires again.
    pub fn next_after(&self, instant_ms: i64) -> (r: Option<i64>)
        requires
            self.wf(),
            in_range(instant_ms as int),
        ensures
            r is Some <==> cron_next(self@, instant_ms as int) is Some,
            r is Some ==> {
                &&& cron_next(self@, instant_ms as int) == Some(r.unwrap() as int)
                &&& instant_ms < r.unwrap()
                &&& in_range(r.unwrap() as int)
                &&& cron_fires_at(self@, r.unwrap() as int)
            },
    {
        cron_next_after(self.expression.as_str(), instant_ms)
    }

    /// Whether the schedule designates the instant.
    pub fn fires_at(&self, instant_ms: i64) -> (r: bool)
        requires
            self.wf(),
            in_range(instant_ms as int),
        ensures
            r == cron_fires_at(self@, instant_ms as int),
    {
        cron_matches_at(self.expression.as_str(), instant_ms)
    }
}

} // verus!
