use chrono::{Offset, TimeZone};
use vstd::prelude::*;

use crate::schedule::in_range;

verus! {

/// Offset of Asia/Tokyo from UTC, in seconds, at the given UTC instant.
pub uninterp spec fn tokyo_offset_at(utc_ms: int) -> int;

/// Relies on `chrono_tz::Asia::Tokyo` through `TimeZone::timestamp_millis`
/// and `Offset::fix`: the zone's offset at that instant. A `FixedOffset`
/// lies strictly between minus and plus one day.
#[verifier::external_body]
fn tokyo_offset_seconds(utc_ms: i64) -> (r: i32)
    requires
        in_range(utc_ms as int),
    ensures
        r as int == tokyo_offset_at(utc_ms as int),
        -86400 < r < 86400,
{
    chrono_tz::Asia::Tokyo.timestamp_millis_opt(utc_ms).unwrap().offset().fix().local_minus_utc()
}

/// A point in time as the execution time zone shows it: the wall-clock
/// reading (milliseconds since the epoch, read as a local date and time)
/// and the zone's offset from UTC at that moment.
#[derive(Debug, Clone, Copy, PartialEq, Eq, Structural)]
pub struct CronArgument {
    pub local_millis: i64,
    pub offset_seconds: i32,
}

impl CronArgument {
    /// The UTC instant that the argument stands for.
    pub open spec fn utc_spec(&self) -> int {
        self.local_millis - 1000 * self.offset_seconds
    }

    /// Converts a UTC instant to the execution time zone. Only the zone
    /// changes: the moment in time stays the same.
    pub fn from_utc(utc_ms: i64) -> (r: CronArgument)
        requires
            in_range(utc_ms as int),
        ensures
            r.offset_seconds as int == tokyo_offset_at(utc_ms as int),
            r.local_millis as int == utc_ms + 1000 * tokyo_offset_at(utc_ms as int),
            r.utc_spec() == utc_ms,
    {
        let offset = tokyo_offset_seconds(utc_ms);
        let local = utc_ms + 1000 * (offset as i64);
        CronArgument { local_millis: local, offset_seconds: offset }
    }

    /// The UTC instant, in milliseconds since the epoch.
    pub fn to_utc(&self) -> (r: i64)
        requires
            i64::MIN <= self.utc_spec() <= i64::MAX,
        ensures
            r == self.utc_spec(),
    {
        self.local_millis - 1000 * (self.offset_seconds as i64)
    }
}

/// Converting a UTC instant to the execution time zone and back gives the
/// same instant: the conversion changes the zone the moment is shown in,
/// never the moment itself. `a` is what `CronArgument::from_utc` returns for
/// `utc_ms`.
pub proof fn lemma_zone_round_trip(utc_ms: int, a: CronArgument)
    requires
        in_range(utc_ms),
        a.offset_seconds as int == tokyo_offset_at(utc_ms),
        a.local_millis as int == utc_ms + 1000 * tokyo_offset_at(utc_ms),
    ensures
        a.utc_spec() == utc_ms,
        a.local_millis - a.utc_spec() == 1000 * a.offset_seconds,
{
}

/// Which task body an execution service runs.
#[derive(Debug, Clone, Copy, PartialEq, Eq, Structural)]
pub enum Category {
    Joke,
    Love,
}

/// One task body to run, at the time it was fired for.
#[derive(Debug, Clone, Copy, PartialEq, Eq, Structural)]
pub struct TaskRun {
    pub category: Category,
    pub argument: CronArgument,
}

/// The task executor: its configuration selects the task body.
#[derive(Debug, Clone, Copy, PartialEq, Eq, Structural)]
pub struct CronExecutionService {
    pub category: Category,
}

impl CronExecutionService {
    /// The task bodies that one invocation runs, in order.
    pub open spec fn runs_spec(&self, argument: CronArgument) -> Seq<TaskRun> {
        seq![TaskRun { category: self.category, argument }]
    }

    /// Dispatches one invocation: the body of the configured category runs
    /// exactly once, with the argument unchanged, and no other body runs.
    pub fn execute(&self, argument: CronArgument) -> (r: Vec<TaskRun>)
        ensures
            r@ == self.runs_spec(argument),
    {
        let mut runs: Vec<TaskRun> = Vec::new();
        runs.push(TaskRun { category: self.category, argument });
        proof {
            assert(runs@ =~= self.runs_spec(argument));
        }
        runs
    }
}

} // verus!
