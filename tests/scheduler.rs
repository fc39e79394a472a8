use rust_cronjob_ollama::consts::{CRON_EXPRESSION_2_MIN, CRON_EXPRESSION_5_MIN, CRON_EXPRESSION_5_SEC};
use rust_cronjob_ollama::cron_util::{
    AttemptOutcome, BlockingScheduler, DispatchState, DueTimes, LoopAction, LoopEvent, LoopState,
    RetryPolicy,
};
use rust_cronjob_ollama::helper::{Category, CronArgument, CronExecutionService, TaskRun};
use rust_cronjob_ollama::schedule::{Schedule, ScheduleError, MAX_INSTANT_MS};

// 2024-01-01 12:01:00 in Asia/Tokyo (03:01:00 UTC).
const TOKYO_12_01: i64 = 1_704_078_060_000;
const TOKYO_12_02: i64 = 1_704_078_120_000;
const TOKYO_12_04: i64 = 1_704_078_240_000;
const TOKYO_12_06: i64 = 1_704_078_360_000;
const SECOND: i64 = 1_000;

#[test]
fn every_two_minutes_from_odd_minute() {
    let s = Schedule::parse("0 */2 * * * *").unwrap();
    assert_eq!(s.next_after(TOKYO_12_01), Some(TOKYO_12_02));
}

#[test]
fn every_two_minutes_from_fire_time() {
    let s = Schedule::parse("0 */2 * * * *").unwrap();
    assert_eq!(s.next_after(TOKYO_12_02), Some(TOKYO_12_04));
}

#[test]
fn next_is_later_and_matches() {
    let s = Schedule::parse(CRON_EXPRESSION_5_MIN).unwrap();
    let next = s.next_after(TOKYO_12_01).unwrap();
    assert!(next > TOKYO_12_01);
    assert!(s.fires_at(next));
    assert_eq!(next, TOKYO_12_01 + 4 * 60 * SECOND);
}

#[test]
fn fires_at_rejects_off_schedule_instant() {
    let s = Schedule::parse(CRON_EXPRESSION_2_MIN).unwrap();
    assert!(!s.fires_at(TOKYO_12_01));
    assert!(s.fires_at(TOKYO_12_02));
}

#[test]
fn five_seconds_from_mid_second() {
    let s = Schedule::parse(CRON_EXPRESSION_5_SEC).unwrap();
    let now = TOKYO_12_01 + 3 * SECOND + 500;
    assert_eq!(s.next_after(now), Some(TOKYO_12_01 + 5 * SECOND));
}

#[test]
fn hours_are_read_in_tokyo() {
    // Midnight every day, Tokyo time: 15:00 UTC of the day before.
    let s = Schedule::parse("0 0 0 * * *").unwrap();
    let midnight_tokyo_jan_2 = 1_704_067_200_000 + 15 * 3600 * SECOND;
    assert_eq!(s.next_after(TOKYO_12_01), Some(midnight_tokyo_jan_2));
}

#[test]
fn schedule_that_never_fires_again() {
    let s = Schedule::parse("0 0 0 1 1 * 2000").unwrap();
    assert_eq!(s.next_after(TOKYO_12_01), None);
}

#[test]
fn expression_is_kept() {
    let s = Schedule::parse(CRON_EXPRESSION_2_MIN).unwrap();
    assert_eq!(s.expression(), "0 */2 * * * *");
}

#[test]
fn malformed_expression_is_refused() {
    assert_eq!(Schedule::parse("not a cron").unwrap_err(), ScheduleError::InvalidExpression);
    assert_eq!(Schedule::parse("0 61 * * * *").unwrap_err(), ScheduleError::InvalidExpression);
    assert_eq!(Schedule::parse("").unwrap_err(), ScheduleError::InvalidExpression);
}

#[test]
fn malformed_expression_starts_nothing() {
    assert!(matches!(BlockingScheduler::start("* * *"), Err(ScheduleError::InvalidExpression)));
    assert!(matches!(DueTimes::start("* * *", TOKYO_12_01), Err(ScheduleError::InvalidExpression)));
}

#[test]
fn argument_is_seen_in_tokyo() {
    let a = CronArgument::from_utc(TOKYO_12_01);
    assert_eq!(a.offset_seconds, 9 * 3600);
    assert_eq!(a.local_millis, TOKYO_12_01 + 9 * 3600 * SECOND);
}

#[test]
fn zone_conversion_round_trips() {
    for t in [0, TOKYO_12_01, TOKYO_12_01 + 123, -86_400_000, MAX_INSTANT_MS] {
        assert_eq!(CronArgument::from_utc(t).to_utc(), t);
    }
}

#[test]
fn blocking_loop_runs_never_overlap() {
    let mut l = BlockingScheduler::start(CRON_EXPRESSION_2_MIN).unwrap();
    assert_eq!(l.first_action(), LoopAction::ReadClock);
    assert_eq!(l.step(LoopEvent::ClockRead { now_ms: TOKYO_12_01 }), LoopAction::Sleep { millis: 60_000 });
    assert_eq!(l.state(), LoopState::Sleeping { fire_at: TOKYO_12_02 });
    assert_eq!(l.step(LoopEvent::Woke), LoopAction::RunTask { fire_at: TOKYO_12_02 });
    // While the task runs, nothing else starts it again.
    assert_eq!(l.step(LoopEvent::ClockRead { now_ms: TOKYO_12_04 }), LoopAction::Ignore);
    assert_eq!(l.step(LoopEvent::Woke), LoopAction::Ignore);
    assert_eq!(l.state(), LoopState::Running { fire_at: TOKYO_12_02 });
    assert_eq!(l.step(LoopEvent::TaskReturned), LoopAction::ReadClock);
    assert_eq!(l.state(), LoopState::Idle);
    // An overrun drifts to the next slot after the clock reading.
    let overrun = TOKYO_12_04 + 30 * SECOND;
    assert_eq!(l.step(LoopEvent::ClockRead { now_ms: overrun }), LoopAction::Sleep { millis: 90_000 });
}

#[test]
fn blocking_loop_ignores_events_out_of_turn() {
    let mut l = BlockingScheduler::start(CRON_EXPRESSION_2_MIN).unwrap();
    assert_eq!(l.step(LoopEvent::Woke), LoopAction::Ignore);
    assert_eq!(l.step(LoopEvent::TaskReturned), LoopAction::Ignore);
    assert_eq!(l.state(), LoopState::Idle);
    assert_eq!(l.step(LoopEvent::ClockRead { now_ms: i64::MAX }), LoopAction::ReadClock);
}

#[test]
fn due_times_come_in_order() {
    let mut d = DueTimes::start(CRON_EXPRESSION_2_MIN, TOKYO_12_01).unwrap();
    let t1 = d.next_due().unwrap();
    let t2 = d.next_due().unwrap();
    let t3 = d.next_due().unwrap();
    assert_eq!((t1, t2, t3), (TOKYO_12_02, TOKYO_12_04, TOKYO_12_06));
    assert!(t1 < t2 && t2 < t3);
}

#[test]
fn due_times_end_with_the_schedule() {
    let mut d = DueTimes::start("0 0 0 1 1 * 2000", TOKYO_12_01).unwrap();
    assert_eq!(d.next_due(), None);
    assert_eq!(d.next_due(), None);
}

#[test]
fn sleep_is_clamped_to_zero() {
    assert_eq!(DueTimes::sleep_millis(TOKYO_12_02, TOKYO_12_01), 60_000);
    assert_eq!(DueTimes::sleep_millis(TOKYO_12_01, TOKYO_12_02), 0);
    assert_eq!(DueTimes::sleep_millis(TOKYO_12_01, TOKYO_12_01), 0);
}

#[test]
fn retry_cap_is_exact() {
    let p = RetryPolicy::new(3).unwrap();
    assert_eq!(p.max_attempts(), 3);
    let mut s = p.first_attempt();
    let mut attempts = 0;
    while let DispatchState::Dispatched { attempt } = s {
        attempts += 1;
        assert_eq!(attempt, attempts);
        s = p.on_outcome(s, AttemptOutcome::Failure);
    }
    assert_eq!(attempts, 3);
    assert_eq!(s, DispatchState::Abandoned);
    assert_eq!(p.on_outcome(s, AttemptOutcome::Failure), DispatchState::Abandoned);
}

#[test]
fn retry_stops_on_success() {
    let p = RetryPolicy::new(3).unwrap();
    let s = p.on_outcome(p.first_attempt(), AttemptOutcome::Failure);
    assert_eq!(s, DispatchState::Dispatched { attempt: 2 });
    let s = p.on_outcome(s, AttemptOutcome::Success);
    assert_eq!(s, DispatchState::Succeeded);
    assert_eq!(p.on_outcome(s, AttemptOutcome::Failure), DispatchState::Succeeded);
}

#[test]
fn single_attempt_policy_abandons_at_once() {
    let p = RetryPolicy::new(1).unwrap();
    assert_eq!(p.on_outcome(p.first_attempt(), AttemptOutcome::Failure), DispatchState::Abandoned);
    assert!(RetryPolicy::new(0).is_none());
}

#[test]
fn joke_category_runs_joke_body_once() {
    let svc = CronExecutionService { category: Category::Joke };
    let a = CronArgument::from_utc(TOKYO_12_02);
    assert_eq!(svc.execute(a), vec![TaskRun { category: Category::Joke, argument: a }]);
}

#[test]
fn love_category_runs_love_body_once() {
    let svc = CronExecutionService { category: Category::Love };
    let a = CronArgument::from_utc(TOKYO_12_04);
    assert_eq!(svc.execute(a), vec![TaskRun { category: Category::Love, argument: a }]);
}
