use vstd::prelude::*;

use crate::schedule::{cron_accepts, cron_next, in_range, Schedule, ScheduleError};

verus! {

/// Where the blocking scheduler loop stands.
#[derive(Debug, Clone, Copy, PartialEq, Eq, Structural)]
pub enum LoopState {
    /// About to read the clock.
    Idle,
    /// Sleeping until the fire time.
    Sleeping { fire_at: i64 },
    /// The task runs; the loop waits for it to return.
    Running { fire_at: i64 },
}

/// What the outside world reports to the blocking loop.
#[derive(Debug, Clone, Copy, PartialEq, Eq, Structural)]
pub enum LoopEvent {
    /// The clock was read: UTC milliseconds since the epoch.
    ClockRead { now_ms: i64 },
    /// The sleep is over.
    Woke,
    /// The task callback returned.
    TaskReturned,
}

/// What the blocking loop asks the outside world to do next.
#[derive(Debug, Clone, Copy, PartialEq, Eq, Structural)]
pub enum LoopAction {
    /// Read the UTC clock and report it.
    ReadClock,
    /// Block for this many milliseconds, then report `Woke`.
    Sleep { millis: u64 },
    /// Run the task in-line, then report `TaskReturned`.
    RunTask { fire_at: i64 },
    /// The event does not fit the current state: nothing to do.
    Ignore,
}

/// The blocking loop's reaction to an event, given the schedule's
/// expression.
pub open spec fn loop_step(expression: Seq<char>, s: LoopState, e: LoopEvent) -> (LoopState, LoopAction) {
    match (s, e) {
        (LoopState::Idle, LoopEvent::ClockRead { now_ms }) => {
            if in_range(now_ms as int) {
                match cron_next(expression, now_ms as int) {
                    Some(next) => (
                        LoopState::Sleeping { fire_at: next as i64 },
                        LoopAction::Sleep { millis: (next - now_ms) as u64 },
                    ),
                    None => (LoopState::Idle, LoopAction::ReadClock),
                }
            } else {
                (LoopState::Idle, LoopAction::ReadClock)
            }
        },
        (LoopState::Sleeping { fire_at }, LoopEvent::Woke) => (
            LoopState::Running { fire_at },
            LoopAction::RunTask { fire_at },
        ),
        (LoopState::Running { .. }, LoopEvent::TaskReturned) => (LoopState::Idle, LoopAction::ReadClock),
        _ => (s, LoopAction::Ignore),
    }
}

/// How many task runs are in progress in a state.
pub open spec fn running_count(s: LoopState) -> int {
    if s is Running { 1 } else { 0 }
}

/// The blocking scheduler loop's decisions, apart from its clock, its sleep
/// and the task callback, which its driver performs.
#[derive(Debug, Clone)]
pub struct BlockingScheduler {
    schedule: Schedule,
    state: LoopState,
}

impl BlockingScheduler {
    pub closed spec fn wf(&self) -> bool {
        &&& self.schedule.wf()
        &&& match self.state {
            LoopState::Sleeping { fire_at } => in_range(fire_at as int),
            LoopState::Running { fire_at } => in_range(fire_at as int),
            LoopState::Idle => true,
        }
    }

    pub closed spec fn expression_spec(&self) -> Seq<char> {
        self.schedule@
    }

    pub closed spec fn state_spec(&self) -> LoopState {
        self.state
    }

    /// Parses the expression; the loop starts only on an expression that
    /// parses, and then waits for the clock.
    pub fn start(expression: &str) -> (r: Result<BlockingScheduler, ScheduleError>)
        ensures
            r is Ok <==> cron_accepts(expression@),
            r is Err ==> r == Err::<BlockingScheduler, ScheduleError>(ScheduleError::InvalidExpression),
            r is Ok ==> {
                &&& r.unwrap().wf()
                &&& r.unwrap().expression_spec() == expression@
                &&& r.unwrap().state_spec() == LoopState::Idle
            },
    {
        match Schedule::parse(expression) {
            Ok(schedule) => Ok(BlockingScheduler { schedule, state: LoopState::Idle }),
            Err(e) => Err(e),
        }
    }

    /// The first action of the loop.
    pub fn first_action(&self) -> (r: LoopAction)
        ensures
            r == LoopAction::ReadClock,
    {
        LoopAction::ReadClock
    }

    /// The current state.
    pub fn state(&self) -> (r: LoopState)
        ensures
            r == self.state_spec(),
    {
        self.state
    }

    /// Takes an event and returns what to do next. A fire time is always
    /// strictly later than the clock reading, so the sleep is never negative;
    /// the task is run only once the sleep is over, and the clock is read
    /// again only once the task has returned.
    pub fn step(&mut self, event: LoopEvent) -> (r: LoopAction)
        requires
            old(self).wf(),
        ensures
            final(self).wf(),
            final(self).expression_spec() == old(self).expression_spec(),
            (final(self).state_spec(), r) == loop_step(old(self).expression_spec(), old(self).state_spec(), event),
    {
        match (self.state, event) {
            (LoopState::Idle, LoopEvent::ClockRead { now_ms }) => {
                if crate::schedule::MIN_INSTANT_MS <= now_ms && now_ms <= crate::schedule::MAX_INSTANT_MS {
                    match self.schedule.next_after(now_ms) {
                        Some(next) => {
                            self.state = LoopState::Sleeping { fire_at: next };
                            LoopAction::Sleep { millis: (next - now_ms) as u64 }
                        },
                        None => LoopAction::ReadClock,
                    }
                } else {
                    LoopAction::ReadClock
                }
            },
            (LoopState::Sleeping { fire_at }, LoopEvent::Woke) => {
                self.state = LoopState::Running { fire_at };
                LoopAction::RunTask { fire_at }
            },
            (LoopState::Running { .. }, LoopEvent::TaskReturned) => {
                self.state = LoopState::Idle;
                LoopAction::ReadClock
            },
            _ => LoopAction::Ignore,
        }
    }
}

/// Runs of the blocking loop never overlap: a task is started only when no
/// task is running, at most one runs at any time, and a running task stays
/// running until it is reported to have returned.
pub proof fn lemma_runs_never_overlap(expression: Seq<char>, s: LoopState, e: LoopEvent)
    requires
        running_count(s) <= 1,
    ensures
        ({
            let (t, a) = loop_step(expression, s, e);
            let started: int = if a is RunTask { 1 } else { 0 };
            let returned: int = if s is Running && e is TaskReturned { 1 } else { 0 };
            &&& a is RunTask ==> running_count(s) == 0
            &&& running_count(t) == running_count(s) + started - returned
            &&& running_count(t) <= 1
            &&& s is Running && !(e is TaskReturned) ==> t == s
        }),
{
}

/// The stream of due times that feeds the asynchronous pipeline: each one is
/// the schedule's next fire time after the one before.
pub struct DueTimes {
    schedule: Schedule,
    last_ms: i64,
    emitted: Ghost<Seq<int>>,
}

impl DueTimes {
    pub closed spec fn wf(&self) -> bool {
        &&& self.schedule.wf()
        &&& in_range(self.last_ms as int)
        &&& forall|i: int, j: int|
            0 <= i < j < self.emitted@.len() ==> #[trigger] self.emitted@[i] < #[trigger] self.emitted@[j]
        &&& forall|i: int| 0 <= i < self.emitted@.len() ==> #[trigger] self.emitted@[i] <= self.last_ms
    }

    pub closed spec fn expression_spec(&self) -> Seq<char> {
        self.schedule@
    }

    /// The instant after which the next due time is sought.
    pub closed spec fn last_spec(&self) -> int {
        self.last_ms as int
    }

    /// The due times handed out so far, in order.
    pub closed spec fn emitted_spec(&self) -> Seq<int> {
        self.emitted@
    }

    /// Parses the expression; the stream exists only for an expression
    /// that parses, and starts from the given instant.
    pub fn start(expression: &str, now_ms: i64) -> (r: Result<DueTimes, ScheduleError>)
        requires
            in_range(now_ms as int),
        ensures
            r is Ok <==> cron_accepts(expression@),
            r is Err ==> r == Err::<DueTimes, ScheduleError>(ScheduleError::InvalidExpression),
            r is Ok ==> {
                &&& r.unwrap().wf()
                &&& r.unwrap().expression_spec() == expression@
                &&& r.unwrap().last_spec() == now_ms
                &&& r.unwrap().emitted_spec() == Seq::<int>::empty()
            },
    {
        match Schedule::parse(expression) {
            Ok(schedule) => Ok(DueTimes { schedule, last_ms: now_ms, emitted: Ghost(Seq::empty()) }),
            Err(e) => Err(e),
        }
    }

    /// The next due time, strictly after every one handed out before, or
    /// `None` (and no change) once the schedule never fires again.
    pub fn next_due(&mut self) -> (r: Option<i64>)
        requires
            old(self).wf(),
        ensures
            final(self).wf(),
            final(self).expression_spec() == old(self).expression_spec(),
            r is Some <==> cron_next(old(self).expression_spec(), old(self).last_spec()) is Some,
            r is Some ==> {
                &&& cron_next(old(self).expression_spec(), old(self).last_spec()) == Some(r.unwrap() as int)
                &&& old(self).last_spec() < r.unwrap()
                &&& in_range(r.unwrap() as int)
                &&& final(self).last_spec() == r.unwrap()
                &&& final(self).emitted_spec() == old(self).emitted_spec().push(r.unwrap() as int)
            },
            r is None ==> *final(self) == *old(self),
    {
        match self.schedule.next_after(self.last_ms) {
            Some(next) => {
                self.last_ms = next;
                self.emitted = Ghost(self.emitted@.push(next as int));
                Some(next)
            },
            None => None,
        }
    }

    /// Milliseconds to wait from `now_ms` until `due_ms`; a due time that
    /// has already passed is waited for zero milliseconds.
    pub fn sleep_millis(due_ms: i64, now_ms: i64) -> (r: u64)
        requires
            in_range(due_ms as int),
            in_range(now_ms as int),
        ensures
            now_ms < due_ms ==> r == due_ms - now_ms,
            due_ms <= now_ms ==> r == 0,
    {
        if now_ms < due_ms {
            (due_ms - now_ms) as u64
        } else {
            0
        }
    }
}

/// The due times reach dispatch in the order of their fire times: every
/// one handed out is strictly later than each one handed out before it.
pub proof fn lemma_due_times_in_order(d: DueTimes)
    requires
        d.wf(),
    ensures
        forall|i: int, j: int|
            0 <= i < j < d.emitted_spec().len() ==> #[trigger] d.emitted_spec()[i] < #[trigger] d.emitted_spec()[j],
{
}

/// The bounded-retry policy: how many times one invocation is dispatched
/// at most.
#[derive(Debug, Clone, Copy, PartialEq, Eq, Structural)]
pub struct RetryPolicy {
    max_attempts: u32,
}

/// Where one dispatched invocation stands.
#[derive(Debug, Clone, Copy, PartialEq, Eq, Structural)]
pub enum DispatchState {
    /// Dispatched for the given attempt, counted from one.
    Dispatched { attempt: u32 },
    /// An attempt succeeded.
    Succeeded,
    /// The last allowed attempt failed; nothing more is tried.
    Abandoned,
}

/// How one dispatch attempt ended.
#[derive(Debug, Clone, Copy, PartialEq, Eq, Structural)]
pub enum AttemptOutcome {
    Success,
    Failure,
}

/// The retry layer's reaction to an attempt's outcome.
pub open spec fn retry_step(max_attempts: int, s: DispatchState, o: AttemptOutcome) -> DispatchState {
    match s {
        DispatchState::Dispatched { attempt } => match o {
            AttemptOutcome::Success => DispatchState::Succeeded,
            AttemptOutcome::Failure => if attempt < max_attempts {
                DispatchState::Dispatched { attempt: (attempt + 1) as u32 }
            } else {
                DispatchState::Abandoned
            },
        },
        _ => s,
    }
}

/// The state after `k` failed attempts in a row from `s`.
pub open spec fn after_failures(max_attempts: int, s: DispatchState, k: nat) -> DispatchState
    decreases k,
{
    if k == 0 {
        s
    } else {
        retry_step(max_attempts, after_failures(max_attempts, s, (k - 1) as nat), AttemptOutcome::Failure)
    }
}

impl RetryPolicy {
    pub closed spec fn max_attempts_spec(&self) -> int {
        self.max_attempts as int
    }

    /// A policy of at most `max_attempts` dispatches per invocation; `None`
    /// for zero, since every invocation is dispatched at least once.
    pub fn new(max_attempts: u32) -> (r: Option<RetryPolicy>)
        ensures
            r is Some <==> max_attempts >= 1,
            r is Some ==> r.unwrap().max_attempts_spec() == max_attempts,
    {
        if max_attempts >= 1 {
            Some(RetryPolicy { max_attempts })
        } else {
            None
        }
    }

    /// The most dispatches of one invocation.
    pub fn max_attempts(&self) -> (r: u32)
        ensures
            r == self.max_attempts_spec(),
    {
        self.max_attempts
    }

    /// The state of an invocation when it is first dispatched.
    pub fn first_attempt(&self) -> (r: DispatchState)
        ensures
            r == (DispatchState::Dispatched { attempt: 1 }),
    {
        DispatchState::Dispatched { attempt: 1 }
    }

    /// The next state of an invocation once an attempt has ended: a success
    /// ends it, a failure dispatches it again with the same argument while
    /// attempts remain, and abandons it after the last one.
    pub fn on_outcome(&self, s: DispatchState, o: AttemptOutcome) -> (r: DispatchState)
        requires
            self.max_attempts_spec() >= 1,
            s is Dispatched ==> 1 <= s->attempt <= self.max_attempts_spec(),
        ensures
            r == retry_step(self.max_attempts_spec(), s, o),
            r is Dispatched ==> 1 <= r->attempt <= self.max_attempts_spec(),
    {
        match s {
            DispatchState::Dispatched { attempt } => match o {
                AttemptOutcome::Success => DispatchState::Succeeded,
                AttemptOutcome::Failure => if attempt < self.max_attempts {
                    DispatchState::Dispatched { attempt: attempt + 1 }
                } else {
                    DispatchState::Abandoned
                },
            },
            _ => s,
        }
    }
}

/// When every attempt fails, an invocation is dispatched exactly
/// `max_attempts` times (attempts one to `max_attempts`), then abandoned,
/// and no failure after that dispatches it again.
pub proof fn lemma_retry_cap(max_attempts: u32, k: nat)
    requires
        max_attempts >= 1,
    ensures
        k < max_attempts ==> after_failures(max_attempts as int, DispatchState::Dispatched { attempt: 1 }, k)
            == (DispatchState::Dispatched { attempt: (k + 1) as u32 }),
        k >= max_attempts ==> after_failures(max_attempts as int, DispatchState::Dispatched { attempt: 1 }, k)
            == DispatchState::Abandoned,
    decreases k,
{
    if k > 0 {
        lemma_retry_cap(max_attempts, (k - 1) as nat);
    }
}

} // verus!
