use vstd::prelude::*;

verus! {

/// Where one sensor's scheduler stands.
#[derive(Clone, Copy, Debug, PartialEq, Eq, Structural)]
pub enum Phase {
    /// Not booted yet; the next tick asks for a boot.
    Booting,
    /// Booted, sleeping until `next_wake_ms`.
    Waiting,
    /// A poll has been handed out and its outcome is awaited.
    Polling,
    /// Boot failed; the scheduler has terminated.
    Failed,
    /// Cancelled from outside.
    Stopped,
}

/// What the driving loop observed.
#[derive(Clone, Copy, Debug, PartialEq, Eq, Structural)]
pub enum Event {
    /// The loop woke at time `now` (milliseconds).
    Tick(u64),
    /// The adapter's boot finished at `now`, successfully or not.
    Booted { ok: bool, now: u64 },
    /// The adapter's poll finished at `end`, successfully or not.
    Polled { ok: bool, end: u64 },
    /// The process is shutting down.
    Shutdown,
}

/// What the driving loop must do next.
#[derive(Clone, Copy, Debug, PartialEq, Eq, Structural)]
pub enum Action {
    /// Boot the adapter and report `Event::Booted`.
    Boot,
    /// Poll the adapter once and report `Event::Polled`.
    Poll,
    /// Sleep until the given time, then report `Event::Tick`.
    SleepUntil(u64),
    /// Nothing to do until the awaited outcome arrives.
    Idle,
    /// The scheduler has terminated; stop driving it.
    Stop,
}

/// The polling state machine of one sensor.
#[derive(Clone, Copy, Debug, PartialEq, Eq, Structural)]
pub struct Manager {
    pub phase: Phase,
    /// The sensor's fixed poll period in milliseconds.
    pub period_ms: u64,
    /// The next time a poll may start.
    pub next_wake_ms: u64,
    /// Polls failed in a row since the last success.
    pub failures: u64,
}

/// `a + b`, held at the largest `u64`.
pub open spec fn sat_add(a: u64, b: u64) -> u64 {
    if a + b <= u64::MAX { (a + b) as u64 } else { u64::MAX }
}

/// The failure count after one more failure; it stops at the largest `u64`.
pub open spec fn one_more(n: u64) -> u64 {
    if n < u64::MAX { (n + 1) as u64 } else { n }
}

/// One transition of the scheduler: the next state and the action to take.
pub open spec fn transition(m: Manager, e: Event) -> (Manager, Action) {
    match e {
        Event::Shutdown => (Manager { phase: Phase::Stopped, ..m }, Action::Stop),
        _ => match m.phase {
            Phase::Failed | Phase::Stopped => (m, Action::Stop),
            Phase::Booting => match e {
                Event::Booted { ok, now } => if ok {
                    (Manager { phase: Phase::Waiting, next_wake_ms: now, failures: 0, ..m }, Action::SleepUntil(now))
                } else {
                    (Manager { phase: Phase::Failed, ..m }, Action::Stop)
                },
                _ => (m, Action::Boot),
            },
            Phase::Waiting => match e {
                Event::Tick(now) => if now >= m.next_wake_ms {
                    (Manager { phase: Phase::Polling, ..m }, Action::Poll)
                } else {
                    (m, Action::SleepUntil(m.next_wake_ms))
                },
                _ => (m, Action::SleepUntil(m.next_wake_ms)),
            },
            Phase::Polling => match e {
                Event::Polled { ok, end } => {
                    let next = sat_add(end, m.period_ms);
                    let failures = if ok { 0 } else { one_more(m.failures) };
                    (Manager { phase: Phase::Waiting, next_wake_ms: next, failures, ..m }, Action::SleepUntil(next))
                },
                _ => (m, Action::Idle),
            },
        },
    }
}

impl Manager {
    /// A scheduler for a sensor polled every `period_ms`, before boot.
    pub fn new(period_ms: u64) -> (m: Manager)
        ensures
            m.phase == Phase::Booting,
            m.period_ms == period_ms,
            m.next_wake_ms == 0,
            m.failures == 0,
    {
        Manager { phase: Phase::Booting, period_ms, next_wake_ms: 0, failures: 0 }
    }

    /// Whether a tick at `now` starts a poll.
    pub open spec fn due(self, now: u64) -> bool {
        self.phase == Phase::Waiting && now >= self.next_wake_ms
    }

    /// Feeds one event to the scheduler and returns the action to take.
    ///
    /// A successful boot schedules the first poll at once; every finished poll,
    /// success or failure, schedules the next one a full period after its end.
    pub fn step(&mut self, e: Event) -> (a: Action)
        ensures
            (*final(self), a) == transition(*old(self), e),
    {
        match e {
            Event::Shutdown => {
                self.phase = Phase::Stopped;
                return Action::Stop;
            },
            _ => {},
        }
        match self.phase {
            Phase::Failed | Phase::Stopped => Action::Stop,
            Phase::Booting => match e {
                Event::Booted { ok, now } => {
                    if ok {
                        self.phase = Phase::Waiting;
                        self.next_wake_ms = now;
                        self.failures = 0;
                        Action::SleepUntil(now)
                    } else {
                        self.phase = Phase::Failed;
                        Action::Stop
                    }
                },
                _ => Action::Boot,
            },
            Phase::Waiting => match e {
                Event::Tick(now) => {
                    if now >= self.next_wake_ms {
                        self.phase = Phase::Polling;
                        Action::Poll
                    } else {
                        Action::SleepUntil(self.next_wake_ms)
                    }
                },
                _ => Action::SleepUntil(self.next_wake_ms),
            },
            Phase::Polling => match e {
                Event::Polled { ok, end } => {
                    let next = end.saturating_add(self.period_ms);
                    self.phase = Phase::Waiting;
                    self.next_wake_ms = next;
                    if ok {
                        self.failures = 0;
                    } else if self.failures < u64::MAX {
                        self.failures = self.failures + 1;
                    }
                    Action::SleepUntil(next)
                },
                _ => Action::Idle,
            },
        }
    }
}

} // verus!

verus! {

/// Whether successive poll starts in `starts` (milliseconds, each poll taking
/// negligible time) are spaced at least `period_ms` apart.
pub open spec fn spaced(starts: Seq<u64>, period_ms: u64) -> bool {
    forall|i: int| 0 <= i < starts.len() - 1 ==> #[trigger] starts[i + 1] >= starts[i] + period_ms
}

/// Checks a recorded sequence of poll start times against the cadence.
pub fn schedule_compliant(starts: &Vec<u64>, period_ms: u64) -> (r: bool)
    ensures
        r == spaced(starts@, period_ms),
{
    if starts.len() == 0 {
        return true;
    }
    let mut i: usize = 0;
    while i < starts.len() - 1
        invariant
            starts.len() > 0,
            i <= starts.len(),
            forall|k: int| 0 <= k < i && k < starts.len() - 1 ==> #[trigger] starts@[k + 1] >= starts@[k] + period_ms,
        decreases starts.len() - i,
    {
        if (starts[i + 1] as u128) < starts[i] as u128 + period_ms as u128 {
            return false;
        }
        i = i + 1;
    }
    true
}

/// Cadence: once a poll ends at `end`, whatever its outcome, the next tick that
/// starts a poll comes no earlier than `end` plus the period.
pub proof fn lemma_cadence(m: Manager, ok: bool, end: u64, t: u64)
    requires
        m.phase == Phase::Polling,
        end + m.period_ms <= u64::MAX,
    ensures
        transition(m, Event::Polled { ok, end }).0.phase == Phase::Waiting,
        transition(transition(m, Event::Polled { ok, end }).0, Event::Tick(t)).1 == Action::Poll
            ==> t >= end + m.period_ms,
        transition(transition(m, Event::Polled { ok, end }).0, Event::Tick(t)).1 == Action::Poll
            <==> t >= end + m.period_ms,
{
}

/// Self-healing: a successful poll after any number of failures leaves the
/// scheduler waiting on its normal cadence with no failure recorded.
pub proof fn lemma_success_clears_failures(m: Manager, end: u64)
    requires
        m.phase == Phase::Polling,
    ensures
        transition(m, Event::Polled { ok: true, end }).0 == (Manager {
            phase: Phase::Waiting,
            next_wake_ms: sat_add(end, m.period_ms),
            failures: 0,
            ..m
        }),
{
}

/// A failed poll is not fatal: the scheduler goes back to waiting a full period.
pub proof fn lemma_failure_not_fatal(m: Manager, end: u64)
    requires
        m.phase == Phase::Polling,
    ensures
        transition(m, Event::Polled { ok: false, end }).0.phase == Phase::Waiting,
        transition(m, Event::Polled { ok: false, end }).1 == Action::SleepUntil(sat_add(end, m.period_ms)),
{
}

} // verus!

verus! {

/// While waiting, only a tick at or after the wake time (which starts a poll)
/// or a shutdown changes the scheduler: early ticks and stray outcomes leave
/// the wake time, and so the cadence, untouched.
pub proof fn lemma_waiting_is_stable(m: Manager, e: Event)
    requires
        m.phase == Phase::Waiting,
        e != Event::Shutdown,
        !(exists|t: u64| e == Event::Tick(t) && t >= m.next_wake_ms),
    ensures
        transition(m, e).0 == m,
        transition(m, e).1 == Action::SleepUntil(m.next_wake_ms),
{
    match e {
        Event::Tick(t) => {
            assert(!(e == Event::Tick(t) && t >= m.next_wake_ms));
        },
        _ => {},
    }
}

} // verus!

verus! {

/// The scheduler after taking the events `es` in order.
pub open spec fn after_events(m: Manager, es: Seq<Event>) -> Manager
    decreases es.len(),
{
    if es.len() == 0 {
        m
    } else {
        after_events(transition(m, es[0]).0, es.drop_first())
    }
}

/// Whether taking `es` from `m` never asks for a poll and never shuts down.
pub open spec fn quiet(m: Manager, es: Seq<Event>) -> bool {
    forall|i: int| 0 <= i < es.len() ==> {
        &&& #[trigger] es[i] != Event::Shutdown
        &&& transition(after_events(m, es.take(i)), es[i]).1 != Action::Poll
    }
}

proof fn lemma_quiet_keeps_waiting(w: Manager, es: Seq<Event>)
    requires
        w.phase == Phase::Waiting,
        quiet(w, es),
    ensures
        after_events(w, es) == w,
    decreases es.len(),
{
    if es.len() > 0 {
        assert(es.take(0) =~= Seq::<Event>::empty());
        assert(es[0] != Event::Shutdown);
        assert(transition(w, es[0]).1 != Action::Poll);
        if let Event::Tick(t) = es[0] {
            assert(t < w.next_wake_ms);
        }
        assert(transition(w, es[0]).0 == w);
        let rest = es.drop_first();
        assert forall|i: int| 0 <= i < rest.len() implies {
            &&& #[trigger] rest[i] != Event::Shutdown
            &&& transition(after_events(w, rest.take(i)), rest[i]).1 != Action::Poll
        } by {
            assert(es[i + 1] != Event::Shutdown);
            assert(es.take(i + 1).drop_first() =~= rest.take(i));
            assert(es.take(i + 1)[0] == es[0]);
            assert(after_events(w, es.take(i + 1)) == after_events(w, rest.take(i)));
        }
        lemma_quiet_keeps_waiting(w, rest);
    }
}

/// Cadence over any run of events: after a poll ends at `end`, whatever its
/// outcome, and whatever ticks and stray events follow without a shutdown,
/// the next poll starts no earlier than `end` plus the period.
pub proof fn lemma_cadence_over_events(m: Manager, ok: bool, end: u64, es: Seq<Event>, t: u64)
    requires
        m.phase == Phase::Polling,
        end + m.period_ms <= u64::MAX,
        quiet(transition(m, Event::Polled { ok, end }).0, es),
        transition(after_events(transition(m, Event::Polled { ok, end }).0, es), Event::Tick(t)).1
            == Action::Poll,
    ensures
        t >= end + m.period_ms,
{
    lemma_quiet_keeps_waiting(transition(m, Event::Polled { ok, end }).0, es);
}

} // verus!
