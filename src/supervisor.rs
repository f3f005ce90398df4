use vstd::prelude::*;
use crate::cli::{ExitAction, ServiceConfig};
use crate::policy::{
    ExitCode, STILL_ACTIVE, exit_code_for, failures_after, restarts, should_restart,
    spec_exit_code_for, throttle, throttled_delay,
};

verus! {

/// How long the supervisor waits for a shutdown signal between two looks at
/// a running child, in milliseconds.
pub const MONITOR_WAKE_MS: u64 = 1000;

/// Longest single wait during a restart delay, in milliseconds, so that a
/// shutdown interrupts the delay promptly.
pub const BACKOFF_WAKE_MS: u64 = 100;

/// The part of the configuration that decides restarts.
#[derive(Clone, Copy, Debug, PartialEq, Eq, Structural)]
pub struct RestartPolicy {
    pub throttle_ms: u32,
    pub restart_delay_ms: u32,
    pub exit_action: ExitAction,
}

impl RestartPolicy {
    /// The restart policy of a configuration.
    pub fn from_config(config: &ServiceConfig) -> (r: RestartPolicy)
        ensures
            r.throttle_ms == config.app_throttle,
            r.restart_delay_ms == config.app_restart_delay,
            r.exit_action == config.app_exit_default,
    {
        RestartPolicy {
            throttle_ms: config.app_throttle,
            restart_delay_ms: config.app_restart_delay,
            exit_action: config.app_exit_default,
        }
    }
}

/// What a look at the child found.
#[derive(Clone, Copy, Debug, PartialEq, Eq, Structural)]
pub enum ChildStatus {
    Running,
    /// The child exited with this code.
    Exited(i32),
    /// The child ended without an exit code.
    Terminated,
    /// The operating system could not say.
    ProbeFailed,
}

#[derive(Clone, Copy, Debug, PartialEq, Eq, Structural)]
pub enum Phase {
    /// Waiting for the configuration.
    Initializing,
    /// A child is to be launched.
    Launching,
    /// A child runs.
    Monitoring,
    /// The child has been reaped; its output readers are to be joined.
    Releasing,
    /// Waiting out the restart delay.
    Backoff,
    /// The stop ladder runs against the child.
    Stopping,
    /// Final status published; nothing more happens.
    Stopped,
}

/// What the caller observed; times are milliseconds of a monotonic clock.
#[derive(Clone, Copy, Debug, PartialEq, Eq, Structural)]
pub enum Event {
    ConfigLoaded(RestartPolicy),
    ConfigFailed,
    Spawned { now: u64 },
    SpawnFailed,
    /// The shutdown channel yielded a value or was closed.
    Shutdown,
    /// A wait ended without a shutdown signal.
    TimedOut { now: u64 },
    Probed { now: u64, status: ChildStatus },
    /// The reaped child's output readers have been joined.
    ChildReleased { now: u64 },
    /// The stop ladder has run and the child has been reaped.
    LadderFinished,
}

/// What the caller is to do next.
#[derive(Clone, Copy, Debug, PartialEq, Eq, Structural)]
pub enum Action {
    /// Launch the child; publish `Running` first when `announce` is set.
    Launch { announce: bool },
    /// Wait for a shutdown signal for at most this long.
    Wait { timeout_ms: u64 },
    /// Look at the child's status.
    Probe,
    /// Join the output readers of the reaped child.
    ReleaseChild,
    /// Publish `StopPending`, run the stop ladder and reap the child.
    Stop,
    /// Publish `Stopped` with this code; the supervision is over.
    PublishStopped { code: ExitCode },
    /// The event was not expected now; nothing to do.
    Idle,
}

/// The supervisor's state.
#[derive(Clone, Copy, Debug)]
pub struct Supervisor {
    pub phase: Phase,
    pub policy: RestartPolicy,
    /// When the next child may be launched.
    pub restart_after: Option<u64>,
    /// Short runs since the last healthy one.
    pub consecutive_failures: u32,
    /// The code to report when the supervision ends.
    pub service_exit_code: ExitCode,
    /// When the current child was launched.
    pub launched_at: u64,
}

pub open spec fn uptime(s: Supervisor, now: u64) -> u64 {
    now.saturating_sub(s.launched_at)
}

/// Final transition: publish `Stopped` with `code`.
pub open spec fn stop_with(s: Supervisor, code: ExitCode) -> (Supervisor, Action) {
    (
        Supervisor { phase: Phase::Stopped, service_exit_code: code, restart_after: None, ..s },
        Action::PublishStopped { code },
    )
}

/// During the restart delay: wait a little more, or launch once it is over.
pub open spec fn backoff_turn(s: Supervisor, now: u64) -> (Supervisor, Action) {
    let d = s.restart_after.unwrap();
    if now < d {
        (
            Supervisor { phase: Phase::Backoff, ..s },
            Action::Wait {
                timeout_ms: if d - now < BACKOFF_WAKE_MS {
                    (d - now) as u64
                } else {
                    BACKOFF_WAKE_MS
                },
            },
        )
    } else {
        (
            Supervisor { phase: Phase::Launching, restart_after: None, ..s },
            Action::Launch { announce: false },
        )
    }
}

/// The child has been reaped: decide the restart. `code` is the exit code,
/// or `None` where the child was terminated without one.
pub open spec fn reap(s: Supervisor, now: u64, code: Option<i32>) -> (Supervisor, Action) {
    let up = uptime(s, now);
    let p = s.policy;
    let healthy_failures: u32 = if up >= p.throttle_ms {
        0
    } else {
        s.consecutive_failures
    };
    let t = match code {
        Some(c) => {
            if restarts(p.exit_action) {
                Supervisor {
                    phase: Phase::Releasing,
                    service_exit_code: spec_exit_code_for(c),
                    consecutive_failures: failures_after(
                        up,
                        p.throttle_ms,
                        s.consecutive_failures,
                    ),
                    restart_after: Some(
                        now.saturating_add(
                            throttled_delay(
                                up,
                                p.throttle_ms,
                                p.restart_delay_ms,
                                s.consecutive_failures,
                            ),
                        ),
                    ),
                    ..s
                }
            } else {
                Supervisor {
                    phase: Phase::Releasing,
                    service_exit_code: spec_exit_code_for(c),
                    consecutive_failures: healthy_failures,
                    restart_after: None,
                    ..s
                }
            }
        },
        None => Supervisor {
            phase: Phase::Releasing,
            service_exit_code: ExitCode::ServiceSpecific(STILL_ACTIVE),
            consecutive_failures: healthy_failures,
            restart_after: Some(now.saturating_add(p.throttle_ms as u64)),
            ..s
        },
    };
    (t, Action::ReleaseChild)
}

/// The supervisor's transition function.
pub open spec fn next(s: Supervisor, e: Event) -> (Supervisor, Action) {
    match s.phase {
        Phase::Initializing => match e {
            Event::ConfigLoaded(p) => (
                Supervisor { phase: Phase::Launching, policy: p, ..s },
                Action::Launch { announce: true },
            ),
            Event::ConfigFailed => stop_with(s, ExitCode::ServiceSpecific(1)),
            _ => (s, Action::Idle),
        },
        Phase::Launching => match e {
            Event::Spawned { now } => (
                Supervisor { phase: Phase::Monitoring, launched_at: now, ..s },
                Action::Wait { timeout_ms: MONITOR_WAKE_MS },
            ),
            Event::SpawnFailed => stop_with(s, ExitCode::ServiceSpecific(1)),
            _ => (s, Action::Idle),
        },
        Phase::Monitoring => match e {
            Event::Shutdown => (Supervisor { phase: Phase::Stopping, ..s }, Action::Stop),
            Event::TimedOut { now } => (s, Action::Probe),
            Event::Probed { now, status } => match status {
                ChildStatus::Running => (s, Action::Wait { timeout_ms: MONITOR_WAKE_MS }),
                ChildStatus::Exited(c) => reap(s, now, Some(c)),
                ChildStatus::Terminated => reap(s, now, None),
                ChildStatus::ProbeFailed => stop_with(s, ExitCode::ServiceSpecific(1)),
            },
            _ => (s, Action::Idle),
        },
        Phase::Releasing => match e {
            Event::ChildReleased { now } => {
                if s.restart_after is Some {
                    backoff_turn(s, now)
                } else {
                    stop_with(s, s.service_exit_code)
                }
            },
            _ => (s, Action::Idle),
        },
        Phase::Backoff => match e {
            Event::Shutdown => stop_with(s, ExitCode::NoError),
            Event::TimedOut { now } => {
                if s.restart_after is Some {
                    backoff_turn(s, now)
                } else {
                    (s, Action::Idle)
                }
            },
            _ => (s, Action::Idle),
        },
        Phase::Stopping => match e {
            Event::LadderFinished => stop_with(s, ExitCode::NoError),
            _ => (s, Action::Idle),
        },
        Phase::Stopped => (s, Action::Idle),
    }
}

/// The event reaps the child and the policy restarts it.
pub open spec fn reaps_for_restart(s: Supervisor, e: Event) -> bool {
    &&& s.phase == Phase::Monitoring
    &&& match e {
        Event::Probed { now, status } => match status {
            ChildStatus::Exited(c) => restarts(s.policy.exit_action),
            ChildStatus::Terminated => true,
            _ => false,
        },
        _ => false,
    }
}

/// The event reaps a child that ran at least the throttle time.
pub open spec fn reaps_healthy_run(s: Supervisor, e: Event) -> bool {
    &&& s.phase == Phase::Monitoring
    &&& match e {
        Event::Probed { now, status } => (status is Exited || status is Terminated) && uptime(
            s,
            now,
        ) >= s.policy.throttle_ms,
        _ => false,
    }
}

/// Every transition keeps the supervisor well formed.
pub proof fn lemma_next_preserves_wf(s: Supervisor, e: Event)
    requires
        s.wf(),
    ensures
        next(s, e).0.wf(),
{
}

/// A restart deadline comes into being only when a child has been reaped and
/// the policy restarts it; once set it stays as it is until it is cleared;
/// and while it is set no child lives.
pub proof fn lemma_restart_deadline_follows_restarting_reap(s: Supervisor, e: Event)
    requires
        s.wf(),
    ensures
        s.restart_after is None ==> (next(s, e).0.restart_after is Some <==> reaps_for_restart(
            s,
            e,
        )),
        s.restart_after is Some ==> (next(s, e).0.restart_after == s.restart_after || next(
            s,
            e,
        ).0.restart_after is None),
        next(s, e).0.restart_after is Some ==> (next(s, e).0.phase == Phase::Releasing || next(
            s,
            e,
        ).0.phase == Phase::Backoff),
{
}

/// The count of short runs never goes down, except that a healthy run
/// clears it.
pub proof fn lemma_failures_cleared_only_by_healthy_run(s: Supervisor, e: Event)
    ensures
        reaps_healthy_run(s, e) ==> next(s, e).0.consecutive_failures == 0,
        !reaps_healthy_run(s, e) ==> next(s, e).0.consecutive_failures
            >= s.consecutive_failures,
{
}

/// The supervisor's state and actions after a sequence of events.
pub open spec fn run(s: Supervisor, events: Seq<Event>) -> (Supervisor, Seq<Action>)
    decreases events.len(),
{
    if events.len() == 0 {
        (s, Seq::empty())
    } else {
        let (s1, a) = next(s, events[0]);
        let (t, acts) = run(s1, events.drop_first());
        (t, seq![a] + acts)
    }
}

/// How many times `Stopped` is published.
pub open spec fn publications(acts: Seq<Action>) -> nat
    decreases acts.len(),
{
    if acts.len() == 0 {
        0
    } else {
        (if acts[0] is PublishStopped {
            1nat
        } else {
            0nat
        }) + publications(acts.drop_first())
    }
}

proof fn lemma_publications_concat(a: Seq<Action>, b: Seq<Action>)
    ensures
        publications(a + b) == publications(a) + publications(b),
    decreases a.len(),
{
    if a.len() > 0 {
        assert((a + b).drop_first() =~= a.drop_first() + b);
        lemma_publications_concat(a.drop_first(), b);
    } else {
        assert(a + b =~= b);
    }
}

proof fn lemma_run_split(s: Supervisor, events: Seq<Event>, k: int)
    requires
        0 <= k <= events.len(),
    ensures
        run(s, events) == ({
            let (m, a1) = run(s, events.take(k));
            let (t, a2) = run(m, events.skip(k));
            (t, a1 + a2)
        }),
        run(s, events.take(k)).1.len() == k,
    decreases events.len(),
{
    if k == 0 {
        assert(events.skip(0) =~= events);
        assert(events.take(0) =~= Seq::<Event>::empty());
        assert(Seq::<Action>::empty() + run(s, events).1 =~= run(s, events).1);
    } else {
        let (s1, a) = next(s, events[0]);
        let rest = events.drop_first();
        lemma_run_split(s1, rest, k - 1);
        assert(rest.take(k - 1) =~= events.take(k).drop_first());
        assert(rest.skip(k - 1) =~= events.skip(k));
        let (m, a1) = run(s1, rest.take(k - 1));
        let (t, a2) = run(m, rest.skip(k - 1));
        assert(seq![a] + (a1 + a2) =~= (seq![a] + a1) + a2);
    }
}

/// Publishing `Stopped` is exactly the step into the final phase, which
/// is never left.
proof fn lemma_next_publishes_on_stopping(s: Supervisor, e: Event)
    ensures
        next(s, e).1 is PublishStopped <==> (s.phase != Phase::Stopped && next(s, e).0.phase
            == Phase::Stopped),
        s.phase == Phase::Stopped ==> next(s, e).0.phase == Phase::Stopped,
{
}

proof fn lemma_run_publications(s: Supervisor, events: Seq<Event>)
    ensures
        publications(run(s, events).1) == (if s.phase != Phase::Stopped && run(s, events).0.phase
            == Phase::Stopped {
            1nat
        } else {
            0nat
        }),
        s.phase == Phase::Stopped ==> run(s, events).0.phase == Phase::Stopped,
    decreases events.len(),
{
    if events.len() > 0 {
        let (s1, a) = next(s, events[0]);
        lemma_next_publishes_on_stopping(s, events[0]);
        lemma_run_publications(s1, events.drop_first());
        let acts = run(s, events).1;
        assert(acts.drop_first() =~= run(s1, events.drop_first()).1);
    }
}

/// From the stopping phase the run ends in the final phase exactly when the
/// stop ladder reports back.
proof fn lemma_stopping_run(s: Supervisor, events: Seq<Event>)
    requires
        s.phase == Phase::Stopping,
    ensures
        (run(s, events).0.phase == Phase::Stopped) <==> (exists|j: int|
            0 <= j < events.len() && events[j] == Event::LadderFinished),
    decreases events.len(),
{
    if events.len() > 0 {
        let (s1, a) = next(s, events[0]);
        let rest = events.drop_first();
        if events[0] == Event::LadderFinished {
            lemma_run_publications(s1, rest);
        } else {
            lemma_stopping_run(s1, rest);
            if exists|j: int| 0 <= j < events.len() && events[j] == Event::LadderFinished {
                let j = choose|j: int| 0 <= j < events.len() && events[j] == Event::LadderFinished;
                assert(rest[j - 1] == Event::LadderFinished);
            }
            if exists|j: int| 0 <= j < rest.len() && rest[j] == Event::LadderFinished {
                let j = choose|j: int| 0 <= j < rest.len() && rest[j] == Event::LadderFinished;
                assert(events[j + 1] == Event::LadderFinished);
            }
        }
    }
}

proof fn lemma_no_launch_once_stopping(s: Supervisor, events: Seq<Event>)
    requires
        s.phase == Phase::Stopping || s.phase == Phase::Stopped,
    ensures
        forall|i: int| 0 <= i < run(s, events).1.len() ==> !(#[trigger] run(s, events).1[i] is Launch),
    decreases events.len(),
{
    if events.len() > 0 {
        let (s1, a) = next(s, events[0]);
        lemma_no_launch_once_stopping(s1, events.drop_first());
        let acts = run(s, events).1;
        assert forall|i: int| 0 <= i < acts.len() implies !(#[trigger] acts[i] is Launch) by {
            if i > 0 {
                assert(acts[i] == run(s1, events.drop_first()).1[i - 1]);
            }
        }
    }
}

/// Once a shutdown signal has been taken in, while a child runs or during a
/// restart delay, no child is launched again, whatever follows.
pub proof fn lemma_no_launch_after_shutdown(s: Supervisor, events: Seq<Event>)
    requires
        s.phase == Phase::Monitoring || s.phase == Phase::Backoff,
    ensures
        forall|i: int| 0 <= i < run(next(s, Event::Shutdown).0, events).1.len() ==> !(
        #[trigger] run(next(s, Event::Shutdown).0, events).1[i] is Launch),
{
    lemma_no_launch_once_stopping(next(s, Event::Shutdown).0, events);
}

/// Whatever events arrive, one supervision publishes `Stopped` once if it
/// ends and never otherwise.
pub proof fn lemma_stopped_published_once(events: Seq<Event>)
    ensures
        publications(run(Supervisor::initial(), events).1) == (if run(
            Supervisor::initial(),
            events,
        ).0.phase == Phase::Stopped {
            1nat
        } else {
            0nat
        }),
{
    lemma_run_publications(Supervisor::initial(), events);
}

/// When a stop begins (`StopPending` is published), `Stopped` has not been
/// published before it, and is published once after it, exactly when the
/// stop ladder reports back.
pub proof fn lemma_stopped_published_once_after_stop(events: Seq<Event>, i: int)
    requires
        0 <= i < events.len(),
        run(Supervisor::initial(), events).1[i] == Action::Stop,
    ensures
        publications(run(Supervisor::initial(), events).1.take(i)) == 0,
        publications(run(Supervisor::initial(), events).1.skip(i + 1)) == (if exists|j: int|
            i < j < events.len() && events[j] == Event::LadderFinished {
            1nat
        } else {
            0nat
        }),
{
    let s0 = Supervisor::initial();
    let acts = run(s0, events).1;
    lemma_run_split(s0, events, i);
    let (m, a1) = run(s0, events.take(i));
    let (t, a2) = run(m, events.skip(i));
    assert(events.skip(i)[0] == events[i]);
    assert(a2[0] == acts[i]);
    let (m1, stop) = next(m, events[i]);
    assert(stop == Action::Stop);
    assert(m.phase == Phase::Monitoring);
    assert(m1.phase == Phase::Stopping);
    lemma_run_publications(s0, events.take(i));
    assert(acts.take(i) =~= a1);
    let rest = events.skip(i + 1);
    assert(events.skip(i).drop_first() =~= rest);
    assert(acts.skip(i + 1) =~= run(m1, rest).1);
    lemma_run_publications(m1, rest);
    lemma_stopping_run(m1, rest);
    if exists|j: int| i < j < events.len() && events[j] == Event::LadderFinished {
        let j = choose|j: int| i < j < events.len() && events[j] == Event::LadderFinished;
        assert(rest[j - i - 1] == Event::LadderFinished);
    }
    if exists|j: int| 0 <= j < rest.len() && rest[j] == Event::LadderFinished {
        let j = choose|j: int| 0 <= j < rest.len() && rest[j] == Event::LadderFinished;
        assert(events[j + i + 1] == Event::LadderFinished);
    }
}

impl Supervisor {
    /// A restart deadline is set only while no child lives and one is to be
    /// launched after it; the restart delay always has one.
    pub open spec fn wf(self) -> bool {
        &&& (self.restart_after is Some ==> self.phase == Phase::Releasing || self.phase
            == Phase::Backoff)
        &&& (self.phase == Phase::Backoff ==> self.restart_after is Some)
    }

    pub open spec fn initial() -> Supervisor {
        Supervisor {
            phase: Phase::Initializing,
            policy: RestartPolicy {
                throttle_ms: 1500,
                restart_delay_ms: 0,
                exit_action: ExitAction::Restart,
            },
            restart_after: None,
            consecutive_failures: 0,
            service_exit_code: ExitCode::NoError,
            launched_at: 0,
        }
    }

    /// A supervisor waiting for its configuration.
    pub fn new() -> (r: Supervisor)
        ensures
            r == Supervisor::initial(),
            r.wf(),
    {
        Supervisor {
            phase: Phase::Initializing,
            policy: RestartPolicy {
                throttle_ms: 1500,
                restart_delay_ms: 0,
                exit_action: ExitAction::Restart,
            },
            restart_after: None,
            consecutive_failures: 0,
            service_exit_code: ExitCode::NoError,
            launched_at: 0,
        }
    }

    fn stop_with(&mut self, code: ExitCode) -> (a: Action)
        ensures
            (*final(self), a) == stop_with(*old(self), code),
    {
        self.phase = Phase::Stopped;
        self.service_exit_code = code;
        self.restart_after = None;
        Action::PublishStopped { code }
    }

    fn backoff_turn(&mut self, now: u64) -> (a: Action)
        requires
            old(self).restart_after is Some,
        ensures
            (*final(self), a) == backoff_turn(*old(self), now),
    {
        let d = self.restart_after.unwrap();
        if now < d {
            self.phase = Phase::Backoff;
            let left = d - now;
            Action::Wait {
                timeout_ms: if left < BACKOFF_WAKE_MS {
                    left
                } else {
                    BACKOFF_WAKE_MS
                },
            }
        } else {
            self.phase = Phase::Launching;
            self.restart_after = None;
            Action::Launch { announce: false }
        }
    }

    fn reap(&mut self, now: u64, code: Option<i32>) -> (a: Action)
        ensures
            (*final(self), a) == reap(*old(self), now, code),
    {
        let up = now.saturating_sub(self.launched_at);
        let throttle_ms = self.policy.throttle_ms;
        let healthy_failures: u32 = if up >= throttle_ms as u64 {
            0
        } else {
            self.consecutive_failures
        };
        self.phase = Phase::Releasing;
        match code {
            Some(c) => {
                self.service_exit_code = exit_code_for(c);
                if should_restart(c, &self.policy.exit_action) {
                    let (delay, failures) = throttle(
                        up,
                        throttle_ms,
                        self.policy.restart_delay_ms,
                        self.consecutive_failures,
                    );
                    self.consecutive_failures = failures;
                    self.restart_after = Some(now.saturating_add(delay));
                } else {
                    self.consecutive_failures = healthy_failures;
                    self.restart_after = None;
                }
            },
            None => {
                self.service_exit_code = ExitCode::ServiceSpecific(STILL_ACTIVE);
                self.consecutive_failures = healthy_failures;
                self.restart_after = Some(now.saturating_add(throttle_ms as u64));
            },
        }
        Action::ReleaseChild
    }

    /// Takes in one event and says what to do next.
    pub fn step(&mut self, event: Event) -> (a: Action)
        ensures
            (*final(self), a) == next(*old(self), event),
    {
        match self.phase {
            Phase::Initializing => match event {
                Event::ConfigLoaded(p) => {
                    self.phase = Phase::Launching;
                    self.policy = p;
                    Action::Launch { announce: true }
                },
                Event::ConfigFailed => self.stop_with(ExitCode::ServiceSpecific(1)),
                _ => Action::Idle,
            },
            Phase::Launching => match event {
                Event::Spawned { now } => {
                    self.phase = Phase::Monitoring;
                    self.launched_at = now;
                    Action::Wait { timeout_ms: MONITOR_WAKE_MS }
                },
                Event::SpawnFailed => self.stop_with(ExitCode::ServiceSpecific(1)),
                _ => Action::Idle,
            },
            Phase::Monitoring => match event {
                Event::Shutdown => {
                    self.phase = Phase::Stopping;
                    Action::Stop
                },
                Event::TimedOut { now } => Action::Probe,
                Event::Probed { now, status } => match status {
                    ChildStatus::Running => Action::Wait { timeout_ms: MONITOR_WAKE_MS },
                    ChildStatus::Exited(c) => self.reap(now, Some(c)),
                    ChildStatus::Terminated => self.reap(now, None),
                    ChildStatus::ProbeFailed => self.stop_with(ExitCode::ServiceSpecific(1)),
                },
                _ => Action::Idle,
            },
            Phase::Releasing => match event {
                Event::ChildReleased { now } => {
                    if self.restart_after.is_some() {
                        self.backoff_turn(now)
                    } else {
                        let code = self.service_exit_code;
                        self.stop_with(code)
                    }
                },
                _ => Action::Idle,
            },
            Phase::Backoff => match event {
                Event::Shutdown => self.stop_with(ExitCode::NoError),
                Event::TimedOut { now } => {
                    if self.restart_after.is_some() {
                        self.backoff_turn(now)
                    } else {
                        Action::Idle
                    }
                },
                _ => Action::Idle,
            },
            Phase::Stopping => match event {
                Event::LadderFinished => self.stop_with(ExitCode::NoError),
                _ => Action::Idle,
            },
            Phase::Stopped => Action::Idle,
        }
    }
}

} // verus!
