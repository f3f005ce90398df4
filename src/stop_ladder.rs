use vstd::prelude::*;
use crate::cli::ServiceConfig;

verus! {

/// Pause between two looks at a child that is being stopped, in
/// milliseconds.
pub const POLL_INTERVAL_MS: u64 = 50;

/// The ways to ask a child to exit, mildest first.
#[derive(Clone, Copy, Debug, PartialEq, Eq, Structural)]
pub enum StopMethod {
    /// Post a console interrupt to the child's console.
    Console,
    /// Post a close message to each top-level window the child owns.
    Window,
    /// Have the operating system terminate the process with code 1.
    Terminate,
    /// Kill the process through its handle.
    Kill,
}

/// The part of the configuration that drives a stop.
#[derive(Clone, Copy, Debug, PartialEq, Eq, Structural)]
pub struct StopPlan {
    pub no_console: bool,
    /// 1 skips the console, 2 the window, 4 the terminate and 8 the kill
    /// method.
    pub skip: u32,
    pub console_ms: u32,
    pub window_ms: u32,
    pub threads_ms: u32,
}

#[derive(Clone, Copy, Debug, PartialEq, Eq, Structural)]
pub enum LadderPhase {
    /// Not begun.
    Ready,
    /// A method is being applied.
    Signalling(StopMethod),
    /// Waiting for the child to exit after a method.
    Waiting(StopMethod),
    /// The child is to be reaped.
    Reaping,
    /// Over.
    Done,
}

/// What the caller observed; times are milliseconds of a monotonic clock.
#[derive(Clone, Copy, Debug, PartialEq, Eq, Structural)]
pub enum LadderEvent {
    Begin { now: u64 },
    /// The requested method has been applied.
    Signalled { now: u64 },
    /// A look at the child: `running` unless it has exited, or its status
    /// could not be read.
    Probed { now: u64, running: bool },
    Slept { now: u64 },
    Reaped,
}

/// What the caller is to do next.
#[derive(Clone, Copy, Debug, PartialEq, Eq, Structural)]
pub enum LadderAction {
    Signal(StopMethod),
    Probe,
    Sleep { ms: u64 },
    /// Wait for the child to end and collect it.
    Reap,
    Finished,
    /// The event was not expected now; nothing to do.
    Idle,
}

/// The stop ladder's state.
#[derive(Clone, Copy, Debug)]
pub struct StopLadder {
    pub plan: StopPlan,
    pub phase: LadderPhase,
    /// When the current method was applied.
    pub stage_started: u64,
}

pub open spec fn rank(m: StopMethod) -> nat {
    match m {
        StopMethod::Console => 0,
        StopMethod::Window => 1,
        StopMethod::Terminate => 2,
        StopMethod::Kill => 3,
    }
}

/// Whether the plan uses a method.
pub open spec fn enabled(plan: StopPlan, m: StopMethod) -> bool {
    match m {
        StopMethod::Console => !plan.no_console && plan.skip & 1 == 0,
        StopMethod::Window => plan.skip & 2 == 0,
        StopMethod::Terminate => plan.skip & 4 == 0,
        StopMethod::Kill => plan.skip & 8 == 0,
    }
}

/// How long to wait for the child after a method.
pub open spec fn budget(plan: StopPlan, m: StopMethod) -> u64 {
    match m {
        StopMethod::Console => plan.console_ms as u64,
        StopMethod::Window => plan.window_ms as u64,
        StopMethod::Terminate => plan.threads_ms as u64,
        StopMethod::Kill => 0,
    }
}

/// Moves to the first enabled method of rank `r` or more, or to reaping.
pub open spec fn enter_from(l: StopLadder, r: nat) -> (StopLadder, LadderAction) {
    let p = l.plan;
    let m = if r <= 0 && enabled(p, StopMethod::Console) {
        Some(StopMethod::Console)
    } else if r <= 1 && enabled(p, StopMethod::Window) {
        Some(StopMethod::Window)
    } else if r <= 2 && enabled(p, StopMethod::Terminate) {
        Some(StopMethod::Terminate)
    } else if r <= 3 && enabled(p, StopMethod::Kill) {
        Some(StopMethod::Kill)
    } else {
        None
    };
    match m {
        Some(m) => (StopLadder { phase: LadderPhase::Signalling(m), ..l }, LadderAction::Signal(m)),
        None => (StopLadder { phase: LadderPhase::Reaping, ..l }, LadderAction::Reap),
    }
}

/// While waiting after `m`: look again within the budget, else move on.
pub open spec fn check(l: StopLadder, m: StopMethod, now: u64) -> (StopLadder, LadderAction) {
    if now.saturating_sub(l.stage_started) < budget(l.plan, m) {
        (StopLadder { phase: LadderPhase::Waiting(m), ..l }, LadderAction::Probe)
    } else {
        enter_from(l, rank(m) + 1)
    }
}

/// The stop ladder's transition function.
pub open spec fn ladder_next(l: StopLadder, e: LadderEvent) -> (StopLadder, LadderAction) {
    match l.phase {
        LadderPhase::Ready => match e {
            LadderEvent::Begin { now } => enter_from(l, 0),
            _ => (l, LadderAction::Idle),
        },
        LadderPhase::Signalling(m) => match e {
            LadderEvent::Signalled { now } => {
                if m == StopMethod::Kill {
                    (StopLadder { phase: LadderPhase::Reaping, ..l }, LadderAction::Reap)
                } else {
                    check(StopLadder { stage_started: now, ..l }, m, now)
                }
            },
            _ => (l, LadderAction::Idle),
        },
        LadderPhase::Waiting(m) => match e {
            LadderEvent::Probed { now, running } => {
                if running {
                    (l, LadderAction::Sleep { ms: POLL_INTERVAL_MS })
                } else {
                    (StopLadder { phase: LadderPhase::Reaping, ..l }, LadderAction::Reap)
                }
            },
            LadderEvent::Slept { now } => check(l, m, now),
            _ => (l, LadderAction::Idle),
        },
        LadderPhase::Reaping => match e {
            LadderEvent::Reaped => (StopLadder { phase: LadderPhase::Done, ..l }, LadderAction::Finished),
            _ => (l, LadderAction::Idle),
        },
        LadderPhase::Done => (l, LadderAction::Idle),
    }
}

/// The ladder's state and actions after a sequence of events.
pub open spec fn ladder_run(l: StopLadder, events: Seq<LadderEvent>) -> (StopLadder, Seq<LadderAction>)
    decreases events.len(),
{
    if events.len() == 0 {
        (l, Seq::empty())
    } else {
        let (l1, a) = ladder_next(l, events[0]);
        let (t, acts) = ladder_run(l1, events.drop_first());
        (t, seq![a] + acts)
    }
}

/// An action that touches the child only to collect it, or not at all.
pub open spec fn reaps_only(a: LadderAction) -> bool {
    a is Reap || a is Finished || a is Idle
}

/// The ladder applies only methods that its plan enables.
pub proof fn lemma_signals_only_enabled_methods(l: StopLadder, e: LadderEvent)
    ensures
        ladder_next(l, e).1 is Signal ==> enabled(l.plan, ladder_next(l, e).1->Signal_0),
{
}

proof fn lemma_full_mask_run(l: StopLadder, events: Seq<LadderEvent>)
    requires
        l.plan.skip == 15,
        l.phase == LadderPhase::Ready || l.phase == LadderPhase::Reaping || l.phase
            == LadderPhase::Done,
    ensures
        forall|i: int| 0 <= i < ladder_run(l, events).1.len() ==> reaps_only(
            #[trigger] ladder_run(l, events).1[i],
        ),
    decreases events.len(),
{
    if events.len() > 0 {
        assert(15u32 & 1u32 != 0 && 15u32 & 2u32 != 0 && 15u32 & 4u32 != 0 && 15u32 & 8u32 != 0)
            by (bit_vector);
        let (l1, a) = ladder_next(l, events[0]);
        lemma_full_mask_run(l1, events.drop_first());
        let acts = ladder_run(l, events).1;
        assert forall|i: int| 0 <= i < acts.len() implies reaps_only(#[trigger] acts[i]) by {
            if i > 0 {
                assert(acts[i] == ladder_run(l1, events.drop_first()).1[i - 1]);
            }
        }
    }
}

/// With every method skipped, stopping a child does nothing to it but
/// collect it.
pub proof fn lemma_full_skip_mask_only_reaps(plan: StopPlan, events: Seq<LadderEvent>)
    requires
        plan.skip == 15,
    ensures
        forall|i: int| 0 <= i < ladder_run(StopLadder::start(plan), events).1.len() ==> reaps_only(
            #[trigger] ladder_run(StopLadder::start(plan), events).1[i],
        ),
{
    lemma_full_mask_run(StopLadder::start(plan), events);
}

impl StopPlan {
    /// The stop plan of a configuration.
    pub fn from_config(config: &ServiceConfig) -> (r: StopPlan)
        ensures
            r.no_console == config.app_no_console,
            r.skip == config.app_stop_method_skip,
            r.console_ms == config.app_stop_method_console,
            r.window_ms == config.app_stop_method_window,
            r.threads_ms == config.app_stop_method_threads,
    {
        StopPlan {
            no_console: config.app_no_console,
            skip: config.app_stop_method_skip,
            console_ms: config.app_stop_method_console,
            window_ms: config.app_stop_method_window,
            threads_ms: config.app_stop_method_threads,
        }
    }

    /// Whether the plan uses method `m`.
    pub fn uses(&self, m: StopMethod) -> (r: bool)
        ensures
            r == enabled(*self, m),
    {
        match m {
            StopMethod::Console => !self.no_console && self.skip & 1 == 0,
            StopMethod::Window => self.skip & 2 == 0,
            StopMethod::Terminate => self.skip & 4 == 0,
            StopMethod::Kill => self.skip & 8 == 0,
        }
    }

    /// How long to wait for the child after method `m`.
    pub fn budget(&self, m: StopMethod) -> (r: u64)
        ensures
            r == budget(*self, m),
    {
        match m {
            StopMethod::Console => self.console_ms as u64,
            StopMethod::Window => self.window_ms as u64,
            StopMethod::Terminate => self.threads_ms as u64,
            StopMethod::Kill => 0,
        }
    }
}

impl StopLadder {
    pub open spec fn start(plan: StopPlan) -> StopLadder {
        StopLadder { plan, phase: LadderPhase::Ready, stage_started: 0 }
    }

    /// A ladder that has not begun.
    pub fn new(plan: StopPlan) -> (r: StopLadder)
        ensures
            r == StopLadder::start(plan),
    {
        StopLadder { plan, phase: LadderPhase::Ready, stage_started: 0 }
    }

    fn enter_from(&mut self, r: u8) -> (a: LadderAction)
        ensures
            (*final(self), a) == enter_from(*old(self), r as nat),
    {
        let p = self.plan;
        let m = if r <= 0 && p.uses(StopMethod::Console) {
            Some(StopMethod::Console)
        } else if r <= 1 && p.uses(StopMethod::Window) {
            Some(StopMethod::Window)
        } else if r <= 2 && p.uses(StopMethod::Terminate) {
            Some(StopMethod::Terminate)
        } else if r <= 3 && p.uses(StopMethod::Kill) {
            Some(StopMethod::Kill)
        } else {
            None
        };
        match m {
            Some(m) => {
                self.phase = LadderPhase::Signalling(m);
                LadderAction::Signal(m)
            },
            None => {
                self.phase = LadderPhase::Reaping;
                LadderAction::Reap
            },
        }
    }

    fn check(&mut self, m: StopMethod, now: u64) -> (a: LadderAction)
        ensures
            (*final(self), a) == check(*old(self), m, now),
    {
        if now.saturating_sub(self.stage_started) < self.plan.budget(m) {
            self.phase = LadderPhase::Waiting(m);
            LadderAction::Probe
        } else {
            let r: u8 = match m {
                StopMethod::Console => 1,
                StopMethod::Window => 2,
                StopMethod::Terminate => 3,
                StopMethod::Kill => 4,
            };
            self.enter_from(r)
        }
    }

    /// Takes in one event and says what to do next.
    pub fn step(&mut self, event: LadderEvent) -> (a: LadderAction)
        ensures
            (*final(self), a) == ladder_next(*old(self), event),
    {
        match self.phase {
            LadderPhase::Ready => match event {
                LadderEvent::Begin { now } => self.enter_from(0),
                _ => LadderAction::Idle,
            },
            LadderPhase::Signalling(m) => match event {
                LadderEvent::Signalled { now } => {
                    if m == StopMethod::Kill {
                        self.phase = LadderPhase::Reaping;
                        LadderAction::Reap
                    } else {
                        self.stage_started = now;
                        self.check(m, now)
                    }
                },
                _ => LadderAction::Idle,
            },
            LadderPhase::Waiting(m) => match event {
                LadderEvent::Probed { now, running } => {
                    if running {
                        LadderAction::Sleep { ms: POLL_INTERVAL_MS }
                    } else {
                        self.phase = LadderPhase::Reaping;
                        LadderAction::Reap
                    }
                },
                LadderEvent::Slept { now } => self.check(m, now),
                _ => LadderAction::Idle,
            },
            LadderPhase::Reaping => match event {
                LadderEvent::Reaped => {
                    self.phase = LadderPhase::Done;
                    LadderAction::Finished
                },
                _ => LadderAction::Idle,
            },
            LadderPhase::Done => LadderAction::Idle,
        }
    }
}

} // verus!
