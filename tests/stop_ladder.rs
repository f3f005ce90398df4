use nssm_rs::stop_ladder::{
    LadderAction, LadderEvent, LadderPhase, StopLadder, StopMethod, StopPlan, POLL_INTERVAL_MS,
};

fn plan(skip: u32, no_console: bool) -> StopPlan {
    StopPlan { no_console, skip, console_ms: 1500, window_ms: 1500, threads_ms: 1500 }
}

/// Runs a ladder against a child that exits `exits_at` ms after the start
/// (never, for `None`), polling on a simulated clock. Returns the methods
/// applied and the time spent before reaping.
fn simulate(p: StopPlan, exits_at: Option<u64>) -> (Vec<StopMethod>, u64) {
    let mut l = StopLadder::new(p);
    let mut now = 0u64;
    let mut applied = Vec::new();
    let mut a = l.step(LadderEvent::Begin { now });
    loop {
        a = match a {
            LadderAction::Signal(m) => {
                applied.push(m);
                l.step(LadderEvent::Signalled { now })
            }
            LadderAction::Probe => {
                let running = exits_at.map_or(true, |t| now < t);
                l.step(LadderEvent::Probed { now, running })
            }
            LadderAction::Sleep { ms } => {
                now += ms;
                l.step(LadderEvent::Slept { now })
            }
            LadderAction::Reap => {
                let at = now;
                assert_eq!(l.step(LadderEvent::Reaped), LadderAction::Finished);
                assert_eq!(l.phase, LadderPhase::Done);
                return (applied, at);
            }
            other => panic!("unexpected action {other:?}"),
        };
    }
}

#[test]
fn console_success_uses_one_stage() {
    let (applied, t) = simulate(plan(0, false), Some(200));
    assert_eq!(applied, vec![StopMethod::Console]);
    assert_eq!(t, 200);
}

#[test]
fn stubborn_child_is_killed_within_the_budgets() {
    let (applied, t) = simulate(plan(0, false), None);
    assert_eq!(
        applied,
        vec![StopMethod::Console, StopMethod::Window, StopMethod::Terminate, StopMethod::Kill]
    );
    assert!(t <= 1500 + 1500 + 1500);
    assert_eq!(t, 4500);
}

#[test]
fn full_skip_mask_only_reaps() {
    let mut l = StopLadder::new(plan(15, false));
    assert_eq!(l.step(LadderEvent::Begin { now: 0 }), LadderAction::Reap);
    assert_eq!(l.step(LadderEvent::Probed { now: 1, running: true }), LadderAction::Idle);
    assert_eq!(l.step(LadderEvent::Reaped), LadderAction::Finished);
    assert_eq!(l.step(LadderEvent::Begin { now: 2 }), LadderAction::Idle);
}

#[test]
fn no_console_skips_the_console_stage() {
    let (applied, _) = simulate(plan(0, true), Some(1600));
    assert_eq!(applied, vec![StopMethod::Window, StopMethod::Terminate]);
}

#[test]
fn skipped_stages_cost_no_time() {
    let (applied, t) = simulate(plan(1 | 2, false), None);
    assert_eq!(applied, vec![StopMethod::Terminate, StopMethod::Kill]);
    assert_eq!(t, 1500);
}

#[test]
fn kill_skipped_leaves_only_the_reap() {
    let (applied, t) = simulate(plan(8, false), None);
    assert_eq!(applied, vec![StopMethod::Console, StopMethod::Window, StopMethod::Terminate]);
    assert_eq!(t, 4500);
}

#[test]
fn zero_budget_moves_on_at_once() {
    let p = StopPlan { no_console: false, skip: 0, console_ms: 0, window_ms: 0, threads_ms: 0 };
    let (applied, t) = simulate(p, None);
    assert_eq!(applied.len(), 4);
    assert_eq!(t, 0);
}

#[test]
fn polls_every_interval() {
    let mut l = StopLadder::new(plan(0, false));
    assert_eq!(
        l.step(LadderEvent::Begin { now: 0 }),
        LadderAction::Signal(StopMethod::Console)
    );
    assert_eq!(l.step(LadderEvent::Signalled { now: 3 }), LadderAction::Probe);
    assert_eq!(
        l.step(LadderEvent::Probed { now: 3, running: true }),
        LadderAction::Sleep { ms: POLL_INTERVAL_MS }
    );
    assert_eq!(l.step(LadderEvent::Slept { now: 1502 }), LadderAction::Probe);
    assert_eq!(
        l.step(LadderEvent::Slept { now: 1503 }),
        LadderAction::Signal(StopMethod::Window)
    );
}

#[test]
fn plan_reports_enabled_methods() {
    let p = plan(2 | 8, false);
    assert!(p.uses(StopMethod::Console));
    assert!(!p.uses(StopMethod::Window));
    assert!(p.uses(StopMethod::Terminate));
    assert!(!p.uses(StopMethod::Kill));
    assert_eq!(p.budget(StopMethod::Window), 1500);
    assert_eq!(p.budget(StopMethod::Kill), 0);
}
