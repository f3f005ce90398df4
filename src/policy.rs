use vstd::prelude::*;
use crate::cli::ExitAction;

verus! {

/// The exit code that the service reports to the service control manager.
#[derive(Clone, Copy, Debug, PartialEq, Eq, Structural)]
pub enum ExitCode {
    /// Success.
    NoError,
    /// A code of the service's own.
    ServiceSpecific(u32),
}

/// Code reported while a terminated child awaits its restart.
pub const STILL_ACTIVE: u32 = 259;

/// Longest restart delay of a crash loop, in milliseconds.
pub const MAX_BACKOFF_MS: u64 = 256000;

/// Whether a child that exited with a code is restarted.
pub open spec fn restarts(action: ExitAction) -> bool {
    action == ExitAction::Restart
}

/// Decides from the configured exit action whether to restart a child that
/// exited with `_exit_code`; the code itself does not matter.
pub fn should_restart(_exit_code: i32, exit_action: &ExitAction) -> (r: bool)
    ensures
        r == restarts(*exit_action),
{
    match exit_action {
        ExitAction::Restart => true,
        ExitAction::Ignore => false,
        ExitAction::Exit => false,
    }
}

pub open spec fn spec_exit_code_for(code: i32) -> ExitCode {
    if code == 0 {
        ExitCode::NoError
    } else {
        ExitCode::ServiceSpecific(code as u32)
    }
}

/// The service's exit code after the child exited with `code`: success for
/// zero, else the code itself read as unsigned.
pub fn exit_code_for(code: i32) -> (r: ExitCode)
    ensures
        r == spec_exit_code_for(code),
{
    if code == 0 {
        ExitCode::NoError
    } else {
        ExitCode::ServiceSpecific(#[verifier::truncate] (code as u32))
    }
}

pub open spec fn pow2(k: nat) -> nat
    decreases k,
{
    if k == 0 {
        1
    } else {
        2 * pow2((k - 1) as nat)
    }
}

proof fn lemma_pow2_monotone(k: nat, n: nat)
    requires
        k <= n,
    ensures
        pow2(k) <= pow2(n),
    decreases n,
{
    if k < n {
        lemma_pow2_monotone(k, (n - 1) as nat);
    }
}

/// Restart delay after `failures` consecutive short runs:
/// `min(2^min(failures, 8) * 1000, 256000)` milliseconds.
pub open spec fn backoff_delay(failures: u32) -> u64 {
    let d = 1000 * pow2(if failures < 8 { failures as nat } else { 8 });
    if d < MAX_BACKOFF_MS {
        d as u64
    } else {
        MAX_BACKOFF_MS
    }
}

/// A delay from the crash-loop ladder: one second doubled `k` times, for
/// some `k` from 1 to 8.
pub open spec fn is_backoff_step(d: u64) -> bool {
    exists|k: nat| 1 <= k <= 8 && d == 1000 * pow2(k)
}

/// The restart delay after `failures` consecutive short runs.
pub fn backoff_delay_ms(failures: u32) -> (r: u64)
    ensures
        r == backoff_delay(failures),
        failures >= 1 ==> is_backoff_step(r),
{
    let m: u32 = if failures < 8 { failures } else { 8 };
    let mut d: u64 = 1000;
    let mut k: u32 = 0;
    proof {
        reveal_with_fuel(pow2, 9);
    }
    while k < m
        invariant
            m <= 8,
            k <= m,
            d == 1000 * pow2(k as nat),
            pow2(8) == 256,
        decreases m - k,
    {
        proof {
            lemma_pow2_monotone(k as nat, 7);
            reveal_with_fuel(pow2, 8);
        }
        d = d * 2;
        k += 1;
    }
    proof {
        lemma_pow2_monotone(m as nat, 8);
        if failures >= 1 {
            assert(1 <= m as nat <= 8 && d == 1000 * pow2(m as nat));
        }
    }
    if d < MAX_BACKOFF_MS {
        d
    } else {
        MAX_BACKOFF_MS
    }
}

pub open spec fn is_healthy(uptime_ms: u64, throttle_ms: u32) -> bool {
    uptime_ms >= throttle_ms
}

/// Failure count after a run that is restarted by the throttle rule.
pub open spec fn failures_after(uptime_ms: u64, throttle_ms: u32, failures: u32) -> u32 {
    if is_healthy(uptime_ms, throttle_ms) {
        0
    } else if failures < u32::MAX {
        (failures + 1) as u32
    } else {
        failures
    }
}

/// Delay before the restart that follows a run under the throttle rule.
pub open spec fn throttled_delay(
    uptime_ms: u64,
    throttle_ms: u32,
    restart_delay_ms: u32,
    failures: u32,
) -> u64 {
    if is_healthy(uptime_ms, throttle_ms) {
        restart_delay_ms as u64
    } else {
        backoff_delay(failures_after(uptime_ms, throttle_ms, failures))
    }
}

/// The throttle rule: a run of at least `throttle_ms` is healthy, clears the
/// failure count and waits `restart_delay_ms`; a shorter run counts one more
/// failure and waits the crash-loop delay for the new count. Returns the
/// delay and the new failure count, which stays at `u32::MAX` once there.
pub fn throttle(uptime_ms: u64, throttle_ms: u32, restart_delay_ms: u32, failures: u32) -> (r: (
    u64,
    u32,
))
    ensures
        r.0 == throttled_delay(uptime_ms, throttle_ms, restart_delay_ms, failures),
        r.1 == failures_after(uptime_ms, throttle_ms, failures),
        r.0 == 0 || r.0 == restart_delay_ms || is_backoff_step(r.0),
{
    if uptime_ms >= throttle_ms as u64 {
        (restart_delay_ms as u64, 0)
    } else {
        let f: u32 = if failures < u32::MAX {
            failures + 1
        } else {
            failures
        };
        (backoff_delay_ms(f), f)
    }
}

} // verus!
