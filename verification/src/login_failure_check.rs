//! Backoff policy for operating-system logins of terminal sessions.
use crate::text::decimal_text;
use vstd::prelude::*;

verus! {

/// Failures are forgotten after this time without another one.
pub const TERMINAL_OS_LOGIN_TOTAL_IDLE_RESET_MS: i64 = 7_200_000;

/// The first backoff, in seconds.
pub const TERMINAL_OS_LOGIN_BACKOFF_BASE_SECONDS: i64 = 15;

/// The longest backoff, in seconds.
pub const TERMINAL_OS_LOGIN_BACKOFF_MAX_SECONDS: i64 = 1_800;

/// Which login a failure counts against.
#[derive(Copy, Clone, Debug, PartialEq, Eq, Structural)]
pub enum FailureScope {
    Default,
    TerminalOsLogin,
}

/// The alarm that a blocked login raises.
#[derive(Copy, Clone, Debug, PartialEq, Eq, Structural)]
pub enum AlarmAuditType {
    TerminalOsLoginBackoff,
}

/// Whether a login may be tried.
#[derive(Debug)]
pub struct TerminalPolicyDecision {
    pub allowed: bool,
    pub login_error: Option<String>,
    pub audit: Option<AlarmAuditType>,
}

/// The failures so far.
#[derive(Copy, Clone, Debug)]
pub struct TerminalFailureState {
    pub total_failures: i32,
    pub backoff_until_ms: Option<i64>,
    pub last_failure_ms: Option<i64>,
}

/// The state without failures.
pub open spec fn no_failures() -> TerminalFailureState {
    TerminalFailureState { total_failures: 0, backoff_until_ms: None, last_failure_ms: None }
}

impl Default for TerminalFailureState {
    fn default() -> (r: Self)
        ensures
            r == no_failures(),
            r.total_failures == 0 && r.backoff_until_ms is None && r.last_failure_ms is None,
    {
        TerminalFailureState { total_failures: 0, backoff_until_ms: None, last_failure_ms: None }
    }
}

/// Two to the power of `n`.
pub open spec fn power_of_two(n: nat) -> nat
    decreases n,
{
    if n == 0 {
        1
    } else {
        2 * power_of_two((n - 1) as nat)
    }
}

/// The wait after so many failures: none for the first two, then the base time,
/// doubled with each further failure up to six times, at most the longest wait.
pub open spec fn backoff_seconds(total_failures: int) -> int {
    if total_failures <= 2 {
        0
    } else {
        let doublings = if total_failures - 3 < 6 {
            total_failures - 3
        } else {
            6
        };
        let seconds = TERMINAL_OS_LOGIN_BACKOFF_BASE_SECONDS * power_of_two(doublings as nat);
        if seconds < TERMINAL_OS_LOGIN_BACKOFF_MAX_SECONDS {
            seconds
        } else {
            TERMINAL_OS_LOGIN_BACKOFF_MAX_SECONDS as int
        }
    }
}

/// The wait, in seconds, after so many failures.
pub fn terminal_os_login_backoff_seconds(total_failures: i32) -> (r: i64)
    ensures
        r == backoff_seconds(total_failures as int),
{
    proof {
        reveal_with_fuel(power_of_two, 8);
    }
    if total_failures <= 2 {
        return 0;
    }
    let beyond: i32 = total_failures - 3;
    let doublings: i32 = if beyond < 6 {
        beyond
    } else {
        6
    };
    let mut factor: i64 = 1;
    let mut i: i32 = 0;
    while i < doublings
        invariant
            0 <= i <= doublings <= 6,
            factor == power_of_two(i as nat),
            1 <= factor <= 64,
            i == 0 ==> factor == 1,
            i == 1 ==> factor == 2,
            i == 2 ==> factor == 4,
            i == 3 ==> factor == 8,
            i == 4 ==> factor == 16,
            i == 5 ==> factor == 32,
        decreases doublings - i,
    {
        factor = factor * 2;
        i = i + 1;
    }
    let seconds: i64 = TERMINAL_OS_LOGIN_BACKOFF_BASE_SECONDS * factor;
    if seconds < TERMINAL_OS_LOGIN_BACKOFF_MAX_SECONDS {
        seconds
    } else {
        TERMINAL_OS_LOGIN_BACKOFF_MAX_SECONDS
    }
}

/// The state with what time has made obsolete taken out.
pub open spec fn settled(state: TerminalFailureState, now_ms: i64) -> TerminalFailureState {
    if state.last_failure_ms matches Some(last) && now_ms - last
        >= TERMINAL_OS_LOGIN_TOTAL_IDLE_RESET_MS {
        no_failures()
    } else if state.backoff_until_ms matches Some(until) && until <= now_ms {
        TerminalFailureState { backoff_until_ms: None, ..state }
    } else {
        state
    }
}

fn normalize_backoff(state: &mut TerminalFailureState, now_ms: i64)
    ensures
        *final(state) == (if old(state).backoff_until_ms matches Some(until) && until <= now_ms {
            TerminalFailureState { backoff_until_ms: None, ..*old(state) }
        } else {
            *old(state)
        }),
{
    if let Some(until) = state.backoff_until_ms {
        if until <= now_ms {
            state.backoff_until_ms = None;
        }
    }
}

fn reset_totals_on_idle(state: &mut TerminalFailureState, now_ms: i64)
    ensures
        *final(state) == (if old(state).last_failure_ms matches Some(last) && now_ms - last >= TERMINAL_OS_LOGIN_TOTAL_IDLE_RESET_MS {
            no_failures()
        } else {
            *old(state)
        }),
{
    if let Some(last) = state.last_failure_ms {
        if now_ms as i128 - last as i128 >= TERMINAL_OS_LOGIN_TOTAL_IDLE_RESET_MS as i128 {
            state.total_failures = 0;
            state.backoff_until_ms = None;
            state.last_failure_ms = None;
        }
    }
}

fn allow_decision() -> (r: TerminalPolicyDecision)
    ensures
        r.allowed && r.login_error is None && r.audit is None,
{
    TerminalPolicyDecision { allowed: true, login_error: None, audit: None }
}

fn block_decision(login_error: String, alarm_type: AlarmAuditType) -> (r: TerminalPolicyDecision)
    ensures
        !r.allowed && r.login_error == Some(login_error) && r.audit == Some(alarm_type),
{
    TerminalPolicyDecision { allowed: false, login_error: Some(login_error), audit: Some(alarm_type) }
}

/// What a login is told that is blocked until a time: the seconds left, rounded
/// up.
pub open spec fn blocked_text(until_ms: i64, now_ms: i64) -> Seq<char> {
    "Please try "@ + crate::text::decimal(((until_ms - now_ms + 999) / 1_000) as nat) + " seconds later"@
}

/// Decides whether a login may be tried now, and drops what time has made
/// obsolete.
pub fn evaluate_terminal_policy(state: &mut TerminalFailureState, now_ms: i64) -> (r:
    TerminalPolicyDecision)
    requires
        old(state).backoff_until_ms matches Some(until) ==> until - now_ms <= i64::MAX - 999,
    ensures
        *final(state) == settled(*old(state), now_ms),
        (old(state).last_failure_ms matches Some(last) ==> now_ms - last < 7_200_000) ==> {
            &&& final(state).total_failures == old(state).total_failures
            &&& final(state).last_failure_ms == old(state).last_failure_ms
            &&& r.allowed <==> !(old(state).backoff_until_ms matches Some(until) && now_ms < until)
        },
        r.allowed == (settled(*old(state), now_ms).backoff_until_ms is None),
        match settled(*old(state), now_ms).backoff_until_ms {
            Some(until) => r.login_error matches Some(text) && text@ == blocked_text(until, now_ms)
                && r.audit == Some(AlarmAuditType::TerminalOsLoginBackoff),
            None => r.login_error is None && r.audit is None,
        },
{
    reset_totals_on_idle(state, now_ms);
    normalize_backoff(state, now_ms);
    if let Some(until) = state.backoff_until_ms {
        let remaining_ms: i64 = until - now_ms;
        let remaining_seconds: i64 = (remaining_ms + 999) / 1_000;
        let mut text: String = "Please try ".to_owned();
        let number = decimal_text(remaining_seconds as u64);
        text.append(number.as_str());
        text.append(" seconds later");
        block_decision(text, AlarmAuditType::TerminalOsLoginBackoff)
    } else {
        allow_decision()
    }
}

/// The state after one more failure.
pub open spec fn after_failure(state: TerminalFailureState, now_ms: i64) -> TerminalFailureState {
    let before = settled(state, now_ms);
    let total = before.total_failures + 1;
    TerminalFailureState {
        total_failures: total as i32,
        last_failure_ms: Some(now_ms),
        backoff_until_ms: if backoff_seconds(total) > 0 {
            Some((now_ms + backoff_seconds(total) * 1_000) as i64)
        } else {
            before.backoff_until_ms
        },
    }
}

/// Counts a failed login.
pub fn record_terminal_failure(state: &mut TerminalFailureState, now_ms: i64)
    requires
        settled(*old(state), now_ms).total_failures < i32::MAX,
        now_ms <= i64::MAX - 1_800_000,
    ensures
        *final(state) == after_failure(*old(state), now_ms),
        final(state).last_failure_ms == Some(now_ms),
        (old(state).last_failure_ms matches Some(last) ==> now_ms - last < 7_200_000)
            ==> final(state).total_failures == old(state).total_failures + 1,
{
    reset_totals_on_idle(state, now_ms);
    normalize_backoff(state, now_ms);
    state.total_failures = state.total_failures + 1;
    state.last_failure_ms = Some(now_ms);
    let backoff: i64 = terminal_os_login_backoff_seconds(state.total_failures);
    proof {
        law_backoff_is_capped(state.total_failures as int);
    }
    if backoff > 0 {
        state.backoff_until_ms = Some(now_ms + backoff * 1_000);
    }
}

/// Forgets all failures.
pub fn clear_terminal_failure_state(state: &mut TerminalFailureState)
    ensures
        *final(state) == no_failures(),
        final(state).total_failures == 0,
        final(state).backoff_until_ms is None && final(state).last_failure_ms is None,
{
    state.total_failures = 0;
    state.backoff_until_ms = None;
    state.last_failure_ms = None;
}

proof fn lemma_power_of_two(a: nat, b: nat)
    requires
        a <= b,
    ensures
        1 <= power_of_two(a) <= power_of_two(b),
    decreases b,
{
    if a < b {
        lemma_power_of_two(a, (b - 1) as nat);
    } else if b > 0 {
        lemma_power_of_two((a - 1) as nat, (b - 1) as nat);
    }
}

/// No wait is longer than the longest one, and none is negative.
pub proof fn law_backoff_is_capped(total_failures: int)
    ensures
        0 <= backoff_seconds(total_failures) <= TERMINAL_OS_LOGIN_BACKOFF_MAX_SECONDS,
{
    if total_failures > 2 {
        let doublings = if total_failures - 3 < 6 {
            total_failures - 3
        } else {
            6
        };
        lemma_power_of_two(0, doublings as nat);
    }
}

/// More failures never make the wait shorter.
pub proof fn law_backoff_is_monotone(fewer: int, more: int)
    requires
        fewer <= more,
    ensures
        backoff_seconds(fewer) <= backoff_seconds(more),
{
    law_backoff_is_capped(fewer);
    law_backoff_is_capped(more);
    if fewer > 2 {
        let a: int = if fewer - 3 < 6 {
            fewer - 3
        } else {
            6
        };
        let b: int = if more - 3 < 6 {
            more - 3
        } else {
            6
        };
        lemma_power_of_two(a as nat, b as nat);
        assert(15 * power_of_two(a as nat) <= 15 * power_of_two(b as nat));
    }
}

/// From the third failure on, logins are blocked until the wait is over, and
/// allowed again from then on.
pub proof fn law_failure_blocks_until_backoff_ends(
    state: TerminalFailureState,
    now_ms: i64,
    later_ms: i64,
)
    requires
        2 <= settled(state, now_ms).total_failures < i32::MAX,
        now_ms <= later_ms,
        now_ms <= i64::MAX - 7_200_000,
    ensures
        settled(after_failure(state, now_ms), later_ms).backoff_until_ms is Some <==> later_ms
            < now_ms + backoff_seconds(settled(state, now_ms).total_failures + 1) * 1_000,
{
    let total = settled(state, now_ms).total_failures + 1;
    law_backoff_is_capped(total);
    law_backoff_is_monotone(3, total);
    reveal_with_fuel(power_of_two, 2);
}

/// After the idle time without a failure, a login is allowed whatever happened
/// before.
pub proof fn law_idle_time_clears_failures(state: TerminalFailureState, now_ms: i64)
    requires
        state.last_failure_ms matches Some(last) && now_ms - last
            >= TERMINAL_OS_LOGIN_TOTAL_IDLE_RESET_MS,
    ensures
        settled(state, now_ms) == no_failures(),
{
}

/// Within the idle time, the end of a wait ends nothing but the wait: the count and
/// the time of the last failure stay, and a wait that still goes on stays as it is.
pub proof fn law_waiting_out_keeps_the_count(state: TerminalFailureState, now_ms: i64)
    requires
        state.last_failure_ms matches Some(last) ==> now_ms - last < 7_200_000,
    ensures
        settled(state, now_ms).total_failures == state.total_failures,
        settled(state, now_ms).last_failure_ms == state.last_failure_ms,
        match settled(state, now_ms).backoff_until_ms {
            Some(until) => state.backoff_until_ms == Some(until) && now_ms < until,
            None => state.backoff_until_ms matches Some(until) ==> until <= now_ms,
        },
{
}

/// Each failure within the idle time of the one before raises the count by exactly
/// one; the first failure after the idle time is counted as the first.
pub proof fn law_each_failure_counts_once(state: TerminalFailureState, now_ms: i64)
    requires
        0 <= state.total_failures < i32::MAX,
    ensures
        after_failure(state, now_ms).last_failure_ms == Some(now_ms),
        after_failure(state, now_ms).total_failures == (if state.last_failure_ms matches Some(last)
            && now_ms - last >= 7_200_000 {
            1
        } else {
            state.total_failures + 1
        }),
{
}

/// The state after failures at the given times, in turn.
pub open spec fn after_failures(state: TerminalFailureState, times: Seq<i64>) -> TerminalFailureState
    decreases times.len(),
{
    if times.len() == 0 {
        state
    } else {
        after_failure(after_failures(state, times.drop_last()), times.last())
    }
}

/// However often a wait is waited out, the count is the number of failures, as long
/// as none of them comes the idle time after the one before.
pub proof fn law_failures_add_up(times: Seq<i64>)
    requires
        times.len() < i32::MAX,
        forall|i: int| 1 <= i < times.len() ==> times[i] - #[trigger] times[i - 1] < 7_200_000,
    ensures
        after_failures(no_failures(), times).total_failures == times.len(),
        times.len() > 0 ==> after_failures(no_failures(), times).last_failure_ms == Some(
            times.last(),
        ),
    decreases times.len(),
{
    if times.len() > 0 {
        let before = times.drop_last();
        assert forall|i: int| 1 <= i < before.len() implies before[i] - #[trigger] before[i - 1]
            < 7_200_000 by {
            assert(before[i] == times[i] && before[i - 1] == times[i - 1]);
        }
        law_failures_add_up(before);
        if before.len() > 0 {
            assert(before.last() == times[times.len() - 2]);
            assert(times[times.len() - 1] - times[times.len() - 1 - 1] < 7_200_000);
        }
    }
}

/// The waits, failure by failure: none for the first two, fifteen seconds for the
/// third, twice the wait before for each up to the ninth, and no more from then on.
pub proof fn law_waits_double(total_failures: int)
    ensures
        total_failures <= 2 ==> backoff_seconds(total_failures) == 0,
        backoff_seconds(3) == 15,
        3 <= total_failures < 9 ==> backoff_seconds(total_failures + 1) == 2 * backoff_seconds(
            total_failures,
        ),
        total_failures >= 9 ==> backoff_seconds(total_failures) == 960,
{
    reveal_with_fuel(power_of_two, 8);
}

/// A failure blocks for the wait of its count from its own time on; one that brings
/// no wait leaves a wait that still goes on as it is.
pub proof fn law_wait_follows_the_count(state: TerminalFailureState, now_ms: i64)
    requires
        0 <= state.total_failures < i32::MAX,
        state.last_failure_ms matches Some(last) ==> now_ms - last < 7_200_000,
        now_ms <= i64::MAX - 1_800_000,
    ensures
        state.total_failures >= 2 ==> (after_failure(state, now_ms).backoff_until_ms matches Some(
            until,
        ) && until - now_ms == 1_000 * backoff_seconds(state.total_failures + 1)),
        state.total_failures < 2 ==> match after_failure(state, now_ms).backoff_until_ms {
            Some(until) => state.backoff_until_ms == Some(until) && now_ms < until,
            None => state.backoff_until_ms matches Some(until) ==> until <= now_ms,
        },
{
    law_backoff_is_capped(state.total_failures + 1);
    law_waits_double(state.total_failures + 1);
    if state.total_failures >= 2 {
        law_backoff_is_monotone(3, state.total_failures + 1);
    }
}

/// A blocked login is told the seconds that are left, a started second counted as a
/// whole one.
pub proof fn law_told_seconds_cover_the_wait(until_ms: i64, now_ms: i64, seconds: nat)
    requires
        1_000 * (seconds - 1) < until_ms - now_ms <= 1_000 * seconds,
    ensures
        blocked_text(until_ms, now_ms) == "Please try "@ + crate::text::decimal(seconds)
            + " seconds later"@,
{
}

} // verus!
