//! The extension state machine and its crash-restart policy.
//!
//! Both are pure functions of an injected time, in milliseconds on a clock
//! the caller chooses, so the rate limiter can be reasoned about without a
//! real clock and without a real child process.
use vstd::prelude::*;

use crate::text::{decimal, push_decimal, push_str};

verus! {

/// Failed starts tolerated inside [`RestartPolicy::window_ms`] before giving up.
pub const DEFAULT_MAX_FAILURES: usize = 3;
/// Window over which failures are counted: five minutes.
pub const DEFAULT_FAILURE_WINDOW_MS: u64 = 300_000;

#[derive(Debug, Clone, PartialEq, Eq)]
pub enum ExtensionState {
    Discovered,
    /// The manifest or executable is unusable; the reason is shown to the user.
    Invalid { reason: String },
    Inactive,
    Starting,
    Running,
    Stopping,
    /// Failed too often to keep restarting automatically.
    Failed { reason: String },
}

/// True for the states Warp will not leave without the user asking.
pub open spec fn needs_user(s: ExtensionState) -> bool {
    s is Invalid || s is Failed
}

impl ExtensionState {
    pub fn is_running(&self) -> (b: bool)
        ensures
            b == (*self is Running),
    {
        matches!(self, ExtensionState::Running)
    }

    /// True when Warp will not start this extension again without the user
    /// asking, so the UI can offer a manual restart instead of waiting.
    pub fn needs_user_action(&self) -> (b: bool)
        ensures
            b == needs_user(*self),
    {
        matches!(self, ExtensionState::Invalid { .. } | ExtensionState::Failed { .. })
    }
}

/// Why a running extension stopped.
#[derive(Debug, Clone, PartialEq, Eq)]
pub enum StopReason {
    /// Warp asked it to stop: deactivation, disable, or shutdown.
    Requested,
    /// The activation condition no longer holds.
    Deactivated,
    Crashed { detail: String },
    /// The handshake did not complete inside the start timeout.
    StartTimeout,
    /// The plugin misbehaved badly enough to be disconnected.
    ProtocolViolation { detail: String },
}

/// Only unexpected stops count towards the restart budget.
pub open spec fn counts_as_failure(r: StopReason) -> bool {
    !(r is Requested || r is Deactivated)
}

pub open spec fn stop_detail(r: StopReason) -> Seq<char> {
    match r {
        StopReason::Requested => "stopped by Warp"@,
        StopReason::Deactivated => "workspace no longer matches activation"@,
        StopReason::Crashed { detail } => detail@,
        StopReason::StartTimeout => "did not complete the handshake in time"@,
        StopReason::ProtocolViolation { detail } => detail@,
    }
}

impl StopReason {
    /// Only unexpected stops count towards the restart budget; a deliberate
    /// stop must not push an extension towards `Failed`.
    pub fn is_failure(&self) -> (b: bool)
        ensures
            b == counts_as_failure(*self),
    {
        match self {
            StopReason::Requested | StopReason::Deactivated => false,
            StopReason::Crashed { .. } | StopReason::StartTimeout | StopReason::ProtocolViolation { .. } => true,
        }
    }

    pub fn detail(&self) -> (s: String)
        ensures
            s@ == stop_detail(*self),
    {
        match self {
            StopReason::Requested => String::from_str("stopped by Warp"),
            StopReason::Deactivated => String::from_str("workspace no longer matches activation"),
            StopReason::Crashed { detail } => detail.clone(),
            StopReason::StartTimeout => String::from_str("did not complete the handshake in time"),
            StopReason::ProtocolViolation { detail } => detail.clone(),
        }
    }
}

/// What the host should do after a stop.
#[derive(Debug, Clone, PartialEq, Eq)]
pub enum RestartDecision {
    /// Restart now, offering the user a notification naming the extension.
    Restart,
    /// Stay stopped until the activation condition holds again.
    StayInactive,
    /// Out of restart budget; only a manual restart will start it again.
    GiveUp { reason: String },
}

#[derive(Debug, Clone, Copy, PartialEq, Eq, Structural)]
pub struct RestartPolicy {
    pub max_failures: usize,
    pub window_ms: u64,
}

impl Default for RestartPolicy {
    fn default() -> (p: RestartPolicy)
        ensures
            p.max_failures == DEFAULT_MAX_FAILURES,
            p.window_ms == DEFAULT_FAILURE_WINDOW_MS,
    {
        RestartPolicy { max_failures: DEFAULT_MAX_FAILURES, window_ms: DEFAULT_FAILURE_WINDOW_MS }
    }
}

/// Time elapsed from `then` to `now`, zero when `then` is later, as
/// `Instant::duration_since` measures it.
pub open spec fn elapsed(now: u64, then: u64) -> int {
    if now >= then { now - then } else { 0 }
}

/// The failures still inside the window at `now`, oldest first.
pub open spec fn recent(failures: Seq<u64>, now: u64, window: u64) -> Seq<u64> {
    failures.filter(|f: u64| elapsed(now, f) < window)
}

/// The reason recorded when the budget runs out.
pub open spec fn give_up_reason(count: nat, window_ms: u64, detail: Seq<char>) -> Seq<char> {
    "stopped "@ + decimal(count) + " times in "@ + decimal((window_ms / 1000) as nat) + " seconds: "@ + detail
}

/// Tracks one extension's state and its recent failures.
#[derive(Debug, Clone)]
pub struct StateMachine {
    state: ExtensionState,
    policy: RestartPolicy,
    failures: Vec<u64>,
}

/// A [`StateMachine`] as plain values.
pub struct MachineView {
    pub state: ExtensionState,
    pub policy: RestartPolicy,
    /// When each counted failure happened, oldest first.
    pub failures: Seq<u64>,
}

impl View for StateMachine {
    type V = MachineView;

    closed spec fn view(&self) -> MachineView {
        MachineView { state: self.state, policy: self.policy, failures: self.failures@ }
    }
}

impl StateMachine {
    pub fn new(policy: RestartPolicy) -> (m: StateMachine)
        ensures
            m@.state == ExtensionState::Discovered,
            m@.policy == policy,
            m@.failures == Seq::<u64>::empty(),
    {
        StateMachine { state: ExtensionState::Discovered, policy, failures: Vec::new() }
    }

    pub fn state(&self) -> (s: &ExtensionState)
        ensures
            *s == self@.state,
    {
        &self.state
    }

    /// Records that validation failed. An invalid extension is never started,
    /// so this is terminal until the files on disk change.
    pub fn invalidate(&mut self, reason: String)
        ensures
            final(self)@.state == (ExtensionState::Invalid { reason }),
            final(self)@.policy == old(self)@.policy,
            final(self)@.failures == old(self)@.failures,
    {
        self.state = ExtensionState::Invalid { reason };
    }

    /// Marks a validated extension as eligible but not yet activated; an
    /// invalid or failed one stays as it is.
    pub fn validated(&mut self)
        ensures
            final(self)@.state == if needs_user(old(self)@.state) { old(self)@.state } else { ExtensionState::Inactive },
            final(self)@.policy == old(self)@.policy,
            final(self)@.failures == old(self)@.failures,
    {
        if !self.state.needs_user_action() {
            self.state = ExtensionState::Inactive;
        }
    }

    /// Returns false, changing nothing, when the extension must not be started
    /// right now: an invalid manifest or an exhausted restart budget.
    pub fn start(&mut self) -> (started: bool)
        ensures
            started == !needs_user(old(self)@.state),
            final(self)@.state == if started { ExtensionState::Starting } else { old(self)@.state },
            final(self)@.policy == old(self)@.policy,
            final(self)@.failures == old(self)@.failures,
    {
        if self.state.needs_user_action() {
            return false;
        }
        self.state = ExtensionState::Starting;
        true
    }

    /// The handshake completed.
    pub fn running(&mut self)
        ensures
            final(self)@.state == ExtensionState::Running,
            final(self)@.policy == old(self)@.policy,
            final(self)@.failures == old(self)@.failures,
    {
        self.state = ExtensionState::Running;
    }

    pub fn stopping(&mut self)
        ensures
            final(self)@.state == ExtensionState::Stopping,
            final(self)@.policy == old(self)@.policy,
            final(self)@.failures == old(self)@.failures,
    {
        self.state = ExtensionState::Stopping;
    }

    /// Clears the failure history after a start the user asked for, so a manual
    /// restart is a genuine fresh chance rather than an immediate `Failed`.
    ///
    /// An invalid manifest is not revived this way: nothing the user does in
    /// the UI can make an unparseable manifest runnable.
    pub fn manual_restart(&mut self) -> (started: bool)
        ensures
            started == !(old(self)@.state is Invalid),
            started ==> final(self)@.state == ExtensionState::Starting && final(self)@.failures == Seq::<u64>::empty(),
            !started ==> final(self)@ == old(self)@,
            final(self)@.policy == old(self)@.policy,
    {
        if matches!(self.state, ExtensionState::Invalid { .. }) {
            return false;
        }
        self.failures = Vec::new();
        self.state = ExtensionState::Inactive;
        self.start()
    }

    /// Applies a stop and reports what the host should do next.
    ///
    /// A deliberate stop leaves the budget alone. A failure drops the failures
    /// that fell out of the window, records this one, and gives up once the
    /// window holds `max_failures` of them.
    pub fn stopped(&mut self, reason: StopReason, now: u64) -> (d: RestartDecision)
        ensures
            final(self)@.policy == old(self)@.policy,
            !counts_as_failure(reason) ==> {
                &&& d == RestartDecision::StayInactive
                &&& final(self)@.state == ExtensionState::Inactive
                &&& final(self)@.failures == old(self)@.failures
            },
            counts_as_failure(reason) ==> {
                let kept = after_failure(old(self)@.failures, now, old(self)@.policy.window_ms);
                &&& final(self)@.failures == kept
                &&& if kept.len() >= old(self)@.policy.max_failures {
                    &&& d matches RestartDecision::GiveUp { reason: r }
                    &&& r@ == give_up_reason(kept.len(), old(self)@.policy.window_ms, stop_detail(reason))
                    &&& final(self)@.state matches ExtensionState::Failed { reason: s } && s@ == r@
                } else {
                    &&& d == RestartDecision::Restart
                    &&& final(self)@.state == ExtensionState::Inactive
                }
            },
    {
        if !reason.is_failure() {
            self.state = ExtensionState::Inactive;
            return RestartDecision::StayInactive;
        }
        let window = self.policy.window_ms;
        let ghost old_failures = self.failures@;
        let mut kept: Vec<u64> = Vec::new();
        let mut i: usize = 0;
        while i < self.failures.len()
            invariant
                0 <= i <= self.failures@.len(),
                self.failures@ == old_failures,
                window == self.policy.window_ms,
                kept@ == recent(old_failures.take(i as int), now, window),
            decreases self.failures@.len() - i,
        {
            let f = self.failures[i];
            let age: u64 = if now >= f { now - f } else { 0 };
            proof {
                assert(old_failures.take(i + 1) =~= old_failures.take(i as int).push(f));
                old_failures.take(i as int).lemma_filter_push(f, |g: u64| elapsed(now, g) < window);
            }
            if age < window {
                kept.push(f);
            }
            i += 1;
        }
        assert(old_failures.take(old_failures.len() as int) =~= old_failures);
        kept.push(now);
        self.failures = kept;

        if self.failures.len() >= self.policy.max_failures {
            let mut message = String::from_str("stopped ");
            push_decimal(&mut message, self.failures.len() as u64);
            push_str(&mut message, " times in ");
            push_decimal(&mut message, self.policy.window_ms / 1000);
            push_str(&mut message, " seconds: ");
            let detail = reason.detail();
            push_str(&mut message, detail.as_str());
            let recorded = message.clone();
            self.state = ExtensionState::Failed { reason: recorded };
            return RestartDecision::GiveUp { reason: message };
        }
        self.state = ExtensionState::Inactive;
        RestartDecision::Restart
    }
}

/// Failures further apart than the window do not accumulate: when every
/// earlier failure is at least a window old, only the new one counts.
pub proof fn lemma_isolated_failure_counts_alone(failures: Seq<u64>, now: u64, window: u64)
    requires
        forall|k: int| 0 <= k < failures.len() ==> elapsed(now, #[trigger] failures[k]) >= window,
    ensures
        recent(failures, now, window).push(now).len() == 1,
    decreases failures.len(),
{
    if failures.len() > 0 {
        let init = failures.drop_last();
        lemma_isolated_failure_counts_alone(init, now, window);
        assert(failures =~= init.push(failures.last()));
        init.lemma_filter_push(failures.last(), |f: u64| elapsed(now, f) < window);
    } else {
        assert(recent(failures, now, window) =~= Seq::<u64>::empty());
    }
}

/// A failure is never forgotten while it is inside the window: every failure
/// younger than the window is still counted after the next stop.
pub proof fn lemma_recent_failures_are_kept(failures: Seq<u64>, now: u64, window: u64, k: int)
    requires
        0 <= k < failures.len(),
        elapsed(now, failures[k]) < window,
    ensures
        recent(failures, now, window).contains(failures[k]),
    decreases failures.len(),
{
    let pred = |f: u64| elapsed(now, f) < window;
    let init = failures.drop_last();
    assert(failures =~= init.push(failures.last()));
    init.lemma_filter_push(failures.last(), pred);
    if k == failures.len() - 1 {
        assert(recent(failures, now, window).last() == failures[k]);
    } else {
        assert(init[k] == failures[k]);
        lemma_recent_failures_are_kept(init, now, window, k);
        let i = choose|i: int| 0 <= i < recent(init, now, window).len() && recent(init, now, window)[i] == failures[k];
        assert(recent(failures, now, window)[i] == failures[k]);
    }
}


/// The failures counted after one failure stop at `now`, as
/// [`StateMachine::stopped`] records them.
pub open spec fn after_failure(failures: Seq<u64>, now: u64, window: u64) -> Seq<u64> {
    recent(failures, now, window).push(now)
}

/// The failures counted after failure stops at each of `times` in turn,
/// starting from `failures`.
pub open spec fn after_failures(failures: Seq<u64>, times: Seq<u64>, window: u64) -> Seq<u64>
    decreases times.len(),
{
    if times.len() == 0 {
        failures
    } else {
        after_failure(after_failures(failures, times.drop_last(), window), times.last(), window)
    }
}

/// True when no time in `times` is earlier than the one before it.
pub open spec fn never_earlier(times: Seq<u64>) -> bool {
    forall|i: int, j: int| 0 <= i <= j < times.len() ==> times[i] <= times[j]
}

/// Filtering at one time and then at a later one drops what filtering at
/// the later time alone drops, for failures no later than the first time.
proof fn lemma_recent_twice(failures: Seq<u64>, first: u64, later: u64, window: u64)
    requires
        first <= later,
        forall|k: int| 0 <= k < failures.len() ==> #[trigger] failures[k] <= first,
    ensures
        recent(recent(failures, first, window), later, window) == recent(failures, later, window),
    decreases failures.len(),
{
    if failures.len() == 0 {
        assert(recent(failures, first, window) =~= Seq::<u64>::empty());
        assert(recent(failures, later, window) =~= Seq::<u64>::empty());
        assert(recent(Seq::<u64>::empty(), later, window) =~= Seq::<u64>::empty());
    } else {
        let init = failures.drop_last();
        let f = failures.last();
        assert(failures =~= init.push(f));
        assert forall|k: int| 0 <= k < init.len() implies #[trigger] init[k] <= first by {
            assert(init[k] == failures[k]);
        }
        lemma_recent_twice(init, first, later, window);
        init.lemma_filter_push(f, |g: u64| elapsed(first, g) < window);
        init.lemma_filter_push(f, |g: u64| elapsed(later, g) < window);
        if elapsed(first, f) < window {
            recent(init, first, window).lemma_filter_push(f, |g: u64| elapsed(later, g) < window);
        }
    }
}

/// A restart budget over a history. From a fresh start (a new machine, or a
/// manual restart), failure stops at times that never go backwards leave
/// counted exactly the last one and the earlier ones still inside the window
/// at its time; so the last stop gives up exactly when those reach
/// `max_failures`. Deliberate stops leave the count alone and do not enter
/// the history.
pub proof fn lemma_the_budget_counts_the_window(times: Seq<u64>, window: u64)
    requires
        times.len() > 0,
        never_earlier(times),
    ensures
        after_failures(Seq::empty(), times, window) == after_failure(times.drop_last(), times.last(), window),
    decreases times.len(),
{
    let init = times.drop_last();
    let now = times.last();
    if init.len() == 0 {
        assert(after_failures(Seq::empty(), init, window) == Seq::<u64>::empty());
        assert(recent(Seq::<u64>::empty(), now, window) =~= Seq::<u64>::empty());
        assert(recent(init, now, window) =~= Seq::<u64>::empty());
    } else {
        assert forall|i: int, j: int| 0 <= i <= j < init.len() implies init[i] <= init[j] by {
            assert(init[i] == times[i] && init[j] == times[j]);
        }
        lemma_the_budget_counts_the_window(init, window);
        let before = init.drop_last();
        let last = init.last();
        assert(last <= now);
        assert forall|k: int| 0 <= k < before.len() implies #[trigger] before[k] <= last by {
            assert(before[k] == times[k] && last == times[init.len() - 1]);
        }
        lemma_recent_twice(before, last, now, window);
        assert(init =~= before.push(last));
        before.lemma_filter_push(last, |g: u64| elapsed(now, g) < window);
        recent(before, last, window).lemma_filter_push(last, |g: u64| elapsed(now, g) < window);
    }
}

} // verus!
