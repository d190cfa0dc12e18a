//! The readiness controller: a state machine that decides, probe by probe,
//! whether to keep waiting for the backend, and which outcome ends the wait.
//!
//! The caller runs the loop: it asks for the next action, performs the probe,
//! reports the result, shows the status and waits as told.
use vstd::prelude::*;
use crate::config::RetryPolicy;
use crate::probe::ProbeResult;
use crate::status::{StatusBand, band_of, band_for_attempt};

verus! {

/// How a launch ends.
#[derive(Clone, Copy, Debug, PartialEq, Eq, Structural)]
pub enum LaunchOutcome {
    BackendReady,
    BackendFailed,
}

/// Where the controller stands.
#[derive(Clone, Copy, Debug, PartialEq, Eq, Structural)]
pub enum ControllerState {
    /// The given attempt (counted from 1) is the next probe to issue.
    Probing { attempt: u32 },
    /// A probe found the backend ready.
    Ready,
    /// Every allowed probe failed.
    Exhausted,
}

/// What the caller does next.
#[derive(Clone, Copy, Debug, PartialEq, Eq, Structural)]
pub enum ControllerAction {
    /// Issue one probe; its number is given for logging.
    Probe { attempt: u32 },
    /// The wait is over, with this outcome.
    Finish(LaunchOutcome),
}

/// What the caller does after a probe that did not find the backend ready.
#[derive(Clone, Copy, Debug, PartialEq, Eq, Structural)]
pub struct Pause {
    pub status: StatusBand,
    pub delay_ms: u64,
}

/// The state before the first probe.
pub open spec fn initial_state(policy: RetryPolicy) -> ControllerState {
    if policy.max_retries >= 1 {
        ControllerState::Probing { attempt: 1 }
    } else {
        ControllerState::Exhausted
    }
}

/// Whether the wait is over.
pub open spec fn is_terminal(s: ControllerState) -> bool {
    !(s is Probing)
}

/// The state after one probe, given whether it found the backend ready.
pub open spec fn next_state(policy: RetryPolicy, s: ControllerState, ready: bool) -> ControllerState {
    match s {
        ControllerState::Probing { attempt } => if ready {
            ControllerState::Ready
        } else if attempt >= policy.max_retries {
            ControllerState::Exhausted
        } else {
            ControllerState::Probing { attempt: (attempt + 1) as u32 }
        },
        _ => s,
    }
}

/// The pause that follows a probe: present only after a probe that was
/// issued and did not find the backend ready.
pub open spec fn pause_after(policy: RetryPolicy, s: ControllerState, ready: bool) -> Option<Pause> {
    match s {
        ControllerState::Probing { attempt } => if ready {
            None
        } else {
            Some(Pause { status: band_of(policy.bands, attempt), delay_ms: policy.retry_delay_ms })
        },
        _ => None,
    }
}

/// The action a state calls for.
pub open spec fn action_of(s: ControllerState) -> ControllerAction {
    match s {
        ControllerState::Probing { attempt } => ControllerAction::Probe { attempt },
        ControllerState::Ready => ControllerAction::Finish(LaunchOutcome::BackendReady),
        ControllerState::Exhausted => ControllerAction::Finish(LaunchOutcome::BackendFailed),
    }
}

/// The state after a run of probes whose results are given in order
/// (true: ready); results past the end of the wait are not consumed.
pub open spec fn run_from(policy: RetryPolicy, s: ControllerState, readies: Seq<bool>) -> ControllerState
    decreases readies.len(),
{
    if readies.len() == 0 || is_terminal(s) {
        s
    } else {
        run_from(policy, next_state(policy, s, readies[0]), readies.drop_first())
    }
}

/// How many probes a run issues.
pub open spec fn probes_issued(policy: RetryPolicy, s: ControllerState, readies: Seq<bool>) -> nat
    decreases readies.len(),
{
    if readies.len() == 0 || is_terminal(s) {
        0
    } else {
        1 + probes_issued(policy, next_state(policy, s, readies[0]), readies.drop_first())
    }
}

/// The total of the pauses a run asks for, in milliseconds.
pub open spec fn waited_ms(policy: RetryPolicy, s: ControllerState, readies: Seq<bool>) -> nat
    decreases readies.len(),
{
    if readies.len() == 0 || is_terminal(s) {
        0
    } else {
        (if readies[0] { 0 } else { policy.retry_delay_ms as nat })
            + waited_ms(policy, next_state(policy, s, readies[0]), readies.drop_first())
    }
}

/// The controller: its policy and its state.
pub struct ReadinessController {
    pub policy: RetryPolicy,
    pub state: ControllerState,
}

impl ReadinessController {
    /// A probing state's attempt lies in `1..=max_retries`.
    pub open spec fn wf(&self) -> bool {
        match self.state {
            ControllerState::Probing { attempt } => 1 <= attempt && attempt <= self.policy.max_retries,
            _ => true,
        }
    }

    /// A controller that has issued no probe yet.
    pub fn new(policy: RetryPolicy) -> (r: ReadinessController)
        ensures
            r.policy == policy,
            r.state == initial_state(policy),
            r.wf(),
    {
        let state = if policy.max_retries >= 1 {
            ControllerState::Probing { attempt: 1 }
        } else {
            ControllerState::Exhausted
        };
        ReadinessController { policy, state }
    }

    /// What the caller does next.
    pub fn next_action(&self) -> (r: ControllerAction)
        ensures
            r == action_of(self.state),
    {
        match self.state {
            ControllerState::Probing { attempt } => ControllerAction::Probe { attempt },
            ControllerState::Ready => ControllerAction::Finish(LaunchOutcome::BackendReady),
            ControllerState::Exhausted => ControllerAction::Finish(LaunchOutcome::BackendFailed),
        }
    }

    /// Takes the result of the probe just issued. A ready backend ends the
    /// wait; any other result asks for the attempt's status text and a pause,
    /// and the wait ends as exhausted after the last allowed attempt. Once the
    /// wait is over, results are ignored.
    pub fn on_probe_result(&mut self, result: &ProbeResult) -> (r: Option<Pause>)
        requires
            old(self).wf(),
        ensures
            final(self).wf(),
            final(self).policy == old(self).policy,
            final(self).state == next_state(old(self).policy, old(self).state, result.is_ready_spec()),
            r == pause_after(old(self).policy, old(self).state, result.is_ready_spec()),
    {
        match self.state {
            ControllerState::Probing { attempt } => {
                if result.is_ready() {
                    self.state = ControllerState::Ready;
                    None
                } else {
                    let status = band_for_attempt(&self.policy.bands, attempt);
                    if attempt >= self.policy.max_retries {
                        self.state = ControllerState::Exhausted;
                    } else {
                        self.state = ControllerState::Probing { attempt: attempt + 1 };
                    }
                    Some(Pause { status, delay_ms: self.policy.retry_delay_ms })
                }
            },
            _ => None,
        }
    }
}


proof fn lemma_terminal_is_fixed(policy: RetryPolicy, s: ControllerState, readies: Seq<bool>)
    requires
        is_terminal(s),
    ensures
        run_from(policy, s, readies) == s,
        probes_issued(policy, s, readies) == 0,
        waited_ms(policy, s, readies) == 0,
{
}

proof fn lemma_bounded_from(policy: RetryPolicy, attempt: u32, readies: Seq<bool>)
    requires
        1 <= attempt <= policy.max_retries,
    ensures
        probes_issued(policy, ControllerState::Probing { attempt }, readies)
            <= policy.max_retries - attempt + 1,
        waited_ms(policy, ControllerState::Probing { attempt }, readies)
            <= (policy.max_retries - attempt + 1) * policy.retry_delay_ms,
        readies.len() >= policy.max_retries - attempt + 1 ==> is_terminal(
            run_from(policy, ControllerState::Probing { attempt }, readies),
        ),
    decreases readies.len(),
{
    let s = ControllerState::Probing { attempt };
    if readies.len() > 0 {
        let next = next_state(policy, s, readies[0]);
        let rest = readies.drop_first();
        let d = policy.retry_delay_ms as int;
        let left = policy.max_retries - attempt;
        if readies[0] || attempt >= policy.max_retries {
            lemma_terminal_is_fixed(policy, next, rest);
            assert(d <= (left + 1) * d) by (nonlinear_arith)
                requires
                    0 <= d,
                    0 <= left,
            ;
        } else {
            lemma_bounded_from(policy, (attempt + 1) as u32, rest);
            assert((left + 1) * d == left * d + d) by (nonlinear_arith);
        }
    }
}

proof fn lemma_ready_from(policy: RetryPolicy, attempt: u32, readies: Seq<bool>, j: int)
    requires
        1 <= attempt,
        attempt + j <= policy.max_retries,
        0 <= j < readies.len(),
        readies[j],
        forall|i: int| 0 <= i < j ==> !readies[i],
    ensures
        run_from(policy, ControllerState::Probing { attempt }, readies) == ControllerState::Ready,
        probes_issued(policy, ControllerState::Probing { attempt }, readies) == j + 1,
    decreases j,
{
    let s = ControllerState::Probing { attempt };
    let next = next_state(policy, s, readies[0]);
    let rest = readies.drop_first();
    if j == 0 {
        lemma_terminal_is_fixed(policy, next, rest);
    } else {
        assert(!readies[0]);
        assert forall|i: int| 0 <= i < j - 1 implies !rest[i] by {
            assert(rest[i] == readies[i + 1]);
        }
        lemma_ready_from(policy, (attempt + 1) as u32, rest, j - 1);
    }
}

proof fn lemma_exhausted_from(policy: RetryPolicy, attempt: u32, readies: Seq<bool>)
    requires
        1 <= attempt <= policy.max_retries,
        readies.len() >= policy.max_retries - attempt + 1,
        forall|i: int| 0 <= i <= policy.max_retries - attempt ==> !readies[i],
    ensures
        run_from(policy, ControllerState::Probing { attempt }, readies) == ControllerState::Exhausted,
        probes_issued(policy, ControllerState::Probing { attempt }, readies)
            == policy.max_retries - attempt + 1,
    decreases readies.len(),
{
    let s = ControllerState::Probing { attempt };
    let next = next_state(policy, s, readies[0]);
    let rest = readies.drop_first();
    assert(!readies[0]);
    if attempt >= policy.max_retries {
        lemma_terminal_is_fixed(policy, next, rest);
    } else {
        assert forall|i: int| 0 <= i <= policy.max_retries - (attempt + 1) implies !rest[i] by {
            assert(rest[i] == readies[i + 1]);
        }
        lemma_exhausted_from(policy, (attempt + 1) as u32, rest);
    }
}

/// The wait always ends: whatever the probes find, at most `max_retries`
/// probes are issued, and after that many results the controller has reached
/// a final state.
pub proof fn lemma_wait_is_bounded(policy: RetryPolicy, readies: Seq<bool>)
    ensures
        probes_issued(policy, initial_state(policy), readies) <= policy.max_retries,
        readies.len() >= policy.max_retries ==> is_terminal(
            run_from(policy, initial_state(policy), readies),
        ),
{
    if policy.max_retries >= 1 {
        lemma_bounded_from(policy, 1, readies);
    } else {
        lemma_terminal_is_fixed(policy, initial_state(policy), readies);
    }
}

/// When the first probe to find the backend ready is attempt `k`, with `k` at
/// most `max_retries`, the wait ends ready after exactly `k` probes: attempt
/// `k + 1` is never issued.
pub proof fn lemma_stops_at_first_ready(policy: RetryPolicy, readies: Seq<bool>, k: int)
    requires
        1 <= k <= policy.max_retries,
        k <= readies.len(),
        readies[k - 1],
        forall|i: int| 0 <= i < k - 1 ==> !readies[i],
    ensures
        run_from(policy, initial_state(policy), readies) == ControllerState::Ready,
        action_of(run_from(policy, initial_state(policy), readies))
            == ControllerAction::Finish(LaunchOutcome::BackendReady),
        probes_issued(policy, initial_state(policy), readies) == k,
{
    lemma_ready_from(policy, 1, readies, k - 1);
}

/// When no probe through attempt `max_retries` finds the backend ready, the
/// controller ends exhausted, with the failure outcome, after exactly
/// `max_retries` probes; its state no longer changes, so the failure is
/// reported once.
pub proof fn lemma_exhausted_after_every_failure(policy: RetryPolicy, readies: Seq<bool>)
    requires
        readies.len() >= policy.max_retries,
        forall|i: int| 0 <= i < policy.max_retries ==> !readies[i],
    ensures
        run_from(policy, initial_state(policy), readies) == ControllerState::Exhausted,
        action_of(run_from(policy, initial_state(policy), readies))
            == ControllerAction::Finish(LaunchOutcome::BackendFailed),
        probes_issued(policy, initial_state(policy), readies) == policy.max_retries,
        forall|ready: bool|
            next_state(policy, ControllerState::Exhausted, ready) == ControllerState::Exhausted,
{
    if policy.max_retries >= 1 {
        lemma_exhausted_from(policy, 1, readies);
    } else {
        lemma_terminal_is_fixed(policy, initial_state(policy), readies);
    }
}

/// The pauses the controller asks for add up to at most
/// `max_retries * retry_delay_ms`, whatever the probes find.
pub proof fn lemma_total_wait_within_bound(policy: RetryPolicy, readies: Seq<bool>)
    ensures
        waited_ms(policy, initial_state(policy), readies) <= policy.worst_case_wait_ms(),
{
    if policy.max_retries >= 1 {
        lemma_bounded_from(policy, 1, readies);
    } else {
        lemma_terminal_is_fixed(policy, initial_state(policy), readies);
    }
}

} // verus!
