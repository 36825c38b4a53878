//! The liveness state machine: three states, one boolean observation per
//! poll, and a one-cycle grace period before a terminate decision.

use vstd::prelude::*;

verus! {

/// Liveness judgement for the tracked process name.
///
/// `Closed` is the initial state. A window sighting always yields `Running`;
/// a first miss while `Running` yields `Suspect`; a second consecutive miss
/// yields `Closed` together with the terminate action.
#[derive(Clone, Copy, Debug, PartialEq, Eq, Structural)]
pub enum LivenessState {
    Running,
    Suspect,
    Closed,
}

/// What a transition asks the caller to do: nothing, or terminate the
/// tracked process.
#[derive(Clone, Copy, Debug, PartialEq, Eq, Structural)]
pub enum Action {
    Wait,
    Terminate,
}

/// The state reached from `s` when a poll observed a window (`has_window`)
/// or did not, for a cycle in which a matching process exists.
pub open spec fn spec_next_state(s: LivenessState, has_window: bool) -> LivenessState {
    if has_window {
        LivenessState::Running
    } else {
        match s {
            LivenessState::Running => LivenessState::Suspect,
            LivenessState::Suspect => LivenessState::Closed,
            LivenessState::Closed => LivenessState::Running,
        }
    }
}

/// The action that accompanies the transition from `s` under `has_window`:
/// terminate exactly when a miss follows a miss.
pub open spec fn spec_next_action(s: LivenessState, has_window: bool) -> Action {
    if !has_window && s is Suspect {
        Action::Terminate
    } else {
        Action::Wait
    }
}

/// One step of the state machine for a cycle that found a matching process.
pub fn next(s: LivenessState, has_window: bool) -> (r: (LivenessState, Action))
    ensures
        r.0 == spec_next_state(s, has_window),
        r.1 == spec_next_action(s, has_window),
{
    if has_window {
        (LivenessState::Running, Action::Wait)
    } else {
        match s {
            LivenessState::Running => (LivenessState::Suspect, Action::Wait),
            LivenessState::Suspect => (LivenessState::Closed, Action::Terminate),
            LivenessState::Closed => (LivenessState::Running, Action::Wait),
        }
    }
}

/// What one poll cycle saw: no process matched the tracked name at all, or
/// the first matching process was inspected and did or did not show a
/// top-level window.
#[derive(Clone, Copy, Debug, PartialEq, Eq, Structural)]
pub enum Observation {
    NoMatch,
    Matched { has_window: bool },
}

/// The state after a whole cycle: a cycle with no matching process forces
/// `Closed`, a cycle with a match steps the machine.
pub open spec fn spec_cycle_state(s: LivenessState, obs: Observation) -> LivenessState {
    match obs {
        Observation::NoMatch => LivenessState::Closed,
        Observation::Matched { has_window } => spec_next_state(s, has_window),
    }
}

/// The action a whole cycle decides on: never anything without a match.
pub open spec fn spec_cycle_action(s: LivenessState, obs: Observation) -> Action {
    match obs {
        Observation::NoMatch => Action::Wait,
        Observation::Matched { has_window } => spec_next_action(s, has_window),
    }
}

/// One whole cycle of the driver, without dry-run handling.
pub fn cycle_step(s: LivenessState, obs: Observation) -> (r: (LivenessState, Action))
    ensures
        r.0 == spec_cycle_state(s, obs),
        r.1 == spec_cycle_action(s, obs),
{
    match obs {
        Observation::NoMatch => (LivenessState::Closed, Action::Wait),
        Observation::Matched { has_window } => next(s, has_window),
    }
}

/// Everything one cycle settles: the next state, the decision the machine
/// reached, and whether the terminate operation is actually to be invoked
/// (it never is under dry run, though the decision stays visible).
#[derive(Clone, Copy, Debug, PartialEq, Eq, Structural)]
pub struct CycleVerdict {
    pub next_state: LivenessState,
    pub decision: Action,
    pub execute_terminate: bool,
}

/// The verdict a cycle must reach from state `s`, observation `obs` and the
/// dry-run flag.
pub open spec fn spec_verdict(s: LivenessState, obs: Observation, dry_run: bool) -> CycleVerdict {
    CycleVerdict {
        next_state: spec_cycle_state(s, obs),
        decision: spec_cycle_action(s, obs),
        execute_terminate: spec_cycle_action(s, obs) is Terminate && !dry_run,
    }
}

/// One whole cycle of the driver, dry-run handling included.
pub fn evaluate_cycle(s: LivenessState, obs: Observation, dry_run: bool) -> (v: CycleVerdict)
    ensures
        v == spec_verdict(s, obs, dry_run),
{
    let (next_state, decision) = cycle_step(s, obs);
    CycleVerdict {
        next_state,
        decision,
        execute_terminate: matches!(decision, Action::Terminate) && !dry_run,
    }
}

/// Seconds between polls when nothing else is configured.
pub const DEFAULT_POLL_SECONDS: u64 = 120;

/// Seconds between polls in diagnostic (verbose) mode.
pub const DIAGNOSTIC_POLL_SECONDS: u64 = 1;

/// Seconds the loop sleeps between cycles: an explicit override wins;
/// otherwise the short diagnostic interval under verbosity, else the
/// default.
pub fn poll_interval(verbose_level: u8, override_seconds: Option<u64>) -> (secs: u64)
    ensures
        override_seconds matches Some(s) ==> secs == s,
        override_seconds is None && verbose_level > 0 ==> secs == DIAGNOSTIC_POLL_SECONDS,
        override_seconds is None && verbose_level == 0 ==> secs == DEFAULT_POLL_SECONDS,
{
    match override_seconds {
        Some(s) => s,
        None => {
            if verbose_level > 0 {
                DIAGNOSTIC_POLL_SECONDS
            } else {
                DEFAULT_POLL_SECONDS
            }
        },
    }
}

/// The state reached by running the machine over a whole sequence of
/// window observations, front first.
pub open spec fn spec_run(s: LivenessState, obs: Seq<bool>) -> LivenessState
    decreases obs.len(),
{
    if obs.len() == 0 {
        s
    } else {
        spec_run(spec_next_state(s, obs[0]), obs.drop_first())
    }
}

/// Law: over every sequence of window observations the machine stays within
/// its three named states; no run reaches anything else.
pub proof fn lemma_states_always_named(s: LivenessState, obs: Seq<bool>)
    ensures
        spec_run(s, obs) is Running || spec_run(s, obs) is Suspect || spec_run(s, obs) is Closed,
{
}

/// Law: with nothing to watch the driver is idempotent at `Closed`: a
/// no-match cycle from `Closed` stays `Closed` and decides on no action.
pub proof fn lemma_no_match_idempotent_at_closed()
    ensures
        spec_cycle_state(LivenessState::Closed, Observation::NoMatch) == LivenessState::Closed,
        spec_cycle_action(LivenessState::Closed, Observation::NoMatch) == Action::Wait,
{
}

/// Law: two consecutive misses from `Running` yield exactly one terminate
/// action — none at the first miss, one at the second — and end in `Closed`.
pub proof fn lemma_double_miss_terminates_once()
    ensures
        spec_next_state(LivenessState::Running, false) == LivenessState::Suspect,
        spec_next_action(LivenessState::Running, false) == Action::Wait,
        spec_next_state(LivenessState::Suspect, false) == LivenessState::Closed,
        spec_next_action(LivenessState::Suspect, false) == Action::Terminate,
{
}

/// Law: a single miss followed by a sighting never terminates: the machine
/// passes through `Suspect` and returns to `Running` with no action either
/// time.
pub proof fn lemma_miss_then_hit_never_terminates()
    ensures
        spec_next_state(LivenessState::Running, false) == LivenessState::Suspect,
        spec_next_action(LivenessState::Running, false) == Action::Wait,
        spec_next_state(LivenessState::Suspect, true) == LivenessState::Running,
        spec_next_action(LivenessState::Suspect, true) == Action::Wait,
{
}

/// Law: a cycle in which no process matches the tracked name resets every
/// state to `Closed` and decides on no action.
pub proof fn lemma_no_match_resets(s: LivenessState)
    ensures
        spec_cycle_state(s, Observation::NoMatch) == LivenessState::Closed,
        spec_cycle_action(s, Observation::NoMatch) == Action::Wait,
{
}

/// Law: under dry run the terminate operation is never invoked, whatever the
/// state and observation, while the terminate decision itself stays
/// observable in the verdict.
pub proof fn lemma_dry_run_suppresses_execution(s: LivenessState, obs: Observation)
    ensures
        !spec_verdict(s, obs, true).execute_terminate,
        spec_verdict(s, obs, true).decision == spec_cycle_action(s, obs),
{
}

} // verus!
