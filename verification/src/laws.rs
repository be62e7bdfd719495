//! The machine's guarantees over whole observation sequences, proved
//! from `spec_step` alone: duplicate suppression, at-most-once accepts
//! per ready-check run, re-arming after the phase leaves, the empty-team
//! short-circuit, and the fresh start after a reconnect.

use vstd::prelude::*;
use crate::machine::{initial_model, spec_step, spec_team_decision, Action, MachineModel};
use crate::phase::{phase_of, GameflowPhase};

verus! {

/// The machine's state after `t` observations of `inputs`, starting
/// from `m0`.
pub open spec fn state_at(
    m0: MachineModel,
    inputs: Seq<Seq<char>>,
    auto_accept: bool,
    accept_delay: u32,
    t: int,
) -> MachineModel
    decreases t,
{
    if t <= 0 {
        m0
    } else {
        spec_step(state_at(m0, inputs, auto_accept, accept_delay, t - 1), inputs[t - 1],
            auto_accept, accept_delay).0
    }
}

/// The action the machine emits for observation `t`.
pub open spec fn action_at(
    m0: MachineModel,
    inputs: Seq<Seq<char>>,
    auto_accept: bool,
    accept_delay: u32,
    t: int,
) -> Action {
    spec_step(state_at(m0, inputs, auto_accept, accept_delay, t), inputs[t], auto_accept,
        accept_delay).1
}

/// The accept guard is up: the prompt was answered and the recorded
/// phase still reads `ReadyCheck`.
pub open spec fn accept_armed(m: MachineModel) -> bool {
    m.ready_check_accepted && match m.last_phase {
        Some(l) => phase_of(l) == GameflowPhase::ReadyCheck,
        None => false,
    }
}

/// The guard never stands without a recorded `ReadyCheck` phase. Every
/// reachable state keeps this, and a fresh machine starts inside it.
pub open spec fn guard_inv(m: MachineModel) -> bool {
    m.ready_check_accepted ==> accept_armed(m)
}

/// An armed machine stays armed through further `ReadyCheck`
/// observations and fires no second accept for them.
proof fn lemma_step_keeps_armed(m: MachineModel, input: Seq<char>, aa: bool, ad: u32)
    requires
        accept_armed(m),
        phase_of(input) == GameflowPhase::ReadyCheck,
    ensures
        accept_armed(spec_step(m, input, aa, ad).0),
        !(spec_step(m, input, aa, ad).1 is AcceptReadyCheck),
{
}

/// A step that emits an accept leaves the machine armed, and only a
/// `ReadyCheck` observation can have emitted it.
proof fn lemma_accept_post(m: MachineModel, input: Seq<char>, aa: bool, ad: u32)
    requires
        spec_step(m, input, aa, ad).1 is AcceptReadyCheck,
    ensures
        accept_armed(spec_step(m, input, aa, ad).0),
        phase_of(input) == GameflowPhase::ReadyCheck,
{
}

proof fn lemma_armed_interval(
    m0: MachineModel,
    inputs: Seq<Seq<char>>,
    aa: bool,
    ad: u32,
    i: int,
    j: int,
)
    requires
        0 <= i <= j <= inputs.len(),
        accept_armed(state_at(m0, inputs, aa, ad, i)),
        forall|k: int| i <= k < j ==> phase_of(#[trigger] inputs[k]) == GameflowPhase::ReadyCheck,
    ensures
        accept_armed(state_at(m0, inputs, aa, ad, j)),
    decreases j - i,
{
    if i < j {
        lemma_step_keeps_armed(state_at(m0, inputs, aa, ad, i), inputs[i], aa, ad);
        lemma_armed_interval(m0, inputs, aa, ad, i + 1, j);
    }
}

/// At most one accept per maximal run of consecutive `ReadyCheck`
/// observations: between any two accept actions some observation read a
/// phase other than `ReadyCheck`.
pub proof fn law_accept_once_per_ready_check_run(
    m0: MachineModel,
    inputs: Seq<Seq<char>>,
    aa: bool,
    ad: u32,
    i: int,
    j: int,
)
    requires
        0 <= i < j < inputs.len(),
        action_at(m0, inputs, aa, ad, i) is AcceptReadyCheck,
        action_at(m0, inputs, aa, ad, j) is AcceptReadyCheck,
    ensures
        exists|k: int|
            i < k < j && phase_of(#[trigger] inputs[k]) != GameflowPhase::ReadyCheck,
{
    if !(exists|k: int| i < k < j && phase_of(#[trigger] inputs[k])
        != GameflowPhase::ReadyCheck) {
        assert(forall|k: int| i < k < j ==> phase_of(#[trigger] inputs[k])
            == GameflowPhase::ReadyCheck);
        lemma_accept_post(state_at(m0, inputs, aa, ad, i), inputs[i], aa, ad);
        assert(state_at(m0, inputs, aa, ad, i + 1) == spec_step(state_at(m0, inputs, aa, ad, i),
            inputs[i], aa, ad).0);
        lemma_armed_interval(m0, inputs, aa, ad, i + 1, j);
        lemma_accept_post(state_at(m0, inputs, aa, ad, j), inputs[j], aa, ad);
        lemma_step_keeps_armed(state_at(m0, inputs, aa, ad, j), inputs[j], aa, ad);
        assert(false);
    }
}

/// One step preserves the guard invariant.
proof fn lemma_step_keeps_inv(m: MachineModel, input: Seq<char>, aa: bool, ad: u32)
    requires
        guard_inv(m),
    ensures
        guard_inv(spec_step(m, input, aa, ad).0),
{
}

/// The guard invariant holds at every point of every run.
pub proof fn lemma_inv_at(m0: MachineModel, inputs: Seq<Seq<char>>, aa: bool, ad: u32, t: int)
    requires
        guard_inv(m0),
        0 <= t <= inputs.len(),
    ensures
        guard_inv(state_at(m0, inputs, aa, ad, t)),
    decreases t,
{
    if t > 0 {
        lemma_inv_at(m0, inputs, aa, ad, t - 1);
        lemma_step_keeps_inv(state_at(m0, inputs, aa, ad, t - 1), inputs[t - 1], aa, ad);
    }
}

/// While the observed phases stay off `ReadyCheck`, the guard stays
/// down and the recorded phase stays off `ReadyCheck`.
proof fn lemma_disarmed_interval(
    m0: MachineModel,
    inputs: Seq<Seq<char>>,
    aa: bool,
    ad: u32,
    i: int,
    j: int,
)
    requires
        0 <= i < j <= inputs.len(),
        guard_inv(state_at(m0, inputs, aa, ad, i)),
        forall|k: int| i <= k < j ==> phase_of(#[trigger] inputs[k]) != GameflowPhase::ReadyCheck,
    ensures
        !state_at(m0, inputs, aa, ad, j).ready_check_accepted,
        state_at(m0, inputs, aa, ad, j).last_phase == Some(inputs[j - 1]),
    decreases j - i,
{
    if i + 1 < j {
        lemma_step_keeps_inv(state_at(m0, inputs, aa, ad, i), inputs[i], aa, ad);
        lemma_disarmed_interval(m0, inputs, aa, ad, i + 1, j);
    }
}

/// Leaving `ReadyCheck` re-arms the accept: after any observation off
/// that phase, the next observation that reads `ReadyCheck` fires the
/// accept again, provided auto-accept is on.
pub proof fn law_accept_rearms_after_leaving(
    m0: MachineModel,
    inputs: Seq<Seq<char>>,
    aa: bool,
    ad: u32,
    k: int,
    j: int,
)
    requires
        guard_inv(m0),
        aa,
        0 <= k < j < inputs.len(),
        forall|t: int| k <= t < j ==> phase_of(#[trigger] inputs[t]) != GameflowPhase::ReadyCheck,
        phase_of(inputs[j]) == GameflowPhase::ReadyCheck,
    ensures
        action_at(m0, inputs, aa, ad, j) is AcceptReadyCheck,
{
    lemma_inv_at(m0, inputs, aa, ad, k);
    lemma_disarmed_interval(m0, inputs, aa, ad, k, j);
    assert(state_at(m0, inputs, aa, ad, j).last_phase != Some(inputs[j]));
}

/// A duplicate observation is a no-op: same state back, no action.
pub proof fn law_duplicate_observation_is_noop(
    m: MachineModel,
    input: Seq<char>,
    aa: bool,
    ad: u32,
)
    requires
        m.last_phase == Some(input),
    ensures
        spec_step(m, input, aa, ad).0 == m,
        spec_step(m, input, aa, ad).1 == Action::DoNothing,
{
}

/// In a run, an observation equal to its predecessor adds no action and
/// leaves the state where it was.
pub proof fn law_repeated_input_adds_nothing(
    m0: MachineModel,
    inputs: Seq<Seq<char>>,
    aa: bool,
    ad: u32,
    t: int,
)
    requires
        1 <= t < inputs.len(),
        inputs[t] == inputs[t - 1],
    ensures
        action_at(m0, inputs, aa, ad, t) == Action::DoNothing,
        state_at(m0, inputs, aa, ad, t + 1) == state_at(m0, inputs, aa, ad, t),
{
    assert(state_at(m0, inputs, aa, ad, t) == spec_step(state_at(m0, inputs, aa, ad, t - 1),
        inputs[t - 1], aa, ad).0);
}

/// The open-link effect never fires for an empty champion-select team,
/// and an empty team marks nothing as handled.
pub proof fn law_no_link_for_empty_team(m: MachineModel, auto_open: bool, game_id: Option<u64>)
    ensures
        spec_team_decision(m, auto_open, 0, game_id).0 == m,
        !spec_team_decision(m, auto_open, 0, game_id).1,
{
}

/// One opening per match: once a game id is recorded, the same id never
/// opens again, whatever the team looks like by then.
pub proof fn law_same_game_opens_once(
    m: MachineModel,
    auto_open: bool,
    team_len1: nat,
    team_len2: nat,
    g: u64,
)
    ensures
        !spec_team_decision(
            spec_team_decision(m, auto_open, team_len1, Some(g)).0,
            auto_open,
            team_len2,
            Some(g),
        ).1 || !spec_team_decision(m, auto_open, team_len1, Some(g)).1,
{
}

/// After a reconnect the machine starts blank: the first observation is
/// never taken for a duplicate, whatever phase was recorded before the
/// connection fell.
pub proof fn law_fresh_start_records_first_observation(input: Seq<char>, aa: bool, ad: u32)
    ensures
        spec_step(initial_model(), input, aa, ad).0.last_phase == Some(input),
        phase_of(input) == GameflowPhase::ReadyCheck && aa ==> spec_step(
            initial_model(),
            input,
            aa,
            ad,
        ).1 is AcceptReadyCheck,
{
}

} // verus!
