//! The gameflow state machine. It consumes one phase observation at a
//! time — from polling or from an event stream, the producer makes no
//! difference — and decides which side effect is due. Side effects are
//! guarded so each fires at most once per triggering occasion: once per
//! ready-check prompt, once per champion-select match.
//!
//! The machine reacts only to transitions. An observation equal to the
//! last recorded phase is a no-op, so duplicate polls never re-fire an
//! effect. The per-prompt accept flag falls whenever the phase moves off
//! `ReadyCheck`; the per-match link key falls when the phase returns to
//! `None` or `Lobby`.

use vstd::prelude::*;
use crate::config::{accept_wait, accept_wait_ms, Config};
use crate::credentials::opt_str_view;
use crate::lobby::Lobby;
use crate::phase::{parse_phase, phase_of, GameflowPhase};
use crate::strutil::str_eq;

verus! {

/// What the caller must do after an observation. The machine itself
/// performs no I/O: it hands the decision out.
#[derive(Clone, Copy, PartialEq, Eq, Structural, Debug)]
pub enum Action {
    /// Nothing is due.
    DoNothing,
    /// Wait the given milliseconds, then issue the accept call.
    AcceptReadyCheck { wait_ms: u64 },
    /// Wait the settle delay, fetch team, region and session, then ask
    /// `decide_team_link` whether to open the link.
    PrepareTeamLink,
}

/// The settle delay before champion-select data is fetched, in
/// milliseconds: the remote client needs a moment to populate the chat
/// room after the phase flips.
pub const CHAMP_SELECT_SETTLE_MS: u64 = 5000;

/// Per-session machine state: the last recorded phase and the two
/// idempotency guards. One value lives per connection and dies with it.
pub struct MachineState {
    pub last_phase: Option<String>,
    pub ready_check_accepted: bool,
    pub last_handled_game_id: Option<u64>,
}

/// The ghost image of the machine state.
pub struct MachineModel {
    pub last_phase: Option<Seq<char>>,
    pub ready_check_accepted: bool,
    pub last_handled_game_id: Option<u64>,
}

impl View for MachineState {
    type V = MachineModel;

    open spec fn view(&self) -> MachineModel {
        MachineModel {
            last_phase: opt_str_view(self.last_phase),
            ready_check_accepted: self.ready_check_accepted,
            last_handled_game_id: self.last_handled_game_id,
        }
    }
}

/// The state a fresh session starts from: no phase seen, nothing handled.
pub open spec fn initial_model() -> MachineModel {
    MachineModel { last_phase: None, ready_check_accepted: false, last_handled_game_id: None }
}

/// One transition of the machine: the new state and the action due.
pub open spec fn spec_step(
    m: MachineModel,
    input: Seq<char>,
    auto_accept: bool,
    accept_delay: u32,
) -> (MachineModel, Action) {
    if m.last_phase == Some(input) {
        (m, Action::DoNothing)
    } else {
        let p = phase_of(input);
        if p == GameflowPhase::ReadyCheck {
            if auto_accept && !m.ready_check_accepted {
                (
                    MachineModel {
                        last_phase: Some(input),
                        ready_check_accepted: true,
                        last_handled_game_id: m.last_handled_game_id,
                    },
                    Action::AcceptReadyCheck { wait_ms: accept_wait(accept_delay) },
                )
            } else {
                (
                    MachineModel {
                        last_phase: Some(input),
                        ready_check_accepted: m.ready_check_accepted,
                        last_handled_game_id: m.last_handled_game_id,
                    },
                    Action::DoNothing,
                )
            }
        } else {
            let gid = if p == GameflowPhase::NoPhase || p == GameflowPhase::Lobby {
                None
            } else {
                m.last_handled_game_id
            };
            let m2 = MachineModel {
                last_phase: Some(input),
                ready_check_accepted: false,
                last_handled_game_id: gid,
            };
            if p == GameflowPhase::ChampSelect {
                (m2, Action::PrepareTeamLink)
            } else {
                (m2, Action::DoNothing)
            }
        }
    }
}

/// The champion-select follow-up decision: open the link only for a
/// non-empty team that this match has not already been handled for, and
/// remember the match when a game id is known.
pub open spec fn spec_team_decision(
    m: MachineModel,
    auto_open: bool,
    team_len: nat,
    game_id: Option<u64>,
) -> (MachineModel, bool) {
    if !auto_open || team_len == 0 {
        (m, false)
    } else {
        match game_id {
            Some(g) => if m.last_handled_game_id == Some(g) {
                (m, false)
            } else {
                (
                    MachineModel {
                        last_phase: m.last_phase,
                        ready_check_accepted: m.ready_check_accepted,
                        last_handled_game_id: Some(g),
                    },
                    true,
                )
            },
            None => if m.last_handled_game_id is None {
                (m, true)
            } else {
                (m, false)
            },
        }
    }
}

impl MachineState {
    /// A fresh machine, as the supervisor makes one per connection.
    pub fn new() -> (s: Self)
        ensures
            s@ == initial_model(),
    {
        MachineState { last_phase: None, ready_check_accepted: false, last_handled_game_id: None }
    }

    /// Feeds one phase observation in and returns the action due.
    pub fn observe(&mut self, raw: String, cfg: &Config) -> (a: Action)
        ensures
            ({
                let (m2, act) = spec_step(old(self)@, raw@, cfg.auto_accept, cfg.accept_delay);
                final(self)@ == m2 && a == act
            }),
    {
        let dup = match &self.last_phase {
            Some(lp) => str_eq(lp.as_str(), raw.as_str()),
            None => false,
        };
        if dup {
            return Action::DoNothing;
        }
        let p = parse_phase(raw.as_str());
        self.last_phase = Some(raw);
        match p {
            GameflowPhase::ReadyCheck => {
                if cfg.auto_accept && !self.ready_check_accepted {
                    self.ready_check_accepted = true;
                    Action::AcceptReadyCheck { wait_ms: accept_wait_ms(cfg.accept_delay) }
                } else {
                    Action::DoNothing
                }
            },
            GameflowPhase::ChampSelect => {
                self.ready_check_accepted = false;
                Action::PrepareTeamLink
            },
            GameflowPhase::NoPhase | GameflowPhase::Lobby => {
                self.ready_check_accepted = false;
                self.last_handled_game_id = None;
                Action::DoNothing
            },
            _ => {
                self.ready_check_accepted = false;
                Action::DoNothing
            },
        }
    }

    /// Decides the open-link effect once the champion-select data is in:
    /// `team` is the champion-select subsequence, `game_id` the session's
    /// match key where one could be fetched.
    pub fn decide_team_link(&mut self, cfg: &Config, team: &Lobby, game_id: Option<u64>) -> (open:
        bool)
        ensures
            ({
                let (m2, o) = spec_team_decision(old(self)@, cfg.auto_open, team@.len(), game_id);
                final(self)@ == m2 && open == o
            }),
    {
        if !cfg.auto_open || team.participants.len() == 0 {
            return false;
        }
        match game_id {
            Some(g) => {
                let seen = match self.last_handled_game_id {
                    Some(h) => h == g,
                    None => false,
                };
                if seen {
                    false
                } else {
                    self.last_handled_game_id = Some(g);
                    true
                }
            },
            None => {
                match self.last_handled_game_id {
                    Some(_) => false,
                    None => true,
                }
            },
        }
    }
}

} // verus!
