//! The gameflow phase: the client's high-level match-state label, received
//! as a JSON string. The set of recognized variants is closed; anything
//! else is carried as an unrecognized phase that triggers no side effect.

use vstd::prelude::*;
use crate::strutil::{remove_char, str_eq, strip_char};

verus! {

#[derive(Clone, Copy, PartialEq, Eq, Structural, Debug)]
pub enum GameflowPhase {
    NoPhase,
    Lobby,
    Matchmaking,
    ReadyCheck,
    ChampSelect,
    InProgress,
    WaitingForStats,
    PreEndOfGame,
    EndOfGame,
    Unrecognized,
}

/// The phase a raw label denotes, checked against the closed set of
/// recognized variants in a fixed order.
pub open spec fn phase_of(s: Seq<char>) -> GameflowPhase {
    if s == "None"@ {
        GameflowPhase::NoPhase
    } else if s == "Lobby"@ {
        GameflowPhase::Lobby
    } else if s == "Matchmaking"@ {
        GameflowPhase::Matchmaking
    } else if s == "ReadyCheck"@ {
        GameflowPhase::ReadyCheck
    } else if s == "ChampSelect"@ {
        GameflowPhase::ChampSelect
    } else if s == "InProgress"@ {
        GameflowPhase::InProgress
    } else if s == "WaitingForStats"@ {
        GameflowPhase::WaitingForStats
    } else if s == "PreEndOfGame"@ {
        GameflowPhase::PreEndOfGame
    } else if s == "EndOfGame"@ {
        GameflowPhase::EndOfGame
    } else {
        GameflowPhase::Unrecognized
    }
}

/// Maps a raw phase label to its recognized variant.
pub fn parse_phase(s: &str) -> (p: GameflowPhase)
    ensures
        p == phase_of(s@),
{
    if str_eq(s, "None") {
        GameflowPhase::NoPhase
    } else if str_eq(s, "Lobby") {
        GameflowPhase::Lobby
    } else if str_eq(s, "Matchmaking") {
        GameflowPhase::Matchmaking
    } else if str_eq(s, "ReadyCheck") {
        GameflowPhase::ReadyCheck
    } else if str_eq(s, "ChampSelect") {
        GameflowPhase::ChampSelect
    } else if str_eq(s, "InProgress") {
        GameflowPhase::InProgress
    } else if str_eq(s, "WaitingForStats") {
        GameflowPhase::WaitingForStats
    } else if str_eq(s, "PreEndOfGame") {
        GameflowPhase::PreEndOfGame
    } else if str_eq(s, "EndOfGame") {
        GameflowPhase::EndOfGame
    } else {
        GameflowPhase::Unrecognized
    }
}

/// What an event-stream message is about, read off its subscription
/// topic.
#[derive(Clone, Copy, PartialEq, Eq, Structural, Debug)]
pub enum EventKind {
    GameflowUpdate,
    ChampSelectUpdate,
    Unhandled,
}

/// The kind a topic string denotes.
pub open spec fn event_kind_of(topic: Seq<char>) -> EventKind {
    if topic == "OnJsonApiEvent_lol-gameflow_v1_gameflow-phase"@ {
        EventKind::GameflowUpdate
    } else if topic == "OnJsonApiEvent_lol-champ-select_v1_session"@ {
        EventKind::ChampSelectUpdate
    } else {
        EventKind::Unhandled
    }
}

/// Sorts an event-stream message by its topic: the gameflow phase feed,
/// the champion-select session feed, or something this system ignores.
pub fn classify_event(topic: &str) -> (k: EventKind)
    ensures
        k == event_kind_of(topic@),
{
    if str_eq(topic, "OnJsonApiEvent_lol-gameflow_v1_gameflow-phase") {
        EventKind::GameflowUpdate
    } else if str_eq(topic, "OnJsonApiEvent_lol-champ-select_v1_session") {
        EventKind::ChampSelectUpdate
    } else {
        EventKind::Unhandled
    }
}

/// The phase label as the transport hands it over: a JSON-encoded string,
/// with its double quotes still in place.
pub open spec fn cleaned_phase(raw: Seq<char>) -> Seq<char> {
    remove_char(raw, '"')
}

/// Strips the JSON quoting from a raw phase response.
pub fn clean_phase_label(raw: &str) -> (r: String)
    ensures
        r@ == cleaned_phase(raw@),
{
    strip_char(raw, '"')
}

} // verus!
