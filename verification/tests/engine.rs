use lcu_session::config::{accept_wait_ms, Config};
use lcu_session::lobby::{Lobby, Participant};
use lcu_session::machine::{Action, MachineState};
use lcu_session::supervisor::{classify_status, supervisor_reaction, FailureKind, Reaction};

fn participant(cid: &str, game_name: &str, game_tag: &str, name: &str) -> Participant {
    Participant {
        cid: cid.to_string(),
        game_name: game_name.to_string(),
        game_tag: game_tag.to_string(),
        muted: false,
        name: name.to_string(),
        pid: "pid".to_string(),
        puuid: "puuid".to_string(),
        region: "EUW".to_string(),
    }
}

fn team_of(names: &[(&str, &str)]) -> Lobby {
    Lobby {
        participants: names
            .iter()
            .map(|(n, t)| participant("champ-select-room", n, t, n))
            .collect(),
    }
}

#[test]
fn ready_check_accept_fires_once_per_prompt() {
    let cfg = Config::default();
    let mut m = MachineState::new();
    assert_eq!(
        m.observe("ReadyCheck".to_string(), &cfg),
        Action::AcceptReadyCheck { wait_ms: 1000 }
    );
    // Polling the same prompt again must stay quiet.
    assert_eq!(m.observe("ReadyCheck".to_string(), &cfg), Action::DoNothing);
    assert_eq!(m.observe("ReadyCheck".to_string(), &cfg), Action::DoNothing);
    // Leaving and re-entering re-arms exactly one more accept.
    assert_eq!(m.observe("Matchmaking".to_string(), &cfg), Action::DoNothing);
    assert_eq!(
        m.observe("ReadyCheck".to_string(), &cfg),
        Action::AcceptReadyCheck { wait_ms: 1000 }
    );
    assert_eq!(m.observe("ReadyCheck".to_string(), &cfg), Action::DoNothing);
}

#[test]
fn ready_check_respects_auto_accept_flag() {
    let mut cfg = Config::default();
    cfg.auto_accept = false;
    let mut m = MachineState::new();
    assert_eq!(m.observe("ReadyCheck".to_string(), &cfg), Action::DoNothing);
}

#[test]
fn duplicate_observations_are_noops() {
    let cfg = Config::default();
    let mut m = MachineState::new();
    assert_eq!(m.observe("Lobby".to_string(), &cfg), Action::DoNothing);
    assert_eq!(m.observe("ChampSelect".to_string(), &cfg), Action::PrepareTeamLink);
    // The same phase observed again produces nothing further.
    assert_eq!(m.observe("ChampSelect".to_string(), &cfg), Action::DoNothing);
    assert_eq!(m.observe("ChampSelect".to_string(), &cfg), Action::DoNothing);
}

#[test]
fn unrecognized_phase_records_but_stays_quiet() {
    let cfg = Config::default();
    let mut m = MachineState::new();
    assert_eq!(m.observe("TerminatedInError".to_string(), &cfg), Action::DoNothing);
    // A repeat of the unknown label is a duplicate, not a new transition.
    assert_eq!(m.observe("TerminatedInError".to_string(), &cfg), Action::DoNothing);
    // A different unknown label is a transition again, still quiet.
    assert_eq!(m.observe("SomethingNew".to_string(), &cfg), Action::DoNothing);
}

#[test]
fn empty_team_never_opens_link() {
    let cfg = Config::default();
    let mut m = MachineState::new();
    m.observe("ChampSelect".to_string(), &cfg);
    let empty = Lobby { participants: Vec::new() };
    assert!(!m.decide_team_link(&cfg, &empty, Some(42)));
    // An empty team marks nothing handled: a later non-empty fetch opens.
    let team = team_of(&[("Ana", "EUW")]);
    assert!(m.decide_team_link(&cfg, &team, Some(42)));
}

#[test]
fn same_game_id_opens_once() {
    let cfg = Config::default();
    let mut m = MachineState::new();
    let team = team_of(&[("Ana", "EUW"), ("Bo", "EUW")]);
    assert!(m.decide_team_link(&cfg, &team, Some(7)));
    assert!(!m.decide_team_link(&cfg, &team, Some(7)));
    // A different match is actionable again.
    assert!(m.decide_team_link(&cfg, &team, Some(8)));
}

#[test]
fn unknown_game_id_opens_once_without_marking() {
    let cfg = Config::default();
    let mut m = MachineState::new();
    let team = team_of(&[("Ana", "EUW")]);
    assert!(m.decide_team_link(&cfg, &team, None));
    assert!(m.decide_team_link(&cfg, &team, None));
    // Once a known id is recorded, an id-less fetch stays closed.
    assert!(m.decide_team_link(&cfg, &team, Some(3)));
    assert!(!m.decide_team_link(&cfg, &team, None));
}

#[test]
fn auto_open_off_never_opens() {
    let mut cfg = Config::default();
    cfg.auto_open = false;
    let mut m = MachineState::new();
    let team = team_of(&[("Ana", "EUW")]);
    assert!(!m.decide_team_link(&cfg, &team, Some(1)));
}

#[test]
fn leaving_to_lobby_resets_game_key() {
    let cfg = Config::default();
    let mut m = MachineState::new();
    let team = team_of(&[("Ana", "EUW")]);
    m.observe("ChampSelect".to_string(), &cfg);
    assert!(m.decide_team_link(&cfg, &team, Some(9)));
    // Back to the lobby: the per-match key falls.
    m.observe("Lobby".to_string(), &cfg);
    m.observe("ChampSelect".to_string(), &cfg);
    assert!(m.decide_team_link(&cfg, &team, Some(9)));
}

#[test]
fn reconnection_starts_from_fresh_state() {
    let cfg = Config::default();
    let mut m = MachineState::new();
    assert_eq!(m.observe("ChampSelect".to_string(), &cfg), Action::PrepareTeamLink);
    // The connection falls; the supervisor tears the session down and
    // builds a new machine. The first observation after reconnection is
    // acted on even though it equals the last phase seen before.
    let mut m2 = MachineState::new();
    assert_eq!(m2.observe("ChampSelect".to_string(), &cfg), Action::PrepareTeamLink);
}

#[test]
fn accept_delay_floors_at_zero() {
    assert_eq!(accept_wait_ms(0), 0);
    assert_eq!(accept_wait_ms(500), 0);
    assert_eq!(accept_wait_ms(999), 0);
    assert_eq!(accept_wait_ms(1000), 0);
    assert_eq!(accept_wait_ms(1001), 1);
    assert_eq!(accept_wait_ms(2000), 1000);
}

#[test]
fn accept_delay_reaches_the_observe_action() {
    let mut cfg = Config::default();
    cfg.accept_delay = 350;
    let mut m = MachineState::new();
    assert_eq!(
        m.observe("ReadyCheck".to_string(), &cfg),
        Action::AcceptReadyCheck { wait_ms: 0 }
    );
}

#[test]
fn default_config_values() {
    let cfg = Config::default();
    assert!(cfg.auto_open);
    assert!(cfg.auto_accept);
    assert_eq!(cfg.accept_delay, 2000);
    assert_eq!(cfg.multi_provider, "opgg");
}

#[test]
fn supervisor_reactions_by_failure_kind() {
    assert_eq!(supervisor_reaction(FailureKind::Discovery), Reaction::RetryDiscovery);
    assert_eq!(supervisor_reaction(FailureKind::Connection), Reaction::TearDownSession);
    assert_eq!(supervisor_reaction(FailureKind::Application), Reaction::KeepSession);
    assert_eq!(supervisor_reaction(FailureKind::Effect), Reaction::ReportOnly);
}

#[test]
fn rejected_auth_is_a_connection_failure() {
    assert_eq!(classify_status(401), FailureKind::Connection);
    assert_eq!(classify_status(403), FailureKind::Connection);
    assert_eq!(classify_status(404), FailureKind::Application);
    assert_eq!(classify_status(500), FailureKind::Application);
}
