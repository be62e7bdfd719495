use lcu_session::credentials::{parse_league_args, parse_lockfile_line, DiscoveryError};
use lcu_session::encode::basic_auth_header;
use lcu_session::link::{create_opgg_link, team_line};
use lcu_session::lobby::{filter_champ_select, Lobby, Participant};
use lcu_session::phase::{classify_event, clean_phase_label, parse_phase, EventKind, GameflowPhase};
use lcu_session::ready_check::{ready_check_wants_accept, ReadyCheck};
use lcu_session::region::remap_region;
use lcu_session::session::client_base_url;
use lcu_session::strutil::parse_u16;

fn participant(cid: &str, game_name: &str, game_tag: &str, name: &str) -> Participant {
    Participant {
        cid: cid.to_string(),
        game_name: game_name.to_string(),
        game_tag: game_tag.to_string(),
        muted: false,
        name: name.to_string(),
        pid: "pid".to_string(),
        puuid: "puuid".to_string(),
        region: "EUW".to_string(),
    }
}

#[test]
fn region_sg2_is_remapped() {
    assert_eq!(remap_region("SG2"), "SG");
}

#[test]
fn other_regions_pass_through() {
    assert_eq!(remap_region("NA1"), "NA1");
    assert_eq!(remap_region("EUW"), "EUW");
    assert_eq!(remap_region(""), "");
}

#[test]
fn link_joins_and_percent_encodes_riot_ids() {
    let summoners = vec![
        participant("champ-select", "Ana", "EUW", "ana"),
        participant("champ-select", "Bo", "EUW", "bo"),
    ];
    let link = create_opgg_link(&summoners, "EUW");
    assert_eq!(
        link,
        "https://www.op.gg/multisearch/EUW?summoners=Ana%23EUW%2CBo%23EUW"
    );
}

#[test]
fn link_for_one_summoner_has_no_delimiter() {
    let summoners = vec![participant("champ-select", "Ana", "EUW", "ana")];
    let link = create_opgg_link(&summoners, "KR");
    assert_eq!(link, "https://www.op.gg/multisearch/KR?summoners=Ana%23EUW");
}

#[test]
fn link_encodes_spaces_in_names() {
    let summoners = vec![participant("champ-select", "Big Ana", "1 23", "ana")];
    let link = create_opgg_link(&summoners, "EUW");
    assert_eq!(
        link,
        "https://www.op.gg/multisearch/EUW?summoners=Big%20Ana%231%2023"
    );
}

#[test]
fn lockfile_line_parses() {
    let info = parse_lockfile_line("LeagueClient:1234:52321:tokenvalue:https").unwrap();
    assert_eq!(info.port, 52321);
    assert_eq!(info.password, "tokenvalue");
    assert_eq!(info.protocol, "https");
}

#[test]
fn lockfile_too_few_fields_is_discovery_error() {
    assert!(matches!(
        parse_lockfile_line("LeagueClient:1234:52321"),
        Err(DiscoveryError::MissingFields)
    ));
    assert!(matches!(parse_lockfile_line(""), Err(DiscoveryError::MissingFields)));
}

#[test]
fn lockfile_bad_port_is_discovery_error() {
    assert!(matches!(
        parse_lockfile_line("LeagueClient:1234:notaport:tokenvalue:https"),
        Err(DiscoveryError::BadPort)
    ));
    assert!(matches!(
        parse_lockfile_line("LeagueClient:1234:70000:tokenvalue:https"),
        Err(DiscoveryError::BadPort)
    ));
}

#[test]
fn league_args_parse() {
    let args = vec![
        "LeagueClientUx".to_string(),
        "--app-port=52321".to_string(),
        "--remoting-auth-token=sekrit".to_string(),
        "--app-protocol=https".to_string(),
    ];
    let info = parse_league_args(&args).unwrap();
    assert_eq!(info.port, 52321);
    assert_eq!(info.password, "sekrit");
    assert_eq!(info.protocol, "https");
}

#[test]
fn league_args_without_token_yield_nothing() {
    let args = vec!["--app-port=52321".to_string()];
    assert!(parse_league_args(&args).is_none());
}

#[test]
fn league_args_default_protocol_is_https() {
    let args = vec![
        "--app-port=52321".to_string(),
        "--remoting-auth-token=sekrit".to_string(),
    ];
    let info = parse_league_args(&args).unwrap();
    assert_eq!(info.protocol, "https");
}

#[test]
fn parse_u16_bounds() {
    assert_eq!(parse_u16("0"), Some(0));
    assert_eq!(parse_u16("65535"), Some(65535));
    assert_eq!(parse_u16("65536"), None);
    assert_eq!(parse_u16(""), None);
    assert_eq!(parse_u16("12a"), None);
}

#[test]
fn phase_labels_parse_to_variants() {
    assert_eq!(parse_phase("None"), GameflowPhase::NoPhase);
    assert_eq!(parse_phase("ReadyCheck"), GameflowPhase::ReadyCheck);
    assert_eq!(parse_phase("ChampSelect"), GameflowPhase::ChampSelect);
    assert_eq!(parse_phase("EndOfGame"), GameflowPhase::EndOfGame);
    assert_eq!(parse_phase("Banana"), GameflowPhase::Unrecognized);
}

#[test]
fn phase_label_quotes_are_stripped() {
    assert_eq!(clean_phase_label("\"ChampSelect\""), "ChampSelect");
    assert_eq!(clean_phase_label("Lobby"), "Lobby");
}

#[test]
fn event_topics_classify() {
    assert_eq!(
        classify_event("OnJsonApiEvent_lol-gameflow_v1_gameflow-phase"),
        EventKind::GameflowUpdate
    );
    assert_eq!(
        classify_event("OnJsonApiEvent_lol-champ-select_v1_session"),
        EventKind::ChampSelectUpdate
    );
    assert_eq!(classify_event("OnJsonApiEvent_something-else"), EventKind::Unhandled);
}

#[test]
fn champ_select_chat_filter_keeps_only_team() {
    let lobby = Lobby {
        participants: vec![
            participant("1234@champ-select.eu.pvp.net", "Ana", "EUW", "ana"),
            participant("5678@lobby.eu.pvp.net", "Stranger", "EUW", "stranger"),
            participant("9999@champ-select.eu.pvp.net", "Bo", "EUW", "bo"),
        ],
    };
    let team = filter_champ_select(lobby);
    let names: Vec<&str> = team
        .participants
        .iter()
        .map(|p| p.game_name.as_str())
        .collect();
    assert_eq!(names, vec!["Ana", "Bo"]);
}

#[test]
fn team_line_lists_riot_ids_and_chat_names() {
    let lobby = Lobby {
        participants: vec![
            participant("champ-select", "Ana", "EUW", "ana"),
            participant("champ-select", "Bo", "EUW", "bo"),
        ],
    };
    assert_eq!(team_line(&lobby), "Ana#EUW (ana), Bo#EUW (bo)");
}

#[test]
fn basic_auth_header_is_base64_of_riot_and_token() {
    assert_eq!(basic_auth_header("abc"), "Basic cmlvdDphYmM=");
    assert_eq!(basic_auth_header(""), "Basic cmlvdDo=");
}

#[test]
fn base_url_renders_port() {
    let info = parse_lockfile_line("LeagueClient:1234:52321:tokenvalue:https").unwrap();
    assert_eq!(client_base_url(&info), "https://127.0.0.1:52321/");
}

#[test]
fn ready_check_accept_condition() {
    let rc = ReadyCheck {
        state: "InProgress".to_string(),
        player_response: None,
        suppress_ux: false,
        timer: 10,
    };
    assert!(ready_check_wants_accept(&rc));
    let answered = ReadyCheck {
        state: "InProgress".to_string(),
        player_response: Some("Accepted".to_string()),
        suppress_ux: false,
        timer: 10,
    };
    assert!(!ready_check_wants_accept(&answered));
    let idle = ReadyCheck {
        state: "Invalid".to_string(),
        player_response: None,
        suppress_ux: false,
        timer: 0,
    };
    assert!(!ready_check_wants_accept(&idle));
}
