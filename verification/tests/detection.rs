use lockin::app::{Config, GameMap, SelectionMode};
use lockin::assignments::MapAgents;
use lockin::detection::{
    is_transient_pregame_error, resolve_match_id, PregameCandidate, RequestError,
};
use lockin::riot::{AllyTeam, PregameApiError, PregameMatch, PregamePlayer, Status};
use lockin::selection::{
    global_map_is_allowed, locked_status_for_player, map_display_name, strategy_from_config,
    AgentSelectionStrategy, PlayerLockStatus,
};

fn pregame_match(subject: &str, character_id: &str, state: &str) -> PregameMatch {
    PregameMatch {
        ally_team: AllyTeam {
            players: vec![PregamePlayer {
                subject: subject.to_string(),
                character_id: character_id.to_string(),
                character_selection_state: state.to_string(),
            }],
        },
        map_id: "/Game/Maps/Ascent/Ascent".to_string(),
    }
}

fn status(code: u16) -> Status {
    Status::new(code).unwrap()
}

#[test]
fn detects_already_locked_selected_agent() {
    let state = locked_status_for_player(&pregame_match("me", "agent", "locked"), "me", "agent");

    assert_eq!(state, PlayerLockStatus::LockedSelected);
}

#[test]
fn detects_already_locked_other_agent() {
    let state = locked_status_for_player(&pregame_match("me", "other", "locked"), "me", "agent");

    assert_eq!(state, PlayerLockStatus::LockedOther("other".to_string()));
}

#[test]
fn selected_agent_is_not_treated_as_locked() {
    let state = locked_status_for_player(&pregame_match("me", "agent", "selected"), "me", "agent");

    assert_eq!(state, PlayerLockStatus::NotLocked);
}

#[test]
fn missing_current_player_is_reported() {
    let state = locked_status_for_player(
        &pregame_match("someone-else", "agent", "locked"),
        "me",
        "agent",
    );

    assert_eq!(state, PlayerLockStatus::PlayerMissing);
}

#[test]
fn initial_candidate_match_id_is_used_once() {
    let mut candidate = PregameCandidate::with_match_id("stale-or-current".to_string());

    let match_id = resolve_match_id(&mut candidate, true);

    assert_eq!(match_id.as_deref(), Some("stale-or-current"));
    assert!(candidate.initial_match_id.is_none());
}

#[test]
fn pregame_error_transience_matches_retry_policy() {
    let match_not_found = RequestError::Pregame(PregameApiError::MatchRequest(status(404)));
    let match_bad_request = RequestError::Pregame(PregameApiError::MatchRequest(status(400)));
    let lock_bad_request = RequestError::Pregame(PregameApiError::AgentAction {
        action: "lock".to_string(),
        status: status(400),
    });
    let lock_not_found = RequestError::Pregame(PregameApiError::AgentAction {
        action: "lock".to_string(),
        status: status(404),
    });
    let lock_forbidden = RequestError::Pregame(PregameApiError::AgentAction {
        action: "lock".to_string(),
        status: status(403),
    });

    assert!(is_transient_pregame_error(&match_not_found));
    assert!(!is_transient_pregame_error(&match_bad_request));
    assert!(is_transient_pregame_error(&lock_bad_request));
    assert!(is_transient_pregame_error(&lock_not_found));
    assert!(!is_transient_pregame_error(&lock_forbidden));
}

#[test]
fn resolves_known_map_display_name() {
    let maps = vec![GameMap {
        uuid: "uuid".to_string(),
        display_name: "Ascent".to_string(),
        display_icon: None,
        list_view_icon: None,
        splash: None,
        map_url: "/Game/Maps/Ascent/Ascent".to_string(),
        in_ranked_pool: true,
    }];

    assert_eq!(
        map_display_name(&maps, "/game/maps/ascent/ascent"),
        "Ascent"
    );
}

#[test]
fn falls_back_to_map_id_tail_for_unknown_map() {
    assert_eq!(map_display_name(&[], "/Game/Maps/Foo/Foo"), "Foo");
}

#[test]
fn global_strategy_requires_selected_agent() {
    let config = Config::default();

    assert!(strategy_from_config(&config).is_err());
}

#[test]
fn per_map_strategy_requires_at_least_one_assignment() {
    let config = Config {
        selection_mode: SelectionMode::PerMap,
        ..Config::default()
    };

    assert!(strategy_from_config(&config).is_err());
}

#[test]
fn per_map_strategy_accepts_assignment() {
    let mut per_map_agent_uuids = MapAgents::new();
    per_map_agent_uuids.insert(
        "/Game/Maps/Ascent/Ascent".to_string(),
        "agent".to_string(),
    );
    let config = Config {
        selection_mode: SelectionMode::PerMap,
        per_map_agent_uuids,
        ..Config::default()
    };

    assert!(matches!(
        strategy_from_config(&config).unwrap(),
        AgentSelectionStrategy::PerMap
    ));
}

#[test]
fn global_map_filter_allows_all_when_empty() {
    let config = Config::default();

    assert!(global_map_is_allowed(&config, "/Game/Maps/Ascent/Ascent"));
}

#[test]
fn global_map_filter_matches_case_insensitively() {
    let config = Config {
        selected_map_urls: vec!["/Game/Maps/Ascent/Ascent".to_string()],
        ..Config::default()
    };

    assert!(global_map_is_allowed(&config, "/game/maps/ascent/ascent"));
    assert!(!global_map_is_allowed(&config, "/Game/Maps/Haven/Haven"));
}
