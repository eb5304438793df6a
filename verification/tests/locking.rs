use lockin::app::{
    Agent, Config, DetectionMode, GameMap, InnerState, SelectionMode, UiPhase,
};
use lockin::arming::{
    arm, check_agents, complete_arm, fail_detection, prepare_auto_rearm, register_poller,
    rollback_arm_failure, ArmStart,
};
use lockin::assignments::MapAgents;
use lockin::detection::{
    finish_happy_path, resolve_match_id, run_lock_sequence, skip_map, sleep_until_next_lock_retry,
    LockAction, LockReply, PregameCandidate, RequestError, LOCK_RETRY_NANOS,
    LOCK_SEQUENCE_TIMEOUT_NANOS,
};
use lockin::riot::{
    AllyTeam, LiveContext, PregameApiError, PregameMatch, PregamePlayer, Status,
};
use lockin::selection::{
    agent_for_match_map, agents_are_known, assigned_agent_uuids, strategy_from_config,
    AgentSelectionStrategy, MapAgentDecision,
};

const ASCENT: &str = "/Game/Maps/Ascent/Ascent";

fn live() -> LiveContext {
    LiveContext {
        local_base: "https://127.0.0.1:1".to_string(),
        local_auth: "Basic token".to_string(),
        glz_base: "https://glz-na-1.na.a.pvp.net".to_string(),
        puuid: "me".to_string(),
        access_token: "access".to_string(),
        entitlement_token: "entitlement".to_string(),
        client_version: "version".to_string(),
        select_before_lock: false,
    }
}

fn global() -> AgentSelectionStrategy {
    AgentSelectionStrategy::Global {
        selected_agent_uuid: "jett".to_string(),
    }
}

fn config() -> Config {
    Config {
        selected_agent_uuid: Some("jett".to_string()),
        auto_rearm: false,
        ..Config::default()
    }
}

fn armed(config: Config) -> InnerState {
    let mut inner = InnerState::new(config);
    inner.state.armed = true;
    inner.state.phase = UiPhase::Detecting;
    inner.poller = true;
    inner
}

fn lobby(character: &str, state: &str) -> PregameMatch {
    PregameMatch {
        ally_team: AllyTeam {
            players: vec![
                PregamePlayer {
                    subject: "other".to_string(),
                    character_id: "omen".to_string(),
                    character_selection_state: "locked".to_string(),
                },
                PregamePlayer {
                    subject: "ME".to_string(),
                    character_id: character.to_string(),
                    character_selection_state: state.to_string(),
                },
            ],
        },
        map_id: ASCENT.to_string(),
    }
}

fn refused(action: &str, code: u16) -> RequestError {
    RequestError::Pregame(PregameApiError::AgentAction {
        action: action.to_string(),
        status: Status::new(code).unwrap(),
    })
}

fn lobby_reply(character: &str, state: &str) -> LockReply {
    LockReply::Lobby {
        match_id: "match".to_string(),
        lobby: Ok(lobby(character, state)),
    }
}

fn messages(inner: &InnerState) -> Vec<&str> {
    inner.events.iter().map(|event| event.message.as_str()).collect()
}

#[test]
fn announced_lobby_is_locked() {
    let mut inner = armed(config());
    let live = live();
    let strategy = global();

    let action = run_lock_sequence(
        &mut inner,
        &live,
        &strategy,
        0,
        1,
        LockReply::Begin(PregameCandidate::from_signal()),
    );
    assert!(matches!(action, LockAction::FetchPlayer));
    assert_eq!(inner.state.phase, UiPhase::ResolvingMatch);
    assert_eq!(inner.state.lock_attempts, 1);
    assert_eq!(inner.state.last_match_id, None);

    let action = run_lock_sequence(
        &mut inner,
        &live,
        &strategy,
        1,
        2,
        LockReply::Player(Ok(Some("match".to_string()))),
    );
    assert!(matches!(action, LockAction::FetchLobby(id) if id == "match"));
    assert_eq!(inner.state.last_match_id.as_deref(), Some("match"));

    let action =
        run_lock_sequence(&mut inner, &live, &strategy, 2, 3, lobby_reply("", "selecting"));
    assert!(matches!(
        action,
        LockAction::Lock { match_id, agent_uuid } if match_id == "match" && agent_uuid == "jett"
    ));
    assert_eq!(inner.state.phase, UiPhase::Locking);
    assert_eq!(inner.state.message, "Match data ready. Sending lock request.");

    let action = run_lock_sequence(
        &mut inner,
        &live,
        &strategy,
        3,
        4,
        LockReply::Locked {
            match_id: "match".to_string(),
            agent_uuid: "jett".to_string(),
            outcome: Ok(()),
        },
    );
    assert!(matches!(action, LockAction::Finished));
    assert_eq!(inner.state.phase, UiPhase::Locked);
    assert_eq!(inner.state.message, "Agent lock request succeeded.");
    assert!(!inner.state.armed && !inner.state.rearm_pending && !inner.poller);
    assert_eq!(inner.state.last_lock_agent_uuid.as_deref(), Some("jett"));
    assert_eq!(
        messages(&inner),
        vec![
            "Pre-game detected. Starting lock sequence.",
            "Attempting agent lock.",
            "Agent lock request succeeded.",
        ]
    );
}

#[test]
fn known_lobby_is_asked_for_at_once() {
    let mut inner = armed(config());

    let action = run_lock_sequence(
        &mut inner,
        &live(),
        &global(),
        0,
        1,
        LockReply::Begin(PregameCandidate::with_match_id("match".to_string())),
    );

    assert!(matches!(action, LockAction::FetchLobby(id) if id == "match"));
    assert_eq!(inner.state.last_match_id.as_deref(), Some("match"));
}

#[test]
fn candidate_without_use_keeps_its_identity() {
    let mut candidate = PregameCandidate::with_match_id("match".to_string());

    assert_eq!(resolve_match_id(&mut candidate, false), None);
    assert_eq!(candidate.initial_match_id.as_deref(), Some("match"));
    assert_eq!(resolve_match_id(&mut candidate, true).as_deref(), Some("match"));
    assert_eq!(resolve_match_id(&mut candidate, true), None);
}

#[test]
fn unarmed_program_begins_nothing() {
    let mut inner = InnerState::new(config());

    let action = run_lock_sequence(
        &mut inner,
        &live(),
        &global(),
        0,
        1,
        LockReply::Begin(PregameCandidate::from_signal()),
    );

    assert!(matches!(action, LockAction::Finished));
    assert_eq!(inner.state.lock_attempts, 0);
    assert!(inner.events.is_empty());
}

#[test]
fn agent_is_selected_before_it_is_locked() {
    let mut inner = armed(config());
    let live = LiveContext {
        select_before_lock: true,
        ..live()
    };

    let action = run_lock_sequence(&mut inner, &live, &global(), 0, 1, lobby_reply("", ""));
    assert!(matches!(action, LockAction::Select { agent_uuid, .. } if agent_uuid == "jett"));

    let action = run_lock_sequence(
        &mut inner,
        &live,
        &global(),
        1,
        2,
        LockReply::Selected {
            match_id: "match".to_string(),
            agent_uuid: "jett".to_string(),
            outcome: Ok(()),
        },
    );
    assert!(matches!(action, LockAction::Lock { agent_uuid, .. } if agent_uuid == "jett"));
}

#[test]
fn transient_refusals_are_tried_again() {
    for reply in [
        LockReply::Lobby {
            match_id: "match".to_string(),
            lobby: Err(RequestError::Pregame(PregameApiError::MatchRequest(
                Status::new(404).unwrap(),
            ))),
        },
        LockReply::Selected {
            match_id: "match".to_string(),
            agent_uuid: "jett".to_string(),
            outcome: Err(refused("select", 400)),
        },
        LockReply::Locked {
            match_id: "match".to_string(),
            agent_uuid: "jett".to_string(),
            outcome: Err(refused("lock", 404)),
        },
        LockReply::Player(Ok(None)),
    ] {
        let mut inner = armed(config());
        let action = run_lock_sequence(&mut inner, &live(), &global(), 5, 1, reply);
        assert!(matches!(action, LockAction::Sleep(LOCK_RETRY_NANOS)));
        assert!(inner.state.armed && inner.events.is_empty());
    }
}

#[test]
fn transient_refusal_expires_when_the_time_is_over() {
    let mut inner = armed(config());

    let action = run_lock_sequence(
        &mut inner,
        &live(),
        &global(),
        LOCK_SEQUENCE_TIMEOUT_NANOS as u128,
        1,
        LockReply::Locked {
            match_id: "match".to_string(),
            agent_uuid: "jett".to_string(),
            outcome: Err(refused("lock", 400)),
        },
    );

    assert!(matches!(action, LockAction::Expired));
}

#[test]
fn other_failures_end_the_work() {
    for reply in [
        LockReply::Player(Err(RequestError::Pregame(PregameApiError::PlayerRequest(
            Status::new(404).unwrap(),
        )))),
        LockReply::Lobby {
            match_id: "match".to_string(),
            lobby: Err(RequestError::Other("offline".to_string())),
        },
        LockReply::Selected {
            match_id: "match".to_string(),
            agent_uuid: "jett".to_string(),
            outcome: Err(refused("select", 403)),
        },
        LockReply::Locked {
            match_id: "match".to_string(),
            agent_uuid: "jett".to_string(),
            outcome: Err(refused("lock", 500)),
        },
    ] {
        let mut inner = armed(config());
        let action = run_lock_sequence(&mut inner, &live(), &global(), 5, 1, reply);
        assert!(matches!(action, LockAction::Failed(_)));
    }
}

#[test]
fn failed_requests_are_described() {
    assert_eq!(
        refused("lock", 403).message(),
        "lock request failed with 403 Forbidden"
    );
    assert_eq!(RequestError::Other("offline".to_string()).message(), "offline");
}

#[test]
fn wait_is_over() {
    let live = live();
    let mut inner = armed(config());
    let action = run_lock_sequence(&mut inner, &live, &global(), 1, 1, LockReply::Slept);
    assert!(matches!(action, LockAction::FetchPlayer));

    let late = LOCK_SEQUENCE_TIMEOUT_NANOS as u128;
    let action = run_lock_sequence(&mut inner, &live, &global(), late, 1, LockReply::Slept);
    assert!(matches!(action, LockAction::Expired));

    inner.state.armed = false;
    let action = run_lock_sequence(&mut inner, &live, &global(), 1, 1, LockReply::Slept);
    assert!(matches!(action, LockAction::Finished));
}

#[test]
fn retries_keep_the_time() {
    assert_eq!(sleep_until_next_lock_retry(0), Some(250_000_000));
    assert_eq!(sleep_until_next_lock_retry(7_750_000_000), Some(250_000_000));
    assert_eq!(sleep_until_next_lock_retry(7_750_000_001), Some(249_999_999));
    assert_eq!(sleep_until_next_lock_retry(7_999_999_999), Some(1));
    assert_eq!(sleep_until_next_lock_retry(8_000_000_000), None);
    assert_eq!(sleep_until_next_lock_retry(u128::MAX), None);
}

#[test]
fn locked_player_is_left_alone() {
    let mut inner = armed(config());
    let action =
        run_lock_sequence(&mut inner, &live(), &global(), 0, 1, lobby_reply("JETT", "Locked"));
    assert!(matches!(action, LockAction::Finished));
    assert_eq!(inner.state.phase, UiPhase::Locked);
    assert_eq!(inner.state.message, "Already locked selected agent for this game.");

    let mut inner = armed(config());
    let action =
        run_lock_sequence(&mut inner, &live(), &global(), 0, 1, lobby_reply("sova", "locked"));
    assert!(matches!(action, LockAction::Finished));
    assert_eq!(inner.state.phase, UiPhase::LockedOtherAgent);
    assert_eq!(inner.state.message, "Already locked a different agent: sova.");
    assert_eq!(inner.state.last_lock_agent_uuid.as_deref(), Some("sova"));
    assert_eq!(
        messages(&inner),
        vec!["Already locked a different agent for this game."]
    );
}

#[test]
fn map_that_is_not_selected_is_skipped() {
    let mut inner = armed(Config {
        selected_map_urls: vec!["/Game/Maps/Haven/Haven".to_string()],
        ..config()
    });
    inner.maps = vec![GameMap {
        uuid: "uuid".to_string(),
        display_name: "The Ascent".to_string(),
        display_icon: None,
        list_view_icon: None,
        splash: None,
        map_url: ASCENT.to_string(),
        in_ranked_pool: true,
    }];

    let action = run_lock_sequence(&mut inner, &live(), &global(), 0, 1, lobby_reply("", ""));

    assert!(matches!(action, LockAction::Finished));
    assert_eq!(inner.state.phase, UiPhase::SkippedMap);
    assert_eq!(inner.state.message, "Skipped The Ascent because not selected.");
    assert_eq!(inner.state.last_match_id.as_deref(), Some("match"));
    assert_eq!(inner.state.last_lock_agent_uuid, None);
    assert_eq!(messages(&inner), vec!["Skipped The Ascent; not selected."]);
}

#[test]
fn map_without_an_agent_is_skipped() {
    let mut agents = MapAgents::new();
    agents.insert("/Game/Maps/Haven/Haven".to_string(), "sova".to_string());
    let config = Config {
        selection_mode: SelectionMode::PerMap,
        per_map_agent_uuids: agents,
        ..config()
    };

    let on_haven =
        agent_for_match_map(&config, &AgentSelectionStrategy::PerMap, "/game/maps/haven/haven");
    assert!(matches!(on_haven, MapAgentDecision::Lock(agent) if agent == "sova"));
    let on_ascent = agent_for_match_map(&config, &AgentSelectionStrategy::PerMap, ASCENT);
    assert!(matches!(on_ascent, MapAgentDecision::Skip(why) if why == "no agent selected"));

    let mut inner = armed(config);
    skip_map(&mut inner, 1, "match".to_string(), ASCENT, "no agent selected");
    assert_eq!(inner.state.message, "Skipped Ascent because no agent selected.");
}

#[test]
fn finished_program_waits_for_the_menus() {
    let mut inner = armed(Config {
        auto_rearm: true,
        ..config()
    });

    finish_happy_path(
        &mut inner,
        9,
        UiPhase::Locked,
        "Done.",
        "info",
        "done",
        Some("match".to_string()),
        Some("jett".to_string()),
    );

    assert!(!inner.state.armed && inner.state.rearm_pending && inner.poller);
    assert_eq!(inner.state.phase, UiPhase::WaitingMenus);
    assert_eq!(inner.state.message, "Done. Waiting for menu to auto re-arm.");
    assert_eq!(
        messages(&inner),
        vec!["done", "Auto re-arm pending until Valorant returns to menu."]
    );
}

#[test]
fn arming_goes_its_way() {
    let mut inner = InnerState::new(config());
    inner.state.lock_attempts = 7;

    let started = arm(&mut inner, 1);
    assert!(matches!(
        started,
        ArmStart::Started(AgentSelectionStrategy::Global { selected_agent_uuid })
            if selected_agent_uuid == "jett"
    ));
    assert_eq!(inner.state.phase, UiPhase::Arming);
    assert_eq!(inner.state.lock_attempts, 0);

    let settings = check_agents(&mut inner, 2).unwrap();
    assert!(!settings.select_before_lock);
    assert_eq!(settings.detection_mode, DetectionMode::Hybrid);
    assert_eq!(settings.poll_ms, 250);

    complete_arm(&mut inner, 3, "https://glz-eu-1.eu.a.pvp.net", settings.detection_mode);
    register_poller(&mut inner);
    assert!(inner.state.armed && inner.poller);
    assert_eq!(inner.state.phase, UiPhase::Detecting);
    assert_eq!(
        inner.state.glz_route.as_deref(),
        Some("https://glz-eu-1.eu.a.pvp.net")
    );
    assert_eq!(
        messages(&inner),
        vec![
            "Arming: refreshing live data.",
            "Using GLZ route: https://glz-eu-1.eu.a.pvp.net",
            "Armed. Detection mode: Hybrid.",
        ]
    );

    assert!(matches!(arm(&mut inner, 4), ArmStart::AlreadyArmed));
    assert_eq!(inner.events.len(), 3);
}

#[test]
fn arming_without_an_agent_is_rejected() {
    let mut inner = InnerState::new(Config::default());

    assert!(matches!(arm(&mut inner, 1), ArmStart::Rejected));

    assert_eq!(inner.state.phase, UiPhase::Idle);
    assert_eq!(inner.state.message, "Select an agent before arming.");
    assert_eq!(inner.events[1].level, "warn");
    assert_eq!(inner.events[1].message, "Select an agent before arming.");

    let mut inner = InnerState::new(Config {
        selection_mode: SelectionMode::PerMap,
        ..Config::default()
    });
    assert!(matches!(arm(&mut inner, 1), ArmStart::Rejected));
    assert_eq!(
        inner.state.message,
        "Select at least one per-map agent before arming."
    );
}

fn known(uuid: &str) -> Agent {
    Agent {
        uuid: uuid.to_string(),
        display_name: uuid.to_string(),
        display_icon: None,
        role: None,
    }
}

#[test]
fn unknown_agent_stops_arming() {
    let mut inner = InnerState::new(config());
    assert!(agents_are_known(&inner));
    inner.agents = vec![known("sova")];
    assert!(!agents_are_known(&inner));

    let message = check_agents(&mut inner, 1).err().unwrap();

    assert_eq!(
        message,
        "selected agent is not present in fetched playable agent data"
    );
    assert_eq!(inner.state.phase, UiPhase::Idle);
    assert_eq!(
        inner.state.message,
        "Arm failed: selected agent is not present in fetched playable agent data"
    );
    inner.agents.push(known("jett"));
    assert!(agents_are_known(&inner));
}

#[test]
fn wanted_agents_follow_the_selection_mode() {
    let mut agents = MapAgents::new();
    agents.insert("/b".to_string(), "two".to_string());
    agents.insert("/a".to_string(), "one".to_string());
    let mut config = Config {
        per_map_agent_uuids: agents,
        ..config()
    };

    assert_eq!(assigned_agent_uuids(&config), vec!["jett"]);
    config.selection_mode = SelectionMode::PerMap;
    assert_eq!(assigned_agent_uuids(&config), vec!["one", "two"]);
    assert!(matches!(
        strategy_from_config(&config),
        Ok(AgentSelectionStrategy::PerMap)
    ));
}

#[test]
fn failures_of_arming_and_detection_are_shown() {
    let mut inner = armed(config());
    inner.state.glz_route = Some("route".to_string());
    rollback_arm_failure(&mut inner, 1, "no lockfile");
    assert_eq!(inner.state.message, "Arm failed: no lockfile");
    assert_eq!(inner.state.phase, UiPhase::Idle);
    assert_eq!(inner.state.glz_route, None);

    let mut inner = armed(config());
    fail_detection(&mut inner, 1, "Riot Client websocket ended");
    assert_eq!(inner.state.phase, UiPhase::Error);
    assert_eq!(inner.state.message, "Riot Client websocket ended");
    assert!(!inner.state.armed && !inner.poller);
    assert_eq!(inner.events[0].level, "error");
}

fn waiting(config: Config) -> InnerState {
    let mut inner = armed(config);
    inner.state.armed = false;
    inner.state.rearm_pending = true;
    inner.state.phase = UiPhase::WaitingMenus;
    inner.state.lock_attempts = 3;
    inner
}

#[test]
fn program_arms_again_in_the_menus() {
    let mut inner = waiting(Config {
        auto_rearm: true,
        select_before_lock: true,
        poll_ms: 99,
        detection_mode: DetectionMode::Polling,
        ..config()
    });
    let mut live = live();

    let next = prepare_auto_rearm(&mut inner, &mut live, 5).unwrap();

    assert!(matches!(next.strategy, AgentSelectionStrategy::Global { .. }));
    assert_eq!(next.poll_ms, 99);
    assert_eq!(next.detection_mode, DetectionMode::Polling);
    assert!(live.select_before_lock);
    assert!(inner.state.armed && !inner.state.rearm_pending && inner.poller);
    assert_eq!(inner.state.phase, UiPhase::Detecting);
    assert_eq!(inner.state.lock_attempts, 0);
    assert_eq!(inner.state.glz_route, Some(live.glz_base.clone()));
    assert_eq!(messages(&inner), vec!["Returned to menu. Auto re-armed."]);
}

#[test]
fn program_does_not_arm_again_after_a_change_of_mind() {
    let mut live = live();

    let mut inner = waiting(config());
    inner.state.rearm_pending = false;
    assert!(prepare_auto_rearm(&mut inner, &mut live, 1).is_none());
    assert!(!inner.poller);
    assert_eq!(inner.state.phase, UiPhase::WaitingMenus);

    let mut inner = waiting(config());
    inner.state.phase = UiPhase::Idle;
    assert!(prepare_auto_rearm(&mut inner, &mut live, 1).is_none());

    let mut inner = waiting(Config::default());
    assert!(prepare_auto_rearm(&mut inner, &mut live, 1).is_none());
    assert_eq!(inner.state.phase, UiPhase::Idle);
    assert_eq!(inner.state.message, "Select an agent before arming.");

    let mut inner = waiting(config());
    inner.agents = vec![known("sova")];
    assert!(prepare_auto_rearm(&mut inner, &mut live, 1).is_none());
    assert_eq!(
        inner.state.message,
        "Selected agent is not present in fetched playable agent data."
    );
    assert!(inner.events.is_empty());
    assert!(!live.select_before_lock);
}
