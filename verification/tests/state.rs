use lockin::agents::{load_public_agents, AgentLoad};
use lockin::app::{
    apply_config, clean_map_urls, disarm, event_ts, is_listed, now_ts, push_event, push_event_at,
    redact, snapshot, Agent, Config, ConfigRequest, DetectionMode, GameMap, InnerState,
    SelectionMode, StoredConfig, UiPhase, EVENT_LIMIT,
};
use lockin::assignments::MapAgents;
use lockin::maps::load_public_maps;
use serde_json::Value;

fn no_change() -> ConfigRequest {
    ConfigRequest {
        selected_agent_uuid: None,
        selected_map_urls: None,
        select_before_lock: None,
        auto_rearm: None,
        detection_mode: None,
    }
}

fn messages(inner: &InnerState) -> Vec<&str> {
    inner.events.iter().map(|event| event.message.as_str()).collect()
}

/// The settings of a configuration file that these tests use.
fn read_config(text: &str) -> Option<StoredConfig> {
    let value: Value = serde_json::from_str(text).ok()?;
    Some(StoredConfig {
        selected_agent_uuid: value["selected_agent_uuid"].as_str().map(ToString::to_string),
        selected_map_urls: value["selected_map_urls"].as_array().map(|urls| {
            urls.iter().map(|url| url.as_str().unwrap().to_string()).collect()
        }),
        selection_mode: None,
        per_map_agent_uuids: None,
        select_before_lock: value["select_before_lock"].as_bool(),
        auto_rearm: value["auto_rearm"].as_bool(),
        poll_ms: value["poll_ms"].as_u64(),
        detection_mode: match value["detection_mode"].as_str() {
            Some("websocket") => Some(DetectionMode::Websocket),
            Some("polling") => Some(DetectionMode::Polling),
            Some("hybrid") => Some(DetectionMode::Hybrid),
            _ => None,
        },
    })
}

const OLD_CONFIG: &str = r#"{
                "selected_agent_uuid": "agent",
                "select_before_lock": true,
                "poll_ms": 250
            }"#;

#[test]
fn loads_old_config_without_detection_mode_as_hybrid() {
    let config = Config::load(read_config(OLD_CONFIG));

    assert_eq!(config.detection_mode, DetectionMode::Hybrid);
}

#[test]
fn loads_old_config_without_selected_maps_as_empty_list() {
    let config = Config::load(read_config(OLD_CONFIG));

    assert!(config.selected_map_urls.is_empty());
}

#[test]
fn loads_old_config_without_auto_rearm_as_enabled() {
    let config = Config::load(read_config(OLD_CONFIG));

    assert!(config.auto_rearm);
}

#[test]
fn old_config_keeps_what_it_has() {
    let config = Config::load(read_config(OLD_CONFIG));

    assert_eq!(config.selected_agent_uuid.as_deref(), Some("agent"));
    assert!(config.select_before_lock);
    assert_eq!(config.poll_ms, 250);
    assert_eq!(config.selection_mode, SelectionMode::Global);
    assert!(config.per_map_agent_uuids.is_empty());
}

#[test]
fn documented_config_is_read() {
    let config = Config::load(read_config(
        r#"{
  "selected_agent_uuid": null,
  "selected_map_urls": [],
  "select_before_lock": false,
  "auto_rearm": true,
  "poll_ms": 250,
  "detection_mode": "hybrid"
}"#,
    ));

    assert_eq!(config.selected_agent_uuid, None);
    assert!(config.selected_map_urls.is_empty());
    assert!(!config.select_before_lock);
    assert!(config.auto_rearm);
    assert_eq!(config.poll_ms, 250);
    assert_eq!(config.detection_mode, DetectionMode::Hybrid);
}

#[test]
fn unreadable_config_gives_the_default() {
    let config = Config::load(read_config("{"));

    assert_eq!(config.selected_agent_uuid, None);
    assert!(config.selected_map_urls.is_empty());
    assert!(!config.select_before_lock);
    assert!(config.auto_rearm);
    assert_eq!(config.poll_ms, 250);
    assert_eq!(config.detection_mode, DetectionMode::Hybrid);
}

#[test]
fn saved_config_reads_back() {
    let mut agents = MapAgents::new();
    agents.insert("/b".to_string(), "two".to_string());
    agents.insert("/a".to_string(), "one".to_string());
    let config = Config {
        selected_agent_uuid: Some("agent".to_string()),
        selected_map_urls: vec!["/a".to_string()],
        selection_mode: SelectionMode::PerMap,
        per_map_agent_uuids: agents,
        select_before_lock: true,
        auto_rearm: false,
        poll_ms: 777,
        detection_mode: DetectionMode::Polling,
    };

    let again = Config::load(Some(Config::save(&config)));

    assert_eq!(again.selected_agent_uuid.as_deref(), Some("agent"));
    assert_eq!(again.selected_map_urls, vec!["/a"]);
    assert_eq!(again.selection_mode, SelectionMode::PerMap);
    assert_eq!(again.per_map_agent_uuids.pairs(), config.per_map_agent_uuids.pairs());
    assert!(again.select_before_lock);
    assert!(!again.auto_rearm);
    assert_eq!(again.poll_ms, 777);
    assert_eq!(again.detection_mode, DetectionMode::Polling);
}

#[test]
fn configuration_is_copied_whole() {
    let mut agents = MapAgents::new();
    agents.insert("/a".to_string(), "one".to_string());
    let config = Config {
        selected_agent_uuid: Some("agent".to_string()),
        selected_map_urls: vec!["/a".to_string(), "/b".to_string()],
        selection_mode: SelectionMode::PerMap,
        per_map_agent_uuids: agents,
        select_before_lock: true,
        auto_rearm: false,
        poll_ms: 5,
        detection_mode: DetectionMode::Websocket,
    };

    let again = config.clone();

    assert_eq!(format!("{again:?}"), format!("{config:?}"));
    assert!(format!("{again:?}").contains("/b"));
    assert_ne!(format!("{again:?}"), format!("{:?}", Config::default()));
}

#[test]
fn program_starts_idle() {
    let inner = InnerState::new(Config {
        selected_agent_uuid: Some("agent".to_string()),
        ..Config::default()
    });

    assert!(!inner.state.armed);
    assert!(!inner.state.rearm_pending);
    assert_eq!(inner.state.phase, UiPhase::Idle);
    assert_eq!(inner.state.message, "Idle. Press Arm to refresh live data.");
    assert_eq!(inner.state.selected_agent_uuid.as_deref(), Some("agent"));
    assert_eq!(inner.state.lock_attempts, 0);
    assert!(inner.events.is_empty());
    assert!(!inner.poller);
}

#[test]
fn phases_have_their_documented_names() {
    let names: Vec<&str> = [
        UiPhase::Idle,
        UiPhase::Arming,
        UiPhase::Detecting,
        UiPhase::ResolvingMatch,
        UiPhase::Locking,
        UiPhase::Locked,
        UiPhase::LockedOtherAgent,
        UiPhase::SkippedMap,
        UiPhase::WaitingMenus,
        UiPhase::Warning,
        UiPhase::Error,
    ]
    .iter()
    .map(UiPhase::name)
    .collect();

    assert_eq!(
        names,
        vec![
            "idle",
            "arming",
            "detecting",
            "resolving_match",
            "locking",
            "locked",
            "locked_other_agent",
            "skipped_map",
            "waiting_menus",
            "warning",
            "error",
        ]
    );
}

#[test]
fn detection_modes_are_labelled_as_they_are_named() {
    for mode in [DetectionMode::Websocket, DetectionMode::Polling, DetectionMode::Hybrid] {
        assert_eq!(mode.label(), format!("{mode:?}"));
    }
}

#[test]
fn redacts_header_names() {
    assert_eq!(
        redact("Authorization: x, X-Riot-Entitlements-JWT: y, Authorization"),
        "[auth-header]: x, [entitlement-header]: y, [auth-header]"
    );
    assert_eq!(redact("authorization"), "authorization");
    assert_eq!(redact("AuthoAuthorizationrization"), "Autho[auth-header]rization");
}

#[test]
fn events_are_redacted_when_they_are_logged() {
    let mut inner = InnerState::new(Config::default());

    push_event_at(&mut inner, 17, "warn", "bad Authorization");

    assert_eq!(inner.events.len(), 1);
    assert_eq!(inner.events[0].ts, 17);
    assert_eq!(inner.events[0].level, "warn");
    assert_eq!(inner.events[0].message, "bad [auth-header]");
}

#[test]
fn log_keeps_the_last_events() {
    let mut inner = InnerState::new(Config::default());

    for i in 0..100u64 {
        push_event_at(&mut inner, i, "info", &format!("event {i}"));
        assert!(inner.events.len() <= EVENT_LIMIT);
    }

    assert_eq!(inner.events.len(), 80);
    assert_eq!(inner.events[0].message, "event 20");
    assert_eq!(inner.events[79].message, "event 99");
}

#[test]
fn events_bear_the_time_of_the_clock() {
    let before = std::time::SystemTime::now()
        .duration_since(std::time::UNIX_EPOCH)
        .unwrap()
        .as_secs();
    let mut inner = InnerState::new(Config::default());

    push_event(&mut inner, "info", "now");

    let after = now_ts();
    assert!(before <= inner.events[0].ts && inner.events[0].ts <= after);
    assert_eq!(event_ts(Some(5)), 5);
    assert_eq!(event_ts(None), 0);
}

#[test]
fn change_replaces_only_what_is_given() {
    let mut inner = InnerState::new(Config::default());

    apply_config(
        &mut inner,
        ConfigRequest {
            selected_agent_uuid: Some("agent".to_string()),
            selected_map_urls: Some(vec![" /a ".to_string(), "/A".to_string(), " ".to_string()]),
            select_before_lock: Some(true),
            auto_rearm: Some(false),
            detection_mode: Some(DetectionMode::Websocket),
        },
    );
    apply_config(&mut inner, no_change());

    assert_eq!(inner.config.selected_agent_uuid.as_deref(), Some("agent"));
    assert_eq!(inner.config.selected_map_urls, vec!["/a"]);
    assert!(inner.config.select_before_lock);
    assert!(!inner.config.auto_rearm);
    assert_eq!(inner.config.poll_ms, 250);
    assert_eq!(inner.config.detection_mode, DetectionMode::Websocket);
    assert_eq!(inner.state.selected_agent_uuid, inner.config.selected_agent_uuid);
    assert_eq!(inner.state.selected_map_urls, inner.config.selected_map_urls);
    assert_eq!(inner.state.select_before_lock, inner.config.select_before_lock);
    assert_eq!(inner.state.auto_rearm, inner.config.auto_rearm);
    assert_eq!(inner.state.detection_mode, inner.config.detection_mode);
}

#[test]
fn blank_agent_selects_none() {
    let mut inner = InnerState::new(Config {
        selected_agent_uuid: Some("agent".to_string()),
        ..Config::default()
    });

    apply_config(
        &mut inner,
        ConfigRequest {
            selected_agent_uuid: Some(" \t".to_string()),
            ..no_change()
        },
    );

    assert_eq!(inner.config.selected_agent_uuid, None);
    assert_eq!(inner.state.selected_agent_uuid, None);
}

#[test]
fn agent_is_kept_with_the_white_space_around_it() {
    let mut inner = InnerState::new(Config::default());

    apply_config(
        &mut inner,
        ConfigRequest {
            selected_agent_uuid: Some(" agent ".to_string()),
            ..no_change()
        },
    );

    assert_eq!(inner.config.selected_agent_uuid.as_deref(), Some(" agent "));
}

#[test]
fn cleaning_twice_is_cleaning_once() {
    let urls = vec![" b".to_string(), "B ".to_string(), "".to_string(), "a".to_string()];

    let once = clean_map_urls(urls);
    let twice = clean_map_urls(once.clone());

    assert_eq!(once, vec!["b", "a"]);
    assert_eq!(twice, once);
    assert!(is_listed(&once, "B"));
    assert!(!is_listed(&once, "c"));
}

#[test]
fn disarming_clears_what_is_known_of_the_game() {
    let mut inner = InnerState::new(Config::default());
    inner.state.armed = true;
    inner.state.phase = UiPhase::Locking;
    inner.state.glz_route = Some("https://glz".to_string());
    inner.state.last_match_id = Some("match".to_string());
    inner.state.last_lock_agent_uuid = Some("agent".to_string());
    inner.poller = true;

    assert!(disarm(&mut inner, 3));

    assert!(!inner.state.armed);
    assert_eq!(inner.state.phase, UiPhase::Idle);
    assert_eq!(inner.state.message, "Disarmed. Live sensitive data cleared.");
    assert_eq!(inner.state.glz_route, None);
    assert_eq!(inner.state.last_match_id, None);
    assert_eq!(inner.state.last_lock_agent_uuid, None);
    assert!(!inner.poller);
    assert_eq!(messages(&inner), vec!["Disarmed."]);
    assert!(!disarm(&mut inner, 4));
}

#[test]
fn dashboard_is_given_the_whole_state() {
    let mut inner = InnerState::new(Config::default());
    load_public_agents(&mut inner, 1, AgentLoad::Started);
    assert_eq!(inner.state.message, "Loading public agent data.");
    load_public_agents(
        &mut inner,
        1,
        AgentLoad::Loaded(vec![Agent {
            uuid: "uuid".to_string(),
            display_name: "Jett".to_string(),
            display_icon: None,
            role: Some("Duelist".to_string()),
        }]),
    );
    load_public_maps(
        &mut inner,
        2,
        Ok(vec![GameMap {
            uuid: "map".to_string(),
            display_name: "Ascent".to_string(),
            display_icon: None,
            list_view_icon: None,
            splash: Some("splash".to_string()),
            map_url: "/Ascent".to_string(),
            in_ranked_pool: true,
        }]),
    );

    let response = snapshot(&inner);

    assert_eq!(response.state.message, "Idle. Select an agent, then press Arm.");
    assert_eq!(response.agents[0].display_name, "Jett");
    assert_eq!(response.agents[0].role.as_deref(), Some("Duelist"));
    assert_eq!(response.maps[0].splash.as_deref(), Some("splash"));
    assert!(response.maps[0].in_ranked_pool);
    assert!(response.events.is_empty());
}

#[test]
fn failed_loads_are_logged() {
    let mut inner = InnerState::new(Config::default());

    load_public_agents(&mut inner, 1, AgentLoad::ClientFailed("no TLS".to_string()));
    assert_eq!(inner.state.message, "Failed to initialize public agent fetch.");
    load_public_agents(&mut inner, 2, AgentLoad::FetchFailed("offline".to_string()));
    assert_eq!(
        inner.state.message,
        "Agent data unavailable. Restart the app to retry."
    );
    load_public_maps(&mut inner, 3, Err("offline".to_string()));

    assert_eq!(
        messages(&inner),
        vec![
            "Agent data load failed: no TLS",
            "Agent data load failed: offline",
            "Map data load failed: offline",
        ]
    );
    assert!(inner.agents.is_empty() && inner.maps.is_empty());
}
