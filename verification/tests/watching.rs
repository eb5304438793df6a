use base64::engine::general_purpose::{STANDARD, STANDARD_NO_PAD};
use base64::Engine;
use lockin::app::{Config, DetectionMode, InnerState, UiPhase};
use lockin::dashboard::dashboard_port;
use lockin::detection::{PregameCandidate, RequestError, HYBRID_FALLBACK_MS};
use lockin::json::parse_json;
use lockin::listening::{
    get_local_event_names, hear_menus, hear_pregame, listen_for_pregame_ws, subscriptions,
    wait_for_menu_ws, websocket_url, Frame, Heard, ListenAction, ListenError, LobbyReply,
    MenuReply, SocketReply,
};
use lockin::riot::LiveContext;
use lockin::watching::{
    detect_current_pregame_candidate_or_warn, detect_lobbies, handle_lock_sequence_expired,
    hybrid_lobbies, note_listener_failed, note_lock_sequence_expired, polling_lobbies,
    websocket_lobbies, DetectAction, DetectReply, HybridReply, PollingReply, WatchAction,
    WebsocketReply,
};

fn live() -> LiveContext {
    LiveContext {
        local_base: "https://127.0.0.1:8080".to_string(),
        local_auth: "Basic token".to_string(),
        glz_base: "https://glz-na-1.na.a.pvp.net".to_string(),
        puuid: "me".to_string(),
        access_token: "access".to_string(),
        entitlement_token: "entitlement".to_string(),
        client_version: "version".to_string(),
        select_before_lock: false,
    }
}

fn candidate() -> PregameCandidate {
    PregameCandidate::with_match_id("match".to_string())
}

fn presence(state: &str) -> String {
    let private = STANDARD.encode(format!("{{\"sessionLoopState\":\"{state}\"}}"));
    format!("[8,\"event\",{{\"puuid\":\"me\",\"private\":\"{private}\"}}]")
}

#[test]
fn websocket_watch_asks_once_and_then_listens() {
    assert!(matches!(
        websocket_lobbies(true, WebsocketReply::Started),
        WatchAction::Check
    ));
    assert!(matches!(
        websocket_lobbies(true, WebsocketReply::Checked(Some(candidate()))),
        WatchAction::Process(found) if found.initial_match_id.as_deref() == Some("match")
    ));
    assert!(matches!(
        websocket_lobbies(true, WebsocketReply::Checked(None)),
        WatchAction::Listen
    ));
    assert!(matches!(
        websocket_lobbies(false, WebsocketReply::Checked(None)),
        WatchAction::Done
    ));
    assert!(matches!(
        websocket_lobbies(true, WebsocketReply::Signal),
        WatchAction::Process(found) if found.initial_match_id.is_none()
    ));
    for announced in [false, true] {
        assert!(matches!(
            websocket_lobbies(true, WebsocketReply::Processed { finished: true, announced }),
            WatchAction::Done
        ));
        assert!(matches!(
            websocket_lobbies(true, WebsocketReply::Processed { finished: false, announced }),
            WatchAction::Listen
        ));
    }
    assert!(matches!(
        websocket_lobbies(false, WebsocketReply::Processed { finished: false, announced: false }),
        WatchAction::Done
    ));
    assert!(matches!(
        websocket_lobbies(false, WebsocketReply::Processed { finished: false, announced: true }),
        WatchAction::Listen
    ));
    assert!(matches!(
        websocket_lobbies(true, WebsocketReply::ChannelClosed),
        WatchAction::Fail(ListenError::ChannelClosed)
    ));
}

#[test]
fn polling_watch_asks_again_and_again() {
    assert!(matches!(
        polling_lobbies(true, 250, PollingReply::Started),
        WatchAction::Sleep(250)
    ));
    assert!(matches!(
        polling_lobbies(false, 250, PollingReply::Slept),
        WatchAction::Check
    ));
    assert!(matches!(
        polling_lobbies(true, 250, PollingReply::Checked(None)),
        WatchAction::Sleep(250)
    ));
    assert!(matches!(
        polling_lobbies(false, 250, PollingReply::Checked(None)),
        WatchAction::Done
    ));
    assert!(matches!(
        polling_lobbies(true, 250, PollingReply::Checked(Some(candidate()))),
        WatchAction::Process(_)
    ));
    assert!(matches!(
        polling_lobbies(true, 250, PollingReply::Processed { finished: false }),
        WatchAction::Sleep(250)
    ));
    assert!(matches!(
        polling_lobbies(true, 250, PollingReply::Processed { finished: true }),
        WatchAction::Done
    ));
}

#[test]
fn hybrid_watch_survives_the_loss_of_the_websocket() {
    assert_eq!(HYBRID_FALLBACK_MS, 1000);
    for reply in [
        HybridReply::Started,
        HybridReply::Checked(None),
        HybridReply::Processed { finished: false },
    ] {
        assert!(matches!(
            hybrid_lobbies(true, true, reply),
            WatchAction::ListenFor(1000)
        ));
    }
    for reply in [
        HybridReply::ChannelClosed,
        HybridReply::Checked(None),
        HybridReply::Processed { finished: false },
    ] {
        assert!(matches!(
            hybrid_lobbies(true, false, reply),
            WatchAction::Sleep(1000)
        ));
    }
    assert!(matches!(
        hybrid_lobbies(false, true, HybridReply::Checked(None)),
        WatchAction::ListenFor(1000)
    ));
    assert!(matches!(
        hybrid_lobbies(true, true, HybridReply::Slept),
        WatchAction::Check
    ));
    assert!(matches!(
        hybrid_lobbies(true, true, HybridReply::Signal),
        WatchAction::Process(found) if found.initial_match_id.is_none()
    ));
    assert!(matches!(
        hybrid_lobbies(true, true, HybridReply::Checked(Some(candidate()))),
        WatchAction::Process(found) if found.initial_match_id.is_some()
    ));
    assert!(matches!(
        hybrid_lobbies(true, true, HybridReply::Processed { finished: true }),
        WatchAction::Done
    ));
    assert!(matches!(
        hybrid_lobbies(false, true, HybridReply::Processed { finished: false }),
        WatchAction::Done
    ));
}

#[test]
fn detection_goes_from_game_to_game() {
    for mode in [DetectionMode::Websocket, DetectionMode::Polling, DetectionMode::Hybrid] {
        assert_eq!(
            detect_lobbies(false, mode, DetectReply::Started),
            DetectAction::Watch(mode)
        );
        assert_eq!(
            detect_lobbies(true, mode, DetectReply::WatchOver),
            DetectAction::AwaitMenus
        );
        assert_eq!(
            detect_lobbies(false, mode, DetectReply::WatchOver),
            DetectAction::Stop
        );
        assert_eq!(
            detect_lobbies(true, mode, DetectReply::InMenus),
            DetectAction::Rearm
        );
        assert_eq!(
            detect_lobbies(false, mode, DetectReply::Rearmed(true)),
            DetectAction::Watch(mode)
        );
        assert_eq!(
            detect_lobbies(false, mode, DetectReply::Rearmed(false)),
            DetectAction::Stop
        );
    }
}

#[test]
fn failed_check_is_a_warning_that_passes() {
    let mut inner = InnerState::new(Config::default());
    inner.state.armed = true;
    inner.state.phase = UiPhase::Detecting;

    let (found, notify) = detect_current_pregame_candidate_or_warn(
        &mut inner,
        1,
        Err(RequestError::Other("offline".to_string())),
    );
    assert!(found.is_none() && notify);
    assert_eq!(inner.state.phase, UiPhase::Warning);
    assert_eq!(inner.state.message, "Pregame check failed; will retry.");
    assert_eq!(inner.events[0].message, "Pregame check failed: offline");

    let (found, notify) = detect_current_pregame_candidate_or_warn(&mut inner, 2, Ok(None));
    assert!(found.is_none() && notify);
    assert_eq!(inner.state.phase, UiPhase::Detecting);

    let (found, notify) = detect_current_pregame_candidate_or_warn(&mut inner, 3, Ok(None));
    assert!(found.is_none() && !notify);

    let (found, notify) =
        detect_current_pregame_candidate_or_warn(&mut inner, 4, Ok(Some("match".to_string())));
    assert_eq!(found.unwrap().initial_match_id.as_deref(), Some("match"));
    assert!(!notify);
    assert_eq!(inner.events.len(), 1);
}

#[test]
fn expired_lobby_leads_back_to_detection() {
    let mut inner = InnerState::new(Config::default());
    inner.state.armed = true;
    inner.state.phase = UiPhase::Locking;
    inner.state.last_match_id = Some("match".to_string());

    note_lock_sequence_expired(&mut inner, 1);
    assert!(!handle_lock_sequence_expired(&mut inner, 2, Some("menus")));

    assert!(inner.state.armed);
    assert_eq!(inner.state.phase, UiPhase::Detecting);
    assert_eq!(inner.state.last_match_id, None);
    assert_eq!(
        inner.events[0].message,
        "Pregame candidate expired before match data or lock was ready."
    );
    assert_eq!(inner.events.len(), 1);
}

#[test]
fn expired_lobby_of_a_running_game_waits_for_the_menus() {
    for state in [Some("INGAME"), None] {
        let mut inner = InnerState::new(Config::default());
        inner.state.armed = true;

        assert!(handle_lock_sequence_expired(&mut inner, 2, state));

        assert!(!inner.state.armed && inner.state.rearm_pending);
        assert_eq!(inner.state.phase, UiPhase::WaitingMenus);
        assert_eq!(
            inner.events[0].message,
            "Waiting for menu before retrying detection."
        );
    }
}

#[test]
fn expired_lobby_of_a_disarmed_program_changes_nothing() {
    let mut inner = InnerState::new(Config::default());

    assert!(!handle_lock_sequence_expired(&mut inner, 2, Some("MENUS")));

    assert_eq!(inner.state.phase, UiPhase::Idle);
    assert!(inner.events.is_empty());
}

#[test]
fn loss_of_the_listener_is_logged() {
    let mut inner = InnerState::new(Config::default());

    note_listener_failed(&mut inner, 1, ListenError::Ended.message());

    assert_eq!(
        inner.events[0].message,
        "WS state detection unavailable: Riot Client websocket ended"
    );
}

#[test]
fn events_on_offer_are_subscribed_to() {
    let body = parse_json(r#"{"events":{"OnJsonApiEvent":"","OnB":1},"other":{"x":1}}"#).unwrap();
    let mut names = get_local_event_names(&body);
    names.sort();
    assert_eq!(names, vec!["OnB", "OnJsonApiEvent"]);
    assert!(get_local_event_names(&parse_json("{}").unwrap()).is_empty());
    assert!(get_local_event_names(&parse_json(r#"{"events":[]}"#).unwrap()).is_empty());

    assert_eq!(
        subscriptions(&names).unwrap(),
        vec![r#"[5,"OnB"]"#, r#"[5,"OnJsonApiEvent"]"#]
    );
    assert_eq!(subscriptions(&Vec::new()), Err(ListenError::NoEvents));
}

#[test]
fn websocket_is_at_the_local_service() {
    assert_eq!(websocket_url("https://127.0.0.1:8080"), "wss://127.0.0.1:8080");
    assert_eq!(websocket_url("http://x"), "http://x");
}

#[test]
fn messages_are_heard() {
    assert_eq!(hear_menus(Frame::Text(presence("MENUS")), "ME"), Heard::Awaited);
    assert_eq!(hear_menus(Frame::Text(presence("PREGAME")), "me"), Heard::Nothing);
    assert_eq!(hear_menus(Frame::Text(presence("MENUS")), "you"), Heard::Nothing);
    assert_eq!(hear_pregame(Frame::Text(presence("pregame")), "me"), Heard::Awaited);
    assert_eq!(hear_pregame(Frame::Text("no json".to_string()), "me"), Heard::Nothing);
    assert_eq!(hear_pregame(Frame::Close, "me"), Heard::Closed);
    assert_eq!(hear_pregame(Frame::Other, "me"), Heard::Nothing);
}

#[test]
fn binary_messages_are_heard_as_texts() {
    let bytes = presence("PREGAME").into_bytes();
    assert_eq!(hear_pregame(Frame::Binary(bytes.clone()), "me"), Heard::Awaited);

    // An invalid byte in a string is replaced, and the message is read none the less.
    let mut damaged = br#"{"note":""#.to_vec();
    damaged.push(0xff);
    damaged.extend_from_slice(br#"","presence":"#);
    damaged.extend_from_slice(&bytes);
    damaged.push(b'}');
    assert_eq!(hear_pregame(Frame::Binary(damaged), "me"), Heard::Awaited);
    assert_eq!(hear_menus(Frame::Binary(vec![0xff]), "me"), Heard::Nothing);
}

#[test]
fn unpadded_presences_are_heard() {
    let text = r#"{"sessionLoopState":"MENUS","x":1}"#;
    let private = STANDARD_NO_PAD.encode(text);
    assert_ne!(private, STANDARD.encode(text));
    let message = format!("{{\"PUUID\":\"me\",\"private\":\"{private}\"}}");

    assert_eq!(hear_menus(Frame::Text(message), "me"), Heard::Awaited);
}

#[test]
fn menus_are_waited_for() {
    let live = live();
    assert!(matches!(
        wait_for_menu_ws(&live, MenuReply::Started),
        ListenAction::FetchState
    ));
    assert!(matches!(
        wait_for_menu_ws(&live, MenuReply::State(Some("Menus".to_string()))),
        ListenAction::Done
    ));
    assert!(matches!(
        wait_for_menu_ws(&live, MenuReply::State(None)),
        ListenAction::FetchEvents
    ));
    assert!(matches!(
        wait_for_menu_ws(&live, MenuReply::Socket(SocketReply::Events(Vec::new()))),
        ListenAction::Fail(ListenError::NoEvents)
    ));
    let opened = wait_for_menu_ws(
        &live,
        MenuReply::Socket(SocketReply::Events(vec!["OnB".to_string()])),
    );
    match opened {
        ListenAction::Open { url, auth, messages } => {
            assert_eq!(url, "wss://127.0.0.1:8080");
            assert_eq!(auth, "Basic token");
            assert_eq!(messages, vec![r#"[5,"OnB"]"#]);
        }
        _ => panic!("the websocket is not opened"),
    }
    assert!(matches!(
        wait_for_menu_ws(&live, MenuReply::Socket(SocketReply::Opened)),
        ListenAction::Read
    ));
    let menus = Frame::Text(presence("MENUS"));
    assert!(matches!(
        wait_for_menu_ws(&live, MenuReply::Socket(SocketReply::Message(menus))),
        ListenAction::Done
    ));
    assert!(matches!(
        wait_for_menu_ws(&live, MenuReply::Socket(SocketReply::Message(Frame::Other))),
        ListenAction::Read
    ));
    assert!(matches!(
        wait_for_menu_ws(&live, MenuReply::Socket(SocketReply::Message(Frame::Close))),
        ListenAction::Fail(ListenError::Closed)
    ));
    assert!(matches!(
        wait_for_menu_ws(&live, MenuReply::Socket(SocketReply::Ended)),
        ListenAction::Fail(ListenError::Ended)
    ));
}

#[test]
fn lobbies_are_announced() {
    let live = live();
    assert!(matches!(
        listen_for_pregame_ws(&live, LobbyReply::Started),
        ListenAction::FetchEvents
    ));
    assert!(matches!(
        listen_for_pregame_ws(&live, LobbyReply::Socket(SocketReply::Events(Vec::new()))),
        ListenAction::Fail(ListenError::NoEvents)
    ));
    let lobby = Frame::Text(presence("PREGAME"));
    assert!(matches!(
        listen_for_pregame_ws(&live, LobbyReply::Socket(SocketReply::Message(lobby))),
        ListenAction::Announce
    ));
    assert!(matches!(
        listen_for_pregame_ws(&live, LobbyReply::Announced),
        ListenAction::Read
    ));
    let menus = Frame::Text(presence("MENUS"));
    assert!(matches!(
        listen_for_pregame_ws(&live, LobbyReply::Socket(SocketReply::Message(menus))),
        ListenAction::Read
    ));
    assert!(matches!(
        listen_for_pregame_ws(&live, LobbyReply::Socket(SocketReply::Message(Frame::Close))),
        ListenAction::Fail(ListenError::Closed)
    ));
    assert!(matches!(
        listen_for_pregame_ws(&live, LobbyReply::Socket(SocketReply::Ended)),
        ListenAction::Fail(ListenError::Ended)
    ));
}

#[test]
fn ends_of_listening_are_described() {
    assert_eq!(
        ListenError::NoEvents.message(),
        "local Riot Client returned no websocket events"
    );
    assert_eq!(ListenError::Closed.message(), "Riot Client websocket closed");
    assert_eq!(ListenError::Ended.message(), "Riot Client websocket ended");
    assert_eq!(
        ListenError::ChannelClosed.message(),
        "Riot Client websocket event channel closed"
    );
}

#[test]
fn dashboard_tries_a_hundred_ports() {
    assert_eq!(dashboard_port(0), Some(8787));
    assert_eq!(dashboard_port(99), Some(8886));
    assert_eq!(dashboard_port(100), None);
    assert_eq!(dashboard_port(u16::MAX), None);
}
