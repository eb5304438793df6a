use base64::engine::general_purpose::STANDARD;
use base64::Engine;
use lockin::json::{json_from_value, parse_json, Json};
use lockin::presence::{
    decode_presence_private, decoded_text, find_private_presence_for_puuid,
    get_local_player_session_loop_state, is_loop_state, presence_has_pregame_state,
    presence_session_loop_state, websocket_message_is_pregame_for_player,
    websocket_message_session_loop_state_for_player, PresenceError,
};
use lockin::region::{
    extract_glz_url_from_log, find_arg_value, normalize_glz_region, parse_glz_host,
    parse_region_shard, resolve_glz_base, shard_for_region,
};
use lockin::riot::{
    build_live_context, find_valorant_session, get_pregame_match, get_pregame_player,
    local_endpoint, local_endpoint_url, local_get, lock_agent, parse_lockfile, post_agent_action,
    pregame_match_url, pregame_player_url, riot_headers, select_agent, Entitlements, LiveContext,
    LocalEndpoint, Lockfile, PregameApiError, RiotError, Status, CLIENT_PLATFORM,
};

fn json(text: &str) -> Json {
    parse_json(text).unwrap()
}

fn arg(text: &str) -> Json {
    Json::Text(text.to_string())
}

fn status(code: u16) -> Status {
    Status::new(code).unwrap()
}

#[test]
fn lockfile_is_read() {
    let lockfile = parse_lockfile("Riot Client:1234:5678:secret:https").unwrap();
    assert_eq!(lockfile.port, 5678);
    assert_eq!(lockfile.password, "secret");

    let lockfile = parse_lockfile(":::::").err();
    assert_eq!(lockfile, Some(RiotError::LockfileFormat));
    assert_eq!(parse_lockfile("").err(), Some(RiotError::LockfileFormat));
    assert_eq!(parse_lockfile("a:b:1:c").err(), Some(RiotError::LockfileFormat));
    assert_eq!(
        parse_lockfile("a:b:70000:c:d").err(),
        Some(RiotError::LockfilePort)
    );
    assert_eq!(parse_lockfile("a:b::c:d").err(), Some(RiotError::LockfilePort));
}

#[test]
fn local_service_is_addressed() {
    let endpoint = local_endpoint(&Lockfile {
        port: 5678,
        password: "secret".to_string(),
    });

    assert_eq!(endpoint.base, "https://127.0.0.1:5678");
    assert_eq!(endpoint.auth, "Basic cmlvdDpzZWNyZXQ=");
    let credentials = STANDARD.decode(endpoint.auth.strip_prefix("Basic ").unwrap());
    assert_eq!(credentials.unwrap(), b"riot:secret");
    assert_eq!(
        local_endpoint_url(&endpoint.base, "help"),
        "https://127.0.0.1:5678/help"
    );
}

#[test]
fn failures_to_reach_the_services_are_described() {
    assert_eq!(
        RiotError::LockfileFormat.message(),
        "Riot lockfile had unexpected format"
    );
    assert_eq!(RiotError::LockfilePort.message(), "lockfile port was invalid");
    assert_eq!(
        RiotError::SessionNotFound.message(),
        "Valorant session was not found; start Valorant before arming"
    );
    assert_eq!(
        RiotError::ClientVersionMissing.message(),
        "Valorant session did not include client version"
    );
    assert_eq!(
        RiotError::RegionUnknown.message(),
        "could not determine Valorant region/shard"
    );
}

#[test]
fn statuses_have_three_digits() {
    assert!(Status::new(99).is_none());
    assert!(Status::new(1000).is_none());
    assert_eq!(status(404).text(), "404 Not Found");
    assert_eq!(status(200).text(), "200 OK");
    assert_eq!(status(599).text(), "599 <unknown status code>");
    for code in 100..=999 {
        let outside = reqwest::StatusCode::from_u16(code).unwrap();
        assert_eq!(status(code).is_success(), outside.is_success());
        assert_eq!(status(code).text(), outside.to_string());
        assert!(status(code).is(code) && !status(code).is(code + 1));
    }
}

#[test]
fn answers_of_the_pregame_service_are_read() {
    let found = json(r#"{"MatchID":"match"}"#);
    let id = get_pregame_player(status(200), &found).unwrap();
    assert_eq!(id.as_deref(), Some("match"));
    assert_eq!(get_pregame_player(status(404), &found).unwrap(), None);
    assert_eq!(get_pregame_player(status(200), &json("{}")).unwrap(), None);
    assert_eq!(
        get_pregame_player(status(200), &json(r#"{"MatchID":5}"#)).unwrap(),
        None
    );
    let refused = get_pregame_player(status(500), &found).unwrap_err();
    assert!(!refused.is_transient());
    assert_eq!(
        refused.message(),
        "Pregame player request failed with 500 Internal Server Error"
    );

    assert!(get_pregame_match(status(200)).is_ok());
    let refused = get_pregame_match(status(404)).unwrap_err();
    assert!(refused.is_transient());
    assert_eq!(
        refused.message(),
        "Pregame match request failed with 404 Not Found"
    );

    assert!(post_agent_action(status(204), "lock").is_ok());
    let refused = post_agent_action(status(400), "lock").unwrap_err();
    assert!(refused.is_transient());
    assert_eq!(refused.message(), "lock request failed with 400 Bad Request");
    assert!(PregameApiError::PlayerRequest(status(404)).is_transient());
    assert!(!PregameApiError::PlayerRequest(status(400)).is_transient());

    assert!(local_get("help", status(200)).is_ok());
    assert_eq!(
        local_get("help", status(403)).unwrap_err(),
        "local endpoint help failed with 403 Forbidden"
    );
}

fn live() -> LiveContext {
    LiveContext {
        local_base: "https://127.0.0.1:1".to_string(),
        local_auth: "Basic token".to_string(),
        glz_base: "https://glz-na-1.na.a.pvp.net".to_string(),
        puuid: "me".to_string(),
        access_token: "access".to_string(),
        entitlement_token: "entitlement".to_string(),
        client_version: "version".to_string(),
        select_before_lock: false,
    }
}

#[test]
fn requests_to_the_pregame_service_are_addressed() {
    let live = live();
    assert_eq!(
        pregame_player_url(&live),
        "https://glz-na-1.na.a.pvp.net/pregame/v1/players/me"
    );
    assert_eq!(
        pregame_match_url(&live, "match"),
        "https://glz-na-1.na.a.pvp.net/pregame/v1/matches/match"
    );
    assert_eq!(
        select_agent(&live, "match", "jett"),
        "https://glz-na-1.na.a.pvp.net/pregame/v1/matches/match/select/jett"
    );
    assert_eq!(
        lock_agent(&live, "match", "jett"),
        "https://glz-na-1.na.a.pvp.net/pregame/v1/matches/match/lock/jett"
    );
    let headers = riot_headers(&live);
    assert_eq!(
        headers,
        vec![
            ("X-Riot-Entitlements-JWT", "entitlement".to_string()),
            ("X-Riot-ClientVersion", "version".to_string()),
            ("X-Riot-ClientPlatform", CLIENT_PLATFORM.to_string()),
        ]
    );
    let platform = STANDARD.decode(CLIENT_PLATFORM).unwrap();
    assert!(String::from_utf8(platform).unwrap().contains("Windows"));
}

#[test]
fn game_server_is_read_from_a_host_name() {
    assert_eq!(
        parse_glz_host("-config=https://glz-latam-1.na.a.pvp.net/x"),
        Some(("latam".to_string(), "na".to_string()))
    );
    assert_eq!(
        parse_glz_host("glz-eu-1.eu"),
        Some(("eu".to_string(), "eu".to_string()))
    );
    assert_eq!(parse_glz_host("glz-eu-2.eu.a.pvp.net"), None);
    assert_eq!(parse_glz_host("nothing"), None);
    assert_eq!(parse_glz_host("glz-glz-eu-1.eu.a.pvp.net"), None);
}

#[test]
fn game_server_is_read_from_the_arguments() {
    assert_eq!(
        parse_region_shard(&vec![arg("glz-br-1.na.a.pvp.net"), arg("-ares-region=eu")], "eu"),
        Ok(("br".to_string(), "na".to_string()))
    );
    assert_eq!(
        parse_region_shard(&vec![Json::Scalar, arg("ares-region=kr")], "eu"),
        Ok(("kr".to_string(), "kr".to_string()))
    );
    assert_eq!(
        parse_region_shard(&Vec::new(), "ap"),
        Ok(("ap".to_string(), "ap".to_string()))
    );
    assert_eq!(
        parse_region_shard(&vec![arg("-ares-deployment=")], "eu"),
        Err(RiotError::RegionUnknown)
    );
    assert_eq!(
        parse_region_shard(&vec![arg("-ares-region="), arg("-ares-deployment=x")], "eu"),
        Err(RiotError::RegionUnknown)
    );
    assert_eq!(
        find_arg_value(&vec!["-a=1", "-b=2", "-b=3"], "-b="),
        Some("2".to_string())
    );
    assert_eq!(find_arg_value(&vec!["-a=1"], "-b="), None);
}

#[test]
fn regions_fit_their_shards() {
    for (region, shard) in
        [("na", "na"), ("latam", "na"), ("br", "na"), ("eu", "eu"), ("ap", "ap"), ("kr", "kr"), ("x", "na")]
    {
        assert_eq!(shard_for_region(region), shard);
    }
    assert_eq!(normalize_glz_region("na", "eu", "na"), "eu");
    assert_eq!(normalize_glz_region("br", "na", "eu"), "br");
    assert_eq!(normalize_glz_region("eu", "na", "latam"), "latam");
    assert_eq!(normalize_glz_region("eu", "na", "eu"), "na");
    assert_eq!(normalize_glz_region("eu", "pbe", "eu"), "na");
    assert_eq!(normalize_glz_region("eu", "other", "na"), "eu");
}

#[test]
fn game_server_of_the_log_comes_first() {
    let log = "x https://glz-kr-1.kr.a.pvp.net/y";
    assert_eq!(
        resolve_glz_base(Some(log), &Vec::new(), "eu"),
        Ok("https://glz-kr-1.kr.a.pvp.net".to_string())
    );
    assert_eq!(
        resolve_glz_base(Some("no server"), &Vec::new(), "eu"),
        Ok("https://glz-eu-1.eu.a.pvp.net".to_string())
    );
    assert_eq!(
        resolve_glz_base(None, &vec![arg("-ares-deployment=")], "eu"),
        Err(RiotError::RegionUnknown)
    );
    assert_eq!(extract_glz_url_from_log("https://glz-eu-1.eu"), None);
    assert_eq!(
        extract_glz_url_from_log("https://glz-a-1.a.a.pvp.net https://glz-b"),
        None
    );
}

#[test]
fn built_address_reads_back() {
    let url = resolve_glz_base(None, &Vec::new(), "ap").unwrap();

    assert_eq!(parse_glz_host(&url), Some(("ap".to_string(), "ap".to_string())));
    assert_eq!(extract_glz_url_from_log(&format!("log {url}/x")), Some(url));
}

fn sessions() -> Json {
    json(
        r#"{
            "a": {"productId": "riot"},
            "b": {
                "productId": "valorant",
                "version": "release-1",
                "launchConfiguration": {"arguments": [1, "-ares-region=latam", "-ares-deployment=na"]}
            }
        }"#,
    )
}

fn entitlements() -> Entitlements {
    Entitlements {
        access_token: "access".to_string(),
        subject: "me".to_string(),
        token: "entitlement".to_string(),
    }
}

fn local() -> LocalEndpoint {
    LocalEndpoint {
        base: "https://127.0.0.1:1".to_string(),
        auth: "Basic token".to_string(),
    }
}

#[test]
fn live_data_are_put_together() {
    let live = build_live_context(local(), entitlements(), "eu", &sessions(), None).unwrap();

    assert_eq!(live.local_base, "https://127.0.0.1:1");
    assert_eq!(live.local_auth, "Basic token");
    assert_eq!(live.glz_base, "https://glz-latam-1.na.a.pvp.net");
    assert_eq!(live.puuid, "me");
    assert_eq!(live.access_token, "access");
    assert_eq!(live.entitlement_token, "entitlement");
    assert_eq!(live.client_version, "release-1");
    assert!(!live.select_before_lock);

    let log = Some("https://glz-eu-1.eu.a.pvp.net");
    let live = build_live_context(local(), entitlements(), "eu", &sessions(), log).unwrap();
    assert_eq!(live.glz_base, "https://glz-eu-1.eu.a.pvp.net");
}

#[test]
fn live_data_need_a_session() {
    let failure = |sessions: &str| {
        build_live_context(local(), entitlements(), "eu", &json(sessions), None).err()
    };

    assert_eq!(failure("{}"), Some(RiotError::SessionNotFound));
    assert_eq!(failure("[]"), Some(RiotError::SessionNotFound));
    assert_eq!(
        failure(r#"{"a":{"productId":"Valorant"}}"#),
        Some(RiotError::SessionNotFound)
    );
    assert_eq!(
        failure(r#"{"a":{"productId":"valorant"}}"#),
        Some(RiotError::ClientVersionMissing)
    );
    assert_eq!(
        failure(
            r#"{"a":{"productId":"valorant","version":"1",
                "launchConfiguration":{"arguments":["-ares-deployment="]}}}"#
        ),
        Some(RiotError::RegionUnknown)
    );
    assert!(failure(r#"{"a":{"productId":"valorant","version":"1"}}"#).is_none());
    let sessions = sessions();
    let session = find_valorant_session(&sessions).unwrap();
    assert_eq!(session.get_str("version"), Some("release-1"));
}

#[test]
fn json_values_are_taken_over() {
    let value: serde_json::Value =
        serde_json::from_str(r#"{"a":[null,true,1,"x",{"b":"c"}]}"#).unwrap();
    let taken = json_from_value(&value);

    let items = taken.get("a").unwrap().as_array().unwrap();
    assert_eq!(items.len(), 5);
    assert!(matches!(items[0], Json::Scalar));
    assert!(matches!(items[1], Json::Scalar));
    assert!(matches!(items[2], Json::Scalar));
    assert_eq!(items[3].as_str(), Some("x"));
    assert_eq!(items[4].get_str("b"), Some("c"));
    assert!(taken.get("b").is_none());
    assert!(items[3].get("a").is_none() && items[3].as_array().is_none());
    assert!(items[0].as_str().is_none());
    assert!(parse_json("{").is_none());
    assert!(parse_json("").is_none());
}

#[test]
fn private_parts_are_decoded() {
    assert_eq!(decode_presence_private("aGk=").unwrap(), "hi");
    assert_eq!(decode_presence_private("aGk").unwrap(), "hi");
    assert_eq!(decode_presence_private("").unwrap(), "");
    assert_eq!(decode_presence_private("a-b"), Err(PresenceError::Base64));
    assert_eq!(decode_presence_private("/w=="), Err(PresenceError::Utf8));
    assert_eq!(decoded_text(Some(vec![0xc3, 0xa9])).unwrap(), "\u{e9}");
    assert_eq!(decoded_text(Some(vec![0xff])), Err(PresenceError::Utf8));
    assert_eq!(decoded_text(None), Err(PresenceError::Base64));
    assert_eq!(
        PresenceError::Base64.message(),
        "failed to decode base64 presence"
    );
    assert_eq!(PresenceError::Utf8.message(), "presence was not valid UTF-8");
}

#[test]
fn own_presence_is_found_anywhere() {
    let value = json(
        r#"[8,"x",{"data":{"presences":[
            {"puuid":"you","private":"yours"},
            {"inner":{"pid":"ME","private":"mine"}}
        ]}}]"#,
    );
    assert_eq!(find_private_presence_for_puuid(&value, "me"), Some("mine"));
    assert_eq!(find_private_presence_for_puuid(&value, "YOU"), Some("yours"));
    assert_eq!(find_private_presence_for_puuid(&value, "nobody"), None);
}

#[test]
fn first_spelling_of_the_player_counts() {
    for name in ["puuid", "Puuid", "PUUID", "pid"] {
        let value = json(&format!("{{\"{name}\":\"me\",\"private\":\"mine\"}}"));
        assert_eq!(find_private_presence_for_puuid(&value, "me"), Some("mine"));
    }
    let value = json(r#"{"puuid":"you","pid":"me","private":"yours"}"#);
    assert_eq!(find_private_presence_for_puuid(&value, "me"), None);
    let value = json(r#"{"puuid":1,"pid":"me","private":"yours"}"#);
    assert_eq!(find_private_presence_for_puuid(&value, "me"), None);
    let value = json(r#"{"puuid":"me","private":1,"more":{"puuid":"me","private":"inner"}}"#);
    assert_eq!(find_private_presence_for_puuid(&value, "me"), Some("inner"));
}

#[test]
fn session_states_are_read() {
    let nested = json(r#"{"matchPresenceData":{"sessionLoopState":"PREGAME"}}"#);
    assert_eq!(presence_session_loop_state(&nested), Some("PREGAME"));
    assert!(presence_has_pregame_state(&nested));
    let both = json(
        r#"{"sessionLoopState":"MENUS","matchPresenceData":{"sessionLoopState":"PREGAME"}}"#,
    );
    assert_eq!(presence_session_loop_state(&both), Some("MENUS"));
    assert!(!presence_has_pregame_state(&both));
    let odd = json(r#"{"sessionLoopState":1,"matchPresenceData":{"sessionLoopState":"PREGAME"}}"#);
    assert_eq!(presence_session_loop_state(&odd), None);
    assert!(is_loop_state(Some("menus"), "MENUS"));
    assert!(!is_loop_state(None, "MENUS"));
}

fn listed(product: &str, puuid: &str, state: &str) -> String {
    let private = STANDARD.encode(format!("{{\"sessionLoopState\":\"{state}\"}}"));
    format!("{{{product}\"puuid\":\"{puuid}\",\"private\":\"{private}\"}}")
}

#[test]
fn listed_presences_of_the_game_count() {
    let body = |presences: &[String]| json(&format!("{{\"presences\":[{}]}}", presences.join(",")));
    let other = listed("\"product\":\"league_of_legends\",", "me", "PREGAME");
    let own = listed("\"product\":\"VALORANT\",", "me", "INGAME");
    let bare = listed("", "me", "MENUS");
    let broken = "{\"puuid\":\"me\",\"private\":\"?\"}".to_string();

    let state = |presences: &[String]| get_local_player_session_loop_state(&body(presences), "ME");
    assert_eq!(state(&[other.clone(), own.clone()]).as_deref(), Some("INGAME"));
    assert_eq!(state(&[bare, own.clone()]).as_deref(), Some("MENUS"));
    assert_eq!(state(&[broken, own]).as_deref(), Some("INGAME"));
    assert_eq!(state(&[other]), None);
    assert_eq!(state(&[]), None);
    assert_eq!(get_local_player_session_loop_state(&json("{}"), "me"), None);
    assert_eq!(
        get_local_player_session_loop_state(&json(r#"{"presences":{}}"#), "me"),
        None
    );
}

#[test]
fn messages_tell_the_session_state_of_the_player() {
    let message = listed("", "me", "Pregame");
    assert!(websocket_message_is_pregame_for_player(&message, "ME"));
    assert!(!websocket_message_is_pregame_for_player(&message, "you"));
    assert!(!websocket_message_is_pregame_for_player("no json", "me"));
    assert_eq!(
        websocket_message_session_loop_state_for_player(&message, "me").as_deref(),
        Some("Pregame")
    );
    assert!(!websocket_message_is_pregame_for_player(
        &listed("", "me", "MENUS"),
        "me"
    ));
}
