use base64::engine::general_purpose::STANDARD;
use base64::Engine;
use lockin::json::Json;
use lockin::presence::websocket_message_session_loop_state_for_player;
use lockin::region::{extract_glz_url_from_log, parse_region_shard};
use serde_json::Value;

fn arg(text: &str) -> Json {
    Json::Text(text.to_string())
}

fn message(puuid: &str, private: &str) -> String {
    let mut object = serde_json::Map::new();
    object.insert("puuid".to_string(), Value::String(puuid.to_string()));
    object.insert("private".to_string(), Value::String(private.to_string()));
    Value::Object(object).to_string()
}

#[test]
fn normalizes_invalid_na_region_with_eu_shard() {
    let args = vec![arg("-ares-region=na"), arg("-ares-deployment=eu")];

    let (region, shard) = parse_region_shard(&args, "eu").unwrap();

    assert_eq!(region, "eu");
    assert_eq!(shard, "eu");
}

#[test]
fn preserves_na_shard_subregions() {
    let args = vec![arg("-ares-region=latam"), arg("-ares-deployment=na")];

    let (region, shard) = parse_region_shard(&args, "latam").unwrap();

    assert_eq!(region, "latam");
    assert_eq!(shard, "na");
}

#[test]
fn extracts_last_glz_url_from_shooter_log() {
    let log = "\
            request https://glz-na-1.na.a.pvp.net/pregame/v1/players/foo\n\
            request https://glz-eu-1.eu.a.pvp.net/pregame/v1/players/bar\n";

    let url = extract_glz_url_from_log(log).unwrap();

    assert_eq!(url, "https://glz-eu-1.eu.a.pvp.net");
}

#[test]
fn detects_top_level_menus_presence_state() {
    let private = STANDARD.encode(r#"{"sessionLoopState":"MENUS"}"#);
    let message = message("me", &private);

    let state = websocket_message_session_loop_state_for_player(&message, "me");

    assert_eq!(state.as_deref(), Some("MENUS"));
}

#[test]
fn detects_nested_ingame_presence_state() {
    let private = STANDARD.encode(r#"{"matchPresenceData":{"sessionLoopState":"INGAME"}}"#);
    let message = message("me", &private);

    let state = websocket_message_session_loop_state_for_player(&message, "me");

    assert_eq!(state.as_deref(), Some("INGAME"));
}

#[test]
fn ignores_malformed_presence_state() {
    let message = message("me", "not-base64");

    let state = websocket_message_session_loop_state_for_player(&message, "me");

    assert_eq!(state, None);
}
