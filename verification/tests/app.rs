use lockin::app::{clean_map_urls, Config, DetectionMode, UiPhase};

#[test]
fn default_detection_mode_is_hybrid() {
    assert_eq!(Config::default().detection_mode, DetectionMode::Hybrid);
}

#[test]
fn ui_phase_serializes_as_snake_case_string() {
    assert_eq!(
        serde_json::to_string(UiPhase::ResolvingMatch.name()).unwrap(),
        r#""resolving_match""#
    );
    assert_eq!(
        serde_json::to_string(UiPhase::LockedOtherAgent.name()).unwrap(),
        r#""locked_other_agent""#
    );
}

#[test]
fn cleans_selected_map_urls() {
    let map_urls = clean_map_urls(vec![
        " /Game/Maps/Ascent/Ascent ".to_string(),
        "/game/maps/ascent/ascent".to_string(),
        "".to_string(),
        "/Game/Maps/Haven/Haven".to_string(),
    ]);

    assert_eq!(
        map_urls,
        vec![
            "/Game/Maps/Ascent/Ascent".to_string(),
            "/Game/Maps/Haven/Haven".to_string()
        ]
    );
}
