use lockin::maps::{is_bomb_site_map, ranked_pool_names, RotationMap};

#[test]
fn treats_non_rotated_out_statuses_as_ranked_pool() {
    let names = ranked_pool_names(vec![
        RotationMap {
            name_en: "Haven".to_string(),
            status: "in_pool".to_string(),
        },
        RotationMap {
            name_en: "Ascent".to_string(),
            status: "returning".to_string(),
        },
        RotationMap {
            name_en: "Bind".to_string(),
            status: "rotated_out".to_string(),
        },
    ]);

    assert!(names.contains("haven"));
    assert!(names.contains("ascent"));
    assert!(!names.contains("bind"));
}

#[test]
fn identifies_bomb_site_maps() {
    assert!(is_bomb_site_map(&Some("A/B Sites".to_string())));
    assert!(is_bomb_site_map(&Some("A/B/C Sites".to_string())));
    assert!(!is_bomb_site_map(&None));
    assert!(!is_bomb_site_map(&Some("Event Map".to_string())));
}
