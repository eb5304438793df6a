use lockin::agents::fetch_agents;
use lockin::app::{Agent, GameMap};
use lockin::assignments::MapAgents;
use lockin::maps::{
    fetch_maps, fetch_valorant_api_maps, ranked_pool_names, ApiMap, NameSet, RotationMap,
};
use lockin::sorting::sort;

fn agent(uuid: &str, name: &str, role: Option<&str>) -> Agent {
    Agent {
        uuid: uuid.to_string(),
        display_name: name.to_string(),
        display_icon: None,
        role: role.map(ToString::to_string),
    }
}

fn api_map(uuid: &str, name: &str, url: &str, sites: Option<&str>) -> ApiMap {
    ApiMap {
        uuid: uuid.to_string(),
        display_name: name.to_string(),
        display_icon: Some("icon".to_string()),
        list_view_icon: None,
        splash: Some("splash".to_string()),
        map_url: url.to_string(),
        tactical_description: sites.map(ToString::to_string),
    }
}

fn rotation(name: &str, status: &str) -> RotationMap {
    RotationMap {
        name_en: name.to_string(),
        status: status.to_string(),
    }
}

fn uuids(agents: &[Agent]) -> Vec<&str> {
    agents.iter().map(|agent| agent.uuid.as_str()).collect()
}

fn names(maps: &[GameMap]) -> Vec<&str> {
    maps.iter().map(|map| map.display_name.as_str()).collect()
}

#[test]
fn agents_are_listed_by_role_and_name() {
    let agents = fetch_agents(vec![
        agent("1", "Sova", Some("Initiator")),
        agent("2", "Jett", Some("Duelist")),
        agent("3", "Breach", Some("Initiator")),
        agent("4", "Test", None),
        agent("5", "Jett", Some("Duelist")),
        agent("6", "Iso", Some("Duelist")),
    ]);

    assert_eq!(uuids(&agents), vec!["4", "6", "2", "5", "3", "1"]);
}

#[test]
fn sorting_is_that_of_a_stable_sort() {
    let roles = [None, Some("a"), Some("b"), Some("\u{e9}"), Some("\u{10000}")];
    let mut agents = Vec::new();
    for i in 0..60usize {
        let name = ["x", "Y", "z"][i * 7 % 3];
        agents.push(agent(&i.to_string(), name, roles[i * 11 % 5]));
    }
    let mut wanted = agents.clone();
    wanted.sort_by(|a, b| {
        a.role
            .cmp(&b.role)
            .then_with(|| a.display_name.cmp(&b.display_name))
    });

    let sorted = sort(agents);

    assert_eq!(uuids(&sorted), uuids(&wanted));
    assert_eq!(uuids(&sort(sorted.clone())), uuids(&sorted));
    assert!(sort(Vec::<Agent>::new()).is_empty());
}

#[test]
fn maps_of_the_ranked_pool_come_first() {
    let data = || {
        vec![
            api_map("1", "Split", "/Split", Some("A/B Sites")),
            api_map("2", "Range", "/Range", None),
            api_map("3", "Haven", "/Haven", Some("A/B/C Sites")),
            api_map("4", "Blank", "  ", Some("A/B Sites")),
            api_map("5", "Ascent", "/Ascent", Some("A/B Sites")),
            api_map("6", "Abyss", "/Abyss", Some("A/B Sites")),
        ]
    };
    let pool = vec![rotation("SPLIT", "in_pool"), rotation("Haven", "Returning"), rotation("Abyss", "ROTATED_OUT")];

    let maps = fetch_maps(data(), Some(pool));
    assert_eq!(names(&maps), vec!["Haven", "Split", "Abyss", "Ascent"]);
    let ranked: Vec<bool> = maps.iter().map(|map| map.in_ranked_pool).collect();
    assert_eq!(ranked, vec![true, true, false, false]);
    assert_eq!(maps[0].uuid, "3");
    assert_eq!(maps[0].map_url, "/Haven");
    assert_eq!(maps[0].display_icon.as_deref(), Some("icon"));
    assert_eq!(maps[0].splash.as_deref(), Some("splash"));
    assert_eq!(maps[0].list_view_icon, None);

    let maps = fetch_maps(data(), None);
    assert_eq!(names(&maps), vec!["Abyss", "Ascent", "Haven", "Split"]);
    assert!(maps.iter().all(|map| !map.in_ranked_pool));

    let maps = fetch_valorant_api_maps(data());
    assert_eq!(names(&maps), vec!["Split", "Haven", "Ascent", "Abyss"]);
}

#[test]
fn names_are_in_a_set_once() {
    let mut set = NameSet::new();
    assert!(!set.contains("a"));
    set.insert("a".to_string());
    set.insert("a".to_string());
    set.insert("b".to_string());
    assert!(set.contains("a") && set.contains("b") && !set.contains("A"));

    let pool = ranked_pool_names(vec![rotation("A", "rotated_out"), rotation("a", "new")]);
    assert!(pool.contains("a"));
}

#[test]
fn assigned_agents_are_found_in_any_case() {
    let mut agents = MapAgents::new();
    assert!(agents.is_empty());
    agents.insert("/Game/B".to_string(), "two".to_string());
    agents.insert("/Game/A".to_string(), "one".to_string());
    agents.insert("/Game/C".to_string(), "three".to_string());
    agents.insert("/Game/B".to_string(), "TWO".to_string());

    assert!(!agents.is_empty());
    assert_eq!(agents.agents(), vec!["one", "TWO", "three"]);
    assert_eq!(agents.agent_for("/game/b").map(String::as_str), Some("TWO"));
    assert_eq!(agents.agent_for("/GAME/A").map(String::as_str), Some("one"));
    assert_eq!(agents.agent_for("/game/d"), None);
    assert_eq!(agents.clone().pairs(), agents.pairs());
}

#[test]
fn assignments_stand_in_the_order_of_a_tree() {
    let mut tree = std::collections::BTreeMap::new();
    let mut agents = MapAgents::new();
    for i in 0..50usize {
        let map = format!("{}{}", ["b", "a", "\u{e9}", "B", ""][i % 5], i * 17 % 23);
        tree.insert(map.clone(), i.to_string());
        agents.insert(map, i.to_string());
    }

    let wanted: Vec<(String, String)> = tree.into_iter().collect();
    assert_eq!(agents.pairs(), &wanted);
}

#[test]
fn first_of_two_spellings_counts() {
    let mut agents = MapAgents::new();
    agents.insert("/a".to_string(), "lower".to_string());
    agents.insert("/A".to_string(), "upper".to_string());

    assert_eq!(agents.agent_for("/a").map(String::as_str), Some("upper"));
}
