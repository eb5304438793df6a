//! Which agent to lock: what the configuration asks for, and what a lobby already has.
use vstd::prelude::*;

use crate::app::{agent_views, is_listed, listed, map_views, Agent, AgentView, Config, ConfigView, GameMap, InnerState, InnerView, MapView, SelectionMode};
use crate::assignments::{assigned_agents, first_assigned};
use crate::riot::{PregameMatch, PregamePlayer};
use crate::text::{after_last, cut_after_last, eq_ignore_ascii_case, same, same_ignoring_case, texts_of};

verus! {

/// How the agent to lock is chosen while armed.
#[derive(Clone, Debug)]
pub enum AgentSelectionStrategy {
    /// That agent on all maps that are allowed.
    Global { selected_agent_uuid: String },
    /// On each map the agent that is assigned to it.
    PerMap,
}

/// The mathematical model of a strategy.
pub enum StrategyView {
    Global(Seq<char>),
    PerMap,
}

impl View for AgentSelectionStrategy {
    type V = StrategyView;

    open spec fn view(&self) -> StrategyView {
        match self {
            AgentSelectionStrategy::Global { selected_agent_uuid } => StrategyView::Global(
                selected_agent_uuid@,
            ),
            AgentSelectionStrategy::PerMap => StrategyView::PerMap,
        }
    }
}

/// The agents that a configuration may lead to lock.
pub open spec fn wanted_agents(config: ConfigView) -> Seq<Seq<char>> {
    match config.selection_mode {
        SelectionMode::Global => match config.selected_agent_uuid {
            Some(agent) => seq![agent],
            None => seq![],
        },
        SelectionMode::PerMap => assigned_agents(config.per_map_agent_uuids),
    }
}

/// The strategy that a configuration asks for, or what the user is told if it asks for none.
pub open spec fn wanted_strategy(config: ConfigView) -> Result<StrategyView, Seq<char>> {
    match config.selection_mode {
        SelectionMode::Global => match config.selected_agent_uuid {
            Some(agent) => Ok(StrategyView::Global(agent)),
            None => Err("Select an agent before arming."@),
        },
        SelectionMode::PerMap => if config.per_map_agent_uuids.len() == 0 {
            Err("Select at least one per-map agent before arming."@)
        } else {
            Ok(StrategyView::PerMap)
        },
    }
}

/// The agents that the configuration may lead to lock.
pub fn assigned_agent_uuids(config: &Config) -> (r: Vec<&str>)
    ensures
        texts_of(r@) == wanted_agents(config@),
{
    match config.selection_mode {
        SelectionMode::Global => {
            let mut r: Vec<&str> = Vec::new();
            if let Some(agent) = &config.selected_agent_uuid {
                r.push(agent.as_str());
            }
            assert(texts_of(r@) =~= wanted_agents(config@));
            r
        },
        SelectionMode::PerMap => config.per_map_agent_uuids.agents(),
    }
}

/// The strategy that the configuration asks for, or what the user is told if it asks for none.
pub fn strategy_from_config(config: &Config) -> (r: Result<AgentSelectionStrategy, &'static str>)
    ensures
        match r {
            Ok(strategy) => wanted_strategy(config@) == Ok::<StrategyView, Seq<char>>(strategy@),
            Err(message) => wanted_strategy(config@) == Err::<StrategyView, Seq<char>>(message@),
        },
{
    match config.selection_mode {
        SelectionMode::Global => match &config.selected_agent_uuid {
            Some(agent) => Ok(
                AgentSelectionStrategy::Global { selected_agent_uuid: agent.clone() },
            ),
            None => Err("Select an agent before arming."),
        },
        SelectionMode::PerMap => if config.per_map_agent_uuids.is_empty() {
            Err("Select at least one per-map agent before arming.")
        } else {
            Ok(AgentSelectionStrategy::PerMap)
        },
    }
}

/// Whether there is an agent of that identity.
pub open spec fn is_agent(agents: Seq<AgentView>, uuid: Seq<char>) -> bool {
    exists|i: int| 0 <= i < agents.len() && (#[trigger] agents[i]).uuid == uuid
}

/// Whether all agents that the configuration may lead to lock are known. As long as no agents are
/// known, that is not asked.
pub open spec fn agents_known(inner: InnerView) -> bool {
    inner.agents.len() == 0 || forall|i: int|
        0 <= i < wanted_agents(inner.config).len() ==> is_agent(
            inner.agents,
            #[trigger] wanted_agents(inner.config)[i],
        )
}

/// Whether there is an agent of that identity.
fn has_agent(agents: &Vec<Agent>, uuid: &str) -> (r: bool)
    ensures
        r == is_agent(agent_views(agents@), uuid@),
{
    let ghost views = agent_views(agents@);
    for i in 0..agents.len()
        invariant
            views == agent_views(agents@),
            forall|j: int| 0 <= j < i ==> (#[trigger] views[j]).uuid != uuid@,
    {
        assert(views[i as int].uuid == agents@[i as int].uuid@);
        if same(agents[i].uuid.as_str(), uuid) {
            return true;
        }
    }
    false
}

/// Whether all agents that the configuration may lead to lock are known. As long as no agents are
/// known, that is not asked.
pub fn agents_are_known(inner: &InnerState) -> (r: bool)
    ensures
        r == agents_known(inner@),
{
    if inner.agents.len() == 0 {
        return true;
    }
    let wanted = assigned_agent_uuids(&inner.config);
    for i in 0..wanted.len()
        invariant
            inner.agents.len() > 0,
            texts_of(wanted@) == wanted_agents(inner@.config),
            forall|j: int|
                0 <= j < i ==> is_agent(
                    inner@.agents,
                    #[trigger] wanted_agents(inner@.config)[j],
                ),
    {
        assert(wanted_agents(inner@.config)[i as int] == wanted@[i as int]@);
        assert(inner@.agents.len() == inner.agents.len());
        if !has_agent(&inner.agents, wanted[i]) {
            return false;
        }
    }
    assert(texts_of(wanted@).len() == wanted@.len());
    true
}

/// What to do in a lobby on some map.
pub enum MapAgentDecision {
    /// Lock that agent.
    Lock(String),
    /// Lock none, for that reason.
    Skip(String),
}

/// The mathematical model of what to do in a lobby.
pub enum DecisionView {
    Lock(Seq<char>),
    Skip(Seq<char>),
}

impl View for MapAgentDecision {
    type V = DecisionView;

    open spec fn view(&self) -> DecisionView {
        match self {
            MapAgentDecision::Lock(agent) => DecisionView::Lock(agent@),
            MapAgentDecision::Skip(reason) => DecisionView::Skip(reason@),
        }
    }
}

/// Whether the one agent for all maps may be locked on a map: it is selected, or none is.
pub open spec fn map_allowed(config: ConfigView, map_id: Seq<char>) -> bool {
    config.selected_map_urls.len() == 0 || listed(config.selected_map_urls, map_id)
}

/// What to do in a lobby on a map.
pub open spec fn map_decision(
    config: ConfigView,
    strategy: StrategyView,
    map_id: Seq<char>,
) -> DecisionView {
    match strategy {
        StrategyView::Global(agent) => if map_allowed(config, map_id) {
            DecisionView::Lock(agent)
        } else {
            DecisionView::Skip("not selected"@)
        },
        StrategyView::PerMap => match first_assigned(config.per_map_agent_uuids, map_id) {
            Some(agent) => DecisionView::Lock(agent),
            None => DecisionView::Skip("no agent selected"@),
        },
    }
}

/// Whether the one agent for all maps may be locked on a map: it is selected, or none is.
pub fn global_map_is_allowed(config: &Config, map_id: &str) -> (r: bool)
    ensures
        r == map_allowed(config@, map_id@),
{
    config.selected_map_urls.len() == 0 || is_listed(&config.selected_map_urls, map_id)
}

/// What to do in a lobby on a map.
pub fn agent_for_match_map(config: &Config, strategy: &AgentSelectionStrategy, map_id: &str) -> (r:
    MapAgentDecision)
    ensures
        r@ == map_decision(config@, strategy@, map_id@),
{
    match strategy {
        AgentSelectionStrategy::Global { selected_agent_uuid } => if global_map_is_allowed(
            config,
            map_id,
        ) {
            MapAgentDecision::Lock(selected_agent_uuid.clone())
        } else {
            MapAgentDecision::Skip("not selected".to_string())
        },
        AgentSelectionStrategy::PerMap => match config.per_map_agent_uuids.agent_for(map_id) {
            Some(agent) => MapAgentDecision::Lock(agent.clone()),
            None => MapAgentDecision::Skip("no agent selected".to_string()),
        },
    }
}

/// The name of the first map with that address, whatever the case of its ASCII letters.
pub open spec fn known_map_name(maps: Seq<MapView>, map_id: Seq<char>) -> Option<Seq<char>>
    decreases maps.len(),
{
    if maps.len() == 0 {
        None
    } else if same_ignoring_case(maps[0].map_url, map_id) {
        Some(maps[0].display_name)
    } else {
        known_map_name(maps.skip(1), map_id)
    }
}

/// What a user reads for a map: its name if the map is known, else the end of its address.
pub open spec fn map_name(maps: Seq<MapView>, map_id: Seq<char>) -> Seq<char> {
    match known_map_name(maps, map_id) {
        Some(name) => name,
        None => after_last(map_id, "/"@),
    }
}

/// What a user reads for a map: its name if the map is known, else the end of its address.
pub fn map_display_name(maps: &[GameMap], map_id: &str) -> (r: String)
    ensures
        r@ == map_name(map_views(maps@), map_id@),
{
    let ghost views = map_views(maps@);
    assert(views.skip(0) =~= views);
    for i in 0..maps.len()
        invariant
            views == map_views(maps@),
            known_map_name(views, map_id@) == known_map_name(views.skip(i as int), map_id@),
    {
        assert(views.skip(i as int)[0] == maps@[i as int]@);
        assert(views.skip(i as int).skip(1) =~= views.skip(i + 1));
        if eq_ignore_ascii_case(maps[i].map_url.as_str(), map_id) {
            return maps[i].display_name.clone();
        }
    }
    cut_after_last(map_id, "/").to_string()
}

/// How far the player's own choice in a lobby is.
#[derive(Debug, PartialEq, Eq)]
pub enum PlayerLockStatus {
    /// The wanted agent is locked.
    LockedSelected,
    /// That other agent is locked.
    LockedOther(String),
    /// No agent is locked.
    NotLocked,
    /// The player is not in the lobby's data.
    PlayerMissing,
}

/// The mathematical model of how far the player's own choice is.
pub enum LockStatusView {
    LockedSelected,
    LockedOther(Seq<char>),
    NotLocked,
    PlayerMissing,
}

impl View for PlayerLockStatus {
    type V = LockStatusView;

    open spec fn view(&self) -> LockStatusView {
        match self {
            PlayerLockStatus::LockedSelected => LockStatusView::LockedSelected,
            PlayerLockStatus::LockedOther(agent) => LockStatusView::LockedOther(agent@),
            PlayerLockStatus::NotLocked => LockStatusView::NotLocked,
            PlayerLockStatus::PlayerMissing => LockStatusView::PlayerMissing,
        }
    }
}

/// The first of the players with that identity, whatever the case of its ASCII letters.
pub open spec fn player_in(players: Seq<PregamePlayer>, puuid: Seq<char>) -> Option<PregamePlayer>
    decreases players.len(),
{
    if players.len() == 0 {
        None
    } else if same_ignoring_case(players[0].subject@, puuid) {
        Some(players[0])
    } else {
        player_in(players.skip(1), puuid)
    }
}

/// How far a player's choice in a lobby is.
pub open spec fn lock_status(
    lobby: PregameMatch,
    puuid: Seq<char>,
    agent: Seq<char>,
) -> LockStatusView {
    match player_in(lobby.ally_team.players@, puuid) {
        Some(player) => if !same_ignoring_case(player.character_selection_state@, "locked"@) {
            LockStatusView::NotLocked
        } else if same_ignoring_case(player.character_id@, agent) {
            LockStatusView::LockedSelected
        } else {
            LockStatusView::LockedOther(player.character_id@)
        },
        None => LockStatusView::PlayerMissing,
    }
}

/// The first of the players with that identity, whatever the case of its ASCII letters.
fn find_player<'a>(players: &'a Vec<PregamePlayer>, puuid: &str) -> (r: Option<&'a PregamePlayer>)
    ensures
        match r {
            Some(player) => player_in(players@, puuid@) == Some(*player),
            None => player_in(players@, puuid@) is None,
        },
{
    assert(players@.skip(0) =~= players@);
    for i in 0..players.len()
        invariant
            player_in(players@, puuid@) == player_in(players@.skip(i as int), puuid@),
    {
        assert(players@.skip(i as int)[0] == players@[i as int]);
        assert(players@.skip(i as int).skip(1) =~= players@.skip(i + 1));
        if eq_ignore_ascii_case(players[i].subject.as_str(), puuid) {
            return Some(&players[i]);
        }
    }
    None
}

/// How far a player's choice in a lobby is.
pub fn locked_status_for_player(
    pregame_match: &PregameMatch,
    puuid: &str,
    selected_agent_uuid: &str,
) -> (r: PlayerLockStatus)
    ensures
        r@ == lock_status(*pregame_match, puuid@, selected_agent_uuid@),
{
    let player = match find_player(&pregame_match.ally_team.players, puuid) {
        Some(player) => player,
        None => {
            return PlayerLockStatus::PlayerMissing;
        },
    };
    if !eq_ignore_ascii_case(player.character_selection_state.as_str(), "locked") {
        return PlayerLockStatus::NotLocked;
    }
    if eq_ignore_ascii_case(player.character_id.as_str(), selected_agent_uuid) {
        PlayerLockStatus::LockedSelected
    } else {
        PlayerLockStatus::LockedOther(player.character_id.clone())
    }
}

} // verus!
