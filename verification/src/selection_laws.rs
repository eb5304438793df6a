//! What always holds of choosing the agent to lock.
use vstd::prelude::*;

use crate::app::{listed, ConfigView, InnerView, MapView, SelectionMode, UiPhase};
use crate::assignments::{assigned_agents, first_assigned};
use crate::detection::{lock_step, ActionView, LockReply};
use crate::riot::{LiveContext, PregameMatch, PregamePlayer};
use crate::selection::{agents_known, is_agent, known_map_name, lock_status, map_allowed, map_decision, map_name, player_in, wanted_agents, wanted_strategy, DecisionView, LockStatusView, StrategyView};
use crate::text::{after_last, same_ignoring_case};

verus! {

/// Whether a map's address is one of the selected ones, whatever the case.
pub open spec fn is_selected(config: ConfigView, map_id: Seq<char>) -> bool {
    exists|i: int|
        0 <= i < config.selected_map_urls.len() && same_ignoring_case(
            #[trigger] config.selected_map_urls[i],
            map_id,
        )
}

/// A map is allowed exactly if no maps are selected or it is one of those that are.
pub proof fn law_allowed_maps(config: ConfigView, map_id: Seq<char>)
    ensures
        map_allowed(config, map_id) <==> config.selected_map_urls.len() == 0 || is_selected(
            config,
            map_id,
        ),
{
    let urls = config.selected_map_urls;
    if listed(urls, map_id) {
        let i = choose|i: int| 0 <= i < urls.len() && #[trigger] same_ignoring_case(urls[i], map_id);
        assert(same_ignoring_case(config.selected_map_urls[i], map_id));
    }
    if is_selected(config, map_id) {
        let i = choose|i: int|
            0 <= i < config.selected_map_urls.len() && same_ignoring_case(
                #[trigger] config.selected_map_urls[i],
                map_id,
            );
        assert(same_ignoring_case(urls[i], map_id));
    }
}

/// With one agent for all maps, this agent is to be locked exactly if no maps are selected or the
/// lobby's map is one of those that are; on all other maps none is.
pub proof fn law_one_agent_for_all_maps(config: ConfigView, agent: Seq<char>, map_id: Seq<char>)
    ensures
        map_decision(config, StrategyView::Global(agent), map_id) == if config.selected_map_urls.len()
            == 0 || is_selected(config, map_id) {
            DecisionView::Lock(agent)
        } else {
            DecisionView::Skip("not selected"@)
        },
{
    law_allowed_maps(config, map_id);
}

proof fn lemma_first_assigned_at(entries: Seq<(Seq<char>, Seq<char>)>, map_id: Seq<char>, k: int)
    requires
        0 <= k < entries.len(),
        same_ignoring_case(entries[k].0, map_id),
        forall|j: int| 0 <= j < k ==> !same_ignoring_case((#[trigger] entries[j]).0, map_id),
    ensures
        first_assigned(entries, map_id) == Some(entries[k].1),
    decreases k,
{
    if k > 0 {
        let rest = entries.skip(1);
        assert(!same_ignoring_case(entries[0].0, map_id));
        assert forall|j: int| 0 <= j < k - 1 implies !same_ignoring_case(
            (#[trigger] rest[j]).0,
            map_id,
        ) by {
            assert(!same_ignoring_case(entries[j + 1].0, map_id));
        }
        lemma_first_assigned_at(rest, map_id, k - 1);
    }
}

proof fn lemma_none_assigned(entries: Seq<(Seq<char>, Seq<char>)>, map_id: Seq<char>)
    requires
        forall|j: int|
            0 <= j < entries.len() ==> !same_ignoring_case((#[trigger] entries[j]).0, map_id),
    ensures
        first_assigned(entries, map_id) is None,
    decreases entries.len(),
{
    if entries.len() > 0 {
        let rest = entries.skip(1);
        assert(!same_ignoring_case(entries[0].0, map_id));
        assert forall|j: int| 0 <= j < rest.len() implies !same_ignoring_case(
            (#[trigger] rest[j]).0,
            map_id,
        ) by {
            assert(!same_ignoring_case(entries[j + 1].0, map_id));
        }
        lemma_none_assigned(rest, map_id);
    }
}

/// With an agent for each map, the agent of the first assignment to the lobby's map is to be locked,
/// whatever the case of the map's address.
pub proof fn law_agent_of_the_map(config: ConfigView, map_id: Seq<char>, k: int)
    requires
        0 <= k < config.per_map_agent_uuids.len(),
        same_ignoring_case(config.per_map_agent_uuids[k].0, map_id),
        forall|j: int|
            0 <= j < k ==> !same_ignoring_case(
                (#[trigger] config.per_map_agent_uuids[j]).0,
                map_id,
            ),
    ensures
        map_decision(config, StrategyView::PerMap, map_id) == DecisionView::Lock(
            config.per_map_agent_uuids[k].1,
        ),
{
    lemma_first_assigned_at(config.per_map_agent_uuids, map_id, k);
}

/// With an agent for each map, a lobby on a map without one is left alone.
pub proof fn law_no_agent_for_the_map(config: ConfigView, map_id: Seq<char>)
    requires
        forall|j: int|
            0 <= j < config.per_map_agent_uuids.len() ==> !same_ignoring_case(
                (#[trigger] config.per_map_agent_uuids[j]).0,
                map_id,
            ),
    ensures
        map_decision(config, StrategyView::PerMap, map_id) == DecisionView::Skip(
            "no agent selected"@,
        ),
{
    lemma_none_assigned(config.per_map_agent_uuids, map_id);
}

/// With one agent for all maps, arming takes the selected agent and needs one; with an agent for
/// each map it needs an assignment, whatever the one agent is.
pub proof fn law_strategy(config: ConfigView)
    ensures
        config.selection_mode == SelectionMode::Global && config.selected_agent_uuid is Some
            ==> wanted_strategy(config) == Ok::<StrategyView, Seq<char>>(
            StrategyView::Global(config.selected_agent_uuid->0),
        ),
        config.selection_mode == SelectionMode::Global && config.selected_agent_uuid is None
            ==> wanted_strategy(config) == Err::<StrategyView, Seq<char>>(
            "Select an agent before arming."@,
        ),
        config.selection_mode == SelectionMode::PerMap && config.per_map_agent_uuids.len() > 0
            ==> wanted_strategy(config) == Ok::<StrategyView, Seq<char>>(StrategyView::PerMap),
        config.selection_mode == SelectionMode::PerMap && config.per_map_agent_uuids.len() == 0
            ==> wanted_strategy(config) == Err::<StrategyView, Seq<char>>(
            "Select at least one per-map agent before arming."@,
        ),
{
}

/// The agents that have to be known: the one for all maps, if it is selected, or all that are
/// assigned to maps.
pub proof fn law_wanted_agents(config: ConfigView, agent: Seq<char>)
    ensures
        config.selection_mode == SelectionMode::Global ==> (wanted_agents(config).contains(agent)
            <==> config.selected_agent_uuid == Some(agent)) && wanted_agents(config).len() <= 1,
        config.selection_mode == SelectionMode::PerMap ==> wanted_agents(config).len()
            == config.per_map_agent_uuids.len() && forall|i: int|
            0 <= i < config.per_map_agent_uuids.len() ==> #[trigger] wanted_agents(config)[i]
                == config.per_map_agent_uuids[i].1,
{
    if config.selection_mode == SelectionMode::Global && config.selected_agent_uuid == Some(agent) {
        assert(wanted_agents(config)[0] == agent);
    }
}

/// The agents are known exactly if there are no data on agents yet, or each of them is in the data.
pub proof fn law_agents_known(inner: InnerView, i: int)
    ensures
        inner.agents.len() == 0 ==> agents_known(inner),
        agents_known(inner) && inner.agents.len() > 0 && 0 <= i < wanted_agents(inner.config).len()
            ==> exists|k: int|
            0 <= k < inner.agents.len() && (#[trigger] inner.agents[k]).uuid == wanted_agents(
                inner.config,
            )[i],
        !agents_known(inner) ==> exists|j: int|
            0 <= j < wanted_agents(inner.config).len() && forall|k: int|
                0 <= k < inner.agents.len() ==> (#[trigger] inner.agents[k]).uuid
                    != #[trigger] wanted_agents(inner.config)[j],
{
    let wanted = wanted_agents(inner.config);
    if agents_known(inner) && inner.agents.len() > 0 && 0 <= i < wanted.len() {
        assert(is_agent(inner.agents, wanted[i]));
    }
    if !agents_known(inner) {
        let j = choose|j: int|
            0 <= j < wanted.len() && !is_agent(inner.agents, #[trigger] wanted[j]);
        assert(forall|k: int|
            0 <= k < inner.agents.len() ==> (#[trigger] inner.agents[k]).uuid != wanted[j]);
    }
}

proof fn lemma_known_map_name_at(maps: Seq<MapView>, map_id: Seq<char>, k: int)
    requires
        0 <= k < maps.len(),
        same_ignoring_case(maps[k].map_url, map_id),
        forall|j: int| 0 <= j < k ==> !same_ignoring_case((#[trigger] maps[j]).map_url, map_id),
    ensures
        known_map_name(maps, map_id) == Some(maps[k].display_name),
    decreases k,
{
    if k > 0 {
        let rest = maps.skip(1);
        assert(!same_ignoring_case(maps[0].map_url, map_id));
        assert forall|j: int| 0 <= j < k - 1 implies !same_ignoring_case(
            (#[trigger] rest[j]).map_url,
            map_id,
        ) by {
            assert(!same_ignoring_case(maps[j + 1].map_url, map_id));
        }
        lemma_known_map_name_at(rest, map_id, k - 1);
    }
}

/// A known map is called by its name: that of the first map with its address, whatever the case.
pub proof fn law_name_of_known_map(maps: Seq<MapView>, map_id: Seq<char>, k: int)
    requires
        0 <= k < maps.len(),
        same_ignoring_case(maps[k].map_url, map_id),
        forall|j: int| 0 <= j < k ==> !same_ignoring_case((#[trigger] maps[j]).map_url, map_id),
    ensures
        map_name(maps, map_id) == maps[k].display_name,
{
    lemma_known_map_name_at(maps, map_id, k);
}

/// A map that is not known is called by what stands behind the last slash of its address.
pub proof fn law_name_of_unknown_map(maps: Seq<MapView>, map_id: Seq<char>)
    requires
        forall|j: int|
            0 <= j < maps.len() ==> !same_ignoring_case((#[trigger] maps[j]).map_url, map_id),
    ensures
        map_name(maps, map_id) == after_last(map_id, "/"@),
    decreases maps.len(),
{
    if maps.len() > 0 {
        let rest = maps.skip(1);
        assert(!same_ignoring_case(maps[0].map_url, map_id));
        assert forall|j: int| 0 <= j < rest.len() implies !same_ignoring_case(
            (#[trigger] rest[j]).map_url,
            map_id,
        ) by {
            assert(!same_ignoring_case(maps[j + 1].map_url, map_id));
        }
        law_name_of_unknown_map(rest, map_id);
    }
}

proof fn lemma_player_at(players: Seq<PregamePlayer>, puuid: Seq<char>, k: int)
    requires
        0 <= k < players.len(),
        same_ignoring_case(players[k].subject@, puuid),
        forall|j: int| 0 <= j < k ==> !same_ignoring_case((#[trigger] players[j]).subject@, puuid),
    ensures
        player_in(players, puuid) == Some(players[k]),
    decreases k,
{
    if k > 0 {
        let rest = players.skip(1);
        assert(!same_ignoring_case(players[0].subject@, puuid));
        assert forall|j: int| 0 <= j < k - 1 implies !same_ignoring_case(
            (#[trigger] rest[j]).subject@,
            puuid,
        ) by {
            assert(!same_ignoring_case(players[j + 1].subject@, puuid));
        }
        lemma_player_at(rest, puuid, k - 1);
    }
}

/// A player's choice is what the player's first entry in the lobby says: nothing is locked unless
/// the entry's state is `locked`, whatever agent stands in it; if it is, the wanted agent is locked
/// exactly if it is the one in the entry, and else that other one is.
pub proof fn law_lock_status(lobby: PregameMatch, puuid: Seq<char>, agent: Seq<char>, k: int)
    requires
        0 <= k < lobby.ally_team.players@.len(),
        same_ignoring_case(lobby.ally_team.players@[k].subject@, puuid),
        forall|j: int|
            0 <= j < k ==> !same_ignoring_case(
                (#[trigger] lobby.ally_team.players@[j]).subject@,
                puuid,
            ),
    ensures
        ({
            let entry = lobby.ally_team.players@[k];
            let locked = same_ignoring_case(entry.character_selection_state@, "locked"@);
            let wanted = same_ignoring_case(entry.character_id@, agent);
            &&& lock_status(lobby, puuid, agent) is NotLocked <==> !locked
            &&& lock_status(lobby, puuid, agent) is LockedSelected <==> locked && wanted
            &&& lock_status(lobby, puuid, agent) is LockedOther <==> locked && !wanted
            &&& locked && !wanted ==> lock_status(lobby, puuid, agent)
                == LockStatusView::LockedOther(entry.character_id@)
        }),
{
    lemma_player_at(lobby.ally_team.players@, puuid, k);
}

proof fn lemma_first_player(players: Seq<PregamePlayer>, puuid: Seq<char>)
    ensures
        match player_in(players, puuid) {
            Some(player) => exists|k: int|
                0 <= k < players.len() && #[trigger] players[k] == player && same_ignoring_case(
                    player.subject@,
                    puuid,
                ) && forall|j: int|
                    0 <= j < k ==> !same_ignoring_case((#[trigger] players[j]).subject@, puuid),
            None => forall|j: int|
                0 <= j < players.len() ==> !same_ignoring_case(
                    (#[trigger] players[j]).subject@,
                    puuid,
                ),
        },
    decreases players.len(),
{
    if players.len() > 0 {
        if same_ignoring_case(players[0].subject@, puuid) {
            assert(players[0] == player_in(players, puuid)->0);
        } else {
            let rest = players.skip(1);
            lemma_first_player(rest, puuid);
            match player_in(rest, puuid) {
                Some(player) => {
                    let k = choose|k: int|
                        0 <= k < rest.len() && #[trigger] rest[k] == player && same_ignoring_case(
                            player.subject@,
                            puuid,
                        ) && forall|j: int|
                            0 <= j < k ==> !same_ignoring_case(
                                (#[trigger] rest[j]).subject@,
                                puuid,
                            );
                    assert(players[k + 1] == player);
                    assert forall|j: int| 0 <= j < k + 1 implies !same_ignoring_case(
                        (#[trigger] players[j]).subject@,
                        puuid,
                    ) by {
                        if j > 0 {
                            assert(!same_ignoring_case(rest[j - 1].subject@, puuid));
                        }
                    }
                },
                None => {
                    assert forall|j: int| 0 <= j < players.len() implies !same_ignoring_case(
                        (#[trigger] players[j]).subject@,
                        puuid,
                    ) by {
                        if j > 0 {
                            assert(!same_ignoring_case(rest[j - 1].subject@, puuid));
                        }
                    }
                },
            }
        }
    }
}

/// A player is missing from a lobby exactly if no entry has the player's identity, whatever the
/// case.
pub proof fn law_missing_player(lobby: PregameMatch, puuid: Seq<char>, agent: Seq<char>)
    ensures
        lock_status(lobby, puuid, agent) is PlayerMissing <==> forall|j: int|
            0 <= j < lobby.ally_team.players@.len() ==> !same_ignoring_case(
                (#[trigger] lobby.ally_team.players@[j]).subject@,
                puuid,
            ),
{
    let players = lobby.ally_team.players@;
    lemma_first_player(players, puuid);
    if let Some(player) = player_in(players, puuid) {
        let k = choose|k: int|
            0 <= k < players.len() && #[trigger] players[k] == player && same_ignoring_case(
                player.subject@,
                puuid,
            ) && forall|j: int|
                0 <= j < k ==> !same_ignoring_case((#[trigger] players[j]).subject@, puuid);
        assert(same_ignoring_case(lobby.ally_team.players@[k].subject@, puuid));
    }
}

/// In a lobby in which no entry of the player is `locked`, the agent that is to be locked on its map
/// is: it is selected first if the user wants that, and locked at once if not. Which agent the player
/// has merely picked makes no difference.
pub proof fn law_unlocked_player_gets_the_agent(
    inner: InnerView,
    live: LiveContext,
    strategy: StrategyView,
    elapsed: nat,
    ts: u64,
    match_id: String,
    lobby: PregameMatch,
    agent: Seq<char>,
)
    requires
        map_decision(inner.config, strategy, lobby.map_id@) == DecisionView::Lock(agent),
        forall|j: int|
            0 <= j < lobby.ally_team.players@.len() && same_ignoring_case(
                (#[trigger] lobby.ally_team.players@[j]).subject@,
                live.puuid@,
            ) ==> !same_ignoring_case(
                lobby.ally_team.players@[j].character_selection_state@,
                "locked"@,
            ),
    ensures
        ({
            let step = lock_step(
                inner,
                live,
                strategy,
                elapsed,
                ts,
                LockReply::Lobby { match_id, lobby: Ok(lobby) },
            );
            &&& step.1 == if live.select_before_lock {
                ActionView::Select(match_id@, agent)
            } else {
                ActionView::Lock(match_id@, agent)
            }
            &&& step.0.state.phase == UiPhase::Locking
            &&& step.0.state.armed == inner.state.armed
            &&& step.0.state.last_match_id == Some(match_id@)
            &&& step.0.state.last_lock_agent_uuid == Some(agent)
        }),
{
    let players = lobby.ally_team.players@;
    lemma_first_player(players, live.puuid@);
    if let Some(player) = player_in(players, live.puuid@) {
        let k = choose|k: int|
            0 <= k < players.len() && #[trigger] players[k] == player && same_ignoring_case(
                player.subject@,
                live.puuid@,
            ) && forall|j: int|
                0 <= j < k ==> !same_ignoring_case((#[trigger] players[j]).subject@, live.puuid@);
        assert(same_ignoring_case(lobby.ally_team.players@[k].subject@, live.puuid@));
    }
}

/// The agents of assignments are those that stand in them, in their order.
pub proof fn law_assigned_agents(entries: Seq<(Seq<char>, Seq<char>)>)
    ensures
        assigned_agents(entries).len() == entries.len(),
        forall|i: int|
            0 <= i < entries.len() ==> #[trigger] assigned_agents(entries)[i] == entries[i].1,
{
}

} // verus!
