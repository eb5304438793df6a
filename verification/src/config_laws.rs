//! What always holds of the configuration: changing it, cleaning it, reading and writing its file.
use vstd::prelude::*;

use crate::app::{agent_views, changed_config, cleaned, complete, default_config, event_views, filled, idle_state, listed, map_views, mirrors, response, Agent, AppEvent, Config, ConfigView, DetectionMode, GameMap, InnerState, InnerView, RequestView, SelectionMode, StoredView, UiPhase, UiState};
use crate::state_laws::law_cleaned;
use crate::text::{lower, same_ignoring_case, trimmed, white_space};
use crate::text_laws::{law_blank, law_same_ignoring_case_is_equivalence};

verus! {

/// Whether a text holds more than white space.
pub open spec fn says_something(text: Seq<char>) -> bool {
    exists|i: int| 0 <= i < text.len() && !white_space(#[trigger] text[i])
}

proof fn lemma_blank(text: Seq<char>)
    ensures
        trimmed(text).len() > 0 <==> says_something(text),
{
    law_blank(text);
}

/// What a change gives replaces what was there, whatever that was: an agent that is not blank is
/// selected as it is written, a blank one deselects, and each other setting is the given one. What a
/// change does not give stays, and so do the settings that no change can give.
pub proof fn law_change_replaces_what_is_given(config: ConfigView, request: RequestView)
    ensures
        ({
            let after = changed_config(config, request);
            &&& request.selected_agent_uuid matches Some(agent) ==> after.selected_agent_uuid
                == if says_something(agent) {
                Some(agent)
            } else {
                None
            }
            &&& request.selected_agent_uuid is None ==> after.selected_agent_uuid
                == config.selected_agent_uuid
            &&& request.selected_map_urls matches Some(urls) ==> after.selected_map_urls == cleaned(
                urls,
            )
            &&& request.selected_map_urls is None ==> after.selected_map_urls
                == config.selected_map_urls
            &&& request.select_before_lock matches Some(select) ==> after.select_before_lock
                == select
            &&& request.select_before_lock is None ==> after.select_before_lock
                == config.select_before_lock
            &&& request.auto_rearm matches Some(rearm) ==> after.auto_rearm == rearm
            &&& request.auto_rearm is None ==> after.auto_rearm == config.auto_rearm
            &&& request.detection_mode matches Some(mode) ==> after.detection_mode == mode
            &&& request.detection_mode is None ==> after.detection_mode == config.detection_mode
            &&& after.selection_mode == config.selection_mode
            &&& after.per_map_agent_uuids == config.per_map_agent_uuids
            &&& after.poll_ms == config.poll_ms
        }),
{
    if let Some(agent) = request.selected_agent_uuid {
        lemma_blank(agent);
    }
}

/// What a setting was before a change that gives it makes no difference: two configurations agree on
/// it afterwards.
pub proof fn law_last_change_wins(config: ConfigView, other: ConfigView, request: RequestView)
    ensures
        ({
            let a = changed_config(config, request);
            let b = changed_config(other, request);
            &&& request.selected_agent_uuid is Some ==> a.selected_agent_uuid
                == b.selected_agent_uuid
            &&& request.selected_map_urls is Some ==> a.selected_map_urls == b.selected_map_urls
            &&& request.select_before_lock is Some ==> a.select_before_lock == b.select_before_lock
            &&& request.auto_rearm is Some ==> a.auto_rearm == b.auto_rearm
            &&& request.detection_mode is Some ==> a.detection_mode == b.detection_mode
        }),
{
}

/// A change shows on the dashboard at once and touches nothing else there: not whether the program
/// is armed, nor its phase, its message, what it knows of the game, its log, its data or its task.
pub proof fn law_change_is_shown(inner: InnerView, request: RequestView)
    ensures
        ({
            let after = inner.reconfigured(request);
            &&& after.config == changed_config(inner.config, request)
            &&& after.state.selected_agent_uuid == after.config.selected_agent_uuid
            &&& after.state.selected_map_urls == after.config.selected_map_urls
            &&& after.state.select_before_lock == after.config.select_before_lock
            &&& after.state.auto_rearm == after.config.auto_rearm
            &&& after.state.detection_mode == after.config.detection_mode
            &&& after.state.poll_ms == inner.state.poll_ms
            &&& after.state.armed == inner.state.armed
            &&& after.state.rearm_pending == inner.state.rearm_pending
            &&& after.state.phase == inner.state.phase
            &&& after.state.message == inner.state.message
            &&& after.state.glz_route == inner.state.glz_route
            &&& after.state.lock_attempts == inner.state.lock_attempts
            &&& after.state.last_match_id == inner.state.last_match_id
            &&& after.state.last_lock_agent_uuid == inner.state.last_lock_agent_uuid
            &&& after.agents == inner.agents && after.maps == inner.maps
            &&& after.events == inner.events && after.poller == inner.poller
        }),
{
}

/// Whether an address was given before, whatever its case and the white space around it.
pub open spec fn given_before(texts: Seq<Seq<char>>, text: Seq<char>) -> bool {
    exists|j: int|
        0 <= j < texts.len() && same_ignoring_case(
            trimmed(#[trigger] texts[j]),
            trimmed(text),
        )
}

/// Cleaned addresses stand in the order in which they were first given, as they were first written:
/// one more address is added at the end, without the white space around it, exactly if it says
/// something and was not given before.
pub proof fn law_clean_one_more(texts: Seq<Seq<char>>, text: Seq<char>)
    ensures
        cleaned(Seq::empty()) == Seq::<Seq<char>>::empty(),
        cleaned(texts.push(text)) == if says_something(text) && !given_before(texts, text) {
            cleaned(texts).push(trimmed(text))
        } else {
            cleaned(texts)
        },
{
    let earlier = cleaned(texts);
    let bare = trimmed(text);
    assert(texts.push(text).drop_last() =~= texts);
    lemma_blank(text);
    law_cleaned(texts);
    if bare.len() > 0 {
        if given_before(texts, text) {
            let j = choose|j: int|
                0 <= j < texts.len() && same_ignoring_case(trimmed(#[trigger] texts[j]), bare);
            assert(lower(trimmed(texts[j])).len() == lower(bare).len());
            assert(listed(earlier, trimmed(texts[j])));
            let i = choose|i: int|
                0 <= i < earlier.len() && #[trigger] same_ignoring_case(
                    earlier[i],
                    trimmed(texts[j]),
                );
            law_same_ignoring_case_is_equivalence(earlier[i], trimmed(texts[j]), bare);
            assert(same_ignoring_case(earlier[i], bare));
        }
        if listed(earlier, bare) {
            let i = choose|i: int|
                0 <= i < earlier.len() && #[trigger] same_ignoring_case(earlier[i], bare);
            let k = choose|k: int|
                0 <= k < texts.len() && earlier[i] == #[trigger] trimmed(texts[k]);
            assert(same_ignoring_case(trimmed(texts[k]), bare));
        }
    }
}

/// A setting in the file is taken as it is; one that the file lacks is no agent, no maps, one agent
/// for all maps, no assignments, no selection before the lock, arming again after a game, a quarter
/// of a second between two questions, and hybrid detection.
pub proof fn law_file_settings(stored: StoredView)
    ensures
        ({
            let config = filled(stored);
            &&& config.selected_agent_uuid == stored.selected_agent_uuid
            &&& stored.selected_map_urls matches Some(urls) ==> config.selected_map_urls == urls
            &&& stored.selected_map_urls is None ==> config.selected_map_urls.len() == 0
            &&& stored.selection_mode matches Some(mode) ==> config.selection_mode == mode
            &&& stored.selection_mode is None ==> config.selection_mode == SelectionMode::Global
            &&& stored.per_map_agent_uuids matches Some(agents) ==> config.per_map_agent_uuids
                == agents
            &&& stored.per_map_agent_uuids is None ==> config.per_map_agent_uuids.len() == 0
            &&& stored.select_before_lock matches Some(select) ==> config.select_before_lock
                == select
            &&& stored.select_before_lock is None ==> !config.select_before_lock
            &&& stored.auto_rearm matches Some(rearm) ==> config.auto_rearm == rearm
            &&& stored.auto_rearm is None ==> config.auto_rearm
            &&& stored.poll_ms matches Some(poll_ms) ==> config.poll_ms == poll_ms
            &&& stored.poll_ms is None ==> config.poll_ms == 250
            &&& stored.detection_mode matches Some(mode) ==> config.detection_mode == mode
            &&& stored.detection_mode is None ==> config.detection_mode == DetectionMode::Hybrid
        }),
{
}

/// The file holds every setting.
pub proof fn law_file_is_complete(config: ConfigView)
    ensures
        ({
            let stored = complete(config);
            &&& stored.selected_agent_uuid == config.selected_agent_uuid
            &&& stored.selected_map_urls == Some(config.selected_map_urls)
            &&& stored.selection_mode == Some(config.selection_mode)
            &&& stored.per_map_agent_uuids == Some(config.per_map_agent_uuids)
            &&& stored.select_before_lock == Some(config.select_before_lock)
            &&& stored.auto_rearm == Some(config.auto_rearm)
            &&& stored.poll_ms == Some(config.poll_ms)
            &&& stored.detection_mode == Some(config.detection_mode)
        }),
{
}

/// The configuration before the user changes it.
pub proof fn law_default_config()
    ensures
        ({
            let config = default_config();
            &&& config.selected_agent_uuid is None
            &&& config.selected_map_urls.len() == 0
            &&& config.selection_mode == SelectionMode::Global
            &&& config.per_map_agent_uuids.len() == 0
            &&& !config.select_before_lock
            &&& config.auto_rearm
            &&& config.poll_ms == 250
            &&& config.detection_mode == DetectionMode::Hybrid
        }),
{
}

/// A program starts idle, knowing nothing of a game and showing its configuration.
pub proof fn law_idle_start(config: ConfigView)
    ensures
        ({
            let state = idle_state(config);
            &&& !state.armed && !state.rearm_pending && state.phase == UiPhase::Idle
            &&& state.glz_route is None && state.lock_attempts == 0
            &&& state.last_match_id is None && state.last_lock_agent_uuid is None
            &&& state.message == "Idle. Press Arm to refresh live data."@
            &&& state.selected_agent_uuid == config.selected_agent_uuid
            &&& state.selected_map_urls == config.selected_map_urls
            &&& state.select_before_lock == config.select_before_lock
            &&& state.auto_rearm == config.auto_rearm
            &&& state.poll_ms == config.poll_ms
            &&& state.detection_mode == config.detection_mode
            &&& mirrors(state, config)
        }),
{
}

/// The dashboard is given the state, the agents, the maps and the events as they are.
pub proof fn law_response(inner: InnerView)
    ensures
        response(inner).state == inner.state,
        response(inner).agents == inner.agents,
        response(inner).maps == inner.maps,
        response(inner).events == inner.events,
{
}

/// The model of a configuration holds each of its settings.
pub proof fn law_config_model(config: Config)
    ensures
        config@.selected_agent_uuid is Some <==> config.selected_agent_uuid is Some,
        config.selected_agent_uuid matches Some(agent) ==> config@.selected_agent_uuid == Some(
            agent@,
        ),
        config@.selected_map_urls.len() == config.selected_map_urls@.len(),
        forall|i: int|
            0 <= i < config.selected_map_urls@.len() ==> #[trigger] config@.selected_map_urls[i]
                == config.selected_map_urls@[i]@,
        config@.selection_mode == config.selection_mode,
        config@.per_map_agent_uuids == config.per_map_agent_uuids@,
        config@.select_before_lock == config.select_before_lock,
        config@.auto_rearm == config.auto_rearm,
        config@.poll_ms == config.poll_ms,
        config@.detection_mode == config.detection_mode,
{
}

/// The model of what the dashboard shows holds each part of it.
pub proof fn law_state_model(state: UiState)
    ensures
        state@.armed == state.armed,
        state@.rearm_pending == state.rearm_pending,
        state@.phase == state.phase,
        state@.message == state.message@,
        state@.selected_agent_uuid == state.selected_agent_uuid.deep_view(),
        state@.selected_map_urls == state.selected_map_urls.deep_view(),
        state@.select_before_lock == state.select_before_lock,
        state@.auto_rearm == state.auto_rearm,
        state@.poll_ms == state.poll_ms,
        state@.detection_mode == state.detection_mode,
        state@.glz_route == state.glz_route.deep_view(),
        state@.lock_attempts == state.lock_attempts,
        state@.last_match_id == state.last_match_id.deep_view(),
        state@.last_lock_agent_uuid == state.last_lock_agent_uuid.deep_view(),
{
}

/// The models of events, agents and maps hold each part of them, and those of lists hold each entry
/// at its place.
pub proof fn law_data_models(
    event: AppEvent,
    agent: Agent,
    map: GameMap,
    events: Seq<AppEvent>,
    agents: Seq<Agent>,
    maps: Seq<GameMap>,
)
    ensures
        event@.ts == event.ts && event@.level == event.level@ && event@.message == event.message@,
        agent@.uuid == agent.uuid@ && agent@.display_name == agent.display_name@
            && agent@.display_icon == agent.display_icon.deep_view() && agent@.role
            == agent.role.deep_view(),
        map@.uuid == map.uuid@ && map@.display_name == map.display_name@ && map@.display_icon
            == map.display_icon.deep_view() && map@.list_view_icon
            == map.list_view_icon.deep_view() && map@.splash == map.splash.deep_view()
            && map@.map_url == map.map_url@ && map@.in_ranked_pool == map.in_ranked_pool,
        event_views(events).len() == events.len() && forall|i: int|
            0 <= i < events.len() ==> #[trigger] event_views(events)[i] == events[i]@,
        agent_views(agents).len() == agents.len() && forall|i: int|
            0 <= i < agents.len() ==> #[trigger] agent_views(agents)[i] == agents[i]@,
        map_views(maps).len() == maps.len() && forall|i: int|
            0 <= i < maps.len() ==> #[trigger] map_views(maps)[i] == maps[i]@,
{
}

/// The model of the program's state holds each part of it.
pub proof fn law_program_model(inner: InnerState)
    ensures
        inner@.config == inner.config@,
        inner@.state == inner.state@,
        inner@.agents == agent_views(inner.agents@),
        inner@.maps == map_views(inner.maps@),
        inner@.events == event_views(inner.events@),
        inner@.poller == inner.poller,
{
}

} // verus!
