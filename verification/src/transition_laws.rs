//! What each event in the program's life changes in its state, and what it leaves alone.
use vstd::prelude::*;

use crate::agents::AgentLoad;
use crate::app::{agent_views, map_views, redacted, DetectionMode, EventView, GameMap, InnerView, UiPhase, UiView};
use crate::arming::arm_started;
use crate::detection::{lock_step, ActionView, LockReply, PregameCandidate, RequestError};
use crate::riot::{LiveContext, PregameMatch};
use crate::selection::{agents_known, lock_status, map_decision, map_name, wanted_strategy, DecisionView, LockStatusView, StrategyView};
use crate::state_laws::{discreet, law_log_keeps_recent_events};
use crate::text::{replaced, same_ignoring_case};
use crate::text_laws::law_replace;

verus! {

/// Whether the configuration, what the dashboard shows of it and the data on agents and maps are as
/// they were.
pub open spec fn keeps_data(before: InnerView, after: InnerView) -> bool {
    &&& after.config == before.config
    &&& after.agents == before.agents
    &&& after.maps == before.maps
    &&& after.state.selected_agent_uuid == before.state.selected_agent_uuid
    &&& after.state.selected_map_urls == before.state.selected_map_urls
    &&& after.state.select_before_lock == before.state.select_before_lock
    &&& after.state.auto_rearm == before.state.auto_rearm
    &&& after.state.poll_ms == before.state.poll_ms
    &&& after.state.detection_mode == before.state.detection_mode
}

/// Whether a state says the same of the game: its server, its lobby, the agent locked there and how
/// many lobbies were worked on.
pub open spec fn keeps_game(before: UiView, after: UiView) -> bool {
    &&& after.glz_route == before.glz_route
    &&& after.lock_attempts == before.lock_attempts
    &&& after.last_match_id == before.last_match_id
    &&& after.last_lock_agent_uuid == before.last_lock_agent_uuid
}

/// Whether a log is another one with one more event at its end, redacted, and without its oldest
/// events if it would hold more than 80.
pub open spec fn logs(
    before: Seq<EventView>,
    after: Seq<EventView>,
    ts: u64,
    level: Seq<char>,
    message: Seq<char>,
) -> bool {
    let kept = if before.len() < 80 {
        before.len() as int
    } else {
        79
    };
    &&& after.len() == kept + 1
    &&& after[kept] == (EventView { ts, level, message: redacted(message) })
    &&& forall|i: int|
        0 <= i < kept ==> #[trigger] after[i] == before[before.len() - kept + i]
}

/// An event changes the log and nothing else.
pub proof fn law_event(inner: InnerView, ts: u64, level: Seq<char>, message: Seq<char>)
    ensures
        ({
            let after = inner.with_event(ts, level, message);
            &&& logs(inner.events, after.events, ts, level, message)
            &&& after.config == inner.config && after.state == inner.state
            &&& after.agents == inner.agents && after.maps == inner.maps
            &&& after.poller == inner.poller
        }),
{
    law_log_keeps_recent_events(inner, ts, level, message);
    let after = inner.with_event(ts, level, message).events;
    let kept = if inner.events.len() < 80 {
        inner.events.len() as int
    } else {
        79
    };
    assert(after.last() == after[kept]);
    assert forall|i: int| 0 <= i < kept implies #[trigger] after[i] == inner.events[
        inner.events.len() - kept + i
    ] by {
        assert(after.drop_last()[i] == inner.events.skip(inner.events.len() - kept)[i]);
    }
}

/// Redacting puts a mark in place of each name of a header that carries a secret, and changes no
/// text without one.
pub proof fn law_redacted(text: Seq<char>)
    ensures
        redacted(text) == replaced(
            replaced(text, "Authorization"@, "[auth-header]"@),
            "X-Riot-Entitlements-JWT"@,
            "[entitlement-header]"@,
        ),
        discreet(text) ==> redacted(text) == text,
{
    reveal_strlit("Authorization");
    reveal_strlit("X-Riot-Entitlements-JWT");
    if discreet(text) {
        law_replace(text, "Authorization"@, Seq::empty(), "[auth-header]"@);
        law_replace(text, "X-Riot-Entitlements-JWT"@, Seq::empty(), "[entitlement-header]"@);
    }
}

/// Disarming leaves an idle program that knows nothing of a game, and says so.
pub proof fn law_disarmed(inner: InnerView, ts: u64)
    ensures
        ({
            let after = inner.disarmed(ts);
            &&& keeps_data(inner, after)
            &&& !after.state.armed && !after.state.rearm_pending
            &&& after.state.phase == UiPhase::Idle
            &&& after.state.message == "Disarmed. Live sensitive data cleared."@
            &&& after.state.glz_route is None && after.state.last_match_id is None
                && after.state.last_lock_agent_uuid is None
            &&& after.state.lock_attempts == inner.state.lock_attempts
            &&& !after.poller
            &&& logs(inner.events, after.events, ts, "info"@, "Disarmed."@)
        }),
{
    law_event(inner, ts, "info"@, "Disarmed."@);
}

/// A wish to arm makes a program that is not armed forget the last game and begin to arm, if the
/// configuration says which agent to lock; if not, the program stays idle and says why.
pub proof fn law_arm_start(inner: InnerView, ts: u64)
    requires
        !inner.state.armed,
    ensures
        ({
            let after = arm_started(inner, ts);
            &&& keeps_data(inner, after)
            &&& !after.state.armed && !after.state.rearm_pending
            &&& after.state.glz_route is None && after.state.lock_attempts == 0
                && after.state.last_match_id is None && after.state.last_lock_agent_uuid is None
            &&& after.poller == inner.poller
            &&& wanted_strategy(inner.config) is Ok ==> after.state.phase == UiPhase::Arming
                && after.state.message == "Refreshing live Riot and agent data."@ && logs(
                inner.events,
                after.events,
                ts,
                "info"@,
                "Arming: refreshing live data."@,
            )
            &&& wanted_strategy(inner.config) matches Err(message) ==> after.state.phase
                == UiPhase::Idle && after.state.message == message && exists|between: Seq<EventView>|
                #[trigger] logs(
                    inner.events,
                    between,
                    ts,
                    "info"@,
                    "Arming: refreshing live data."@,
                ) && #[trigger] logs(between, after.events, ts, "warn"@, message)
        }),
{
    let arming = "Arming: refreshing live data."@;
    law_event(inner, ts, "info"@, arming);
    if let Err(message) = wanted_strategy(inner.config) {
        let between = inner.arming(ts);
        law_event(between.idle(message), ts, "warn"@, message);
        assert(logs(inner.events, between.events, ts, "info"@, arming));
        assert(logs(between.events, arm_started(inner, ts).events, ts, "warn"@, message));
    }
}

/// A failure of arming leaves an idle program that knows nothing of a game, and says why.
pub proof fn law_arm_failure(inner: InnerView, ts: u64, reason: Seq<char>)
    ensures
        ({
            let after = inner.arm_failed(ts, reason);
            &&& keeps_data(inner, after)
            &&& !after.state.armed && !after.state.rearm_pending
            &&& after.state.phase == UiPhase::Idle
            &&& after.state.message == "Arm failed: "@ + reason
            &&& after.state.glz_route is None && after.state.last_match_id is None
                && after.state.last_lock_agent_uuid is None
            &&& after.state.lock_attempts == inner.state.lock_attempts
            &&& after.poller == inner.poller
            &&& logs(inner.events, after.events, ts, "error"@, "Arm failed: "@ + reason)
        }),
{
    law_event(inner, ts, "error"@, "Arm failed: "@ + reason);
}

/// How the event log names a mode of detection.
pub open spec fn mode_name(mode: DetectionMode) -> Seq<char> {
    match mode {
        DetectionMode::Websocket => "Websocket"@,
        DetectionMode::Polling => "Polling"@,
        DetectionMode::Hybrid => "Hybrid"@,
    }
}

/// When arming is complete, the program is armed and detects, and shows the game's server and the
/// mode of detection.
pub proof fn law_armed(inner: InnerView, ts: u64, glz_base: Seq<char>, mode: DetectionMode)
    ensures
        ({
            let after = inner.armed(ts, glz_base, mode);
            &&& keeps_data(inner, after)
            &&& after.state.armed && after.state.rearm_pending == inner.state.rearm_pending
            &&& after.state.phase == UiPhase::Detecting
            &&& after.state.message == "Armed. Waiting for pre-game lobby."@
            &&& after.state.glz_route == Some(glz_base)
            &&& after.state.lock_attempts == inner.state.lock_attempts && after.state.last_match_id
                == inner.state.last_match_id && after.state.last_lock_agent_uuid
                == inner.state.last_lock_agent_uuid
            &&& after.poller == inner.poller
            &&& exists|between: Seq<EventView>| #[trigger]
                logs(inner.events, between, ts, "info"@, "Using GLZ route: "@ + glz_base)
                    && #[trigger] logs(
                    between,
                    after.events,
                    ts,
                    "info"@,
                    "Armed. Detection mode: "@ + mode_name(mode) + "."@,
                )
        }),
{
    let route = "Using GLZ route: "@ + glz_base;
    let shown = "Armed. Detection mode: "@ + mode_name(mode) + "."@;
    assert(mode.shown() == mode_name(mode));
    let between = inner.with_event(ts, "info"@, route);
    law_event(inner, ts, "info"@, route);
    law_event(between, ts, "info"@, shown);
    assert(logs(inner.events, between.events, ts, "info"@, route));
    assert(logs(between.events, inner.armed(ts, glz_base, mode).events, ts, "info"@, shown));
}

/// A failure of detection ends it, and is shown.
pub proof fn law_detection_failure(inner: InnerView, ts: u64, reason: Seq<char>)
    ensures
        ({
            let after = inner.detection_failed(ts, reason);
            &&& keeps_data(inner, after) && keeps_game(inner.state, after.state)
            &&& !after.state.armed && !after.state.rearm_pending
            &&& after.state.phase == UiPhase::Error && after.state.message == reason
            &&& !after.poller
            &&& logs(inner.events, after.events, ts, "error"@, reason)
        }),
{
    law_event(inner, ts, "error"@, reason);
}

/// Back in the menus, a program that was to arm again does so as if newly armed, if it was not
/// disarmed, the configuration says which agent to lock and that agent is known. Otherwise its task
/// is over; if it was to arm again and cannot, it is idle and says why.
pub proof fn law_rearm(inner: InnerView, ts: u64, glz_base: Seq<char>)
    ensures
        ({
            let after = inner.rearmed(ts, glz_base);
            let asked = inner.state.rearm_pending && inner.state.phase != UiPhase::Idle;
            let able = wanted_strategy(inner.config) is Ok && agents_known(inner);
            &&& inner.rearms() <==> asked && able
            &&& keeps_data(inner, after)
            &&& asked && able ==> {
                &&& after.state.armed && !after.state.rearm_pending
                &&& after.state.phase == UiPhase::Detecting
                &&& after.state.message == "Armed. Waiting for pre-game lobby."@
                &&& after.state.glz_route == Some(glz_base) && after.state.lock_attempts == 0
                &&& after.state.last_match_id is None && after.state.last_lock_agent_uuid is None
                &&& after.poller == inner.poller
                &&& logs(
                    inner.events,
                    after.events,
                    ts,
                    "info"@,
                    "Returned to menu. Auto re-armed."@,
                )
            }
            &&& !asked ==> after.state == inner.state && after.events == inner.events
                && !after.poller
            &&& asked && !able ==> {
                &&& keeps_game(inner.state, after.state) && after.events == inner.events
                &&& !after.state.armed && !after.state.rearm_pending && !after.poller
                &&& after.state.phase == UiPhase::Idle
                &&& wanted_strategy(inner.config) matches Err(message) ==> after.state.message
                    == message
                &&& wanted_strategy(inner.config) is Ok ==> after.state.message
                    == "Selected agent is not present in fetched playable agent data."@
            }
        }),
{
    law_event(inner, ts, "info"@, "Returned to menu. Auto re-armed."@);
}

/// The end of the work on a lobby is shown and logged, with the lobby and the agent. With automatic
/// arming the program waits for the menus and keeps its task; without it, it is done.
pub proof fn law_finished(
    inner: InnerView,
    ts: u64,
    phase: UiPhase,
    message: Seq<char>,
    level: Seq<char>,
    event: Seq<char>,
    match_id: Option<Seq<char>>,
    agent: Option<Seq<char>>,
)
    ensures
        ({
            let after = inner.finished(ts, phase, message, level, event, match_id, agent);
            let rearm = inner.config.auto_rearm;
            &&& keeps_data(inner, after)
            &&& !after.state.armed && after.state.rearm_pending == rearm
            &&& after.state.glz_route == inner.state.glz_route
            &&& after.state.lock_attempts == inner.state.lock_attempts
            &&& after.state.last_match_id == match_id && after.state.last_lock_agent_uuid == agent
            &&& rearm ==> after.state.phase == UiPhase::WaitingMenus && after.state.message
                == message + " Waiting for menu to auto re-arm."@ && after.poller == inner.poller
                && exists|between: Seq<EventView>| #[trigger]
                logs(inner.events, between, ts, level, event) && #[trigger] logs(
                    between,
                    after.events,
                    ts,
                    "info"@,
                    "Auto re-arm pending until Valorant returns to menu."@,
                )
            &&& !rearm ==> after.state.phase == phase && after.state.message == message
                && !after.poller && logs(inner.events, after.events, ts, level, event)
        }),
{
    let pending = "Auto re-arm pending until Valorant returns to menu."@;
    let after = inner.finished(ts, phase, message, level, event, match_id, agent);
    let between = inner.with_event(ts, level, event);
    law_event(inner, ts, level, event);
    law_event(between, ts, "info"@, pending);
    if inner.config.auto_rearm {
        assert(logs(inner.events, between.events, ts, level, event));
        assert(logs(between.events, after.events, ts, "info"@, pending));
    }
}

/// When a lobby is noticed by an armed program, the work on it is counted, shown and logged, and its
/// data are asked for if it is known which lobby it is, else the player's lobby is.
pub proof fn law_lobby_noticed(
    inner: InnerView,
    live: LiveContext,
    strategy: StrategyView,
    elapsed: nat,
    ts: u64,
    candidate: PregameCandidate,
)
    requires
        inner.state.armed,
        inner.state.lock_attempts < u64::MAX,
    ensures
        ({
            let step = lock_step(inner, live, strategy, elapsed, ts, LockReply::Begin(candidate));
            let after = step.0;
            &&& step.1 == match candidate.initial_match_id {
                Some(id) => ActionView::FetchLobby(id@),
                None => ActionView::FetchPlayer,
            }
            &&& keeps_data(inner, after)
            &&& after.state.armed && after.state.rearm_pending == inner.state.rearm_pending
            &&& after.state.phase == UiPhase::ResolvingMatch
            &&& after.state.message == "Pre-game detected. Resolving match data."@
            &&& after.state.lock_attempts == inner.state.lock_attempts + 1
            &&& after.state.last_match_id == match candidate.initial_match_id {
                Some(id) => Some(id@),
                None => None,
            }
            &&& after.state.last_lock_agent_uuid is None
            &&& after.state.glz_route == inner.state.glz_route && after.poller == inner.poller
            &&& logs(
                inner.events,
                after.events,
                ts,
                "info"@,
                "Pre-game detected. Starting lock sequence."@,
            )
        }),
{
    law_event(inner, ts, "info"@, "Pre-game detected. Starting lock sequence."@);
}

/// When the pre-game service tells the player's lobby, its data are asked for, and the dashboard
/// shows which lobby it is.
pub proof fn law_lobby_resolved(
    inner: InnerView,
    live: LiveContext,
    strategy: StrategyView,
    elapsed: nat,
    ts: u64,
    match_id: String,
)
    ensures
        ({
            let step = lock_step(
                inner,
                live,
                strategy,
                elapsed,
                ts,
                LockReply::Player(Ok(Some(match_id))),
            );
            let after = step.0;
            &&& step.1 == ActionView::FetchLobby(match_id@)
            &&& keeps_data(inner, after)
            &&& after.state.armed == inner.state.armed && after.state.rearm_pending
                == inner.state.rearm_pending
            &&& after.state.phase == UiPhase::ResolvingMatch
            &&& after.state.message == "Pre-game detected. Resolving match data."@
            &&& after.state.last_match_id == Some(match_id@)
            &&& after.state.lock_attempts == inner.state.lock_attempts
            &&& after.state.last_lock_agent_uuid == inner.state.last_lock_agent_uuid
            &&& after.state.glz_route == inner.state.glz_route
            &&& after.events == inner.events && after.poller == inner.poller
        }),
{
}

/// When the agent is about to be selected or locked, the dashboard shows the lobby and the agent, and
/// the log says so.
pub proof fn law_locking(
    inner: InnerView,
    live: LiveContext,
    strategy: StrategyView,
    elapsed: nat,
    ts: u64,
    match_id: String,
    lobby: PregameMatch,
    agent: Seq<char>,
)
    requires
        map_decision(inner.config, strategy, lobby.map_id@) == DecisionView::Lock(agent),
        lock_status(lobby, live.puuid@, agent) is NotLocked || lock_status(
            lobby,
            live.puuid@,
            agent,
        ) is PlayerMissing,
    ensures
        ({
            let step = lock_step(
                inner,
                live,
                strategy,
                elapsed,
                ts,
                LockReply::Lobby { match_id, lobby: Ok(lobby) },
            );
            let after = step.0;
            &&& step.1 == if live.select_before_lock {
                ActionView::Select(match_id@, agent)
            } else {
                ActionView::Lock(match_id@, agent)
            }
            &&& keeps_data(inner, after)
            &&& after.state.armed == inner.state.armed && after.state.rearm_pending
                == inner.state.rearm_pending
            &&& after.state.phase == UiPhase::Locking
            &&& after.state.message == "Match data ready. Sending lock request."@
            &&& after.state.last_match_id == Some(match_id@)
            &&& after.state.last_lock_agent_uuid == Some(agent)
            &&& after.state.lock_attempts == inner.state.lock_attempts
            &&& after.state.glz_route == inner.state.glz_route && after.poller == inner.poller
            &&& logs(inner.events, after.events, ts, "info"@, "Attempting agent lock."@)
        }),
{
    law_event(inner, ts, "info"@, "Attempting agent lock."@);
}

/// A lobby ends the work on it if its map is not to be locked on or the player has an agent locked
/// there, and each of these ends is shown as what it is, with the agent that is locked.
pub proof fn law_lobby_ends(
    inner: InnerView,
    live: LiveContext,
    strategy: StrategyView,
    elapsed: nat,
    ts: u64,
    match_id: String,
    lobby: PregameMatch,
)
    ensures
        ({
            let step = lock_step(
                inner,
                live,
                strategy,
                elapsed,
                ts,
                LockReply::Lobby { match_id, lobby: Ok(lobby) },
            );
            let name = map_name(inner.maps, lobby.map_id@);
            match map_decision(inner.config, strategy, lobby.map_id@) {
                DecisionView::Skip(reason) => step == (
                    inner.finished(
                        ts,
                        UiPhase::SkippedMap,
                        "Skipped "@ + name + " because "@ + reason + "."@,
                        "warn"@,
                        "Skipped "@ + name + "; "@ + reason + "."@,
                        Some(match_id@),
                        None,
                    ),
                    ActionView::Finished,
                ),
                DecisionView::Lock(agent) => {
                    &&& lock_status(lobby, live.puuid@, agent) is LockedSelected ==> step == (
                        inner.finished(
                            ts,
                            UiPhase::Locked,
                            "Already locked selected agent for this game."@,
                            "info"@,
                            "Already locked selected agent for this game."@,
                            Some(match_id@),
                            Some(agent),
                        ),
                        ActionView::Finished,
                    )
                    &&& lock_status(lobby, live.puuid@, agent) matches LockStatusView::LockedOther(
                        other,
                    ) ==> step == (
                        inner.finished(
                            ts,
                            UiPhase::LockedOtherAgent,
                            "Already locked a different agent: "@ + other + "."@,
                            "warn"@,
                            "Already locked a different agent for this game."@,
                            Some(match_id@),
                            Some(other),
                        ),
                        ActionView::Finished,
                    )
                },
            }
        }),
{
}

/// A successful lock ends the work on a lobby and is shown with the lobby and the agent.
pub proof fn law_lock_succeeds(
    inner: InnerView,
    live: LiveContext,
    strategy: StrategyView,
    elapsed: nat,
    ts: u64,
    match_id: String,
    agent_uuid: String,
)
    ensures
        lock_step(
            inner,
            live,
            strategy,
            elapsed,
            ts,
            LockReply::Locked { match_id, agent_uuid, outcome: Ok(()) },
        ) == (
            inner.finished(
                ts,
                UiPhase::Locked,
                "Agent lock request succeeded."@,
                "info"@,
                "Agent lock request succeeded."@,
                Some(match_id@),
                Some(agent_uuid@),
            ),
            ActionView::Finished,
        ),
{
}

/// A check that finds a lobby changes nothing; one that finds none only ends the warning of an armed
/// program; one that fails warns, and says why.
pub proof fn law_checked(
    inner: InnerView,
    ts: u64,
    outcome: Result<Option<String>, RequestError>,
)
    ensures
        ({
            let after = inner.checked(ts, outcome);
            let warned = inner.state.armed && inner.state.phase == UiPhase::Warning;
            &&& keeps_data(inner, after) && keeps_game(inner.state, after.state)
            &&& after.state.armed == inner.state.armed && after.state.rearm_pending
                == inner.state.rearm_pending && after.poller == inner.poller
            &&& outcome matches Ok(Some(_)) ==> after == inner
            &&& outcome matches Ok(None) ==> after.events == inner.events && (!warned ==> after
                == inner) && (warned ==> after.state.phase == UiPhase::Detecting
                && after.state.message == "Armed. Waiting for pre-game lobby."@)
            &&& outcome matches Err(error) ==> after.state.phase == UiPhase::Warning
                && after.state.message == "Pregame check failed; will retry."@ && logs(
                inner.events,
                after.events,
                ts,
                "warn"@,
                "Pregame check failed: "@ + error.shown(),
            )
            &&& inner.recovers() <==> warned
        }),
{
    if let Err(error) = outcome {
        law_event(inner, ts, "warn"@, "Pregame check failed: "@ + error.shown());
    }
}

/// An expired lobby is logged. Then a player who is back in the menus leaves an armed program
/// detecting as if there had been no lobby, and one that is not armed as it was; for any other player
/// the program waits for the menus to arm again.
pub proof fn law_lobby_expired(inner: InnerView, ts: u64, state: Option<Seq<char>>)
    ensures
        ({
            let noted = inner.lobby_expired(ts);
            let after = inner.expiry_handled(ts, state);
            let in_menus = state is Some && same_ignoring_case(state->0, "MENUS"@);
            &&& keeps_data(inner, noted) && noted.state == inner.state && noted.poller
                == inner.poller
            &&& logs(
                inner.events,
                noted.events,
                ts,
                "warn"@,
                "Pregame candidate expired before match data or lock was ready."@,
            )
            &&& keeps_data(inner, after) && after.poller == inner.poller
            &&& after.state.glz_route == inner.state.glz_route && after.state.lock_attempts
                == inner.state.lock_attempts
            &&& in_menus ==> after.events == inner.events && after.state.armed == inner.state.armed
                && after.state.rearm_pending == inner.state.rearm_pending
            &&& in_menus && !inner.state.armed ==> after == inner
            &&& in_menus && inner.state.armed ==> after.state.phase == UiPhase::Detecting
                && after.state.message == "Returned to menu. Waiting for pre-game lobby."@
                && after.state.last_match_id is None && after.state.last_lock_agent_uuid is None
            &&& !in_menus ==> !after.state.armed && after.state.rearm_pending
                && after.state.phase == UiPhase::WaitingMenus && after.state.message
                == "Pregame candidate expired. Waiting for menu before retrying."@
                && after.state.last_match_id == inner.state.last_match_id
                && after.state.last_lock_agent_uuid == inner.state.last_lock_agent_uuid && logs(
                inner.events,
                after.events,
                ts,
                "info"@,
                "Waiting for menu before retrying detection."@,
            )
        }),
{
    law_event(
        inner,
        ts,
        "warn"@,
        "Pregame candidate expired before match data or lock was ready."@,
    );
    law_event(inner, ts, "info"@, "Waiting for menu before retrying detection."@);
}

/// The loss of the websocket in hybrid detection is logged and changes nothing else.
pub proof fn law_listener_failed(inner: InnerView, ts: u64, reason: Seq<char>)
    ensures
        ({
            let after = inner.listener_failed(ts, reason);
            &&& keeps_data(inner, after) && after.state == inner.state && after.poller
                == inner.poller
            &&& logs(
                inner.events,
                after.events,
                ts,
                "warn"@,
                "WS state detection unavailable: "@ + reason,
            )
        }),
{
    law_event(inner, ts, "warn"@, "WS state detection unavailable: "@ + reason);
}

/// The fetch of the agents changes the dashboard's message; only agents that came replace those that
/// were there, and only a failure is logged.
pub proof fn law_agents_loading(inner: InnerView, ts: u64, load: AgentLoad)
    ensures
        ({
            let after = inner.agents_loading(ts, load);
            &&& after.config == inner.config && after.maps == inner.maps && after.poller
                == inner.poller
            &&& after.state == (UiView { message: after.state.message, ..inner.state })
            &&& match load {
                AgentLoad::Started => after.agents == inner.agents && after.events == inner.events
                    && after.state.message == "Loading public agent data."@,
                AgentLoad::Loaded(agents) => after.agents == agent_views(agents@) && after.events
                    == inner.events && after.state.message
                    == "Idle. Select an agent, then press Arm."@,
                AgentLoad::ClientFailed(error) => after.agents == inner.agents
                    && after.state.message == "Failed to initialize public agent fetch."@ && logs(
                    inner.events,
                    after.events,
                    ts,
                    "error"@,
                    "Agent data load failed: "@ + error@,
                ),
                AgentLoad::FetchFailed(error) => after.agents == inner.agents
                    && after.state.message == "Agent data unavailable. Restart the app to retry."@
                    && logs(
                    inner.events,
                    after.events,
                    ts,
                    "error"@,
                    "Agent data load failed: "@ + error@,
                ),
            }
        }),
{
    match load {
        AgentLoad::ClientFailed(error) => law_event(
            inner,
            ts,
            "error"@,
            "Agent data load failed: "@ + error@,
        ),
        AgentLoad::FetchFailed(error) => law_event(
            inner,
            ts,
            "error"@,
            "Agent data load failed: "@ + error@,
        ),
        _ => {},
    }
}

/// Maps that came replace those that were there; a failure to fetch them is only logged.
pub proof fn law_maps_fetched(inner: InnerView, ts: u64, outcome: Result<Vec<GameMap>, String>)
    ensures
        ({
            let after = inner.maps_fetched(ts, outcome);
            &&& after.config == inner.config && after.state == inner.state && after.agents
                == inner.agents && after.poller == inner.poller
            &&& match outcome {
                Ok(maps) => after.maps == map_views(maps@) && after.events == inner.events,
                Err(error) => after.maps == inner.maps && logs(
                    inner.events,
                    after.events,
                    ts,
                    "error"@,
                    "Map data load failed: "@ + error@,
                ),
            }
        }),
{
    if let Err(error) = outcome {
        law_event(inner, ts, "error"@, "Map data load failed: "@ + error@);
    }
}

/// The names of the phases in the dashboard's data.
pub proof fn law_phase_names(phase: UiPhase)
    ensures
        phase.shown() == match phase {
            UiPhase::Idle => "idle"@,
            UiPhase::Arming => "arming"@,
            UiPhase::Detecting => "detecting"@,
            UiPhase::ResolvingMatch => "resolving_match"@,
            UiPhase::Locking => "locking"@,
            UiPhase::Locked => "locked"@,
            UiPhase::LockedOtherAgent => "locked_other_agent"@,
            UiPhase::SkippedMap => "skipped_map"@,
            UiPhase::WaitingMenus => "waiting_menus"@,
            UiPhase::Warning => "warning"@,
            UiPhase::Error => "error"@,
        },
{
}

} // verus!
