//! What always holds of the program's state.
use vstd::prelude::*;

use crate::agents::AgentLoad;
use crate::app::{changed_config, cleaned, complete, default_config, filled, idle_state, listed, mirrors, recent, redacted, ConfigView, DetectionMode, EventView, GameMap, InnerView, RequestView, StoredView, UiPhase, UiView, EVENT_LIMIT};
use crate::arming::arm_started;
use crate::detection::{lock_step, ActionView, LockReply, PregameCandidate, RequestError, LOCK_SEQUENCE_TIMEOUT_NANOS};
use crate::presence::state_is;
use crate::riot::LiveContext;
use crate::selection::{agents_known, lock_status, map_allowed, map_decision, map_name, wanted_strategy, DecisionView, LockStatusView, StrategyView};
use crate::text::{holds, lower, occurs_at, replaced, same_ignoring_case, trimmed};
use crate::text_laws::{bare, law_replaced_is_free, law_same_ignoring_case_is_equivalence, law_trim_keeps_bare, law_trimmed_is_bare};

verus! {

/// Whether a text names no header that carries a secret.
pub open spec fn discreet(text: Seq<char>) -> bool {
    !holds(text, "Authorization"@) && !holds(text, "X-Riot-Entitlements-JWT"@)
}

/// A redacted text names no header that carries a secret, whatever it was made of.
pub proof fn law_redacted_is_discreet(text: Seq<char>)
    ensures
        discreet(redacted(text)),
{
    let auth = "Authorization"@;
    let jwt = "X-Riot-Entitlements-JWT"@;
    let auth_mark = "[auth-header]"@;
    let jwt_mark = "[entitlement-header]"@;
    reveal_strlit("Authorization");
    reveal_strlit("X-Riot-Entitlements-JWT");
    reveal_strlit("[auth-header]");
    reveal_strlit("[entitlement-header]");
    assert(auth_mark[0] == '[' && auth_mark.last() == ']');
    assert(jwt_mark[0] == '[' && jwt_mark.last() == ']');
    assert(!auth.contains('[') && !auth.contains(']'));
    assert(!jwt.contains('[') && !jwt.contains(']'));
    assert(!holds(auth_mark, auth)) by {
        if holds(auth_mark, auth) {
            let i = choose|i: int| occurs_at(auth_mark, auth, i);
            assert(auth_mark.subrange(i, i + auth.len())[0] == auth_mark[i]);
        }
    }
    assert(!holds(jwt_mark, auth)) by {
        if holds(jwt_mark, auth) {
            let i = choose|i: int| occurs_at(jwt_mark, auth, i);
            assert(jwt_mark.subrange(i, i + auth.len())[0] == jwt_mark[i]);
            assert(0 <= i <= 7);
        }
    }
    let first = replaced(text, auth, auth_mark);
    law_replaced_is_free(text, auth, auth_mark, auth);
    law_replaced_is_free(first, jwt, jwt_mark, auth);
    law_replaced_is_free(first, jwt, jwt_mark, jwt);
}

/// The log keeps its last events in order, the new one at its end, and never more than its limit.
pub proof fn law_log_keeps_recent_events(
    inner: InnerView,
    ts: u64,
    level: Seq<char>,
    message: Seq<char>,
)
    ensures
        ({
            let before = inner.events;
            let after = inner.with_event(ts, level, message).events;
            let kept = if before.len() < EVENT_LIMIT {
                before.len() as int
            } else {
                EVENT_LIMIT - 1
            };
            &&& after.len() == kept + 1
            &&& after.last() == (EventView { ts, level, message: redacted(message) })
            &&& after.drop_last() == before.skip(before.len() - kept)
        }),
{
    let before = inner.events;
    let after = inner.with_event(ts, level, message).events;
    let kept = if before.len() < EVENT_LIMIT {
        before.len() as int
    } else {
        EVENT_LIMIT - 1
    };
    assert(after.drop_last() =~= before.skip(before.len() - kept));
}

/// What holds of every state that the program comes to: the dashboard shows the configuration as it
/// is, the log keeps its limit, and no event names a header that carries a secret.
pub open spec fn sound(inner: InnerView) -> bool {
    &&& mirrors(inner.state, inner.config)
    &&& inner.events.len() <= EVENT_LIMIT
    &&& forall|i: int| 0 <= i < inner.events.len() ==> discreet(#[trigger] inner.events[i].message)
}

/// The program starts in a sound state.
pub proof fn law_start_is_sound(config: ConfigView)
    ensures
        sound(
            InnerView {
                config,
                state: idle_state(config),
                agents: seq![],
                maps: seq![],
                events: seq![],
                poller: false,
            },
        ),
{
}

/// An event keeps the state sound.
pub proof fn law_sound_after_event(
    inner: InnerView,
    ts: u64,
    level: Seq<char>,
    message: Seq<char>,
)
    requires
        sound(inner),
    ensures
        sound(inner.with_event(ts, level, message)),
{
    law_redacted_is_discreet(message);
    let added = inner.events.push(EventView { ts, level, message: redacted(message) });
    assert forall|i: int| 0 <= i < recent(added).len() implies discreet(
        #[trigger] recent(added)[i].message,
    ) by {
        let k = if added.len() > EVENT_LIMIT {
            i + added.len() - EVENT_LIMIT
        } else {
            i
        };
        assert(recent(added)[i] == added[k]);
        if k < inner.events.len() {
            assert(discreet(inner.events[k].message));
        }
    }
}

/// What the user does keeps the state sound: changing the configuration, arming and disarming.
pub proof fn law_sound_after_user(inner: InnerView, request: RequestView, ts: u64)
    requires
        sound(inner),
    ensures
        sound(inner.reconfigured(request)),
        sound(arm_started(inner, ts)),
        sound(inner.disarmed(ts)),
{
    let bare_arming = InnerView { state: inner.arming(ts).state, ..inner };
    law_sound_after_event(bare_arming, ts, "info"@, "Arming: refreshing live data."@);
    assert(inner.arming(ts) == bare_arming.with_event(
        ts,
        "info"@,
        "Arming: refreshing live data."@,
    ));
    if let Err(message) = wanted_strategy(inner.config) {
        law_sound_after_event(inner.arming(ts).idle(message), ts, "warn"@, message);
    }
    let disarming = InnerView { state: inner.disarmed(ts).state, poller: false, ..inner };
    law_sound_after_event(disarming, ts, "info"@, "Disarmed."@);
    assert(inner.disarmed(ts) == disarming.with_event(ts, "info"@, "Disarmed."@));
}

/// What comes of the public data keeps the state sound.
pub proof fn law_sound_after_loading(
    inner: InnerView,
    ts: u64,
    load: AgentLoad,
    outcome: Result<Vec<GameMap>, String>,
)
    requires
        sound(inner),
    ensures
        sound(inner.agents_loading(ts, load)),
        sound(inner.maps_fetched(ts, outcome)),
{
    match load {
        AgentLoad::ClientFailed(error) => {
            law_sound_after_event(
                inner.with_message("Failed to initialize public agent fetch."@),
                ts,
                "error"@,
                "Agent data load failed: "@ + error@,
            );
        },
        AgentLoad::FetchFailed(error) => {
            law_sound_after_event(
                inner.with_message("Agent data unavailable. Restart the app to retry."@),
                ts,
                "error"@,
                "Agent data load failed: "@ + error@,
            );
        },
        _ => {},
    }
    if let Err(error) = outcome {
        law_sound_after_event(inner, ts, "error"@, "Map data load failed: "@ + error@);
    }
}

/// The end of the work on a lobby keeps the state sound.
pub proof fn law_sound_after_finish(
    inner: InnerView,
    ts: u64,
    phase: UiPhase,
    message: Seq<char>,
    level: Seq<char>,
    event: Seq<char>,
    match_id: Option<Seq<char>>,
    agent: Option<Seq<char>>,
)
    requires
        sound(inner),
    ensures
        sound(inner.finished(ts, phase, message, level, event, match_id, agent)),
{
    let finished = inner.finished(ts, phase, message, level, event, match_id, agent);
    let ended = InnerView { state: finished.state, poller: finished.poller, ..inner };
    law_sound_after_event(ended, ts, level, event);
    if inner.config.auto_rearm {
        law_sound_after_event(
            ended.with_event(ts, level, event),
            ts,
            "info"@,
            "Auto re-arm pending until Valorant returns to menu."@,
        );
    }
}

/// Every step in locking an agent keeps the state sound.
pub proof fn law_sound_after_lock_step(
    inner: InnerView,
    live: LiveContext,
    strategy: StrategyView,
    elapsed: nat,
    ts: u64,
    reply: LockReply,
)
    requires
        sound(inner),
    ensures
        sound(lock_step(inner, live, strategy, elapsed, ts, reply).0),
{
    let after = lock_step(inner, live, strategy, elapsed, ts, reply).0;
    match reply {
        LockReply::Begin(candidate) => {
            let id = candidate.initial_match_id.deep_view();
            let noticing = InnerView { state: inner.lobby_noticed(ts, id).state, ..inner };
            law_sound_after_event(
                noticing,
                ts,
                "info"@,
                "Pre-game detected. Starting lock sequence."@,
            );
            assert(inner.lobby_noticed(ts, id) == noticing.with_event(
                ts,
                "info"@,
                "Pre-game detected. Starting lock sequence."@,
            ));
        },
        LockReply::Lobby { match_id, lobby: Ok(lobby) } => {
            match map_decision(inner.config, strategy, lobby.map_id@) {
                DecisionView::Skip(reason) => {
                    let name = map_name(inner.maps, lobby.map_id@);
                    law_sound_after_finish(
                        inner,
                        ts,
                        UiPhase::SkippedMap,
                        "Skipped "@ + name + " because "@ + reason + "."@,
                        "warn"@,
                        "Skipped "@ + name + "; "@ + reason + "."@,
                        Some(match_id@),
                        None,
                    );
                },
                DecisionView::Lock(agent) => {
                    match lock_status(lobby, live.puuid@, agent) {
                        LockStatusView::LockedSelected => {
                            law_sound_after_finish(
                                inner,
                                ts,
                                UiPhase::Locked,
                                "Already locked selected agent for this game."@,
                                "info"@,
                                "Already locked selected agent for this game."@,
                                Some(match_id@),
                                Some(agent),
                            );
                        },
                        LockStatusView::LockedOther(other) => {
                            law_sound_after_finish(
                                inner,
                                ts,
                                UiPhase::LockedOtherAgent,
                                "Already locked a different agent: "@ + other + "."@,
                                "warn"@,
                                "Already locked a different agent for this game."@,
                                Some(match_id@),
                                Some(other),
                            );
                        },
                        _ => {
                            let locking = InnerView { state: after.state, ..inner };
                            law_sound_after_event(
                                locking,
                                ts,
                                "info"@,
                                "Attempting agent lock."@,
                            );
                            assert(after == locking.with_event(
                                ts,
                                "info"@,
                                "Attempting agent lock."@,
                            ));
                        },
                    }
                },
            }
        },
        LockReply::Locked { match_id, agent_uuid, outcome: Ok(_) } => {
            law_sound_after_finish(
                inner,
                ts,
                UiPhase::Locked,
                "Agent lock request succeeded."@,
                "info"@,
                "Agent lock request succeeded."@,
                Some(match_id@),
                Some(agent_uuid@),
            );
        },
        _ => {},
    }
}

/// Every step in arming keeps the state sound.
pub proof fn law_sound_after_arming(
    inner: InnerView,
    ts: u64,
    reason: Seq<char>,
    glz_base: Seq<char>,
    mode: DetectionMode,
)
    requires
        sound(inner),
    ensures
        sound(inner.arm_failed(ts, reason)),
        sound(inner.armed(ts, glz_base, mode)),
        sound(InnerView { poller: true, ..inner }),
        sound(inner.detection_failed(ts, reason)),
        sound(inner.rearmed(ts, glz_base)),
{
    let failed = InnerView { state: inner.arm_failed(ts, reason).state, ..inner };
    law_sound_after_event(failed, ts, "error"@, "Arm failed: "@ + reason);
    assert(inner.arm_failed(ts, reason) == failed.with_event(
        ts,
        "error"@,
        "Arm failed: "@ + reason,
    ));
    let arming = InnerView { state: inner.armed(ts, glz_base, mode).state, ..inner };
    let route = "Using GLZ route: "@ + glz_base;
    let shown = "Armed. Detection mode: "@ + mode.shown() + "."@;
    law_sound_after_event(arming, ts, "info"@, route);
    law_sound_after_event(arming.with_event(ts, "info"@, route), ts, "info"@, shown);
    assert(inner.armed(ts, glz_base, mode) == arming.with_event(ts, "info"@, route).with_event(
        ts,
        "info"@,
        shown,
    ));
    let broken = InnerView {
        state: inner.detection_failed(ts, reason).state,
        poller: false,
        ..inner
    };
    law_sound_after_event(broken, ts, "error"@, reason);
    assert(inner.detection_failed(ts, reason) == broken.with_event(ts, "error"@, reason));
    if inner.rearms() {
        let again = InnerView { state: inner.rearmed(ts, glz_base).state, ..inner };
        law_sound_after_event(again, ts, "info"@, "Returned to menu. Auto re-armed."@);
        assert(inner.rearmed(ts, glz_base) == again.with_event(
            ts,
            "info"@,
            "Returned to menu. Auto re-armed."@,
        ));
    }
}

/// Every step in watching for lobbies keeps the state sound.
pub proof fn law_sound_after_watching(
    inner: InnerView,
    ts: u64,
    outcome: Result<Option<String>, RequestError>,
    state: Option<Seq<char>>,
    reason: Seq<char>,
)
    requires
        sound(inner),
    ensures
        sound(inner.checked(ts, outcome)),
        sound(inner.lobby_expired(ts)),
        sound(inner.expiry_handled(ts, state)),
        sound(inner.listener_failed(ts, reason)),
{
    if let Err(error) = outcome {
        let warned = InnerView { state: inner.checked(ts, outcome).state, ..inner };
        let event = "Pregame check failed: "@ + error.shown();
        law_sound_after_event(warned, ts, "warn"@, event);
        assert(inner.checked(ts, outcome) == warned.with_event(ts, "warn"@, event));
    }
    law_sound_after_event(
        inner,
        ts,
        "warn"@,
        "Pregame candidate expired before match data or lock was ready."@,
    );
    if !state_is(state, "MENUS"@) {
        let waiting = InnerView { state: inner.expiry_handled(ts, state).state, ..inner };
        let event = "Waiting for menu before retrying detection."@;
        law_sound_after_event(waiting, ts, "info"@, event);
        assert(inner.expiry_handled(ts, state) == waiting.with_event(ts, "info"@, event));
    }
    law_sound_after_event(inner, ts, "warn"@, "WS state detection unavailable: "@ + reason);
}

/// Cleaned addresses of maps: none is blank or has white space around it, no two of them differ
/// only in case, each comes from a given one, and each given one that is not blank is among them.
pub proof fn law_cleaned(texts: Seq<Seq<char>>)
    ensures
        forall|i: int|
            0 <= i < cleaned(texts).len() ==> (#[trigger] cleaned(texts)[i]).len() > 0 && bare(
                cleaned(texts)[i],
            ),
        forall|i: int, j: int|
            0 <= i < j < cleaned(texts).len() ==> !#[trigger] same_ignoring_case(
                cleaned(texts)[i],
                cleaned(texts)[j],
            ),
        forall|i: int|
            0 <= i < cleaned(texts).len() ==> exists|k: int|
                0 <= k < texts.len() && #[trigger] cleaned(texts)[i] == #[trigger] trimmed(
                    texts[k],
                ),
        forall|k: int|
            0 <= k < texts.len() && (#[trigger] trimmed(texts[k])).len() > 0 ==> listed(
                cleaned(texts),
                trimmed(texts[k]),
            ),
    decreases texts.len(),
{
    if texts.len() > 0 {
        let front = texts.drop_last();
        let earlier = cleaned(front);
        let text = trimmed(texts.last());
        let all = cleaned(texts);
        law_cleaned(front);
        law_trimmed_is_bare(texts.last());
        assert forall|i: int| 0 <= i < all.len() implies exists|k: int|
            0 <= k < texts.len() && #[trigger] all[i] == #[trigger] trimmed(texts[k]) by {
            if i < earlier.len() {
                assert(all[i] == earlier[i]);
                let k = choose|k: int|
                    0 <= k < front.len() && earlier[i] == #[trigger] trimmed(front[k]);
                assert(texts[k] == front[k]);
                assert(all[i] == trimmed(texts[k]));
            } else {
                assert(all[i] == trimmed(texts[texts.len() - 1]));
            }
        }
        assert forall|k: int|
            0 <= k < texts.len() && (#[trigger] trimmed(texts[k])).len() > 0 implies listed(
            all,
            trimmed(texts[k]),
        ) by {
            if k < front.len() {
                assert(front[k] == texts[k]);
                assert(listed(earlier, trimmed(front[k])));
                let i = choose|i: int|
                    0 <= i < earlier.len() && #[trigger] same_ignoring_case(
                        earlier[i],
                        trimmed(front[k]),
                    );
                assert(all[i] == earlier[i]);
                assert(same_ignoring_case(all[i], trimmed(texts[k])));
            } else if listed(earlier, text) {
                assert(all == earlier);
            } else {
                assert(all[earlier.len() as int] == text);
                assert(same_ignoring_case(all[earlier.len() as int], text));
            }
        }
        assert forall|i: int, j: int| 0 <= i < j < all.len() implies !#[trigger] same_ignoring_case(
            all[i],
            all[j],
        ) by {
            assert(all[i] == earlier[i]);
            if j < earlier.len() {
                assert(all[j] == earlier[j]);
            } else if same_ignoring_case(all[i], all[j]) {
                assert(listed(earlier, text));
            }
        }
    }
}

proof fn lemma_clean_stays(texts: Seq<Seq<char>>)
    requires
        forall|i: int|
            0 <= i < texts.len() ==> (#[trigger] texts[i]).len() > 0 && bare(texts[i]),
        forall|i: int, j: int|
            0 <= i < j < texts.len() ==> !#[trigger] same_ignoring_case(texts[i], texts[j]),
    ensures
        cleaned(texts) == texts,
    decreases texts.len(),
{
    if texts.len() > 0 {
        let front = texts.drop_last();
        assert forall|i: int| 0 <= i < front.len() implies (#[trigger] front[i]).len() > 0 && bare(
            front[i],
        ) by {
            assert(front[i] == texts[i]);
        }
        assert forall|i: int, j: int|
            0 <= i < j < front.len() implies !#[trigger] same_ignoring_case(front[i], front[j]) by {
            assert(!same_ignoring_case(texts[i], texts[j]));
        }
        lemma_clean_stays(front);
        let last = texts.last();
        assert(texts[texts.len() - 1] == last);
        law_trim_keeps_bare(last);
        if listed(front, last) {
            let i = choose|i: int|
                0 <= i < front.len() && #[trigger] same_ignoring_case(front[i], last);
            assert(same_ignoring_case(texts[i], texts[texts.len() - 1]));
        }
        assert(front.push(last) =~= texts);
    } else {
        assert(cleaned(texts) =~= texts);
    }
}

/// Cleaning addresses of maps twice is cleaning them once.
pub proof fn law_clean_twice(texts: Seq<Seq<char>>)
    ensures
        cleaned(cleaned(texts)) == cleaned(texts),
{
    law_cleaned(texts);
    lemma_clean_stays(cleaned(texts));
}

/// Cleaning changes nothing in which maps are selected: a map is listed afterwards if and only if
/// its address was given, whatever the case and the white space around it.
pub proof fn law_cleaning_keeps_selection(texts: Seq<Seq<char>>, map_id: Seq<char>)
    requires
        map_id.len() > 0,
    ensures
        listed(cleaned(texts), map_id) <==> exists|k: int|
            0 <= k < texts.len() && #[trigger] same_ignoring_case(trimmed(texts[k]), map_id),
{
    law_cleaned(texts);
    let all = cleaned(texts);
    if listed(all, map_id) {
        let i = choose|i: int| 0 <= i < all.len() && #[trigger] same_ignoring_case(all[i], map_id);
        let k = choose|k: int| 0 <= k < texts.len() && all[i] == #[trigger] trimmed(texts[k]);
        assert(same_ignoring_case(trimmed(texts[k]), map_id));
    }
    if exists|k: int|
        0 <= k < texts.len() && #[trigger] same_ignoring_case(trimmed(texts[k]), map_id) {
        let k = choose|k: int|
            0 <= k < texts.len() && #[trigger] same_ignoring_case(trimmed(texts[k]), map_id);
        assert(lower(trimmed(texts[k])).len() == lower(map_id).len());
        assert(listed(all, trimmed(texts[k])));
        let i = choose|i: int|
            0 <= i < all.len() && #[trigger] same_ignoring_case(all[i], trimmed(texts[k]));
        law_same_ignoring_case_is_equivalence(all[i], trimmed(texts[k]), map_id);
        assert(same_ignoring_case(all[i], map_id));
    }
}

/// If no maps are selected, all are allowed.
pub proof fn law_no_selection_allows_all(config: ConfigView, map_id: Seq<char>)
    requires
        config.selected_map_urls.len() == 0,
    ensures
        map_allowed(config, map_id),
{
}

/// Whether a map is allowed does not depend on the case in which its address is written.
pub proof fn law_allowed_in_any_case(config: ConfigView, map_id: Seq<char>, other: Seq<char>)
    requires
        same_ignoring_case(map_id, other),
    ensures
        map_allowed(config, map_id) == map_allowed(config, other),
{
    let urls = config.selected_map_urls;
    if listed(urls, map_id) {
        let i = choose|i: int| 0 <= i < urls.len() && #[trigger] same_ignoring_case(urls[i], map_id);
        assert(same_ignoring_case(urls[i], other));
    }
    if listed(urls, other) {
        let i = choose|i: int| 0 <= i < urls.len() && #[trigger] same_ignoring_case(urls[i], other);
        assert(same_ignoring_case(urls[i], map_id));
    }
}

/// A change of the configuration that gives nothing changes nothing, and one that is made twice
/// changes no more than once.
pub proof fn law_change_is_idempotent(config: ConfigView, request: RequestView)
    ensures
        changed_config(
            config,
            RequestView {
                selected_agent_uuid: None,
                selected_map_urls: None,
                select_before_lock: None,
                auto_rearm: None,
                detection_mode: None,
            },
        ) == config,
        changed_config(changed_config(config, request), request) == changed_config(config, request),
{
}

/// A configuration reads back from its file as it was, and an empty file gives the one before the
/// user changes it.
pub proof fn law_config_reads_back(config: ConfigView)
    ensures
        filled(complete(config)) == config,
        filled(
            StoredView {
                selected_agent_uuid: None,
                selected_map_urls: None,
                selection_mode: None,
                per_map_agent_uuids: None,
                select_before_lock: None,
                auto_rearm: None,
                poll_ms: None,
                detection_mode: None,
            },
        ) == default_config(),
{
}

/// A wish to arm changes nothing in a program that is armed.
pub proof fn law_arm_when_armed(inner: InnerView, ts: u64)
    requires
        inner.state.armed,
    ensures
        arm_started(inner, ts) == inner,
{
}

/// Disarming stops detection and forgets what is known of the game: no work on a lobby begins or
/// goes on, the program does not arm again by itself, and there is no detection task. The
/// configuration and the data on agents and maps stay.
pub proof fn law_disarm_stops(
    inner: InnerView,
    ts: u64,
    live: LiveContext,
    strategy: StrategyView,
    candidate: PregameCandidate,
    elapsed: nat,
    glz_base: Seq<char>,
)
    ensures
        ({
            let off = inner.disarmed(ts);
            &&& !off.state.armed && !off.state.rearm_pending && off.state.phase == UiPhase::Idle
            &&& off.state.glz_route is None
            &&& off.state.last_match_id is None
            &&& off.state.last_lock_agent_uuid is None
            &&& !off.poller
            &&& off.config == inner.config && off.agents == inner.agents && off.maps == inner.maps
            &&& lock_step(off, live, strategy, elapsed, ts, LockReply::Begin(candidate)) == (
                off,
                ActionView::Finished,
            )
            &&& elapsed < LOCK_SEQUENCE_TIMEOUT_NANOS ==> lock_step(
                off,
                live,
                strategy,
                elapsed,
                ts,
                LockReply::Slept,
            ) == (off, ActionView::Finished)
            &&& !off.rearms()
            &&& off.rearmed(ts, glz_base) == off
        }),
{
}

/// After a lobby came to its end the program waits for the menus if it is to arm again, and then is
/// armed and detects, as long as the configuration says which agent to lock and the agent is known.
pub proof fn law_auto_rearm(
    inner: InnerView,
    ts: u64,
    phase: UiPhase,
    message: Seq<char>,
    level: Seq<char>,
    event: Seq<char>,
    match_id: Option<Seq<char>>,
    agent: Option<Seq<char>>,
    glz_base: Seq<char>,
)
    requires
        inner.config.auto_rearm,
        wanted_strategy(inner.config) is Ok,
        agents_known(inner),
    ensures
        ({
            let waiting = inner.finished(ts, phase, message, level, event, match_id, agent);
            let again = waiting.rearmed(ts, glz_base);
            &&& waiting.state.phase == UiPhase::WaitingMenus && waiting.state.rearm_pending
                && !waiting.state.armed && waiting.poller == inner.poller
            &&& again.state.phase == UiPhase::Detecting && again.state.armed
                && !again.state.rearm_pending && again.state.glz_route == Some(glz_base)
            &&& again.state.lock_attempts == 0 && again.state.last_match_id is None
                && again.state.last_lock_agent_uuid is None
        }),
{
}

/// Without automatic arming, the end of a lobby's work is shown as it is, and detection is over.
pub proof fn law_finish_without_rearm(
    inner: InnerView,
    ts: u64,
    phase: UiPhase,
    message: Seq<char>,
    level: Seq<char>,
    event: Seq<char>,
    match_id: Option<Seq<char>>,
    agent: Option<Seq<char>>,
)
    requires
        !inner.config.auto_rearm,
    ensures
        ({
            let over = inner.finished(ts, phase, message, level, event, match_id, agent);
            &&& over.state.phase == phase && over.state.message == message
            &&& !over.state.armed && !over.state.rearm_pending && !over.poller
            &&& !over.rearms()
        }),
{
}

/// An expired lobby does not end detection: either the player is back in the menus and the program
/// goes on as it was, or it waits for the menus to arm again.
pub proof fn law_expiry_goes_on(inner: InnerView, ts: u64, state: Option<Seq<char>>)
    ensures
        ({
            let after = inner.expiry_handled(ts, state);
            &&& after.poller == inner.poller
            &&& after.state.armed == inner.state.armed || after.state.rearm_pending
        }),
{
}

/// What a phase on the dashboard means: an idle program is not armed, one that detects is, one that
/// arms or has failed is not, one that waits for the menus is about to arm again, and one that shows
/// how a lobby ended is done. No program is armed and about to arm at once.
pub open spec fn phase_tells(state: UiView) -> bool {
    &&& !(state.armed && state.rearm_pending)
    &&& match state.phase {
        UiPhase::Idle | UiPhase::Arming | UiPhase::Error => !state.armed && !state.rearm_pending,
        UiPhase::Detecting => state.armed,
        UiPhase::Locked | UiPhase::LockedOtherAgent | UiPhase::SkippedMap => !state.armed
            && !state.rearm_pending,
        UiPhase::WaitingMenus => !state.armed && state.rearm_pending,
        UiPhase::ResolvingMatch | UiPhase::Locking | UiPhase::Warning => true,
    }
}

/// The phase tells what it means from the start on, and whatever the user does.
pub proof fn law_phase_after_user(
    config: ConfigView,
    inner: InnerView,
    request: RequestView,
    ts: u64,
)
    requires
        phase_tells(inner.state),
    ensures
        phase_tells(idle_state(config)),
        phase_tells(inner.reconfigured(request).state),
        phase_tells(arm_started(inner, ts).state),
        phase_tells(inner.disarmed(ts).state),
{
}

/// The phase tells what it means after every step in arming. Live detection begins only in a
/// program that is not about to arm again.
pub proof fn law_phase_after_arming(
    inner: InnerView,
    ts: u64,
    reason: Seq<char>,
    glz_base: Seq<char>,
    mode: DetectionMode,
)
    requires
        phase_tells(inner.state),
    ensures
        phase_tells(inner.arm_failed(ts, reason).state),
        !inner.state.rearm_pending ==> phase_tells(inner.armed(ts, glz_base, mode).state),
        phase_tells(inner.detection_failed(ts, reason).state),
        phase_tells(inner.rearmed(ts, glz_base).state),
{
}

/// The phase tells what it means after every step in watching for lobbies and in locking an agent.
pub proof fn law_phase_after_detection(
    inner: InnerView,
    live: LiveContext,
    strategy: StrategyView,
    elapsed: nat,
    ts: u64,
    reply: LockReply,
    outcome: Result<Option<String>, RequestError>,
    state: Option<Seq<char>>,
)
    requires
        phase_tells(inner.state),
    ensures
        phase_tells(lock_step(inner, live, strategy, elapsed, ts, reply).0.state),
        phase_tells(inner.checked(ts, outcome).state),
        phase_tells(inner.lobby_expired(ts).state),
        phase_tells(inner.expiry_handled(ts, state).state),
{
}

/// Different phases have different names.
pub proof fn law_phase_names_differ(a: UiPhase, b: UiPhase)
    requires
        a != b,
    ensures
        a.shown() != b.shown(),
{
    reveal_strlit("idle");
    reveal_strlit("arming");
    reveal_strlit("detecting");
    reveal_strlit("resolving_match");
    reveal_strlit("locking");
    reveal_strlit("locked");
    reveal_strlit("locked_other_agent");
    reveal_strlit("skipped_map");
    reveal_strlit("waiting_menus");
    reveal_strlit("warning");
    reveal_strlit("error");
    // Names of the same length differ at the place that is looked at here.
    assert(a.shown().len() == b.shown().len() ==> a.shown()[0] != b.shown()[0]);
}

} // verus!
