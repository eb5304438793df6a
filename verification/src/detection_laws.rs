//! What always holds of detecting lobbies and locking agents.
use vstd::prelude::*;

use crate::app::{DetectionMode, InnerView, UiPhase};
use crate::detection::{lock_step, retry_delay, ActionView, LockReply, PregameCandidate, RequestError, HYBRID_FALLBACK_MS, LOCK_RETRY_NANOS, LOCK_SEQUENCE_TIMEOUT_NANOS};
use crate::listening::ListenError;
use crate::riot::{status_text, LiveContext, PregameApiError, PregameMatch};
use crate::selection::{lock_status, map_allowed, map_decision, DecisionView, StrategyView};
use crate::watching::{detect_step, hybrid_step, polling_step, websocket_step, DetectAction, DetectReply, HybridReply, PollingReply, WatchAction, WebsocketReply};

verus! {

/// One step in locking an agent: what it started from, what came in and what it led to.
pub struct LockMove {
    pub before: InnerView,
    pub elapsed: nat,
    pub ts: u64,
    pub reply: LockReply,
    pub after: InnerView,
    pub action: ActionView,
}

/// Whether a reply is one to that action.
pub open spec fn answers(action: ActionView, reply: LockReply) -> bool {
    match action {
        ActionView::FetchPlayer => reply is Player,
        ActionView::FetchLobby(id) => reply matches LockReply::Lobby { match_id, .. } && match_id@
            == id,
        ActionView::Select(id, agent) => reply matches LockReply::Selected {
            match_id,
            agent_uuid,
            ..
        } && match_id@ == id && agent_uuid@ == agent,
        ActionView::Lock(id, agent) => reply matches LockReply::Locked {
            match_id,
            agent_uuid,
            ..
        } && match_id@ == id && agent_uuid@ == agent,
        ActionView::Sleep(_) => reply is Slept,
        _ => false,
    }
}

/// Whether the moves are the work on one lobby: it begins with the lobby being noticed, each reply
/// is one to the action before it, and each move is a step. Between two moves the state may have
/// changed in any way.
pub open spec fn lock_run(live: LiveContext, strategy: StrategyView, moves: Seq<LockMove>) -> bool {
    &&& moves.len() > 0 ==> moves[0].reply is Begin
    &&& forall|k: int|
        0 <= k < moves.len() ==> is_move(live, strategy, #[trigger] moves[k])
    &&& forall|j: int, k: int|
        0 <= j && k == j + 1 && k < moves.len() ==> answers(
            (#[trigger] moves[j]).action,
            (#[trigger] moves[k]).reply,
        )
}

/// Whether a move is a step.
pub open spec fn is_move(live: LiveContext, strategy: StrategyView, step: LockMove) -> bool {
    (step.after, step.action) == lock_step(
        step.before,
        live,
        strategy,
        step.elapsed,
        step.ts,
        step.reply,
    )
}

/// Whether a move takes in a lobby's data which ask for that agent: the configuration and the
/// strategy choose it for the lobby's map, and the player has no agent locked there.
pub open spec fn asks_for(
    live: LiveContext,
    strategy: StrategyView,
    step: LockMove,
    id: Seq<char>,
    agent: Seq<char>,
) -> bool {
    &&& step.reply matches LockReply::Lobby { match_id, lobby: Ok(lobby) }
    &&& match_id@ == id
    &&& map_decision(step.before.config, strategy, lobby.map_id@) == DecisionView::Lock(agent)
    &&& !(lock_status(lobby, live.puuid@, agent) is LockedSelected)
    &&& !(lock_status(lobby, live.puuid@, agent) is LockedOther)
}

/// An agent is locked in a lobby only if the lobby's data, taken in by this move or the one before,
/// ask for it.
pub proof fn law_lock_is_asked_for(
    live: LiveContext,
    strategy: StrategyView,
    moves: Seq<LockMove>,
    k: int,
    id: Seq<char>,
    agent: Seq<char>,
)
    requires
        lock_run(live, strategy, moves),
        0 <= k < moves.len(),
        moves[k].action == ActionView::Lock(id, agent),
    ensures
        asks_for(live, strategy, moves[k], id, agent) || (k > 0 && asks_for(
            live,
            strategy,
            moves[k - 1],
            id,
            agent,
        )),
{
    assert(is_move(live, strategy, moves[k]));
    if moves[k].reply is Selected {
        assert(k > 0);
        assert(answers(moves[k - 1].action, moves[k].reply));
        assert(is_move(live, strategy, moves[k - 1]));
    }
}

/// An agent is selected in a lobby only if the lobby's data, taken in by this move, ask for it and
/// the user wants agents to be selected first.
pub proof fn law_select_is_asked_for(
    live: LiveContext,
    strategy: StrategyView,
    moves: Seq<LockMove>,
    k: int,
    id: Seq<char>,
    agent: Seq<char>,
)
    requires
        lock_run(live, strategy, moves),
        0 <= k < moves.len(),
        moves[k].action == ActionView::Select(id, agent),
    ensures
        live.select_before_lock,
        asks_for(live, strategy, moves[k], id, agent),
{
    assert(is_move(live, strategy, moves[k]));
}

/// If the user wants agents to be selected first, each lock comes right after the same agent was
/// selected in the same lobby.
pub proof fn law_select_before_lock(
    live: LiveContext,
    strategy: StrategyView,
    moves: Seq<LockMove>,
    k: int,
    id: Seq<char>,
    agent: Seq<char>,
)
    requires
        lock_run(live, strategy, moves),
        live.select_before_lock,
        0 <= k < moves.len(),
        moves[k].action == ActionView::Lock(id, agent),
    ensures
        k > 0,
        moves[k - 1].action == ActionView::Select(id, agent),
        moves[k].reply matches LockReply::Selected { outcome: Ok(_), .. },
{
    assert(is_move(live, strategy, moves[k]));
    if k > 0 {
        assert(answers(moves[k - 1].action, moves[k].reply));
        assert(is_move(live, strategy, moves[k - 1]));
    }
}

/// The one agent for all maps is locked only on a map that the user allows.
pub proof fn law_global_lock_is_allowed(
    live: LiveContext,
    agent: Seq<char>,
    moves: Seq<LockMove>,
    k: int,
    id: Seq<char>,
    locked: Seq<char>,
)
    requires
        lock_run(live, StrategyView::Global(agent), moves),
        0 <= k < moves.len(),
        moves[k].action == ActionView::Lock(id, locked),
    ensures
        locked == agent,
        exists|j: int|
            k - 1 <= j <= k && 0 <= j && (#[trigger] moves[j].reply matches LockReply::Lobby {
                lobby: Ok(lobby),
                ..
            } && map_allowed(moves[j].before.config, lobby.map_id@)),
{
    law_lock_is_asked_for(live, StrategyView::Global(agent), moves, k, id, locked);
    if asks_for(live, StrategyView::Global(agent), moves[k], id, locked) {
        assert(moves[k].reply is Lobby);
    } else {
        assert(moves[k - 1].reply is Lobby);
    }
}

/// A lobby on a map that is not to be locked on is left alone, and the dashboard says so or waits
/// for the menus.
pub proof fn law_skipped_map_is_left_alone(
    inner: InnerView,
    live: LiveContext,
    strategy: StrategyView,
    elapsed: nat,
    ts: u64,
    match_id: String,
    lobby: PregameMatch,
)
    requires
        map_decision(inner.config, strategy, lobby.map_id@) is Skip,
    ensures
        ({
            let step = lock_step(
                inner,
                live,
                strategy,
                elapsed,
                ts,
                LockReply::Lobby { match_id, lobby: Ok(lobby) },
            );
            &&& step.1 == ActionView::Finished
            &&& step.0.state.phase == if inner.config.auto_rearm {
                UiPhase::WaitingMenus
            } else {
                UiPhase::SkippedMap
            }
            &&& step.0.state.last_match_id == Some(match_id@)
            &&& step.0.state.last_lock_agent_uuid is None
        }),
{
}

/// In a lobby in which the player has an agent locked, nothing is selected or locked.
pub proof fn law_locked_player_is_left_alone(
    inner: InnerView,
    live: LiveContext,
    strategy: StrategyView,
    elapsed: nat,
    ts: u64,
    match_id: String,
    lobby: PregameMatch,
    agent: Seq<char>,
)
    requires
        map_decision(inner.config, strategy, lobby.map_id@) == DecisionView::Lock(agent),
        lock_status(lobby, live.puuid@, agent) is LockedSelected || lock_status(
            lobby,
            live.puuid@,
            agent,
        ) is LockedOther,
    ensures
        lock_step(
            inner,
            live,
            strategy,
            elapsed,
            ts,
            LockReply::Lobby { match_id, lobby: Ok(lobby) },
        ).1 == ActionView::Finished,
{
}

/// The work on a lobby begins once, and nothing follows its end.
pub proof fn law_run_ends_once(
    live: LiveContext,
    strategy: StrategyView,
    moves: Seq<LockMove>,
    k: int,
)
    requires
        lock_run(live, strategy, moves),
        0 <= k < moves.len(),
    ensures
        k > 0 ==> !(moves[k].reply is Begin),
        moves[k].action is Finished || moves[k].action is Expired || moves[k].action is Failed
            ==> k == moves.len() - 1,
{
    if k > 0 {
        assert(answers(moves[k - 1].action, moves[k].reply));
    }
    if k < moves.len() - 1 {
        assert(answers(moves[k].action, moves[k + 1].reply));
    }
}

/// A successful lock ends the work on a lobby, and the dashboard shows which agent was locked where.
pub proof fn law_lock_success_ends(
    live: LiveContext,
    strategy: StrategyView,
    moves: Seq<LockMove>,
    k: int,
)
    requires
        lock_run(live, strategy, moves),
        0 < k < moves.len(),
        moves[k].reply matches LockReply::Locked { outcome: Ok(_), .. },
    ensures
        k == moves.len() - 1,
        moves[k].action == ActionView::Finished,
        moves[k - 1].action matches ActionView::Lock(id, agent) && moves[k].after.state.last_match_id
            == Some(id) && moves[k].after.state.last_lock_agent_uuid == Some(agent),
        moves[k].after.state.phase == if moves[k].before.config.auto_rearm {
            UiPhase::WaitingMenus
        } else {
            UiPhase::Locked
        },
{
    assert(answers(moves[k - 1].action, moves[k].reply));
    assert(is_move(live, strategy, moves[k]));
    if k < moves.len() - 1 {
        assert(answers(moves[k].action, moves[k + 1].reply));
    }
}

/// Trying again never goes beyond the time for a lobby, and a lobby expires only when that time is
/// over.
pub proof fn law_retries_keep_the_time(
    inner: InnerView,
    live: LiveContext,
    strategy: StrategyView,
    elapsed: nat,
    ts: u64,
    reply: LockReply,
)
    ensures
        ({
            let action = lock_step(inner, live, strategy, elapsed, ts, reply).1;
            &&& action matches ActionView::Sleep(delay) ==> 0 < delay <= LOCK_RETRY_NANOS && elapsed
                + delay <= LOCK_SEQUENCE_TIMEOUT_NANOS
            &&& action is Expired ==> elapsed >= LOCK_SEQUENCE_TIMEOUT_NANOS
        }),
{
}

/// The error of a reply, if a request failed.
pub open spec fn reply_error(reply: LockReply) -> Option<RequestError> {
    match reply {
        LockReply::Player(Err(error)) => Some(error),
        LockReply::Lobby { lobby: Err(error), .. } => Some(error),
        LockReply::Selected { outcome: Err(error), .. } => Some(error),
        LockReply::Locked { outcome: Err(error), .. } => Some(error),
        _ => None,
    }
}

/// A transient error of a lobby's requests never ends the work on it before its time, and no other
/// error is hidden: it ends the work and is handed on. Nothing else makes it fail.
pub proof fn law_errors_are_handed_on(
    inner: InnerView,
    live: LiveContext,
    strategy: StrategyView,
    elapsed: nat,
    ts: u64,
    reply: LockReply,
)
    ensures
        ({
            let action = lock_step(inner, live, strategy, elapsed, ts, reply).1;
            match reply_error(reply) {
                Some(error) => if error.transient() && !(reply is Player) {
                    if elapsed < LOCK_SEQUENCE_TIMEOUT_NANOS {
                        action is Sleep
                    } else {
                        action is Expired
                    }
                } else {
                    action == ActionView::Failed(error)
                },
                None => !(action is Failed),
            }
        }),
{
}

/// A program that is not armed begins no work on a lobby and asks nothing more after a wait.
pub proof fn law_unarmed_asks_nothing(
    inner: InnerView,
    live: LiveContext,
    strategy: StrategyView,
    elapsed: nat,
    ts: u64,
    reply: LockReply,
)
    requires
        !inner.state.armed,
        reply is Begin || reply is Slept,
    ensures
        lock_step(inner, live, strategy, elapsed, ts, reply).0 == inner,
        lock_step(inner, live, strategy, elapsed, ts, reply).1 is Finished || lock_step(
            inner,
            live,
            strategy,
            elapsed,
            ts,
            reply,
        ).1 is Expired,
{
}

/// A watch ends only when the work on a lobby ended it or the program is not armed any more; the
/// loss of the websocket ends a watch only where nothing else notices lobbies.
pub proof fn law_watch_goes_on(
    armed: bool,
    poll_ms: u64,
    websocket: WebsocketReply,
    polling: PollingReply,
    hybrid: HybridReply,
    listening: bool,
)
    ensures
        websocket_step(armed, websocket) is Done ==> !armed || (
            websocket matches WebsocketReply::Processed { finished: true, .. }),
        websocket_step(armed, websocket) is Fail <==> websocket is ChannelClosed,
        polling_step(armed, poll_ms, polling) is Done ==> !armed || polling
            == (PollingReply::Processed { finished: true }),
        !(polling_step(armed, poll_ms, polling) is Fail),
        hybrid_step(armed, listening, hybrid) is Done ==> !armed || hybrid == (HybridReply::Processed {
            finished: true,
        }),
        !(hybrid_step(armed, listening, hybrid) is Fail),
{
}

/// Detection goes on from game to game: it stops only after a watch that leaves the program not about
/// to arm again, or if it does not arm again. It never watches in a program that did not arm again,
/// and each watch is one in the mode that is set.
pub proof fn law_detection_goes_on(rearm_pending: bool, mode: DetectionMode, reply: DetectReply)
    ensures
        detect_step(rearm_pending, mode, reply) == DetectAction::Stop <==> (reply
            == DetectReply::WatchOver && !rearm_pending) || reply == DetectReply::Rearmed(false),
        detect_step(rearm_pending, mode, reply) == DetectAction::Watch(mode) <==> reply
            == DetectReply::Started || reply == DetectReply::Rearmed(true),
        detect_step(rearm_pending, mode, reply) matches DetectAction::Watch(watched) ==> watched
            == mode,
        detect_step(rearm_pending, mode, reply) == DetectAction::AwaitMenus ==> rearm_pending,
{
}

/// Work on a lobby that ends a watch ends it in every mode.
pub proof fn law_finished_lobby_ends_watch(
    armed: bool,
    poll_ms: u64,
    announced: bool,
    listening: bool,
)
    ensures
        websocket_step(armed, WebsocketReply::Processed { finished: true, announced }) is Done,
        polling_step(armed, poll_ms, PollingReply::Processed { finished: true }) is Done,
        hybrid_step(armed, listening, HybridReply::Processed { finished: true }) is Done,
{
}

/// Asking is the fallback of the websocket: with or without it, hybrid detection waits no longer
/// than its interval before it asks, and without it never waits for it again.
pub proof fn law_hybrid_falls_back(armed: bool, listening: bool, reply: HybridReply)
    ensures
        hybrid_step(armed, listening, HybridReply::Slept) is Check,
        hybrid_step(armed, listening, HybridReply::ChannelClosed) == WatchAction::Sleep(
            HYBRID_FALLBACK_MS,
        ),
        hybrid_step(armed, listening, reply) matches WatchAction::ListenFor(limit) ==> listening
            && limit == HYBRID_FALLBACK_MS,
        hybrid_step(armed, listening, reply) matches WatchAction::Sleep(limit) ==> limit
            == HYBRID_FALLBACK_MS,
        !(hybrid_step(armed, listening, reply) is Listen),
{
}

/// Polling asks the pre-game service after every wait, armed or not, and works on every lobby that it
/// is told of; an armed program waits and asks again after each question without a lobby and after
/// each lobby that did not end the watch, and one that is not armed stops there.
pub proof fn law_polling_asks_after_every_wait(
    armed: bool,
    poll_ms: u64,
    candidate: PregameCandidate,
)
    ensures
        polling_step(armed, poll_ms, PollingReply::Started) == WatchAction::Sleep(poll_ms),
        polling_step(armed, poll_ms, PollingReply::Slept) == WatchAction::Check,
        polling_step(armed, poll_ms, PollingReply::Checked(Some(candidate)))
            == WatchAction::Process(candidate),
        polling_step(true, poll_ms, PollingReply::Checked(None)) == WatchAction::Sleep(poll_ms),
        polling_step(false, poll_ms, PollingReply::Checked(None)) == WatchAction::Done,
        polling_step(true, poll_ms, PollingReply::Processed { finished: false })
            == WatchAction::Sleep(poll_ms),
        polling_step(false, poll_ms, PollingReply::Processed { finished: false })
            == WatchAction::Done,
        polling_step(armed, poll_ms, PollingReply::Processed { finished: true })
            == WatchAction::Done,
{
}

/// Whether replies and actions are those of a polling watch by an armed program: each reply is one to
/// the action before it.
pub open spec fn polling_run(
    poll_ms: u64,
    replies: Seq<PollingReply>,
    actions: Seq<WatchAction>,
) -> bool {
    &&& replies.len() == actions.len()
    &&& replies.len() > 0 ==> replies[0] is Started
    &&& forall|k: int|
        0 <= k < replies.len() ==> #[trigger] actions[k] == polling_step(true, poll_ms, replies[k])
    &&& forall|j: int, k: int|
        0 <= j && k == j + 1 && k < replies.len() ==> match #[trigger] actions[j] {
            WatchAction::Sleep(_) => #[trigger] replies[k] is Slept,
            WatchAction::Check => replies[k] is Checked,
            WatchAction::Process(_) => replies[k] is Processed,
            _ => false,
        }
}

/// In a polling watch by an armed program, no two waits follow one another: of any two actions in a
/// row, one is a question or the work on a lobby. The watch ends only with a lobby that ended it.
pub proof fn law_polling_run_keeps_asking(
    poll_ms: u64,
    replies: Seq<PollingReply>,
    actions: Seq<WatchAction>,
    k: int,
)
    requires
        polling_run(poll_ms, replies, actions),
        0 <= k < actions.len(),
    ensures
        actions[k] is Sleep && k + 1 < actions.len() ==> actions[k + 1] == WatchAction::Check,
        replies[k] matches PollingReply::Checked(Some(candidate)) ==> actions[k]
            == WatchAction::Process(candidate),
        actions[k] is Done ==> replies[k] == (PollingReply::Processed { finished: true }),
        actions[k] is Sleep || actions[k] is Check || actions[k] is Process || actions[k] is Done,
{
    assert(actions[k] == polling_step(true, poll_ms, replies[k]));
    if actions[k] is Sleep && k + 1 < actions.len() {
        assert(actions[k + 1] == polling_step(true, poll_ms, replies[k + 1]));
    }
}

/// A websocket watch asks once for a lobby that is there already, works on it and on every lobby that
/// is announced, and else listens as long as the program is armed.
pub proof fn law_websocket_works_on_announced_lobbies(
    armed: bool,
    announced: bool,
    candidate: PregameCandidate,
)
    ensures
        websocket_step(armed, WebsocketReply::Started) == WatchAction::Check,
        websocket_step(armed, WebsocketReply::Checked(Some(candidate))) == WatchAction::Process(
            candidate,
        ),
        websocket_step(true, WebsocketReply::Checked(None)) == WatchAction::Listen,
        websocket_step(false, WebsocketReply::Checked(None)) == WatchAction::Done,
        websocket_step(armed, WebsocketReply::Signal) == WatchAction::Process(
            PregameCandidate { initial_match_id: None },
        ),
        websocket_step(true, WebsocketReply::Processed { finished: false, announced })
            == WatchAction::Listen,
        websocket_step(armed, WebsocketReply::Processed { finished: false, announced: true })
            == WatchAction::Listen,
        websocket_step(false, WebsocketReply::Processed { finished: false, announced: false })
            == WatchAction::Done,
        websocket_step(armed, WebsocketReply::Processed { finished: true, announced })
            == WatchAction::Done,
        websocket_step(armed, WebsocketReply::ChannelClosed) == WatchAction::Fail(
            ListenError::ChannelClosed,
        ),
{
}

/// Hybrid detection works on every lobby that is announced or that the pre-game service tells, asks
/// after every wait of a second in which none was announced, and goes on with that as long as no
/// lobby ended the watch and the program is armed. While it listens, each wait is one for the
/// websocket too.
pub proof fn law_hybrid_listens_and_asks(
    armed: bool,
    listening: bool,
    candidate: PregameCandidate,
)
    ensures
        ({
            let wait = if listening {
                WatchAction::ListenFor(1000)
            } else {
                WatchAction::Sleep(1000)
            };
            &&& hybrid_step(armed, listening, HybridReply::Started) == wait
            &&& hybrid_step(armed, listening, HybridReply::Signal) == WatchAction::Process(
                PregameCandidate { initial_match_id: None },
            )
            &&& hybrid_step(armed, listening, HybridReply::ChannelClosed) == WatchAction::Sleep(1000)
            &&& hybrid_step(armed, listening, HybridReply::Slept) == WatchAction::Check
            &&& hybrid_step(armed, listening, HybridReply::Checked(Some(candidate)))
                == WatchAction::Process(candidate)
            &&& hybrid_step(armed, listening, HybridReply::Checked(None)) == wait
            &&& hybrid_step(true, listening, HybridReply::Processed { finished: false }) == wait
            &&& hybrid_step(false, listening, HybridReply::Processed { finished: false })
                == WatchAction::Done
            &&& hybrid_step(armed, listening, HybridReply::Processed { finished: true })
                == WatchAction::Done
        }),
{
}

/// After a watch the program goes on to the menus, from there to the question whether to arm again,
/// and from there to the next watch.
pub proof fn law_detection_cycle(rearm_pending: bool, mode: DetectionMode)
    ensures
        detect_step(rearm_pending, mode, DetectReply::Started) == DetectAction::Watch(mode),
        detect_step(true, mode, DetectReply::WatchOver) == DetectAction::AwaitMenus,
        detect_step(false, mode, DetectReply::WatchOver) == DetectAction::Stop,
        detect_step(rearm_pending, mode, DetectReply::InMenus) == DetectAction::Rearm,
        detect_step(rearm_pending, mode, DetectReply::Rearmed(true)) == DetectAction::Watch(mode),
        detect_step(rearm_pending, mode, DetectReply::Rearmed(false)) == DetectAction::Stop,
{
}

/// A lock is tried again after a quarter of a second, or after what is left of eight seconds if that
/// is less; after eight seconds it is given up.
pub proof fn law_retry_delay(elapsed: nat)
    ensures
        match retry_delay(elapsed) {
            Some(delay) => elapsed < 8_000_000_000 && delay <= 250_000_000 && elapsed + delay
                <= 8_000_000_000 && (delay == 250_000_000 || elapsed + delay == 8_000_000_000),
            None => elapsed >= 8_000_000_000,
        },
{
}

/// What comes next in locking where nothing is shown: a wait if the player's lobby is not there yet,
/// the lock after a selection, and the question for the player's lobby after a wait. None of these
/// changes the state, and neither does a failed request.
pub proof fn law_quiet_steps(
    inner: InnerView,
    live: LiveContext,
    strategy: StrategyView,
    elapsed: nat,
    ts: u64,
    reply: LockReply,
)
    ensures
        ({
            let step = lock_step(inner, live, strategy, elapsed, ts, reply);
            let again = match retry_delay(elapsed) {
                Some(delay) => ActionView::Sleep(delay),
                None => ActionView::Expired,
            };
            &&& reply matches LockReply::Player(Ok(None)) ==> step == (inner, again)
            &&& reply matches LockReply::Selected { match_id, agent_uuid, outcome: Ok(_) } ==> step
                == (inner, ActionView::Lock(match_id@, agent_uuid@))
            &&& reply is Slept && elapsed < 8_000_000_000 && inner.state.armed ==> step == (
                inner,
                ActionView::FetchPlayer,
            )
            &&& reply is Slept && elapsed < 8_000_000_000 && !inner.state.armed ==> step == (
                inner,
                ActionView::Finished,
            )
            &&& reply is Slept && elapsed >= 8_000_000_000 ==> step == (inner, ActionView::Expired)
            &&& reply_error(reply) matches Some(error) ==> step == (
                inner,
                if error.transient() && !(reply is Player) {
                    again
                } else {
                    ActionView::Failed(error)
                },
            )
        }),
{
}

/// A request may succeed a little later exactly if the pre-game service answered that there is no
/// such thing, or, to the choice of an agent, that the request is bad.
pub proof fn law_transient(error: RequestError)
    ensures
        error.transient() <==> match error {
            RequestError::Pregame(PregameApiError::PlayerRequest(status)) => status.number() == 404,
            RequestError::Pregame(PregameApiError::MatchRequest(status)) => status.number() == 404,
            RequestError::Pregame(PregameApiError::AgentAction { status, .. }) => status.number()
                == 404 || status.number() == 400,
            RequestError::Other(_) => false,
        },
{
}

/// What a user is told of a failed request: which one it was and the status, or the reason that it
/// failed for.
pub proof fn law_shown_errors(error: RequestError)
    ensures
        error.shown() == match error {
            RequestError::Pregame(PregameApiError::PlayerRequest(status)) =>
                "Pregame player request failed with "@ + status_text(status.number()),
            RequestError::Pregame(PregameApiError::MatchRequest(status)) =>
                "Pregame match request failed with "@ + status_text(status.number()),
            RequestError::Pregame(PregameApiError::AgentAction { action, status }) => action@
                + " request failed with "@ + status_text(status.number()),
            RequestError::Other(reason) => reason@,
        },
{
}

} // verus!
