//! Detecting pre-game lobbies and locking the agent: what to do next, and how the program's state
//! changes on the way. The requests themselves are made by the caller, who performs each action
//! and hands back what came of it.
use vstd::prelude::*;

use crate::app::{push_event_at, InnerState, InnerView, UiPhase, UiView};
use crate::riot::{LiveContext, PregameApiError, PregameMatch};
use crate::selection::{agent_for_match_map, lock_status, locked_status_for_player, map_decision, map_display_name, map_name, AgentSelectionStrategy, DecisionView, LockStatusView, MapAgentDecision, PlayerLockStatus, StrategyView};

verus! {

/// How long hybrid detection waits for the websocket before it asks.
pub const HYBRID_FALLBACK_MS: u64 = 1000;

/// How long to wait before a lock is tried again, in nanoseconds.
pub const LOCK_RETRY_NANOS: u64 = 250_000_000;

/// How long a lock is tried, in nanoseconds.
pub const LOCK_SEQUENCE_TIMEOUT_NANOS: u64 = 8_000_000_000;

/// A request that failed.
#[derive(Debug)]
pub enum RequestError {
    /// The pre-game service refused it.
    Pregame(PregameApiError),
    /// It failed otherwise, for that reason.
    Other(String),
}

impl RequestError {
    /// Whether the same request may succeed a little later.
    pub open spec fn transient(self) -> bool {
        self matches RequestError::Pregame(error) && error.transient()
    }

    /// What a user is told of the error.
    pub open spec fn shown(self) -> Seq<char> {
        match self {
            RequestError::Pregame(error) => error.shown(),
            RequestError::Other(reason) => reason@,
        }
    }

    /// What a user is told of the error.
    pub fn message(&self) -> (r: String)
        ensures
            r@ == self.shown(),
    {
        match self {
            RequestError::Pregame(error) => error.message(),
            RequestError::Other(reason) => reason.clone(),
        }
    }
}

/// Whether the same request may succeed a little later.
pub fn is_transient_pregame_error(err: &RequestError) -> (r: bool)
    ensures
        r == err.transient(),
{
    match err {
        RequestError::Pregame(error) => error.is_transient(),
        RequestError::Other(_) => false,
    }
}

/// A pre-game lobby that was noticed.
#[derive(Clone, Debug)]
pub struct PregameCandidate {
    /// The lobby's identity, if it is known.
    pub initial_match_id: Option<String>,
}

impl PregameCandidate {
    /// A lobby that the websocket announced, without its identity.
    pub fn from_signal() -> (r: PregameCandidate)
        ensures
            r.initial_match_id is None,
    {
        PregameCandidate { initial_match_id: None }
    }

    /// A lobby of that identity.
    pub fn with_match_id(match_id: String) -> (r: PregameCandidate)
        ensures
            r.initial_match_id == Some(match_id),
    {
        PregameCandidate { initial_match_id: Some(match_id) }
    }
}

/// The identity of the lobby to look at, if the pre-game service need not be asked for it: the
/// candidate's own, which is used once.
pub fn resolve_match_id(candidate: &mut PregameCandidate, use_initial_match_id: bool) -> (r: Option<
    String,
>)
    ensures
        r == if use_initial_match_id {
            old(candidate).initial_match_id
        } else {
            None
        },
        final(candidate).initial_match_id == if use_initial_match_id {
            None
        } else {
            old(candidate).initial_match_id
        },
{
    if use_initial_match_id {
        candidate.initial_match_id.take()
    } else {
        None
    }
}

/// How long to wait before the lock is tried again, in nanoseconds, if there is time left.
pub open spec fn retry_delay(elapsed: nat) -> Option<nat> {
    if elapsed >= LOCK_SEQUENCE_TIMEOUT_NANOS {
        None
    } else if LOCK_SEQUENCE_TIMEOUT_NANOS - elapsed < LOCK_RETRY_NANOS {
        Some((LOCK_SEQUENCE_TIMEOUT_NANOS - elapsed) as nat)
    } else {
        Some(LOCK_RETRY_NANOS as nat)
    }
}

/// How long to wait before the lock is tried again, in nanoseconds, if there is time left.
pub fn sleep_until_next_lock_retry(elapsed: u128) -> (r: Option<u64>)
    ensures
        match r {
            Some(delay) => retry_delay(elapsed as nat) == Some(delay as nat),
            None => retry_delay(elapsed as nat) is None,
        },
{
    if elapsed >= LOCK_SEQUENCE_TIMEOUT_NANOS as u128 {
        return None;
    }
    let remaining: u64 = LOCK_SEQUENCE_TIMEOUT_NANOS - elapsed as u64;
    if remaining < LOCK_RETRY_NANOS {
        Some(remaining)
    } else {
        Some(LOCK_RETRY_NANOS)
    }
}

impl InnerView {
    /// The state after a lobby came to its end for the program: it says so, and waits for the menus
    /// if it is to arm again.
    pub open spec fn finished(
        self,
        ts: u64,
        phase: UiPhase,
        message: Seq<char>,
        level: Seq<char>,
        event: Seq<char>,
        match_id: Option<Seq<char>>,
        agent: Option<Seq<char>>,
    ) -> InnerView {
        let rearm = self.config.auto_rearm;
        let ended = InnerView {
            state: UiView {
                armed: false,
                rearm_pending: rearm,
                phase: if rearm {
                    UiPhase::WaitingMenus
                } else {
                    phase
                },
                message: if rearm {
                    message + " Waiting for menu to auto re-arm."@
                } else {
                    message
                },
                last_match_id: match_id,
                last_lock_agent_uuid: agent,
                ..self.state
            },
            poller: rearm && self.poller,
            ..self
        }.with_event(ts, level, event);
        if rearm {
            ended.with_event(
                ts,
                "info"@,
                "Auto re-arm pending until Valorant returns to menu."@,
            )
        } else {
            ended
        }
    }

    /// The state after a lobby was left alone because of its map.
    pub open spec fn skipped(
        self,
        ts: u64,
        match_id: Seq<char>,
        map_id: Seq<char>,
        reason: Seq<char>,
    ) -> InnerView {
        let name = map_name(self.maps, map_id);
        self.finished(
            ts,
            UiPhase::SkippedMap,
            "Skipped "@ + name + " because "@ + reason + "."@,
            "warn"@,
            "Skipped "@ + name + "; "@ + reason + "."@,
            Some(match_id),
            None,
        )
    }
}

/// Ends the work on a lobby: says so, and waits for the menus if the program is to arm again.
pub fn finish_happy_path(
    inner: &mut InnerState,
    ts: u64,
    phase: UiPhase,
    message: &str,
    event_level: &str,
    event_message: &str,
    match_id: Option<String>,
    lock_agent_uuid: Option<String>,
)
    ensures
        final(inner)@ == old(inner)@.finished(
            ts,
            phase,
            message@,
            event_level@,
            event_message@,
            match_id.deep_view(),
            lock_agent_uuid.deep_view(),
        ),
{
    let should_auto_rearm = inner.config.auto_rearm;
    inner.state.armed = false;
    inner.state.rearm_pending = should_auto_rearm;
    inner.state.phase = if should_auto_rearm {
        UiPhase::WaitingMenus
    } else {
        phase
    };
    inner.state.message = if should_auto_rearm {
        message.to_string().concat(" Waiting for menu to auto re-arm.")
    } else {
        message.to_string()
    };
    inner.state.last_match_id = match_id;
    inner.state.last_lock_agent_uuid = lock_agent_uuid;
    if !should_auto_rearm {
        inner.poller = false;
    }
    push_event_at(inner, ts, event_level, event_message);
    if should_auto_rearm {
        push_event_at(inner, ts, "info", "Auto re-arm pending until Valorant returns to menu.");
    }
}

/// Leaves a lobby alone because of its map.
pub fn skip_map(inner: &mut InnerState, ts: u64, match_id: String, map_id: &str, reason: &str)
    ensures
        final(inner)@ == old(inner)@.skipped(ts, match_id@, map_id@, reason@),
{
    let name = map_display_name(inner.maps.as_slice(), map_id);
    let message = "Skipped ".to_string().concat(name.as_str()).concat(" because ").concat(
        reason,
    ).concat(".");
    let event = "Skipped ".to_string().concat(name.as_str()).concat("; ").concat(reason).concat(
        ".",
    );
    finish_happy_path(
        inner,
        ts,
        UiPhase::SkippedMap,
        message.as_str(),
        "warn",
        event.as_str(),
        Some(match_id),
        None,
    );
}

/// What came of the last action in locking an agent.
pub enum LockReply {
    /// A lobby was noticed: the work on it begins.
    Begin(PregameCandidate),
    /// What the pre-game service says of the player's lobby.
    Player(Result<Option<String>, RequestError>),
    /// What the pre-game service says of that lobby.
    Lobby { match_id: String, lobby: Result<PregameMatch, RequestError> },
    /// Whether the agent could be selected in that lobby.
    Selected { match_id: String, agent_uuid: String, outcome: Result<(), RequestError> },
    /// Whether the agent could be locked in that lobby.
    Locked { match_id: String, agent_uuid: String, outcome: Result<(), RequestError> },
    /// The wait before the next try is over.
    Slept,
}

/// What to do next in locking an agent.
pub enum LockAction {
    /// Ask the pre-game service for the player's lobby.
    FetchPlayer,
    /// Ask the pre-game service for that lobby's data.
    FetchLobby(String),
    /// Select the agent in that lobby.
    Select { match_id: String, agent_uuid: String },
    /// Lock the agent in that lobby.
    Lock { match_id: String, agent_uuid: String },
    /// Wait that many nanoseconds.
    Sleep(u64),
    /// Nothing: the work on the lobby is done.
    Finished,
    /// Nothing: there was not enough time.
    Expired,
    /// Nothing: a request failed for good.
    Failed(RequestError),
}

/// The mathematical model of what to do next.
pub enum ActionView {
    FetchPlayer,
    FetchLobby(Seq<char>),
    Select(Seq<char>, Seq<char>),
    Lock(Seq<char>, Seq<char>),
    Sleep(nat),
    Finished,
    Expired,
    Failed(RequestError),
}

impl View for LockAction {
    type V = ActionView;

    open spec fn view(&self) -> ActionView {
        match self {
            LockAction::FetchPlayer => ActionView::FetchPlayer,
            LockAction::FetchLobby(match_id) => ActionView::FetchLobby(match_id@),
            LockAction::Select { match_id, agent_uuid } => ActionView::Select(
                match_id@,
                agent_uuid@,
            ),
            LockAction::Lock { match_id, agent_uuid } => ActionView::Lock(match_id@, agent_uuid@),
            LockAction::Sleep(delay) => ActionView::Sleep(*delay as nat),
            LockAction::Finished => ActionView::Finished,
            LockAction::Expired => ActionView::Expired,
            LockAction::Failed(error) => ActionView::Failed(*error),
        }
    }
}

/// To try again a little later, or to give up if the time is over.
pub open spec fn retry(elapsed: nat) -> ActionView {
    match retry_delay(elapsed) {
        Some(delay) => ActionView::Sleep(delay),
        None => ActionView::Expired,
    }
}

/// To try again a little later if the error allows it, else to give up with it.
pub open spec fn retry_or_fail(error: RequestError, elapsed: nat) -> ActionView {
    if error.transient() {
        retry(elapsed)
    } else {
        ActionView::Failed(error)
    }
}

impl InnerView {
    /// The state when the work on a lobby begins.
    pub open spec fn lobby_noticed(self, ts: u64, match_id: Option<Seq<char>>) -> InnerView {
        InnerView {
            state: UiView {
                phase: UiPhase::ResolvingMatch,
                message: "Pre-game detected. Resolving match data."@,
                lock_attempts: (self.state.lock_attempts + 1) as u64,
                last_match_id: match_id,
                last_lock_agent_uuid: None,
                ..self.state
            },
            ..self
        }.with_event(ts, "info"@, "Pre-game detected. Starting lock sequence."@)
    }

    /// The state when a lobby's identity is known and its data are asked for.
    pub open spec fn lobby_resolved(self, match_id: Seq<char>) -> InnerView {
        InnerView {
            state: UiView {
                phase: UiPhase::ResolvingMatch,
                message: "Pre-game detected. Resolving match data."@,
                last_match_id: Some(match_id),
                ..self.state
            },
            ..self
        }
    }

    /// The state when the agent is about to be locked.
    pub open spec fn locking(self, ts: u64, match_id: Seq<char>, agent: Seq<char>) -> InnerView {
        InnerView {
            state: UiView {
                phase: UiPhase::Locking,
                message: "Match data ready. Sending lock request."@,
                last_match_id: Some(match_id),
                last_lock_agent_uuid: Some(agent),
                ..self.state
            },
            ..self
        }.with_event(ts, "info"@, "Attempting agent lock."@)
    }

    /// The state when the wanted agent turns out to be locked already.
    pub open spec fn already_locked(
        self,
        ts: u64,
        match_id: Seq<char>,
        agent: Seq<char>,
    ) -> InnerView {
        self.finished(
            ts,
            UiPhase::Locked,
            "Already locked selected agent for this game."@,
            "info"@,
            "Already locked selected agent for this game."@,
            Some(match_id),
            Some(agent),
        )
    }

    /// The state when another agent turns out to be locked already.
    pub open spec fn other_locked(
        self,
        ts: u64,
        match_id: Seq<char>,
        agent: Seq<char>,
    ) -> InnerView {
        self.finished(
            ts,
            UiPhase::LockedOtherAgent,
            "Already locked a different agent: "@ + agent + "."@,
            "warn"@,
            "Already locked a different agent for this game."@,
            Some(match_id),
            Some(agent),
        )
    }

    /// The state when the agent has been locked.
    pub open spec fn lock_succeeded(
        self,
        ts: u64,
        match_id: Seq<char>,
        agent: Seq<char>,
    ) -> InnerView {
        self.finished(
            ts,
            UiPhase::Locked,
            "Agent lock request succeeded."@,
            "info"@,
            "Agent lock request succeeded."@,
            Some(match_id),
            Some(agent),
        )
    }
}

/// The next state and action when a lobby was noticed.
pub open spec fn begin_step(
    inner: InnerView,
    ts: u64,
    match_id: Option<Seq<char>>,
) -> (InnerView, ActionView) {
    if !inner.state.armed {
        (inner, ActionView::Finished)
    } else {
        let noticed = inner.lobby_noticed(ts, match_id);
        match match_id {
            Some(match_id) => (noticed.lobby_resolved(match_id), ActionView::FetchLobby(match_id)),
            None => (noticed, ActionView::FetchPlayer),
        }
    }
}

/// The next state and action when a lobby's data are there.
pub open spec fn lobby_step(
    inner: InnerView,
    live: LiveContext,
    strategy: StrategyView,
    ts: u64,
    match_id: Seq<char>,
    lobby: PregameMatch,
) -> (InnerView, ActionView) {
    match map_decision(inner.config, strategy, lobby.map_id@) {
        DecisionView::Skip(reason) => (
            inner.skipped(ts, match_id, lobby.map_id@, reason),
            ActionView::Finished,
        ),
        DecisionView::Lock(agent) => match lock_status(lobby, live.puuid@, agent) {
            LockStatusView::LockedSelected => (
                inner.already_locked(ts, match_id, agent),
                ActionView::Finished,
            ),
            LockStatusView::LockedOther(other) => (
                inner.other_locked(ts, match_id, other),
                ActionView::Finished,
            ),
            _ => (
                inner.locking(ts, match_id, agent),
                if live.select_before_lock {
                    ActionView::Select(match_id, agent)
                } else {
                    ActionView::Lock(match_id, agent)
                },
            ),
        },
    }
}

/// The next state and action in locking an agent.
pub open spec fn lock_step(
    inner: InnerView,
    live: LiveContext,
    strategy: StrategyView,
    elapsed: nat,
    ts: u64,
    reply: LockReply,
) -> (InnerView, ActionView) {
    match reply {
        LockReply::Begin(candidate) => begin_step(inner, ts, candidate.initial_match_id.deep_view()),
        LockReply::Player(Ok(Some(match_id))) => (
            inner.lobby_resolved(match_id@),
            ActionView::FetchLobby(match_id@),
        ),
        LockReply::Player(Ok(None)) => (inner, retry(elapsed)),
        LockReply::Player(Err(error)) => (inner, ActionView::Failed(error)),
        LockReply::Lobby { match_id, lobby: Ok(lobby) } => lobby_step(
            inner,
            live,
            strategy,
            ts,
            match_id@,
            lobby,
        ),
        LockReply::Lobby { match_id, lobby: Err(error) } => (inner, retry_or_fail(error, elapsed)),
        LockReply::Selected { match_id, agent_uuid, outcome: Ok(_) } => (
            inner,
            ActionView::Lock(match_id@, agent_uuid@),
        ),
        LockReply::Selected { match_id, agent_uuid, outcome: Err(error) } => (
            inner,
            retry_or_fail(error, elapsed),
        ),
        LockReply::Locked { match_id, agent_uuid, outcome: Ok(_) } => (
            inner.lock_succeeded(ts, match_id@, agent_uuid@),
            ActionView::Finished,
        ),
        LockReply::Locked { match_id, agent_uuid, outcome: Err(error) } => (
            inner,
            retry_or_fail(error, elapsed),
        ),
        LockReply::Slept => if elapsed >= LOCK_SEQUENCE_TIMEOUT_NANOS {
            (inner, ActionView::Expired)
        } else if !inner.state.armed {
            (inner, ActionView::Finished)
        } else {
            (inner, ActionView::FetchPlayer)
        },
    }
}

/// Tries again a little later, or gives up if the time is over.
fn retry_later(elapsed: u128) -> (r: LockAction)
    ensures
        r@ == retry(elapsed as nat),
{
    match sleep_until_next_lock_retry(elapsed) {
        Some(delay) => LockAction::Sleep(delay),
        None => LockAction::Expired,
    }
}

/// Tries again a little later if the error allows it, else gives up with it.
fn retry_after(error: RequestError, elapsed: u128) -> (r: LockAction)
    ensures
        r@ == retry_or_fail(error, elapsed as nat),
{
    if is_transient_pregame_error(&error) {
        retry_later(elapsed)
    } else {
        LockAction::Failed(error)
    }
}

/// Asks for the data of a lobby whose identity is known.
fn resolve_lobby(inner: &mut InnerState, match_id: String) -> (r: LockAction)
    ensures
        final(inner)@ == old(inner)@.lobby_resolved(match_id@),
        r@ == ActionView::FetchLobby(match_id@),
{
    inner.state.phase = UiPhase::ResolvingMatch;
    inner.state.message = "Pre-game detected. Resolving match data.".to_string();
    inner.state.last_match_id = Some(match_id.clone());
    LockAction::FetchLobby(match_id)
}

/// Begins the work on a lobby.
fn begin_lock_sequence(inner: &mut InnerState, ts: u64, candidate: PregameCandidate) -> (r:
    LockAction)
    requires
        old(inner).state.armed ==> old(inner).state.lock_attempts < u64::MAX,
    ensures
        (final(inner)@, r@) == begin_step(
            old(inner)@,
            ts,
            candidate.initial_match_id.deep_view(),
        ),
{
    if !inner.state.armed {
        return LockAction::Finished;
    }
    let mut candidate = candidate;
    inner.state.phase = UiPhase::ResolvingMatch;
    inner.state.message = "Pre-game detected. Resolving match data.".to_string();
    inner.state.lock_attempts = inner.state.lock_attempts + 1;
    inner.state.last_match_id = candidate.initial_match_id.clone();
    inner.state.last_lock_agent_uuid = None;
    push_event_at(inner, ts, "info", "Pre-game detected. Starting lock sequence.");
    match resolve_match_id(&mut candidate, true) {
        Some(match_id) => resolve_lobby(inner, match_id),
        None => LockAction::FetchPlayer,
    }
}

/// Decides what to do in a lobby whose data are there.
fn enter_lobby(
    inner: &mut InnerState,
    live: &LiveContext,
    strategy: &AgentSelectionStrategy,
    ts: u64,
    match_id: String,
    lobby: PregameMatch,
) -> (r: LockAction)
    ensures
        (final(inner)@, r@) == lobby_step(old(inner)@, *live, strategy@, ts, match_id@, lobby),
{
    let agent_uuid = match agent_for_match_map(&inner.config, strategy, lobby.map_id.as_str()) {
        MapAgentDecision::Lock(agent_uuid) => agent_uuid,
        MapAgentDecision::Skip(reason) => {
            skip_map(inner, ts, match_id, lobby.map_id.as_str(), reason.as_str());
            return LockAction::Finished;
        },
    };
    match locked_status_for_player(&lobby, live.puuid.as_str(), agent_uuid.as_str()) {
        PlayerLockStatus::LockedSelected => {
            finish_happy_path(
                inner,
                ts,
                UiPhase::Locked,
                "Already locked selected agent for this game.",
                "info",
                "Already locked selected agent for this game.",
                Some(match_id),
                Some(agent_uuid),
            );
            LockAction::Finished
        },
        PlayerLockStatus::LockedOther(other) => {
            let message = "Already locked a different agent: ".to_string().concat(
                other.as_str(),
            ).concat(".");
            finish_happy_path(
                inner,
                ts,
                UiPhase::LockedOtherAgent,
                message.as_str(),
                "warn",
                "Already locked a different agent for this game.",
                Some(match_id),
                Some(other),
            );
            LockAction::Finished
        },
        PlayerLockStatus::NotLocked | PlayerLockStatus::PlayerMissing => {
            inner.state.phase = UiPhase::Locking;
            inner.state.message = "Match data ready. Sending lock request.".to_string();
            inner.state.last_match_id = Some(match_id.clone());
            inner.state.last_lock_agent_uuid = Some(agent_uuid.clone());
            push_event_at(inner, ts, "info", "Attempting agent lock.");
            if live.select_before_lock {
                LockAction::Select { match_id, agent_uuid }
            } else {
                LockAction::Lock { match_id, agent_uuid }
            }
        },
    }
}

/// Takes in what came of the last action in locking an agent and says what to do next. `elapsed`
/// is how many nanoseconds ago the work on the lobby began.
pub fn run_lock_sequence(
    inner: &mut InnerState,
    live: &LiveContext,
    strategy: &AgentSelectionStrategy,
    elapsed: u128,
    ts: u64,
    reply: LockReply,
) -> (r: LockAction)
    requires
        reply is Begin && old(inner).state.armed ==> old(inner).state.lock_attempts < u64::MAX,
    ensures
        (final(inner)@, r@) == lock_step(old(inner)@, *live, strategy@, elapsed as nat, ts, reply),
{
    match reply {
        LockReply::Begin(candidate) => begin_lock_sequence(inner, ts, candidate),
        LockReply::Player(Ok(Some(match_id))) => resolve_lobby(inner, match_id),
        LockReply::Player(Ok(None)) => retry_later(elapsed),
        LockReply::Player(Err(error)) => LockAction::Failed(error),
        LockReply::Lobby { match_id, lobby: Ok(lobby) } => enter_lobby(
            inner,
            live,
            strategy,
            ts,
            match_id,
            lobby,
        ),
        LockReply::Lobby { match_id: _, lobby: Err(error) } => retry_after(error, elapsed),
        LockReply::Selected { match_id, agent_uuid, outcome: Ok(_) } => LockAction::Lock {
            match_id,
            agent_uuid,
        },
        LockReply::Selected { match_id: _, agent_uuid: _, outcome: Err(error) } => retry_after(
            error,
            elapsed,
        ),
        LockReply::Locked { match_id, agent_uuid, outcome: Ok(_) } => {
            finish_happy_path(
                inner,
                ts,
                UiPhase::Locked,
                "Agent lock request succeeded.",
                "info",
                "Agent lock request succeeded.",
                Some(match_id),
                Some(agent_uuid),
            );
            LockAction::Finished
        },
        LockReply::Locked { match_id: _, agent_uuid: _, outcome: Err(error) } => retry_after(
            error,
            elapsed,
        ),
        LockReply::Slept => if elapsed >= LOCK_SEQUENCE_TIMEOUT_NANOS as u128 {
            LockAction::Expired
        } else if !inner.state.armed {
            LockAction::Finished
        } else {
            LockAction::FetchPlayer
        },
    }
}

} // verus!
