//! Watching for pre-game lobbies: how each mode of detection goes on, and what a failed check or an
//! expired lobby leads to.
use vstd::prelude::*;

use crate::app::{push_event_at, DetectionMode, InnerState, InnerView, UiPhase, UiView};
use crate::detection::{PregameCandidate, RequestError, HYBRID_FALLBACK_MS};
use crate::listening::ListenError;
use crate::presence::{is_loop_state, state_is};

verus! {

/// What to do next in watching for lobbies.
pub enum WatchAction {
    /// Ask the pre-game service for the player's lobby.
    Check,
    /// Work on that lobby.
    Process(PregameCandidate),
    /// Wait that many milliseconds.
    Sleep(u64),
    /// Wait for the websocket to announce a lobby.
    Listen,
    /// Wait for the websocket to announce a lobby, but not longer than that many milliseconds.
    ListenFor(u64),
    /// Nothing: the watch is over.
    Done,
    /// Nothing: there is nothing left to listen to.
    Fail(ListenError),
}

/// What came of the last action in watching by the websocket.
pub enum WebsocketReply {
    /// The watch begins.
    Started,
    /// The lobby that the pre-game service named, if there is one.
    Checked(Option<PregameCandidate>),
    /// Whether the work on a lobby ended the watch, and whether the websocket had announced it.
    Processed { finished: bool, announced: bool },
    /// The websocket announced a lobby.
    Signal,
    /// The websocket is gone.
    ChannelClosed,
}

/// What came of the last action in watching by asking.
pub enum PollingReply {
    /// The watch begins.
    Started,
    /// The wait is over.
    Slept,
    /// The lobby that the pre-game service named, if there is one.
    Checked(Option<PregameCandidate>),
    /// Whether the work on a lobby ended the watch.
    Processed { finished: bool },
}

/// What came of the last action in watching by the websocket and by asking.
pub enum HybridReply {
    /// The watch begins.
    Started,
    /// The websocket announced a lobby.
    Signal,
    /// The websocket is gone.
    ChannelClosed,
    /// The wait is over.
    Slept,
    /// The lobby that the pre-game service named, if there is one.
    Checked(Option<PregameCandidate>),
    /// Whether the work on a lobby ended the watch.
    Processed { finished: bool },
}

/// The next action in watching by the websocket: first the pre-game service is asked once, for a
/// lobby that is there already.
pub open spec fn websocket_step(armed: bool, reply: WebsocketReply) -> WatchAction {
    match reply {
        WebsocketReply::Started => WatchAction::Check,
        WebsocketReply::Checked(Some(candidate)) => WatchAction::Process(candidate),
        WebsocketReply::Checked(None) => if armed {
            WatchAction::Listen
        } else {
            WatchAction::Done
        },
        WebsocketReply::Processed { finished, announced } => if finished {
            WatchAction::Done
        } else if announced || armed {
            WatchAction::Listen
        } else {
            WatchAction::Done
        },
        WebsocketReply::Signal => WatchAction::Process(
            PregameCandidate { initial_match_id: None },
        ),
        WebsocketReply::ChannelClosed => WatchAction::Fail(ListenError::ChannelClosed),
    }
}

/// The next action in watching by asking.
pub open spec fn polling_step(armed: bool, poll_ms: u64, reply: PollingReply) -> WatchAction {
    match reply {
        PollingReply::Started => WatchAction::Sleep(poll_ms),
        PollingReply::Slept => WatchAction::Check,
        PollingReply::Checked(Some(candidate)) => WatchAction::Process(candidate),
        PollingReply::Checked(None) => if armed {
            WatchAction::Sleep(poll_ms)
        } else {
            WatchAction::Done
        },
        PollingReply::Processed { finished } => if !finished && armed {
            WatchAction::Sleep(poll_ms)
        } else {
            WatchAction::Done
        },
    }
}

/// To wait in watching by the websocket and by asking: for the websocket too, as long as it is there.
pub open spec fn hybrid_wait(listening: bool) -> WatchAction {
    if listening {
        WatchAction::ListenFor(HYBRID_FALLBACK_MS)
    } else {
        WatchAction::Sleep(HYBRID_FALLBACK_MS)
    }
}

/// The next action in watching by the websocket and by asking. Without the websocket, asking goes
/// on.
pub open spec fn hybrid_step(armed: bool, listening: bool, reply: HybridReply) -> WatchAction {
    match reply {
        HybridReply::Started => hybrid_wait(listening),
        HybridReply::Signal => WatchAction::Process(PregameCandidate { initial_match_id: None }),
        HybridReply::ChannelClosed => hybrid_wait(false),
        HybridReply::Slept => WatchAction::Check,
        HybridReply::Checked(Some(candidate)) => WatchAction::Process(candidate),
        HybridReply::Checked(None) => hybrid_wait(listening),
        HybridReply::Processed { finished } => if !finished && armed {
            hybrid_wait(listening)
        } else {
            WatchAction::Done
        },
    }
}

/// The next action in watching by the websocket.
pub fn websocket_lobbies(armed: bool, reply: WebsocketReply) -> (r: WatchAction)
    ensures
        r == websocket_step(armed, reply),
{
    match reply {
        WebsocketReply::Started => WatchAction::Check,
        WebsocketReply::Checked(Some(candidate)) => WatchAction::Process(candidate),
        WebsocketReply::Checked(None) => if armed {
            WatchAction::Listen
        } else {
            WatchAction::Done
        },
        WebsocketReply::Processed { finished, announced } => if finished {
            WatchAction::Done
        } else if announced || armed {
            WatchAction::Listen
        } else {
            WatchAction::Done
        },
        WebsocketReply::Signal => WatchAction::Process(PregameCandidate::from_signal()),
        WebsocketReply::ChannelClosed => WatchAction::Fail(ListenError::ChannelClosed),
    }
}

/// The next action in watching by asking.
pub fn polling_lobbies(armed: bool, poll_ms: u64, reply: PollingReply) -> (r: WatchAction)
    ensures
        r == polling_step(armed, poll_ms, reply),
{
    match reply {
        PollingReply::Started => WatchAction::Sleep(poll_ms),
        PollingReply::Slept => WatchAction::Check,
        PollingReply::Checked(Some(candidate)) => WatchAction::Process(candidate),
        PollingReply::Checked(None) => if armed {
            WatchAction::Sleep(poll_ms)
        } else {
            WatchAction::Done
        },
        PollingReply::Processed { finished } => if !finished && armed {
            WatchAction::Sleep(poll_ms)
        } else {
            WatchAction::Done
        },
    }
}

/// Waits in watching by the websocket and by asking: for the websocket too, as long as it is there.
fn wait_hybrid(listening: bool) -> (r: WatchAction)
    ensures
        r == hybrid_wait(listening),
{
    if listening {
        WatchAction::ListenFor(HYBRID_FALLBACK_MS)
    } else {
        WatchAction::Sleep(HYBRID_FALLBACK_MS)
    }
}

/// The next action in watching by the websocket and by asking. `listening` says whether the
/// websocket is still there.
pub fn hybrid_lobbies(armed: bool, listening: bool, reply: HybridReply) -> (r: WatchAction)
    ensures
        r == hybrid_step(armed, listening, reply),
{
    match reply {
        HybridReply::Started => wait_hybrid(listening),
        HybridReply::Signal => WatchAction::Process(PregameCandidate::from_signal()),
        HybridReply::ChannelClosed => wait_hybrid(false),
        HybridReply::Slept => WatchAction::Check,
        HybridReply::Checked(Some(candidate)) => WatchAction::Process(candidate),
        HybridReply::Checked(None) => wait_hybrid(listening),
        HybridReply::Processed { finished } => if !finished && armed {
            wait_hybrid(listening)
        } else {
            WatchAction::Done
        },
    }
}

/// What to do next in detecting lobbies, game after game.
#[derive(Clone, Copy, Debug, PartialEq, Eq, Structural)]
pub enum DetectAction {
    /// Watch for a lobby in that mode.
    Watch(DetectionMode),
    /// Wait until the player is back in the menus.
    AwaitMenus,
    /// See whether to arm again.
    Rearm,
    /// Nothing: detection is over.
    Stop,
}

/// What came of the last action in detecting lobbies.
#[derive(Clone, Copy, Debug, PartialEq, Eq, Structural)]
pub enum DetectReply {
    /// Detection begins.
    Started,
    /// The watch is over.
    WatchOver,
    /// The player is back in the menus.
    InMenus,
    /// Whether the program is armed again.
    Rearmed(bool),
}

/// The next action in detecting lobbies: each watch is one in the mode that is set, and after it the
/// program arms again if it is to.
pub open spec fn detect_step(
    rearm_pending: bool,
    mode: DetectionMode,
    reply: DetectReply,
) -> DetectAction {
    match reply {
        DetectReply::Started => DetectAction::Watch(mode),
        DetectReply::WatchOver => if rearm_pending {
            DetectAction::AwaitMenus
        } else {
            DetectAction::Stop
        },
        DetectReply::InMenus => DetectAction::Rearm,
        DetectReply::Rearmed(armed) => if armed {
            DetectAction::Watch(mode)
        } else {
            DetectAction::Stop
        },
    }
}

/// The next action in detecting lobbies. `mode` is the mode of detection that is set.
pub fn detect_lobbies(rearm_pending: bool, mode: DetectionMode, reply: DetectReply) -> (r:
    DetectAction)
    ensures
        r == detect_step(rearm_pending, mode, reply),
{
    match reply {
        DetectReply::Started => DetectAction::Watch(mode),
        DetectReply::WatchOver => if rearm_pending {
            DetectAction::AwaitMenus
        } else {
            DetectAction::Stop
        },
        DetectReply::InMenus => DetectAction::Rearm,
        DetectReply::Rearmed(armed) => if armed {
            DetectAction::Watch(mode)
        } else {
            DetectAction::Stop
        },
    }
}

impl InnerView {
    /// Whether a check that found no lobby clears the warning of an earlier one.
    pub open spec fn recovers(self) -> bool {
        self.state.armed && self.state.phase == UiPhase::Warning
    }

    /// The state after a check for the player's lobby.
    pub open spec fn checked(
        self,
        ts: u64,
        outcome: Result<Option<String>, RequestError>,
    ) -> InnerView {
        match outcome {
            Ok(Some(_)) => self,
            Ok(None) => if self.recovers() {
                InnerView {
                    state: UiView {
                        phase: UiPhase::Detecting,
                        message: "Armed. Waiting for pre-game lobby."@,
                        ..self.state
                    },
                    ..self
                }
            } else {
                self
            },
            Err(error) => InnerView {
                state: UiView {
                    phase: UiPhase::Warning,
                    message: "Pregame check failed; will retry."@,
                    ..self.state
                },
                ..self
            }.with_event(ts, "warn"@, "Pregame check failed: "@ + error.shown()),
        }
    }

    /// The state when a lobby has expired.
    pub open spec fn lobby_expired(self, ts: u64) -> InnerView {
        self.with_event(
            ts,
            "warn"@,
            "Pregame candidate expired before match data or lock was ready."@,
        )
    }

    /// The state after a lobby has expired and the player's session state is known.
    pub open spec fn expiry_handled(self, ts: u64, state: Option<Seq<char>>) -> InnerView {
        if state_is(state, "MENUS"@) {
            if self.state.armed {
                InnerView {
                    state: UiView {
                        phase: UiPhase::Detecting,
                        message: "Returned to menu. Waiting for pre-game lobby."@,
                        last_match_id: None,
                        last_lock_agent_uuid: None,
                        ..self.state
                    },
                    ..self
                }
            } else {
                self
            }
        } else {
            InnerView {
                state: UiView {
                    armed: false,
                    rearm_pending: true,
                    phase: UiPhase::WaitingMenus,
                    message: "Pregame candidate expired. Waiting for menu before retrying."@,
                    ..self.state
                },
                ..self
            }.with_event(ts, "info"@, "Waiting for menu before retrying detection."@)
        }
    }

    /// The state when the websocket of hybrid detection is gone for that reason.
    pub open spec fn listener_failed(self, ts: u64, reason: Seq<char>) -> InnerView {
        self.with_event(ts, "warn"@, "WS state detection unavailable: "@ + reason)
    }
}

/// What a check for the player's lobby leads to: the lobby, if there is one, and whether the
/// dashboard has something new to show. A failed check is only a warning.
pub fn detect_current_pregame_candidate_or_warn(
    inner: &mut InnerState,
    ts: u64,
    outcome: Result<Option<String>, RequestError>,
) -> (r: (Option<PregameCandidate>, bool))
    ensures
        final(inner)@ == old(inner)@.checked(ts, outcome),
        r.0 == match outcome {
            Ok(Some(match_id)) => Some(PregameCandidate { initial_match_id: Some(match_id) }),
            _ => None,
        },
        r.1 == (outcome is Err || (outcome->Ok_0 is None && old(inner)@.recovers())),
{
    match outcome {
        Ok(Some(match_id)) => (Some(PregameCandidate::with_match_id(match_id)), false),
        Ok(None) => if inner.state.armed && inner.state.phase == UiPhase::Warning {
            inner.state.phase = UiPhase::Detecting;
            inner.state.message = "Armed. Waiting for pre-game lobby.".to_string();
            (None, true)
        } else {
            (None, false)
        },
        Err(error) => {
            inner.state.phase = UiPhase::Warning;
            inner.state.message = "Pregame check failed; will retry.".to_string();
            let event = "Pregame check failed: ".to_string().concat(error.message().as_str());
            push_event_at(inner, ts, "warn", event.as_str());
            (None, true)
        },
    }
}

/// Takes in that a lobby has expired.
pub fn note_lock_sequence_expired(inner: &mut InnerState, ts: u64)
    ensures
        final(inner)@ == old(inner)@.lobby_expired(ts),
{
    push_event_at(
        inner,
        ts,
        "warn",
        "Pregame candidate expired before match data or lock was ready.",
    );
}

/// Goes on after a lobby has expired: watches on if the player is back in the menus, else waits for
/// the menus. Says whether this watch is over.
pub fn handle_lock_sequence_expired(inner: &mut InnerState, ts: u64, state: Option<&str>) -> (r:
    bool)
    ensures
        final(inner)@ == old(inner)@.expiry_handled(ts, state.deep_view()),
        r == !state_is(state.deep_view(), "MENUS"@),
{
    if is_loop_state(state, "MENUS") {
        if inner.state.armed {
            inner.state.phase = UiPhase::Detecting;
            inner.state.message = "Returned to menu. Waiting for pre-game lobby.".to_string();
            inner.state.last_match_id = None;
            inner.state.last_lock_agent_uuid = None;
        }
        return false;
    }
    inner.state.armed = false;
    inner.state.rearm_pending = true;
    inner.state.phase = UiPhase::WaitingMenus;
    inner.state.message = "Pregame candidate expired. Waiting for menu before retrying.".to_string();
    push_event_at(inner, ts, "info", "Waiting for menu before retrying detection.");
    true
}

/// Takes in that the websocket of hybrid detection is gone for that reason.
pub fn note_listener_failed(inner: &mut InnerState, ts: u64, reason: &str)
    ensures
        final(inner)@ == old(inner)@.listener_failed(ts, reason@),
{
    let event = "WS state detection unavailable: ".to_string().concat(reason);
    push_event_at(inner, ts, "warn", event.as_str());
}

} // verus!
