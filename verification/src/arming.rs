//! Arming: from the user's wish to live detection, the failures on the way, and arming again after
//! a game.
use vstd::prelude::*;

use crate::app::{push_event_at, DetectionMode, InnerState, InnerView, UiPhase, UiView};
use crate::riot::LiveContext;
use crate::selection::{agents_are_known, agents_known, strategy_from_config, wanted_strategy, AgentSelectionStrategy, StrategyView};

verus! {

/// What came of the user's wish to arm.
pub enum ArmStart {
    /// The program is armed already.
    AlreadyArmed,
    /// The configuration does not say which agent to lock.
    Rejected,
    /// Arming goes on, for that strategy.
    Started(AgentSelectionStrategy),
}

/// What the configuration says of live detection.
pub struct ArmSettings {
    pub select_before_lock: bool,
    pub detection_mode: DetectionMode,
    pub poll_ms: u64,
}

/// How detection goes on after the program has armed itself again.
pub struct AutoRearmConfig {
    pub strategy: AgentSelectionStrategy,
    pub poll_ms: u64,
    pub detection_mode: DetectionMode,
}

impl InnerView {
    /// The state when arming begins.
    pub open spec fn arming(self, ts: u64) -> InnerView {
        InnerView {
            state: UiView {
                armed: false,
                rearm_pending: false,
                phase: UiPhase::Arming,
                message: "Refreshing live Riot and agent data."@,
                lock_attempts: 0,
                last_match_id: None,
                last_lock_agent_uuid: None,
                glz_route: None,
                ..self.state
            },
            ..self
        }.with_event(ts, "info"@, "Arming: refreshing live data."@)
    }

    /// The state of a program that does not detect, with that message.
    pub open spec fn idle(self, message: Seq<char>) -> InnerView {
        InnerView {
            state: UiView {
                armed: false,
                rearm_pending: false,
                phase: UiPhase::Idle,
                message,
                ..self.state
            },
            ..self
        }
    }

    /// The state after arming failed for that reason.
    pub open spec fn arm_failed(self, ts: u64, reason: Seq<char>) -> InnerView {
        let message = "Arm failed: "@ + reason;
        InnerView {
            state: UiView {
                glz_route: None,
                last_match_id: None,
                last_lock_agent_uuid: None,
                ..self.idle(message).state
            },
            ..self
        }.with_event(ts, "error"@, message)
    }

    /// The state when live detection begins.
    pub open spec fn armed(self, ts: u64, glz_base: Seq<char>, mode: DetectionMode) -> InnerView {
        InnerView {
            state: UiView {
                armed: true,
                phase: UiPhase::Detecting,
                message: "Armed. Waiting for pre-game lobby."@,
                glz_route: Some(glz_base),
                ..self.state
            },
            ..self
        }.with_event(ts, "info"@, "Using GLZ route: "@ + glz_base).with_event(
            ts,
            "info"@,
            "Armed. Detection mode: "@ + mode.shown() + "."@,
        )
    }

    /// The state after live detection failed for that reason.
    pub open spec fn detection_failed(self, ts: u64, reason: Seq<char>) -> InnerView {
        InnerView {
            state: UiView {
                armed: false,
                rearm_pending: false,
                phase: UiPhase::Error,
                message: reason,
                ..self.state
            },
            poller: false,
            ..self
        }.with_event(ts, "error"@, reason)
    }

    /// Whether the program is to arm again now that the player is back in the menus.
    pub open spec fn rearms(self) -> bool {
        &&& self.state.rearm_pending
        &&& self.state.phase != UiPhase::Idle
        &&& wanted_strategy(self.config) is Ok
        &&& agents_known(self)
    }

    /// The state after the program had to decide whether to arm again.
    pub open spec fn rearmed(self, ts: u64, glz_base: Seq<char>) -> InnerView {
        if !self.state.rearm_pending || self.state.phase == UiPhase::Idle {
            InnerView { poller: false, ..self }
        } else {
            match wanted_strategy(self.config) {
                Err(message) => InnerView { poller: false, ..self.idle(message) },
                Ok(_) => if !agents_known(self) {
                    InnerView {
                        poller: false,
                        ..self.idle(
                            "Selected agent is not present in fetched playable agent data."@,
                        )
                    }
                } else {
                    InnerView {
                        state: UiView {
                            armed: true,
                            rearm_pending: false,
                            phase: UiPhase::Detecting,
                            message: "Armed. Waiting for pre-game lobby."@,
                            lock_attempts: 0,
                            last_match_id: None,
                            last_lock_agent_uuid: None,
                            glz_route: Some(glz_base),
                            ..self.state
                        },
                        ..self
                    }.with_event(ts, "info"@, "Returned to menu. Auto re-armed."@)
                },
            }
        }
    }
}

/// The state after the user's wish to arm.
pub open spec fn arm_started(inner: InnerView, ts: u64) -> InnerView {
    if inner.state.armed {
        inner
    } else {
        match wanted_strategy(inner.config) {
            Ok(_) => inner.arming(ts),
            Err(message) => inner.arming(ts).idle(message).with_event(ts, "warn"@, message),
        }
    }
}

/// Begins to arm, unless the program is armed or the configuration does not say which agent to
/// lock.
pub fn arm(inner: &mut InnerState, ts: u64) -> (r: ArmStart)
    ensures
        final(inner)@ == arm_started(old(inner)@, ts),
        match r {
            ArmStart::AlreadyArmed => old(inner).state.armed,
            ArmStart::Rejected => !old(inner).state.armed && wanted_strategy(
                old(inner)@.config,
            ) is Err,
            ArmStart::Started(strategy) => !old(inner).state.armed && wanted_strategy(
                old(inner)@.config,
            ) == Ok::<StrategyView, Seq<char>>(strategy@),
        },
{
    if inner.state.armed {
        return ArmStart::AlreadyArmed;
    }
    inner.state.armed = false;
    inner.state.rearm_pending = false;
    inner.state.phase = UiPhase::Arming;
    inner.state.message = "Refreshing live Riot and agent data.".to_string();
    inner.state.lock_attempts = 0;
    inner.state.last_match_id = None;
    inner.state.last_lock_agent_uuid = None;
    inner.state.glz_route = None;
    push_event_at(inner, ts, "info", "Arming: refreshing live data.");
    match strategy_from_config(&inner.config) {
        Ok(strategy) => ArmStart::Started(strategy),
        Err(message) => {
            set_idle(inner, message);
            push_event_at(inner, ts, "warn", message);
            ArmStart::Rejected
        },
    }
}

/// Makes the program one that does not detect, with that message.
fn set_idle(inner: &mut InnerState, message: &str)
    ensures
        final(inner)@ == old(inner)@.idle(message@),
        final(inner).config == old(inner).config,
{
    inner.state.armed = false;
    inner.state.rearm_pending = false;
    inner.state.phase = UiPhase::Idle;
    inner.state.message = message.to_string();
}

/// Gives arming up for that reason.
pub fn rollback_arm_failure(inner: &mut InnerState, ts: u64, message: &str)
    ensures
        final(inner)@ == old(inner)@.arm_failed(ts, message@),
{
    let shown = "Arm failed: ".to_string().concat(message);
    set_idle(inner, shown.as_str());
    inner.state.glz_route = None;
    inner.state.last_match_id = None;
    inner.state.last_lock_agent_uuid = None;
    push_event_at(inner, ts, "error", shown.as_str());
}

/// Goes on with arming if the wanted agents are known, and gives it up if not.
pub fn check_agents(inner: &mut InnerState, ts: u64) -> (r: Result<ArmSettings, &'static str>)
    ensures
        match r {
            Ok(settings) => {
                &&& agents_known(old(inner)@)
                &&& final(inner)@ == old(inner)@
                &&& settings.select_before_lock == old(inner)@.config.select_before_lock
                &&& settings.detection_mode == old(inner)@.config.detection_mode
                &&& settings.poll_ms == old(inner)@.config.poll_ms
            },
            Err(message) => {
                &&& !agents_known(old(inner)@)
                &&& message@ == "selected agent is not present in fetched playable agent data"@
                &&& final(inner)@ == old(inner)@.arm_failed(ts, message@)
            },
        },
{
    if !agents_are_known(inner) {
        let message = "selected agent is not present in fetched playable agent data";
        rollback_arm_failure(inner, ts, message);
        return Err(message);
    }
    Ok(
        ArmSettings {
            select_before_lock: inner.config.select_before_lock,
            detection_mode: inner.config.detection_mode,
            poll_ms: inner.config.poll_ms,
        },
    )
}

/// Begins live detection at that game server.
pub fn complete_arm(inner: &mut InnerState, ts: u64, glz_base: &str, detection_mode: DetectionMode)
    ensures
        final(inner)@ == old(inner)@.armed(ts, glz_base@, detection_mode),
{
    inner.state.armed = true;
    inner.state.phase = UiPhase::Detecting;
    inner.state.message = "Armed. Waiting for pre-game lobby.".to_string();
    inner.state.glz_route = Some(glz_base.to_string());
    let route = "Using GLZ route: ".to_string().concat(glz_base);
    push_event_at(inner, ts, "info", route.as_str());
    let armed = "Armed. Detection mode: ".to_string().concat(detection_mode.label()).concat(".");
    push_event_at(inner, ts, "info", armed.as_str());
}

/// Takes in that a detection task is at work.
pub fn register_poller(inner: &mut InnerState)
    ensures
        final(inner)@ == (InnerView { poller: true, ..old(inner)@ }),
{
    inner.poller = true;
}

/// Takes in that live detection failed for that reason.
pub fn fail_detection(inner: &mut InnerState, ts: u64, message: &str)
    ensures
        final(inner)@ == old(inner)@.detection_failed(ts, message@),
{
    inner.state.armed = false;
    inner.state.rearm_pending = false;
    inner.state.phase = UiPhase::Error;
    inner.state.message = message.to_string();
    inner.poller = false;
    push_event_at(inner, ts, "error", message);
}

/// Arms again now that the player is back in the menus, unless the user has disarmed meanwhile or
/// the configuration does not allow it any more.
pub fn prepare_auto_rearm(inner: &mut InnerState, live: &mut LiveContext, ts: u64) -> (r: Option<
    AutoRearmConfig,
>)
    ensures
        final(inner)@ == old(inner)@.rearmed(ts, old(live).glz_base@),
        match r {
            Some(next) => {
                &&& old(inner)@.rearms()
                &&& wanted_strategy(old(inner)@.config) == Ok::<StrategyView, Seq<char>>(
                    next.strategy@,
                )
                &&& next.poll_ms == old(inner)@.config.poll_ms
                &&& next.detection_mode == old(inner)@.config.detection_mode
                &&& *final(live) == (LiveContext {
                    select_before_lock: old(inner)@.config.select_before_lock,
                    ..*old(live)
                })
            },
            None => !old(inner)@.rearms() && *final(live) == *old(live),
        },
{
    if !inner.state.rearm_pending || inner.state.phase == UiPhase::Idle {
        inner.poller = false;
        return None;
    }
    let strategy = match strategy_from_config(&inner.config) {
        Ok(strategy) => strategy,
        Err(message) => {
            set_idle(inner, message);
            inner.poller = false;
            return None;
        },
    };
    if !agents_are_known(inner) {
        set_idle(inner, "Selected agent is not present in fetched playable agent data.");
        inner.poller = false;
        return None;
    }
    inner.state.armed = true;
    inner.state.rearm_pending = false;
    inner.state.phase = UiPhase::Detecting;
    inner.state.message = "Armed. Waiting for pre-game lobby.".to_string();
    inner.state.lock_attempts = 0;
    inner.state.last_match_id = None;
    inner.state.last_lock_agent_uuid = None;
    inner.state.glz_route = Some(live.glz_base.clone());
    push_event_at(inner, ts, "info", "Returned to menu. Auto re-armed.");
    live.select_before_lock = inner.config.select_before_lock;
    Some(
        AutoRearmConfig {
            strategy,
            poll_ms: inner.config.poll_ms,
            detection_mode: inner.config.detection_mode,
        },
    )
}

} // verus!
