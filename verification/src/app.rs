//! The program's state: what the user has configured, what the dashboard shows, the data on agents
//! and maps, and the log of events.
use vstd::prelude::*;

use crate::assignments::MapAgents;
use crate::text::{eq_ignore_ascii_case, replace, replaced, same_ignoring_case, trim, trimmed};

verus! {

/// How long to wait between two questions for the player's lobby, unless configured otherwise.
pub const DEFAULT_POLL_MS: u64 = 250;

/// How many events the log keeps.
pub const EVENT_LIMIT: usize = 80;

/// How a pre-game lobby is noticed.
#[derive(Clone, Copy, Debug, PartialEq, Eq, Structural)]
pub enum DetectionMode {
    /// By the messages of the client's websocket.
    Websocket,
    /// By asking the pre-game service again and again.
    Polling,
    /// By the websocket, and by asking as a fallback.
    Hybrid,
}

impl DetectionMode {
    /// The name of the mode in the event log.
    pub open spec fn shown(self) -> Seq<char> {
        match self {
            DetectionMode::Websocket => "Websocket"@,
            DetectionMode::Polling => "Polling"@,
            DetectionMode::Hybrid => "Hybrid"@,
        }
    }

    /// The name of the mode in the event log.
    pub fn label(&self) -> (r: &'static str)
        ensures
            r@ == self.shown(),
    {
        match self {
            DetectionMode::Websocket => "Websocket",
            DetectionMode::Polling => "Polling",
            DetectionMode::Hybrid => "Hybrid",
        }
    }
}

/// How the agent to lock is chosen.
#[derive(Clone, Copy, Debug, PartialEq, Eq, Structural)]
pub enum SelectionMode {
    /// One agent for all maps.
    Global,
    /// An agent for each map.
    PerMap,
}

/// What the program is doing.
#[derive(Clone, Copy, Debug, PartialEq, Eq, Structural)]
pub enum UiPhase {
    Idle,
    Arming,
    Detecting,
    ResolvingMatch,
    Locking,
    Locked,
    LockedOtherAgent,
    SkippedMap,
    WaitingMenus,
    Warning,
    Error,
}

impl UiPhase {
    /// The name of the phase in the dashboard's data.
    pub open spec fn shown(self) -> Seq<char> {
        match self {
            UiPhase::Idle => "idle"@,
            UiPhase::Arming => "arming"@,
            UiPhase::Detecting => "detecting"@,
            UiPhase::ResolvingMatch => "resolving_match"@,
            UiPhase::Locking => "locking"@,
            UiPhase::Locked => "locked"@,
            UiPhase::LockedOtherAgent => "locked_other_agent"@,
            UiPhase::SkippedMap => "skipped_map"@,
            UiPhase::WaitingMenus => "waiting_menus"@,
            UiPhase::Warning => "warning"@,
            UiPhase::Error => "error"@,
        }
    }

    /// The name of the phase in the dashboard's data.
    pub fn name(&self) -> (r: &'static str)
        ensures
            r@ == self.shown(),
    {
        match self {
            UiPhase::Idle => "idle",
            UiPhase::Arming => "arming",
            UiPhase::Detecting => "detecting",
            UiPhase::ResolvingMatch => "resolving_match",
            UiPhase::Locking => "locking",
            UiPhase::Locked => "locked",
            UiPhase::LockedOtherAgent => "locked_other_agent",
            UiPhase::SkippedMap => "skipped_map",
            UiPhase::WaitingMenus => "waiting_menus",
            UiPhase::Warning => "warning",
            UiPhase::Error => "error",
        }
    }
}

/// What the user has configured.
#[derive(Debug)]
pub struct Config {
    /// The agent to lock on all maps.
    pub selected_agent_uuid: Option<String>,
    /// The maps on which to lock; none means all.
    pub selected_map_urls: Vec<String>,
    /// How the agent to lock is chosen.
    pub selection_mode: SelectionMode,
    /// The agent to lock on each map.
    pub per_map_agent_uuids: MapAgents,
    /// Whether the agent is selected before it is locked.
    pub select_before_lock: bool,
    /// Whether to arm again after a game.
    pub auto_rearm: bool,
    /// How long to wait between two questions for the player's lobby.
    pub poll_ms: u64,
    /// How a pre-game lobby is noticed.
    pub detection_mode: DetectionMode,
}

/// What the dashboard shows of the program's doings.
#[derive(Debug)]
pub struct UiState {
    pub armed: bool,
    pub rearm_pending: bool,
    pub phase: UiPhase,
    pub message: String,
    pub selected_agent_uuid: Option<String>,
    pub selected_map_urls: Vec<String>,
    pub select_before_lock: bool,
    pub auto_rearm: bool,
    pub poll_ms: u64,
    pub detection_mode: DetectionMode,
    pub glz_route: Option<String>,
    pub lock_attempts: u64,
    pub last_match_id: Option<String>,
    pub last_lock_agent_uuid: Option<String>,
}

/// An entry of the event log.
#[derive(Debug)]
pub struct AppEvent {
    pub ts: u64,
    pub level: String,
    pub message: String,
}

/// An agent that a player can choose.
#[derive(Debug)]
pub struct Agent {
    pub uuid: String,
    pub display_name: String,
    pub display_icon: Option<String>,
    pub role: Option<String>,
}

/// A map of the game.
#[derive(Debug)]
pub struct GameMap {
    pub uuid: String,
    pub display_name: String,
    pub display_icon: Option<String>,
    pub list_view_icon: Option<String>,
    pub splash: Option<String>,
    pub map_url: String,
    pub in_ranked_pool: bool,
}

/// A change of the configuration: what is given replaces what was there.
#[derive(Debug)]
pub struct ConfigRequest {
    pub selected_agent_uuid: Option<String>,
    pub selected_map_urls: Option<Vec<String>>,
    pub select_before_lock: Option<bool>,
    pub auto_rearm: Option<bool>,
    pub detection_mode: Option<DetectionMode>,
}

/// What the dashboard is given.
pub struct StateResponse {
    pub state: UiState,
    pub agents: Vec<Agent>,
    pub maps: Vec<GameMap>,
    pub events: Vec<AppEvent>,
}

/// The program's state.
pub struct InnerState {
    pub config: Config,
    pub state: UiState,
    pub agents: Vec<Agent>,
    pub maps: Vec<GameMap>,
    pub events: Vec<AppEvent>,
    /// Whether a detection task is at work.
    pub poller: bool,
}

/// The mathematical model of a configuration.
#[verifier::ext_equal]
pub struct ConfigView {
    pub selected_agent_uuid: Option<Seq<char>>,
    pub selected_map_urls: Seq<Seq<char>>,
    pub selection_mode: SelectionMode,
    pub per_map_agent_uuids: Seq<(Seq<char>, Seq<char>)>,
    pub select_before_lock: bool,
    pub auto_rearm: bool,
    pub poll_ms: u64,
    pub detection_mode: DetectionMode,
}

/// The mathematical model of what the dashboard shows.
#[verifier::ext_equal]
pub struct UiView {
    pub armed: bool,
    pub rearm_pending: bool,
    pub phase: UiPhase,
    pub message: Seq<char>,
    pub selected_agent_uuid: Option<Seq<char>>,
    pub selected_map_urls: Seq<Seq<char>>,
    pub select_before_lock: bool,
    pub auto_rearm: bool,
    pub poll_ms: u64,
    pub detection_mode: DetectionMode,
    pub glz_route: Option<Seq<char>>,
    pub lock_attempts: u64,
    pub last_match_id: Option<Seq<char>>,
    pub last_lock_agent_uuid: Option<Seq<char>>,
}

/// The mathematical model of an event.
#[verifier::ext_equal]
pub struct EventView {
    pub ts: u64,
    pub level: Seq<char>,
    pub message: Seq<char>,
}

/// The mathematical model of an agent.
#[verifier::ext_equal]
pub struct AgentView {
    pub uuid: Seq<char>,
    pub display_name: Seq<char>,
    pub display_icon: Option<Seq<char>>,
    pub role: Option<Seq<char>>,
}

/// The mathematical model of a map.
#[verifier::ext_equal]
pub struct MapView {
    pub uuid: Seq<char>,
    pub display_name: Seq<char>,
    pub display_icon: Option<Seq<char>>,
    pub list_view_icon: Option<Seq<char>>,
    pub splash: Option<Seq<char>>,
    pub map_url: Seq<char>,
    pub in_ranked_pool: bool,
}

/// The mathematical model of what the dashboard is given.
#[verifier::ext_equal]
pub struct ResponseView {
    pub state: UiView,
    pub agents: Seq<AgentView>,
    pub maps: Seq<MapView>,
    pub events: Seq<EventView>,
}

/// The mathematical model of the program's state.
#[verifier::ext_equal]
pub struct InnerView {
    pub config: ConfigView,
    pub state: UiView,
    pub agents: Seq<AgentView>,
    pub maps: Seq<MapView>,
    pub events: Seq<EventView>,
    pub poller: bool,
}

impl View for Config {
    type V = ConfigView;

    open spec fn view(&self) -> ConfigView {
        ConfigView {
            selected_agent_uuid: self.selected_agent_uuid.deep_view(),
            selected_map_urls: self.selected_map_urls.deep_view(),
            selection_mode: self.selection_mode,
            per_map_agent_uuids: self.per_map_agent_uuids@,
            select_before_lock: self.select_before_lock,
            auto_rearm: self.auto_rearm,
            poll_ms: self.poll_ms,
            detection_mode: self.detection_mode,
        }
    }
}

impl View for UiState {
    type V = UiView;

    open spec fn view(&self) -> UiView {
        UiView {
            armed: self.armed,
            rearm_pending: self.rearm_pending,
            phase: self.phase,
            message: self.message@,
            selected_agent_uuid: self.selected_agent_uuid.deep_view(),
            selected_map_urls: self.selected_map_urls.deep_view(),
            select_before_lock: self.select_before_lock,
            auto_rearm: self.auto_rearm,
            poll_ms: self.poll_ms,
            detection_mode: self.detection_mode,
            glz_route: self.glz_route.deep_view(),
            lock_attempts: self.lock_attempts,
            last_match_id: self.last_match_id.deep_view(),
            last_lock_agent_uuid: self.last_lock_agent_uuid.deep_view(),
        }
    }
}

impl View for AppEvent {
    type V = EventView;

    open spec fn view(&self) -> EventView {
        EventView { ts: self.ts, level: self.level@, message: self.message@ }
    }
}

impl View for Agent {
    type V = AgentView;

    open spec fn view(&self) -> AgentView {
        AgentView {
            uuid: self.uuid@,
            display_name: self.display_name@,
            display_icon: self.display_icon.deep_view(),
            role: self.role.deep_view(),
        }
    }
}

impl View for GameMap {
    type V = MapView;

    open spec fn view(&self) -> MapView {
        MapView {
            uuid: self.uuid@,
            display_name: self.display_name@,
            display_icon: self.display_icon.deep_view(),
            list_view_icon: self.list_view_icon.deep_view(),
            splash: self.splash.deep_view(),
            map_url: self.map_url@,
            in_ranked_pool: self.in_ranked_pool,
        }
    }
}

/// The models of the events in a log.
pub open spec fn event_views(events: Seq<AppEvent>) -> Seq<EventView> {
    Seq::new(events.len(), |i: int| events[i]@)
}

/// The models of agents.
pub open spec fn agent_views(agents: Seq<Agent>) -> Seq<AgentView> {
    Seq::new(agents.len(), |i: int| agents[i]@)
}

/// The models of maps.
pub open spec fn map_views(maps: Seq<GameMap>) -> Seq<MapView> {
    Seq::new(maps.len(), |i: int| maps[i]@)
}

impl View for StateResponse {
    type V = ResponseView;

    open spec fn view(&self) -> ResponseView {
        ResponseView {
            state: self.state@,
            agents: agent_views(self.agents@),
            maps: map_views(self.maps@),
            events: event_views(self.events@),
        }
    }
}

impl View for InnerState {
    type V = InnerView;

    open spec fn view(&self) -> InnerView {
        InnerView {
            config: self.config@,
            state: self.state@,
            agents: agent_views(self.agents@),
            maps: map_views(self.maps@),
            events: event_views(self.events@),
            poller: self.poller,
        }
    }
}

/// A text in which the names of headers that carry secrets are replaced.
pub open spec fn redacted(text: Seq<char>) -> Seq<char> {
    replaced(
        replaced(text, "Authorization"@, "[auth-header]"@),
        "X-Riot-Entitlements-JWT"@,
        "[entitlement-header]"@,
    )
}

/// The last events of a log, as many as it keeps.
pub open spec fn recent(events: Seq<EventView>) -> Seq<EventView> {
    if events.len() > EVENT_LIMIT {
        events.skip(events.len() - EVENT_LIMIT)
    } else {
        events
    }
}

impl InnerView {
    /// The state with one more event in the log.
    pub open spec fn with_event(self, ts: u64, level: Seq<char>, message: Seq<char>) -> InnerView {
        InnerView {
            events: recent(self.events.push(EventView { ts, level, message: redacted(message) })),
            ..self
        }
    }
}

/// The text with the names of headers that carry secrets replaced.
pub fn redact(input: &str) -> (r: String)
    ensures
        r@ == redacted(input@),
{
    proof {
        reveal_strlit("Authorization");
        reveal_strlit("X-Riot-Entitlements-JWT");
    }
    let r = replace(input, "Authorization", "[auth-header]");
    replace(r.as_str(), "X-Riot-Entitlements-JWT", "[entitlement-header]")
}

/// Adds an event of the given time to the log, which forgets its oldest ones.
pub fn push_event_at(inner: &mut InnerState, ts: u64, level: &str, message: &str)
    ensures
        final(inner)@ == old(inner)@.with_event(ts, level@, message@),
        final(inner).config == old(inner).config,
        final(inner).state == old(inner).state,
        final(inner).agents == old(inner).agents,
        final(inner).maps == old(inner).maps,
{
    let event = AppEvent { ts, level: level.to_string(), message: redact(message) };
    let ghost added = old(inner)@.events.push(event@);
    inner.events.push(event);
    assert(event_views(inner.events@) == added);
    assert(added.skip(0) == added);
    let ghost mut dropped: int = 0;
    while inner.events.len() > EVENT_LIMIT
        invariant
            0 <= dropped <= added.len(),
            dropped > 0 ==> added.len() - dropped >= EVENT_LIMIT,
            event_views(inner.events@) == added.skip(dropped),
            inner.config == old(inner).config,
            inner.state == old(inner).state,
            inner.agents == old(inner).agents,
            inner.maps == old(inner).maps,
            inner.poller == old(inner).poller,
        decreases inner.events.len(),
    {
        inner.events.remove(0);
        proof {
            assert(added.skip(dropped).skip(1) == added.skip(dropped + 1));
            assert(event_views(inner.events@) == added.skip(dropped).skip(1));
            dropped = dropped + 1;
        }
    }
    assert(event_views(inner.events@).len() == inner.events@.len());
    assert(event_views(inner.events@) == recent(added));
}

/// The system's clock.
#[verifier::external_type_specification]
#[verifier::external_body]
pub struct ExSystemTime(std::time::SystemTime);

/// That the clock stands before the time that it is measured from.
#[verifier::external_type_specification]
#[verifier::external_body]
pub struct ExSystemTimeError(std::time::SystemTimeError);

/// `SystemTime::now` reads the system's clock. Nothing is claimed of what it shows.
pub assume_specification[ std::time::SystemTime::now ]() -> std::time::SystemTime
;

/// `SystemTime::duration_since` gives the time from `earlier` to `time`, and fails if `earlier` is
/// the later of the two. Nothing is claimed of either.
pub assume_specification[ std::time::SystemTime::duration_since ](
    time: &std::time::SystemTime,
    earlier: std::time::SystemTime,
) -> Result<std::time::Duration, std::time::SystemTimeError>
;

/// `Duration::as_secs` gives the whole seconds in the span of time. As nothing is claimed of how
/// long the span is, nothing is claimed of their number.
pub assume_specification[ std::time::Duration::as_secs ](span: &std::time::Duration) -> u64
;

/// The constant `std::time::UNIX_EPOCH`. Nothing is claimed of it.
#[verifier::external_body]
fn unix_epoch() -> std::time::SystemTime {
    std::time::UNIX_EPOCH
}

/// The time stamp of an event: the seconds since the epoch, zero if the clock stands before it.
pub fn event_ts(elapsed: Option<u64>) -> (r: u64)
    ensures
        r == match elapsed {
            Some(seconds) => seconds,
            None => 0,
        },
{
    match elapsed {
        Some(seconds) => seconds,
        None => 0,
    }
}

/// The seconds since the epoch, zero if the clock stands before it. What the clock shows is not
/// known beforehand, so no more can be said of the number.
pub fn now_ts() -> (r: u64) {
    match std::time::SystemTime::now().duration_since(unix_epoch()) {
        Ok(span) => event_ts(Some(span.as_secs())),
        Err(_) => event_ts(None),
    }
}

/// Adds an event of this moment to the log, which forgets its oldest ones.
pub fn push_event(inner: &mut InnerState, level: &str, message: &str)
    ensures
        exists|ts: u64| final(inner)@ == #[trigger] old(inner)@.with_event(ts, level@, message@),
{
    let ts: u64 = now_ts();
    push_event_at(inner, ts, level, message);
    assert(inner@ == old(inner)@.with_event(ts, level@, message@));
}

/// Whether a text stands in a list, whatever the case of its ASCII letters.
pub open spec fn listed(texts: Seq<Seq<char>>, text: Seq<char>) -> bool {
    exists|i: int| 0 <= i < texts.len() && #[trigger] same_ignoring_case(texts[i], text)
}

/// The texts without the white space around them, without empty ones and without those that came
/// before in another case.
pub open spec fn cleaned(texts: Seq<Seq<char>>) -> Seq<Seq<char>>
    decreases texts.len(),
{
    if texts.len() == 0 {
        seq![]
    } else {
        let earlier = cleaned(texts.drop_last());
        let text = trimmed(texts.last());
        if text.len() == 0 || listed(earlier, text) {
            earlier
        } else {
            earlier.push(text)
        }
    }
}

/// Whether a text stands in a list, whatever the case of its ASCII letters.
pub fn is_listed(texts: &Vec<String>, text: &str) -> (r: bool)
    ensures
        r == listed(texts.deep_view(), text@),
{
    for i in 0..texts.len()
        invariant
            forall|j: int|
                0 <= j < i ==> !#[trigger] same_ignoring_case(texts.deep_view()[j], text@),
    {
        assert(texts.deep_view()[i as int] == texts@[i as int]@);
        if eq_ignore_ascii_case(texts[i].as_str(), text) {
            return true;
        }
    }
    false
}

/// The addresses of maps without the white space around them, without empty ones and without those
/// that came before in another case.
pub fn clean_map_urls(map_urls: Vec<String>) -> (r: Vec<String>)
    ensures
        r.deep_view() == cleaned(map_urls.deep_view()),
{
    let ghost texts = map_urls.deep_view();
    let mut r: Vec<String> = Vec::new();
    assert(r.deep_view() == cleaned(texts.take(0)));
    for i in 0..map_urls.len()
        invariant
            texts == map_urls.deep_view(),
            r.deep_view() == cleaned(texts.take(i as int)),
    {
        let ghost before = r.deep_view();
        assert(texts.take(i + 1).drop_last() == texts.take(i as int));
        assert(texts.take(i + 1).last() == map_urls@[i as int]@);
        let map_url = trim(map_urls[i].as_str());
        if !map_url.is_empty() && !is_listed(&r, map_url) {
            r.push(map_url.to_string());
            assert(r.deep_view() == before.push(map_url@));
        }
    }
    assert(texts.take(map_urls.len() as int) == texts);
    r
}

/// The configuration before the user changes it.
pub open spec fn default_config() -> ConfigView {
    ConfigView {
        selected_agent_uuid: None,
        selected_map_urls: seq![],
        selection_mode: SelectionMode::Global,
        per_map_agent_uuids: seq![],
        select_before_lock: false,
        auto_rearm: true,
        poll_ms: DEFAULT_POLL_MS,
        detection_mode: DetectionMode::Hybrid,
    }
}

impl Default for Config {
    fn default() -> (r: Config)
        ensures
            r@ == default_config(),
    {
        Config {
            selected_agent_uuid: None,
            selected_map_urls: Vec::new(),
            selection_mode: SelectionMode::Global,
            per_map_agent_uuids: MapAgents::new(),
            select_before_lock: false,
            auto_rearm: true,
            poll_ms: DEFAULT_POLL_MS,
            detection_mode: DetectionMode::Hybrid,
        }
    }
}

/// A configuration as it stands in its file: a setting that the file lacks is not there.
pub struct StoredConfig {
    pub selected_agent_uuid: Option<String>,
    pub selected_map_urls: Option<Vec<String>>,
    pub selection_mode: Option<SelectionMode>,
    pub per_map_agent_uuids: Option<MapAgents>,
    pub select_before_lock: Option<bool>,
    pub auto_rearm: Option<bool>,
    pub poll_ms: Option<u64>,
    pub detection_mode: Option<DetectionMode>,
}

/// The mathematical model of a configuration in its file.
#[verifier::ext_equal]
pub struct StoredView {
    pub selected_agent_uuid: Option<Seq<char>>,
    pub selected_map_urls: Option<Seq<Seq<char>>>,
    pub selection_mode: Option<SelectionMode>,
    pub per_map_agent_uuids: Option<Seq<(Seq<char>, Seq<char>)>>,
    pub select_before_lock: Option<bool>,
    pub auto_rearm: Option<bool>,
    pub poll_ms: Option<u64>,
    pub detection_mode: Option<DetectionMode>,
}

impl View for StoredConfig {
    type V = StoredView;

    open spec fn view(&self) -> StoredView {
        StoredView {
            selected_agent_uuid: self.selected_agent_uuid.deep_view(),
            selected_map_urls: self.selected_map_urls.deep_view(),
            selection_mode: self.selection_mode,
            per_map_agent_uuids: match self.per_map_agent_uuids {
                Some(agents) => Some(agents@),
                None => None,
            },
            select_before_lock: self.select_before_lock,
            auto_rearm: self.auto_rearm,
            poll_ms: self.poll_ms,
            detection_mode: self.detection_mode,
        }
    }
}

/// A setting, or the one before the user changes it if it is not there.
pub open spec fn setting<T>(stored: Option<T>, default: T) -> T {
    match stored {
        Some(value) => value,
        None => default,
    }
}

/// The configuration that a file gives: what the file lacks is as it was before the user changed it.
pub open spec fn filled(stored: StoredView) -> ConfigView {
    let unset = default_config();
    ConfigView {
        selected_agent_uuid: stored.selected_agent_uuid,
        selected_map_urls: setting(stored.selected_map_urls, unset.selected_map_urls),
        selection_mode: setting(stored.selection_mode, unset.selection_mode),
        per_map_agent_uuids: setting(stored.per_map_agent_uuids, unset.per_map_agent_uuids),
        select_before_lock: setting(stored.select_before_lock, unset.select_before_lock),
        auto_rearm: setting(stored.auto_rearm, unset.auto_rearm),
        poll_ms: setting(stored.poll_ms, unset.poll_ms),
        detection_mode: setting(stored.detection_mode, unset.detection_mode),
    }
}

/// What a file holds of a configuration: all of it.
pub open spec fn complete(config: ConfigView) -> StoredView {
    StoredView {
        selected_agent_uuid: config.selected_agent_uuid,
        selected_map_urls: Some(config.selected_map_urls),
        selection_mode: Some(config.selection_mode),
        per_map_agent_uuids: Some(config.per_map_agent_uuids),
        select_before_lock: Some(config.select_before_lock),
        auto_rearm: Some(config.auto_rearm),
        poll_ms: Some(config.poll_ms),
        detection_mode: Some(config.detection_mode),
    }
}

impl Config {
    /// The configuration that a file gives, and the one before the user changes it if no file could
    /// be read.
    pub fn load(read: Option<StoredConfig>) -> (r: Config)
        ensures
            r@ == match read {
                Some(stored) => filled(stored@),
                None => default_config(),
            },
    {
        let unset = Config::default();
        let stored = match read {
            Some(stored) => stored,
            None => {
                return unset;
            },
        };
        Config {
            selected_agent_uuid: stored.selected_agent_uuid,
            selected_map_urls: match stored.selected_map_urls {
                Some(urls) => urls,
                None => unset.selected_map_urls,
            },
            selection_mode: match stored.selection_mode {
                Some(mode) => mode,
                None => unset.selection_mode,
            },
            per_map_agent_uuids: match stored.per_map_agent_uuids {
                Some(agents) => agents,
                None => unset.per_map_agent_uuids,
            },
            select_before_lock: match stored.select_before_lock {
                Some(select) => select,
                None => unset.select_before_lock,
            },
            auto_rearm: match stored.auto_rearm {
                Some(rearm) => rearm,
                None => unset.auto_rearm,
            },
            poll_ms: match stored.poll_ms {
                Some(poll_ms) => poll_ms,
                None => unset.poll_ms,
            },
            detection_mode: match stored.detection_mode {
                Some(mode) => mode,
                None => unset.detection_mode,
            },
        }
    }

    /// What the file is to hold of the configuration.
    pub fn save(config: &Config) -> (r: StoredConfig)
        ensures
            r@ == complete(config@),
    {
        StoredConfig {
            selected_agent_uuid: config.selected_agent_uuid.clone(),
            selected_map_urls: Some(config.selected_map_urls.clone()),
            selection_mode: Some(config.selection_mode),
            per_map_agent_uuids: Some(config.per_map_agent_uuids.clone()),
            select_before_lock: Some(config.select_before_lock),
            auto_rearm: Some(config.auto_rearm),
            poll_ms: Some(config.poll_ms),
            detection_mode: Some(config.detection_mode),
        }
    }
}

/// Whether the dashboard shows the configuration as it is.
pub open spec fn mirrors(state: UiView, config: ConfigView) -> bool {
    &&& state.selected_agent_uuid == config.selected_agent_uuid
    &&& state.selected_map_urls == config.selected_map_urls
    &&& state.select_before_lock == config.select_before_lock
    &&& state.auto_rearm == config.auto_rearm
    &&& state.poll_ms == config.poll_ms
    &&& state.detection_mode == config.detection_mode
}

/// What the dashboard shows of an idle program with that configuration.
pub open spec fn idle_state(config: ConfigView) -> UiView {
    UiView {
        armed: false,
        rearm_pending: false,
        phase: UiPhase::Idle,
        message: "Idle. Press Arm to refresh live data."@,
        selected_agent_uuid: config.selected_agent_uuid,
        selected_map_urls: config.selected_map_urls,
        select_before_lock: config.select_before_lock,
        auto_rearm: config.auto_rearm,
        poll_ms: config.poll_ms,
        detection_mode: config.detection_mode,
        glz_route: None,
        lock_attempts: 0,
        last_match_id: None,
        last_lock_agent_uuid: None,
    }
}

impl Clone for Config {
    fn clone(&self) -> (r: Config)
        ensures
            r@ == self@,
    {
        Config {
            selected_agent_uuid: self.selected_agent_uuid.clone(),
            selected_map_urls: self.selected_map_urls.clone(),
            selection_mode: self.selection_mode,
            per_map_agent_uuids: self.per_map_agent_uuids.clone(),
            select_before_lock: self.select_before_lock,
            auto_rearm: self.auto_rearm,
            poll_ms: self.poll_ms,
            detection_mode: self.detection_mode,
        }
    }
}

impl Clone for UiState {
    fn clone(&self) -> (r: UiState)
        ensures
            r@ == self@,
    {
        UiState {
            armed: self.armed,
            rearm_pending: self.rearm_pending,
            phase: self.phase,
            message: self.message.clone(),
            selected_agent_uuid: self.selected_agent_uuid.clone(),
            selected_map_urls: self.selected_map_urls.clone(),
            select_before_lock: self.select_before_lock,
            auto_rearm: self.auto_rearm,
            poll_ms: self.poll_ms,
            detection_mode: self.detection_mode,
            glz_route: self.glz_route.clone(),
            lock_attempts: self.lock_attempts,
            last_match_id: self.last_match_id.clone(),
            last_lock_agent_uuid: self.last_lock_agent_uuid.clone(),
        }
    }
}

impl Clone for AppEvent {
    fn clone(&self) -> (r: AppEvent)
        ensures
            r@ == self@,
    {
        AppEvent { ts: self.ts, level: self.level.clone(), message: self.message.clone() }
    }
}

impl Clone for Agent {
    fn clone(&self) -> (r: Agent)
        ensures
            r@ == self@,
    {
        Agent {
            uuid: self.uuid.clone(),
            display_name: self.display_name.clone(),
            display_icon: self.display_icon.clone(),
            role: self.role.clone(),
        }
    }
}

impl Clone for GameMap {
    fn clone(&self) -> (r: GameMap)
        ensures
            r@ == self@,
    {
        GameMap {
            uuid: self.uuid.clone(),
            display_name: self.display_name.clone(),
            display_icon: self.display_icon.clone(),
            list_view_icon: self.list_view_icon.clone(),
            splash: self.splash.clone(),
            map_url: self.map_url.clone(),
            in_ranked_pool: self.in_ranked_pool,
        }
    }
}

impl InnerState {
    /// The state of a program that has just started with that configuration.
    pub fn new(config: Config) -> (r: InnerState)
        ensures
            r@ == (InnerView {
                config: config@,
                state: idle_state(config@),
                agents: seq![],
                maps: seq![],
                events: seq![],
                poller: false,
            }),
    {
        let state = UiState {
            armed: false,
            rearm_pending: false,
            phase: UiPhase::Idle,
            message: "Idle. Press Arm to refresh live data.".to_string(),
            selected_agent_uuid: config.selected_agent_uuid.clone(),
            selected_map_urls: config.selected_map_urls.clone(),
            select_before_lock: config.select_before_lock,
            auto_rearm: config.auto_rearm,
            poll_ms: config.poll_ms,
            detection_mode: config.detection_mode,
            glz_route: None,
            lock_attempts: 0,
            last_match_id: None,
            last_lock_agent_uuid: None,
        };
        InnerState {
            config,
            state,
            agents: Vec::new(),
            maps: Vec::new(),
            events: Vec::new(),
            poller: false,
        }
    }
}

/// What the dashboard is given of a state.
pub open spec fn response(inner: InnerView) -> ResponseView {
    ResponseView {
        state: inner.state,
        agents: inner.agents,
        maps: inner.maps,
        events: inner.events,
    }
}

/// What the dashboard is given of the state.
pub fn snapshot(inner: &InnerState) -> (r: StateResponse)
    ensures
        r@ == response(inner@),
{
    StateResponse {
        state: inner.state.clone(),
        agents: inner.agents.clone(),
        maps: inner.maps.clone(),
        events: inner.events.clone(),
    }
}

/// The mathematical model of a change of the configuration.
pub struct RequestView {
    pub selected_agent_uuid: Option<Seq<char>>,
    pub selected_map_urls: Option<Seq<Seq<char>>>,
    pub select_before_lock: Option<bool>,
    pub auto_rearm: Option<bool>,
    pub detection_mode: Option<DetectionMode>,
}

impl View for ConfigRequest {
    type V = RequestView;

    open spec fn view(&self) -> RequestView {
        RequestView {
            selected_agent_uuid: self.selected_agent_uuid.deep_view(),
            selected_map_urls: self.selected_map_urls.deep_view(),
            select_before_lock: self.select_before_lock,
            auto_rearm: self.auto_rearm,
            detection_mode: self.detection_mode,
        }
    }
}

/// The agent that a change leaves selected: a blank one selects none.
pub open spec fn requested_agent(
    request: Option<Seq<char>>,
    current: Option<Seq<char>>,
) -> Option<Seq<char>> {
    match request {
        Some(agent) => if trimmed(agent).len() == 0 {
            None
        } else {
            Some(agent)
        },
        None => current,
    }
}

/// The configuration that a change leads to.
pub open spec fn changed_config(config: ConfigView, request: RequestView) -> ConfigView {
    ConfigView {
        selected_agent_uuid: requested_agent(
            request.selected_agent_uuid,
            config.selected_agent_uuid,
        ),
        selected_map_urls: match request.selected_map_urls {
            Some(urls) => cleaned(urls),
            None => config.selected_map_urls,
        },
        select_before_lock: match request.select_before_lock {
            Some(select) => select,
            None => config.select_before_lock,
        },
        auto_rearm: match request.auto_rearm {
            Some(rearm) => rearm,
            None => config.auto_rearm,
        },
        detection_mode: match request.detection_mode {
            Some(mode) => mode,
            None => config.detection_mode,
        },
        ..config
    }
}

impl InnerView {
    /// The state after a change of the configuration, which the dashboard shows at once.
    pub open spec fn reconfigured(self, request: RequestView) -> InnerView {
        let config = changed_config(self.config, request);
        InnerView {
            config,
            state: UiView {
                selected_agent_uuid: config.selected_agent_uuid,
                selected_map_urls: config.selected_map_urls,
                select_before_lock: config.select_before_lock,
                auto_rearm: config.auto_rearm,
                detection_mode: config.detection_mode,
                ..self.state
            },
            ..self
        }
    }

    /// The state after the user has disarmed.
    pub open spec fn disarmed(self, ts: u64) -> InnerView {
        InnerView {
            state: UiView {
                armed: false,
                rearm_pending: false,
                phase: UiPhase::Idle,
                message: "Disarmed. Live sensitive data cleared."@,
                glz_route: None,
                last_match_id: None,
                last_lock_agent_uuid: None,
                ..self.state
            },
            poller: false,
            ..self
        }.with_event(ts, "info"@, "Disarmed."@)
    }
}

/// The agent that a change leaves selected: a blank one selects none.
fn resolve_agent(request: Option<String>, current: Option<String>) -> (r: Option<String>)
    ensures
        r.deep_view() == requested_agent(request.deep_view(), current.deep_view()),
{
    match request {
        Some(agent) => if trim(agent.as_str()).is_empty() {
            None
        } else {
            Some(agent)
        },
        None => current,
    }
}

/// Changes the configuration.
fn change_config(config: &mut Config, req: ConfigRequest)
    ensures
        final(config)@ == changed_config(old(config)@, req@),
{
    let current = config.selected_agent_uuid.take();
    config.selected_agent_uuid = resolve_agent(req.selected_agent_uuid, current);
    if let Some(map_urls) = req.selected_map_urls {
        config.selected_map_urls = clean_map_urls(map_urls);
    }
    if let Some(select_before_lock) = req.select_before_lock {
        config.select_before_lock = select_before_lock;
    }
    if let Some(auto_rearm) = req.auto_rearm {
        config.auto_rearm = auto_rearm;
    }
    if let Some(detection_mode) = req.detection_mode {
        config.detection_mode = detection_mode;
    }
}

/// Changes the configuration, and shows it on the dashboard.
pub fn apply_config(inner: &mut InnerState, req: ConfigRequest)
    ensures
        final(inner)@ == old(inner)@.reconfigured(req@),
{
    change_config(&mut inner.config, req);
    inner.state.selected_agent_uuid = inner.config.selected_agent_uuid.clone();
    inner.state.selected_map_urls = inner.config.selected_map_urls.clone();
    inner.state.select_before_lock = inner.config.select_before_lock;
    inner.state.auto_rearm = inner.config.auto_rearm;
    inner.state.detection_mode = inner.config.detection_mode;
}

/// Disarms: forgets what is known of the running game. Says whether a detection task is to be
/// stopped.
pub fn disarm(inner: &mut InnerState, ts: u64) -> (r: bool)
    ensures
        r == old(inner).poller,
        final(inner)@ == old(inner)@.disarmed(ts),
{
    let stop = inner.poller;
    inner.poller = false;
    inner.state.armed = false;
    inner.state.rearm_pending = false;
    inner.state.phase = UiPhase::Idle;
    inner.state.message = "Disarmed. Live sensitive data cleared.".to_string();
    inner.state.glz_route = None;
    inner.state.last_match_id = None;
    inner.state.last_lock_agent_uuid = None;
    push_event_at(inner, ts, "info", "Disarmed.");
    stop
}

} // verus!
