//! Riot's local and remote services: where they are, how requests to them look and what their
//! replies mean.
use vstd::prelude::*;

use vstd::utf8::encode_utf8;

use crate::json::{item_trees, lemma_member_trees, member_trees, Json, Tree};
use crate::presence::padded_bytes;
use crate::region::{resolve_glz_base, server_url};
use crate::text::{decimal, decimal_u16, parse_port, pieces, port_value, same, split};

verus! {

/// The platform that requests to the game's services name.
pub const CLIENT_PLATFORM: &'static str = "ew0KCSJwbGF0Zm9ybVR5cGUiOiAiUEMiLA0KCSJwbGF0Zm9ybU9TIjogIldpbmRvd3MiLA0KCSJwbGF0Zm9ybU9TVmVyc2lvbiI6ICIxMC4wLjE5MDQyLjEuMjU2LjY0Yml0IiwNCgkicGxhdGZvcm1DaGlwc2V0IjogIlVua25vd24iDQp9";

/// The text that `base64` encodes some bytes to under its standard, padded alphabet.
pub uninterp spec fn encoded_text(bytes: Seq<u8>) -> Seq<char>;

/// `base64::Engine::encode` of the engine `STANDARD`: the text is the one that `encoded_text`
/// names, and the same engine decodes it back to the bytes. It panics where the text would not fit
/// in memory's address range.
#[verifier::external_body]
fn encode_padded(bytes: &[u8]) -> (r: String)
    requires
        bytes@.len() <= usize::MAX / 4,
    ensures
        r@ == encoded_text(bytes@),
        padded_bytes(r@) == Some(bytes@),
{
    base64::Engine::encode(&base64::engine::general_purpose::STANDARD, bytes)
}

/// How `reqwest` writes an HTTP status: its number and its usual reason.
pub uninterp spec fn status_text(code: u16) -> Seq<char>;

/// `reqwest::StatusCode` made of a number and shown: the text is the one that `status_text` names.
/// There is a status for each number of three digits.
#[verifier::external_body]
fn show_status(code: u16) -> (r: String)
    requires
        100 <= code <= 999,
    ensures
        r@ == status_text(code),
{
    reqwest::StatusCode::from_u16(code).unwrap().to_string()
}

/// An HTTP status.
#[derive(Clone, Copy, Debug, PartialEq, Eq, Structural)]
pub struct Status {
    code: u16,
}

impl Status {
    /// A status has three digits.
    #[verifier::type_invariant]
    spec fn in_range(self) -> bool {
        100 <= self.code <= 999
    }

    /// The number of the status.
    pub closed spec fn number(self) -> u16 {
        self.code
    }

    /// Whether the status says that the request succeeded.
    pub open spec fn success(self) -> bool {
        200 <= self.number() <= 299
    }

    /// The status of that number, if it has three digits.
    pub fn new(code: u16) -> (r: Option<Status>)
        ensures
            match r {
                Some(status) => 100 <= code <= 999 && status.number() == code,
                None => !(100 <= code <= 999),
            },
    {
        if 100 <= code && code <= 999 {
            Some(Status { code })
        } else {
            None
        }
    }

    /// Whether the status says that the request succeeded.
    pub fn is_success(&self) -> (r: bool)
        ensures
            r == self.success(),
    {
        200 <= self.code && self.code <= 299
    }

    /// Whether this is the status of that number.
    pub fn is(&self, code: u16) -> (r: bool)
        ensures
            r == (self.number() == code),
    {
        self.code == code
    }

    /// The number and the usual reason of the status.
    pub fn text(&self) -> (r: String)
        ensures
            r@ == status_text(self.number()),
    {
        proof {
            use_type_invariant(self);
        }
        show_status(self.code)
    }
}

/// A request to the pre-game service that failed.
#[derive(Debug)]
pub enum PregameApiError {
    /// The question for the player's lobby.
    PlayerRequest(Status),
    /// The question for a lobby's data.
    MatchRequest(Status),
    /// The choice of an agent.
    AgentAction { action: String, status: Status },
}

impl PregameApiError {
    /// Whether the same request may succeed a little later.
    pub open spec fn transient(self) -> bool {
        match self {
            PregameApiError::PlayerRequest(status) => status.number() == 404,
            PregameApiError::MatchRequest(status) => status.number() == 404,
            PregameApiError::AgentAction { status, .. } => status.number() == 404
                || status.number() == 400,
        }
    }

    /// What a user is told of the error.
    pub open spec fn shown(self) -> Seq<char> {
        match self {
            PregameApiError::PlayerRequest(status) => "Pregame player request failed with "@
                + status_text(status.number()),
            PregameApiError::MatchRequest(status) => "Pregame match request failed with "@
                + status_text(status.number()),
            PregameApiError::AgentAction { action, status } => action@ + " request failed with "@
                + status_text(status.number()),
        }
    }

    /// Whether the same request may succeed a little later.
    pub fn is_transient(&self) -> (r: bool)
        ensures
            r == self.transient(),
    {
        match self {
            PregameApiError::PlayerRequest(status) => status.is(404),
            PregameApiError::MatchRequest(status) => status.is(404),
            PregameApiError::AgentAction { status, .. } => status.is(404) || status.is(400),
        }
    }

    /// What a user is told of the error.
    pub fn message(&self) -> (r: String)
        ensures
            r@ == self.shown(),
    {
        match self {
            PregameApiError::PlayerRequest(status) => "Pregame player request failed with ".to_string().concat(
            status.text().as_str()),
            PregameApiError::MatchRequest(status) => "Pregame match request failed with ".to_string().concat(
            status.text().as_str()),
            PregameApiError::AgentAction { action, status } => action.clone().concat(
                " request failed with ",
            ).concat(status.text().as_str()),
        }
    }
}

/// Why the services could not be reached.
#[derive(Clone, Copy, Debug, PartialEq, Eq, Structural)]
pub enum RiotError {
    /// The lockfile does not have its five parts.
    LockfileFormat,
    /// The lockfile's port is no port number.
    LockfilePort,
    /// The client runs no session of the game.
    SessionNotFound,
    /// The session does not say which version of the game runs.
    ClientVersionMissing,
    /// The region or the shard came out empty.
    RegionUnknown,
}

impl RiotError {
    /// What a user is told of the error.
    pub open spec fn shown(self) -> Seq<char> {
        match self {
            RiotError::LockfileFormat => "Riot lockfile had unexpected format"@,
            RiotError::LockfilePort => "lockfile port was invalid"@,
            RiotError::SessionNotFound =>
                "Valorant session was not found; start Valorant before arming"@,
            RiotError::ClientVersionMissing => "Valorant session did not include client version"@,
            RiotError::RegionUnknown => "could not determine Valorant region/shard"@,
        }
    }

    /// What a user is told of the error.
    pub fn message(&self) -> (r: &'static str)
        ensures
            r@ == self.shown(),
    {
        match self {
            RiotError::LockfileFormat => "Riot lockfile had unexpected format",
            RiotError::LockfilePort => "lockfile port was invalid",
            RiotError::SessionNotFound =>
                "Valorant session was not found; start Valorant before arming",
            RiotError::ClientVersionMissing => "Valorant session did not include client version",
            RiotError::RegionUnknown => "could not determine Valorant region/shard",
        }
    }
}

/// What is known of a running game and its player: where the services are and what requests to
/// them have to show.
#[derive(Clone)]
pub struct LiveContext {
    pub local_base: String,
    pub local_auth: String,
    pub glz_base: String,
    pub puuid: String,
    pub access_token: String,
    pub entitlement_token: String,
    pub client_version: String,
    pub select_before_lock: bool,
}

/// What the client's lockfile says of its local service.
pub struct Lockfile {
    pub port: u16,
    pub password: String,
}

/// Where the client's local service is and what requests to it have to show.
pub struct LocalEndpoint {
    pub base: String,
    pub auth: String,
}

/// The client's answer on who the player is.
pub struct Entitlements {
    pub access_token: String,
    pub subject: String,
    pub token: String,
}

/// The parts of a lockfile.
pub open spec fn lockfile_parts(raw: Seq<char>) -> Seq<Seq<char>> {
    pieces(raw, ":"@)
}

/// The port and the password of the local service that a lockfile names.
pub fn parse_lockfile(raw: &str) -> (r: Result<Lockfile, RiotError>)
    ensures
        match r {
            Ok(lockfile) => {
                &&& lockfile_parts(raw@).len() == 5
                &&& port_value(lockfile_parts(raw@)[2]) == Some(lockfile.port)
                &&& lockfile.password@ == lockfile_parts(raw@)[3]
            },
            Err(RiotError::LockfileFormat) => lockfile_parts(raw@).len() != 5,
            Err(RiotError::LockfilePort) => lockfile_parts(raw@).len() == 5 && port_value(
                lockfile_parts(raw@)[2],
            ) is None,
            Err(_) => false,
        },
{
    proof {
        reveal_strlit(":");
    }
    let parts = split(raw, ":");
    assert(parts.deep_view().len() == parts.len());
    if parts.len() != 5 {
        return Err(RiotError::LockfileFormat);
    }
    assert(parts.deep_view()[2] == parts@[2]@);
    assert(parts.deep_view()[3] == parts@[3]@);
    match parse_port(parts[2].as_str()) {
        Some(port) => Ok(Lockfile { port, password: parts[3].clone() }),
        None => Err(RiotError::LockfilePort),
    }
}

/// The address of the local service on a port.
pub open spec fn local_url(port: u16) -> Seq<char> {
    "https://127.0.0.1:"@ + decimal(port as nat)
}

/// What a request to the local service shows: the user `riot` and the password, in base64.
pub open spec fn basic_auth(password: Seq<char>) -> Seq<char> {
    "Basic "@ + encoded_text(encode_utf8("riot:"@ + password))
}

/// Where the local service of a lockfile is and what requests to it have to show: credentials that
/// decode to the user `riot` and the password.
pub fn local_endpoint(lockfile: &Lockfile) -> (r: LocalEndpoint)
    requires
        encode_utf8("riot:"@ + lockfile.password@).len() <= usize::MAX / 4,
    ensures
        r.base@ == local_url(lockfile.port),
        r.auth@ == basic_auth(lockfile.password@),
        padded_bytes(r.auth@.skip("Basic "@.len() as int)) == Some(
            encode_utf8("riot:"@ + lockfile.password@),
        ),
{
    let credentials = "riot:".to_string().concat(lockfile.password.as_str());
    let encoded = encode_padded(credentials.as_str().as_bytes());
    assert(("Basic "@ + encoded@).skip("Basic "@.len() as int) == encoded@);
    LocalEndpoint {
        base: "https://127.0.0.1:".to_string().concat(decimal_u16(lockfile.port).as_str()),
        auth: "Basic ".to_string().concat(encoded.as_str()),
    }
}

/// Where the first session of the game stands among the client's sessions.
pub open spec fn game_session(sessions: Seq<Tree>) -> Option<Tree>
    decreases sessions.len(),
{
    if sessions.len() == 0 {
        None
    } else if sessions[0].text_member("productId"@) == Some("valorant"@) {
        Some(sessions[0])
    } else {
        game_session(sessions.skip(1))
    }
}

/// The first session of the game among the client's sessions.
pub open spec fn listed_game_session(sessions: Tree) -> Option<Tree> {
    match sessions {
        Tree::Object(_, values) => game_session(values),
        _ => None,
    }
}

/// The first session of the game among the client's sessions.
pub fn find_valorant_session(sessions: &Json) -> (r: Result<&Json, RiotError>)
    ensures
        match r {
            Ok(session) => listed_game_session(sessions@) == Some(session@),
            Err(error) => error == RiotError::SessionNotFound && listed_game_session(
                sessions@,
            ) is None,
        },
{
    match sessions {
        Json::Object(members) => {
            let ghost trees = member_trees(members@);
            proof {
                lemma_member_trees(members@);
                assert(trees.skip(0) == trees);
            }
            for i in 0..members.len()
                invariant
                    *sessions == Json::Object(*members),
                    trees == member_trees(members@),
                    trees.len() == members@.len(),
                    forall|i: int|
                        0 <= i < members@.len() ==> #[trigger] trees[i] == members@[i].1@,
                    listed_game_session(sessions@) == game_session(trees.skip(i as int)),
            {
                assert(trees.skip(i as int)[0] == members@[i as int].1@);
                assert(trees.skip(i as int).skip(1) == trees.skip(i + 1));
                if let Some(product) = members[i].1.get_str("productId") {
                    if same(product, "valorant") {
                        return Ok(&members[i].1);
                    }
                }
            }
            Err(RiotError::SessionNotFound)
        },
        _ => Err(RiotError::SessionNotFound),
    }
}

/// The launch arguments of a session.
pub open spec fn session_args(session: Tree) -> Seq<Tree> {
    match session.member("launchConfiguration"@) {
        Some(launch) => match launch.member("arguments"@) {
            Some(Tree::Array(args)) => args,
            _ => seq![],
        },
        None => seq![],
    }
}

/// The game's version and launch arguments in the client's sessions.
pub fn read_game_session<'a>(sessions: &'a Json) -> (r: Result<(&'a str, Option<&'a Vec<Json>>), RiotError>)
    ensures
        match r {
            Ok((version, args)) => {
                &&& listed_game_session(sessions@) matches Some(session)
                &&& session.text_member("version"@) == Some(version@)
                &&& session_args(session) == match args {
                    Some(args) => item_trees(args@),
                    None => seq![],
                }
            },
            Err(RiotError::SessionNotFound) => listed_game_session(sessions@) is None,
            Err(RiotError::ClientVersionMissing) => listed_game_session(
                sessions@,
            ) matches Some(session) && session.text_member("version"@) is None,
            Err(_) => false,
        },
{
    let session = match find_valorant_session(sessions) {
        Ok(session) => session,
        Err(error) => {
            return Err(error);
        },
    };
    let version = match session.get_str("version") {
        Some(version) => version,
        None => {
            return Err(RiotError::ClientVersionMissing);
        },
    };
    let args = match session.get("launchConfiguration") {
        Some(launch) => match launch.get("arguments") {
            Some(args) => args.as_array(),
            None => None,
        },
        None => None,
    };
    Ok((version, args))
}

/// What is known of a running game: the local service, the player, the version in the game's
/// session, and the game server that the log, the session's arguments or the client's region give.
pub fn build_live_context(
    local: LocalEndpoint,
    entitlements: Entitlements,
    region: &str,
    sessions: &Json,
    log: Option<&str>,
) -> (r: Result<LiveContext, RiotError>)
    ensures
        match r {
            Ok(live) => {
                &&& live.local_base@ == local.base@
                &&& live.local_auth@ == local.auth@
                &&& live.puuid@ == entitlements.subject@
                &&& live.access_token@ == entitlements.access_token@
                &&& live.entitlement_token@ == entitlements.token@
                &&& !live.select_before_lock
                &&& listed_game_session(sessions@) matches Some(session)
                &&& session.text_member("version"@) == Some(live.client_version@)
                &&& server_url(log.deep_view(), session_args(session), region@) == Some(
                    live.glz_base@,
                )
            },
            Err(RiotError::SessionNotFound) => listed_game_session(sessions@) is None,
            Err(RiotError::ClientVersionMissing) => listed_game_session(
                sessions@,
            ) matches Some(session) && session.text_member("version"@) is None,
            Err(RiotError::RegionUnknown) => {
                &&& listed_game_session(sessions@) matches Some(session)
                &&& session.text_member("version"@) is Some
                &&& server_url(log.deep_view(), session_args(session), region@) is None
            },
            Err(_) => false,
        },
{
    let (version, args) = match read_game_session(sessions) {
        Ok(session) => session,
        Err(error) => {
            return Err(error);
        },
    };
    let no_args: Vec<Json> = Vec::new();
    let args = match args {
        Some(args) => args,
        None => {
            assert(item_trees(no_args@) == Seq::<Tree>::empty());
            &no_args
        },
    };
    let glz_base = match resolve_glz_base(log, args, region) {
        Ok(url) => url,
        Err(error) => {
            return Err(error);
        },
    };
    Ok(
        LiveContext {
            local_base: local.base,
            local_auth: local.auth,
            glz_base,
            puuid: entitlements.subject,
            access_token: entitlements.access_token,
            entitlement_token: entitlements.token,
            client_version: version.to_string(),
            select_before_lock: false,
        },
    )
}

/// The headers that requests to the game's services carry besides the player's bearer token.
pub fn riot_headers(live: &LiveContext) -> (r: Vec<(&'static str, String)>)
    ensures
        r@.len() == 3,
        r@[0].0@ == "X-Riot-Entitlements-JWT"@ && r@[0].1@ == live.entitlement_token@,
        r@[1].0@ == "X-Riot-ClientVersion"@ && r@[1].1@ == live.client_version@,
        r@[2].0@ == "X-Riot-ClientPlatform"@ && r@[2].1@ == CLIENT_PLATFORM@,
{
    let mut r: Vec<(&'static str, String)> = Vec::new();
    r.push(("X-Riot-Entitlements-JWT", live.entitlement_token.clone()));
    r.push(("X-Riot-ClientVersion", live.client_version.clone()));
    r.push(("X-Riot-ClientPlatform", CLIENT_PLATFORM.to_string()));
    r
}

/// The address at which the pre-game service tells the player's lobby.
pub fn pregame_player_url(live: &LiveContext) -> (r: String)
    ensures
        r@ == live.glz_base@ + "/pregame/v1/players/"@ + live.puuid@,
{
    live.glz_base.clone().concat("/pregame/v1/players/").concat(live.puuid.as_str())
}

/// The address of a lobby at a game server.
pub open spec fn match_url(glz_base: Seq<char>, match_id: Seq<char>) -> Seq<char> {
    glz_base + "/pregame/v1/matches/"@ + match_id
}

/// The address at which the pre-game service tells a lobby's data.
pub fn pregame_match_url(live: &LiveContext, match_id: &str) -> (r: String)
    ensures
        r@ == match_url(live.glz_base@, match_id@),
{
    live.glz_base.clone().concat("/pregame/v1/matches/").concat(match_id)
}

/// The address at which the pre-game service takes the selection of an agent.
pub fn select_agent(live: &LiveContext, match_id: &str, agent_uuid: &str) -> (r: String)
    ensures
        r@ == match_url(live.glz_base@, match_id@) + "/select/"@ + agent_uuid@,
{
    pregame_match_url(live, match_id).concat("/select/").concat(agent_uuid)
}

/// The address at which the pre-game service takes the lock of an agent.
pub fn lock_agent(live: &LiveContext, match_id: &str, agent_uuid: &str) -> (r: String)
    ensures
        r@ == match_url(live.glz_base@, match_id@) + "/lock/"@ + agent_uuid@,
{
    pregame_match_url(live, match_id).concat("/lock/").concat(agent_uuid)
}

/// The address of an endpoint of the local service.
pub fn local_endpoint_url(base: &str, suffix: &str) -> (r: String)
    ensures
        r@ == base@ + "/"@ + suffix@,
{
    base.to_string().concat("/").concat(suffix)
}

/// What the pre-game service's answer says of the player's lobby. The body counts only if the
/// request succeeded.
pub fn get_pregame_player(status: Status, body: &Json) -> (r: Result<
    Option<String>,
    PregameApiError,
>)
    ensures
        match r {
            Ok(id) => if status.number() == 404 {
                id is None
            } else {
                status.success() && id.deep_view() == body@.text_member("MatchID"@)
            },
            Err(error) => status.number() != 404 && !status.success() && error
                == PregameApiError::PlayerRequest(status),
        },
{
    if status.is(404) {
        return Ok(None);
    }
    if !status.is_success() {
        return Err(PregameApiError::PlayerRequest(status));
    }
    match body.get_str("MatchID") {
        Some(id) => Ok(Some(id.to_string())),
        None => Ok(None),
    }
}

/// Whether the pre-game service answered with a lobby's data.
pub fn get_pregame_match(status: Status) -> (r: Result<(), PregameApiError>)
    ensures
        match r {
            Ok(_) => status.success(),
            Err(error) => !status.success() && error == PregameApiError::MatchRequest(status),
        },
{
    if status.is_success() {
        Ok(())
    } else {
        Err(PregameApiError::MatchRequest(status))
    }
}

/// Whether the pre-game service took the choice of an agent.
pub fn post_agent_action(status: Status, action: &str) -> (r: Result<(), PregameApiError>)
    ensures
        match r {
            Ok(_) => status.success(),
            Err(error) => !status.success() && (error matches PregameApiError::AgentAction {
                action: named,
                status: answered,
            } && named@ == action@ && answered == status),
        },
{
    if status.is_success() {
        Ok(())
    } else {
        Err(PregameApiError::AgentAction { action: action.to_string(), status })
    }
}

/// Whether the local service answered a request, and what a user is told if it did not.
pub fn local_get(suffix: &str, status: Status) -> (r: Result<(), String>)
    ensures
        match r {
            Ok(_) => status.success(),
            Err(message) => !status.success() && message@ == "local endpoint "@ + suffix@
                + " failed with "@ + status_text(status.number()),
        },
{
    if status.is_success() {
        Ok(())
    } else {
        Err(
            "local endpoint ".to_string().concat(suffix).concat(" failed with ").concat(
                status.text().as_str(),
            ),
        )
    }
}

/// A player in a pre-game lobby.
#[derive(Debug)]
pub struct PregamePlayer {
    pub subject: String,
    pub character_id: String,
    pub character_selection_state: String,
}

/// The player's team in a pre-game lobby.
#[derive(Debug)]
pub struct AllyTeam {
    pub players: Vec<PregamePlayer>,
}

/// A pre-game lobby.
#[derive(Debug)]
pub struct PregameMatch {
    pub ally_team: AllyTeam,
    pub map_id: String,
}

} // verus!
