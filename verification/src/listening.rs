//! Listening to the messages of the client's websocket, for the menus or for a pre-game lobby.
use vstd::prelude::*;
use vstd::utf8::{decode_utf8, valid_utf8};

use crate::json::{member_names, Json, Tree};
use crate::presence::{is_loop_state, message_loop_state, state_is, websocket_message_is_pregame_for_player, websocket_message_session_loop_state_for_player};
use crate::riot::LiveContext;
use crate::text::{replace_once, replaced_once};

verus! {

/// Why listening came to an end.
#[derive(Clone, Copy, Debug, PartialEq, Eq, Structural)]
pub enum ListenError {
    /// The client offers no websocket events.
    NoEvents,
    /// The client closed the connection.
    Closed,
    /// The connection broke off.
    Ended,
    /// No more lobbies will be announced.
    ChannelClosed,
}

impl ListenError {
    /// What a user is told of the error.
    pub open spec fn shown(self) -> Seq<char> {
        match self {
            ListenError::NoEvents => "local Riot Client returned no websocket events"@,
            ListenError::Closed => "Riot Client websocket closed"@,
            ListenError::Ended => "Riot Client websocket ended"@,
            ListenError::ChannelClosed => "Riot Client websocket event channel closed"@,
        }
    }

    /// What a user is told of the error.
    pub fn message(&self) -> (r: &'static str)
        ensures
            r@ == self.shown(),
    {
        match self {
            ListenError::NoEvents => "local Riot Client returned no websocket events",
            ListenError::Closed => "Riot Client websocket closed",
            ListenError::Ended => "Riot Client websocket ended",
            ListenError::ChannelClosed => "Riot Client websocket event channel closed",
        }
    }
}

/// The names of the events that the client offers.
pub open spec fn event_names(body: Tree) -> Seq<Seq<char>> {
    match body.member("events"@) {
        Some(Tree::Object(names, _)) => names,
        _ => seq![],
    }
}

/// The names of the events that the client offers on its websocket.
pub fn get_local_event_names(body: &Json) -> (r: Vec<String>)
    ensures
        r.deep_view() == event_names(body@),
{
    let mut r: Vec<String> = Vec::new();
    match body.get("events") {
        Some(Json::Object(members)) => {
            let ghost names = member_names(members@);
            for i in 0..members.len()
                invariant
                    names == member_names(members@),
                    r.deep_view() == names.take(i as int),
            {
                let ghost before = r.deep_view();
                r.push(members[i].0.clone());
                assert(r.deep_view() == before.push(names[i as int]));
                assert(names.take(i + 1) == names.take(i as int).push(names[i as int]));
            }
            assert(names.take(members.len() as int) == names);
        },
        _ => {
            assert(r.deep_view() == Seq::<Seq<char>>::empty());
        },
    }
    r
}

/// The message that subscribes to an event.
pub open spec fn subscription(event: Seq<char>) -> Seq<char> {
    "[5,\""@ + event + "\"]"@
}

/// The messages that subscribe to all events on offer, which must not be none.
pub fn subscriptions(events: &Vec<String>) -> (r: Result<Vec<String>, ListenError>)
    ensures
        match r {
            Ok(messages) => events@.len() > 0 && messages.deep_view() == Seq::new(
                events@.len(),
                |i: int| subscription(events@[i]@),
            ),
            Err(error) => events@.len() == 0 && error == ListenError::NoEvents,
        },
{
    if events.len() == 0 {
        return Err(ListenError::NoEvents);
    }
    let mut r: Vec<String> = Vec::new();
    let ghost wanted = Seq::new(events@.len(), |i: int| subscription(events@[i]@));
    for i in 0..events.len()
        invariant
            wanted == Seq::new(events@.len(), |i: int| subscription(events@[i]@)),
            r.deep_view() == wanted.take(i as int),
    {
        let ghost before = r.deep_view();
        r.push("[5,\"".to_string().concat(events[i].as_str()).concat("\"]"));
        assert(r.deep_view() == before.push(wanted[i as int]));
        assert(wanted.take(i + 1) == wanted.take(i as int).push(wanted[i as int]));
    }
    assert(wanted.take(events.len() as int) == wanted);
    Ok(r)
}

/// The address of the client's websocket.
pub fn websocket_url(local_base: &str) -> (r: String)
    ensures
        r@ == replaced_once(local_base@, "https://"@, "wss://"@),
{
    replace_once(local_base, "https://", "wss://")
}

/// The text that `String::from_utf8_lossy` makes of some bytes.
pub uninterp spec fn lossy_text(bytes: Seq<u8>) -> Seq<char>;

/// `String::from_utf8_lossy`: the text is the one that `lossy_text` names, which is what the bytes
/// encode if they are valid UTF-8.
#[verifier::external_body]
fn decode_lossily(bytes: &[u8]) -> (r: String)
    ensures
        r@ == lossy_text(bytes@),
        valid_utf8(bytes@) ==> r@ == decode_utf8(bytes@),
{
    String::from_utf8_lossy(bytes).into_owned()
}

/// A message of the client's websocket.
pub enum Frame {
    /// A text.
    Text(String),
    /// Bytes, which are taken as a text.
    Binary(Vec<u8>),
    /// The client closes the connection.
    Close,
    /// Anything else, which says nothing.
    Other,
}

/// The mathematical model of a message of the client's websocket.
pub enum FrameText {
    /// The message is that text.
    Text(Seq<char>),
    /// The client closes the connection.
    Close,
    /// The message says nothing.
    Nothing,
}

impl View for Frame {
    type V = FrameText;

    open spec fn view(&self) -> FrameText {
        match self {
            Frame::Text(text) => FrameText::Text(text@),
            Frame::Binary(bytes) => FrameText::Text(lossy_text(bytes@)),
            Frame::Close => FrameText::Close,
            Frame::Other => FrameText::Nothing,
        }
    }
}

/// What a message of the client's websocket means to a listener.
#[derive(Clone, Copy, Debug, PartialEq, Eq, Structural)]
pub enum Heard {
    /// The state that the listener waits for.
    Awaited,
    /// Nothing yet.
    Nothing,
    /// The connection is closed.
    Closed,
}

/// The text that a message spells out: its own, or the one that its bytes encode if they are valid
/// UTF-8.
pub open spec fn spelled_out(frame: Frame) -> Option<Seq<char>> {
    match frame {
        Frame::Text(text) => Some(text@),
        Frame::Binary(bytes) => if valid_utf8(bytes@) {
            Some(decode_utf8(bytes@))
        } else {
            None
        },
        _ => None,
    }
}

/// What a message means to a listener for a session state of the player.
pub open spec fn heard(frame: FrameText, puuid: Seq<char>, state: Seq<char>) -> Heard {
    match frame {
        FrameText::Text(text) => if state_is(message_loop_state(text, puuid), state) {
            Heard::Awaited
        } else {
            Heard::Nothing
        },
        FrameText::Close => Heard::Closed,
        FrameText::Nothing => Heard::Nothing,
    }
}

/// The text of a message, if it has one.
fn frame_text(frame: Frame) -> (r: Result<String, Heard>)
    ensures
        match r {
            Ok(text) => frame@ == FrameText::Text(text@) && (spelled_out(frame) matches Some(spelled)
                ==> spelled == text@),
            Err(Heard::Closed) => frame@ == FrameText::Close,
            Err(Heard::Nothing) => frame@ == FrameText::Nothing,
            Err(Heard::Awaited) => false,
        },
{
    match frame {
        Frame::Text(text) => Ok(text),
        Frame::Binary(bytes) => Ok(decode_lossily(bytes.as_slice())),
        Frame::Close => Err(Heard::Closed),
        Frame::Other => Err(Heard::Nothing),
    }
}

/// Whether a message says that the player is back in the menus. It does not matter whether it comes
/// as a text or as the bytes of one.
pub fn hear_menus(frame: Frame, puuid: &str) -> (r: Heard)
    ensures
        r == heard(frame@, puuid@, "MENUS"@),
        spelled_out(frame) matches Some(text) ==> r == heard(
            FrameText::Text(text),
            puuid@,
            "MENUS"@,
        ),
{
    match frame_text(frame) {
        Ok(text) => {
            let state = websocket_message_session_loop_state_for_player(text.as_str(), puuid);
            let state = match &state {
                Some(state) => Some(state.as_str()),
                None => None,
            };
            if is_loop_state(state, "MENUS") {
                Heard::Awaited
            } else {
                Heard::Nothing
            }
        },
        Err(heard) => heard,
    }
}

/// Whether a message says that the player is in a pre-game lobby. It does not matter whether it
/// comes as a text or as the bytes of one.
pub fn hear_pregame(frame: Frame, puuid: &str) -> (r: Heard)
    ensures
        r == heard(frame@, puuid@, "PREGAME"@),
        spelled_out(frame) matches Some(text) ==> r == heard(
            FrameText::Text(text),
            puuid@,
            "PREGAME"@,
        ),
{
    match frame_text(frame) {
        Ok(text) => if websocket_message_is_pregame_for_player(text.as_str(), puuid) {
            Heard::Awaited
        } else {
            Heard::Nothing
        },
        Err(heard) => heard,
    }
}

/// What came of the last action at the websocket.
pub enum SocketReply {
    /// The events that the client offers.
    Events(Vec<String>),
    /// The websocket is open, and the subscriptions are sent.
    Opened,
    /// A message came.
    Message(Frame),
    /// There are no more messages.
    Ended,
}

/// What came of the last action in waiting for the menus.
pub enum MenuReply {
    /// Waiting begins.
    Started,
    /// The player's session state in the client's list of presences.
    State(Option<String>),
    /// What came of an action at the websocket.
    Socket(SocketReply),
}

/// What came of the last action in listening for lobbies.
pub enum LobbyReply {
    /// Listening begins.
    Started,
    /// What came of an action at the websocket.
    Socket(SocketReply),
    /// The lobby is announced.
    Announced,
}

/// What to do next in listening.
pub enum ListenAction {
    /// Ask the client for the player's session state.
    FetchState,
    /// Ask the client for the events that it offers.
    FetchEvents,
    /// Open the websocket at that address, showing those credentials, and send those messages.
    Open { url: String, auth: String, messages: Vec<String> },
    /// Wait for the next message.
    Read,
    /// Announce a lobby.
    Announce,
    /// Nothing: what was waited for is there.
    Done,
    /// Nothing: listening came to an end.
    Fail(ListenError),
}

/// The mathematical model of what to do next in listening.
#[verifier::ext_equal]
pub enum ListenView {
    FetchState,
    FetchEvents,
    Open(Seq<char>, Seq<char>, Seq<Seq<char>>),
    Read,
    Announce,
    Done,
    Fail(ListenError),
}

impl View for ListenAction {
    type V = ListenView;

    open spec fn view(&self) -> ListenView {
        match self {
            ListenAction::FetchState => ListenView::FetchState,
            ListenAction::FetchEvents => ListenView::FetchEvents,
            ListenAction::Open { url, auth, messages } => ListenView::Open(
                url@,
                auth@,
                messages.deep_view(),
            ),
            ListenAction::Read => ListenView::Read,
            ListenAction::Announce => ListenView::Announce,
            ListenAction::Done => ListenView::Done,
            ListenAction::Fail(error) => ListenView::Fail(*error),
        }
    }
}

/// To open the websocket and subscribe to all events, which must not be none.
pub open spec fn open_step(live: LiveContext, events: Seq<String>) -> ListenView {
    if events.len() == 0 {
        ListenView::Fail(ListenError::NoEvents)
    } else {
        ListenView::Open(
            replaced_once(live.local_base@, "https://"@, "wss://"@),
            live.local_auth@,
            Seq::new(events.len(), |i: int| subscription(events[i]@)),
        )
    }
}

/// The next action at the websocket in waiting for a session state of the player, which leads to
/// the given action.
pub open spec fn socket_step(
    live: LiveContext,
    reply: SocketReply,
    state: Seq<char>,
    reached: ListenView,
) -> ListenView {
    match reply {
        SocketReply::Events(events) => open_step(live, events@),
        SocketReply::Opened => ListenView::Read,
        SocketReply::Message(frame) => match heard(frame@, live.puuid@, state) {
            Heard::Awaited => reached,
            Heard::Nothing => ListenView::Read,
            Heard::Closed => ListenView::Fail(ListenError::Closed),
        },
        SocketReply::Ended => ListenView::Fail(ListenError::Ended),
    }
}

/// The next action in waiting for the menus. If the player is in the menus already, there is
/// nothing to listen to.
pub open spec fn menu_step(live: LiveContext, reply: MenuReply) -> ListenView {
    match reply {
        MenuReply::Started => ListenView::FetchState,
        MenuReply::State(state) => if state_is(state.deep_view(), "MENUS"@) {
            ListenView::Done
        } else {
            ListenView::FetchEvents
        },
        MenuReply::Socket(reply) => socket_step(live, reply, "MENUS"@, ListenView::Done),
    }
}

/// The next action in listening for pre-game lobbies, each of which is announced.
pub open spec fn pregame_step(live: LiveContext, reply: LobbyReply) -> ListenView {
    match reply {
        LobbyReply::Started => ListenView::FetchEvents,
        LobbyReply::Socket(reply) => socket_step(live, reply, "PREGAME"@, ListenView::Announce),
        LobbyReply::Announced => ListenView::Read,
    }
}

/// Opens the websocket and subscribes to all events, which must not be none.
fn open_websocket(live: &LiveContext, events: &Vec<String>) -> (r: ListenAction)
    ensures
        r@ == open_step(*live, events@),
{
    match subscriptions(events) {
        Ok(messages) => ListenAction::Open {
            url: websocket_url(live.local_base.as_str()),
            auth: live.local_auth.clone(),
            messages,
        },
        Err(error) => ListenAction::Fail(error),
    }
}

/// The next action in waiting for the menus.
pub fn wait_for_menu_ws(live: &LiveContext, reply: MenuReply) -> (r: ListenAction)
    ensures
        r@ == menu_step(*live, reply),
{
    match reply {
        MenuReply::Started => ListenAction::FetchState,
        MenuReply::State(state) => {
            let state = match &state {
                Some(state) => Some(state.as_str()),
                None => None,
            };
            if is_loop_state(state, "MENUS") {
                ListenAction::Done
            } else {
                ListenAction::FetchEvents
            }
        },
        MenuReply::Socket(SocketReply::Events(events)) => open_websocket(live, &events),
        MenuReply::Socket(SocketReply::Opened) => ListenAction::Read,
        MenuReply::Socket(SocketReply::Message(frame)) => match hear_menus(
            frame,
            live.puuid.as_str(),
        ) {
            Heard::Awaited => ListenAction::Done,
            Heard::Nothing => ListenAction::Read,
            Heard::Closed => ListenAction::Fail(ListenError::Closed),
        },
        MenuReply::Socket(SocketReply::Ended) => ListenAction::Fail(ListenError::Ended),
    }
}

/// The next action in listening for pre-game lobbies.
pub fn listen_for_pregame_ws(live: &LiveContext, reply: LobbyReply) -> (r: ListenAction)
    ensures
        r@ == pregame_step(*live, reply),
{
    match reply {
        LobbyReply::Started => ListenAction::FetchEvents,
        LobbyReply::Socket(SocketReply::Events(events)) => open_websocket(live, &events),
        LobbyReply::Socket(SocketReply::Opened) => ListenAction::Read,
        LobbyReply::Socket(SocketReply::Message(frame)) => match hear_pregame(
            frame,
            live.puuid.as_str(),
        ) {
            Heard::Awaited => ListenAction::Announce,
            Heard::Nothing => ListenAction::Read,
            Heard::Closed => ListenAction::Fail(ListenError::Closed),
        },
        LobbyReply::Socket(SocketReply::Ended) => ListenAction::Fail(ListenError::Ended),
        LobbyReply::Announced => ListenAction::Read,
    }
}

} // verus!
