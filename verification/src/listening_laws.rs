//! What always holds of listening to the client's websocket.
use vstd::prelude::*;
use vstd::utf8::{decode_utf8, valid_utf8};

use crate::json::Tree;
use crate::listening::{event_names, heard, menu_step, pregame_step, spelled_out, subscription, Frame, FrameText, Heard, ListenError, ListenView, LobbyReply, MenuReply, SocketReply};
use crate::presence::message_loop_state;
use crate::riot::LiveContext;
use crate::text::{occurs_at, replaced_once, same_ignoring_case};
use crate::text_laws::law_replace;

verus! {

/// The events on offer are the names in the object of that name, in their order; without one there
/// are none.
pub proof fn law_event_names(body: Tree, names: Seq<Seq<char>>, values: Seq<Tree>)
    ensures
        body.member("events"@) == Some(Tree::Object(names, values)) ==> event_names(body) == names,
        !(body.member("events"@) matches Some(Tree::Object(_, _))) ==> event_names(body).len() == 0,
{
}

/// A message is awaited exactly if it is a text that gives the awaited session state for the player,
/// whatever the case; only the end of the connection closes it, and all else says nothing.
pub proof fn law_heard(frame: FrameText, puuid: Seq<char>, state: Seq<char>)
    ensures
        heard(frame, puuid, state) == Heard::Awaited <==> frame is Text && message_loop_state(
            frame->Text_0,
            puuid,
        ) is Some && same_ignoring_case(message_loop_state(frame->Text_0, puuid)->0, state),
        heard(frame, puuid, state) == Heard::Closed <==> frame is Close,
{
}

/// A message of the websocket is its text, or the text that its bytes are taken as; the end of the
/// connection and all other messages have none.
pub proof fn law_frames(text: String, bytes: Vec<u8>)
    ensures
        Frame::Text(text)@ == FrameText::Text(text@),
        Frame::Binary(bytes)@ is Text,
        Frame::Close@ == FrameText::Close,
        Frame::Other@ == FrameText::Nothing,
{
}

/// A text message spells out its text, and bytes the text that they encode, if they encode one;
/// nothing else spells out any.
pub proof fn law_spelled_out(frame: Frame)
    ensures
        frame matches Frame::Text(text) ==> spelled_out(frame) == Some(text@),
        frame matches Frame::Binary(bytes) ==> (valid_utf8(bytes@) ==> spelled_out(frame) == Some(
            decode_utf8(bytes@),
        )),
        spelled_out(frame) is Some ==> frame is Text || (frame is Binary && valid_utf8(
            frame->Binary_0@,
        )),
{
}

/// The websocket is opened at the local service's own address under the websocket's scheme, with the
/// service's credentials, and each event on offer is subscribed to, in order; without events there is
/// nothing to listen to.
pub proof fn law_opening(live: LiveContext, host: Seq<char>, events: Vec<String>)
    ensures
        ({
            let menu = menu_step(live, MenuReply::Socket(SocketReply::Events(events)));
            let lobby = pregame_step(live, LobbyReply::Socket(SocketReply::Events(events)));
            &&& menu == lobby
            &&& events@.len() == 0 ==> menu == ListenView::Fail(ListenError::NoEvents)
            &&& events@.len() > 0 ==> {
                &&& menu is Open
                &&& menu->Open_0 == replaced_once(live.local_base@, "https://"@, "wss://"@)
                &&& live.local_base@ == "https://"@ + host ==> menu->Open_0 == "wss://"@ + host
                &&& menu->Open_1 == live.local_auth@
                &&& menu->Open_2.len() == events@.len()
                &&& forall|i: int|
                    0 <= i < events@.len() ==> #[trigger] menu->Open_2[i] == "[5,\""@ + events@[i]@
                        + "\"]"@
            }
        }),
{
    let scheme = "https://"@;
    reveal_strlit("https://");
    let none = Seq::<char>::empty();
    assert(scheme + host =~= none + scheme + host);
    assert forall|j: int| occurs_at(none + scheme + host, scheme, j) implies none.len() <= j by {}
    law_replace(none, scheme, host, "wss://"@);
    assert(none + "wss://"@ + host =~= "wss://"@ + host);
    assert(replaced_once(scheme + host, scheme, "wss://"@) == "wss://"@ + host);
    assert forall|i: int| 0 <= i < events@.len() implies subscription(#[trigger] events@[i]@)
        == "[5,\""@ + events@[i]@ + "\"]"@ by {}
}

/// Waiting for the menus asks for the player's session state first, and is done if that is the menus,
/// whatever the case; else it listens until a message says so.
pub proof fn law_waiting_for_menus(live: LiveContext, state: Option<String>, frame: Frame)
    ensures
        menu_step(live, MenuReply::Started) == ListenView::FetchState,
        menu_step(live, MenuReply::State(state)) == if state is Some && same_ignoring_case(
            state->0@,
            "MENUS"@,
        ) {
            ListenView::Done
        } else {
            ListenView::FetchEvents
        },
        menu_step(live, MenuReply::Socket(SocketReply::Opened)) == ListenView::Read,
        menu_step(live, MenuReply::Socket(SocketReply::Message(frame))) == match heard(
            frame@,
            live.puuid@,
            "MENUS"@,
        ) {
            Heard::Awaited => ListenView::Done,
            Heard::Nothing => ListenView::Read,
            Heard::Closed => ListenView::Fail(ListenError::Closed),
        },
        menu_step(live, MenuReply::Socket(SocketReply::Ended)) == ListenView::Fail(
            ListenError::Ended,
        ),
{
}

/// Listening for lobbies announces each lobby that a message tells, and reads on after it.
pub proof fn law_listening_for_lobbies(live: LiveContext, frame: Frame)
    ensures
        pregame_step(live, LobbyReply::Started) == ListenView::FetchEvents,
        pregame_step(live, LobbyReply::Socket(SocketReply::Opened)) == ListenView::Read,
        pregame_step(live, LobbyReply::Socket(SocketReply::Message(frame))) == match heard(
            frame@,
            live.puuid@,
            "PREGAME"@,
        ) {
            Heard::Awaited => ListenView::Announce,
            Heard::Nothing => ListenView::Read,
            Heard::Closed => ListenView::Fail(ListenError::Closed),
        },
        pregame_step(live, LobbyReply::Socket(SocketReply::Ended)) == ListenView::Fail(
            ListenError::Ended,
        ),
        pregame_step(live, LobbyReply::Announced) == ListenView::Read,
{
}

/// What a user is told when listening came to an end.
pub proof fn law_shown_ends(error: ListenError)
    ensures
        error.shown() == match error {
            ListenError::NoEvents => "local Riot Client returned no websocket events"@,
            ListenError::Closed => "Riot Client websocket closed"@,
            ListenError::Ended => "Riot Client websocket ended"@,
            ListenError::ChannelClosed => "Riot Client websocket event channel closed"@,
        },
{
}

} // verus!
