//! What always holds of finding a player's presence.
use vstd::prelude::*;
use vstd::utf8::{encode_utf8, encode_utf8_decode_utf8, encode_utf8_valid_utf8, valid_utf8};

use crate::json::{place_of, read_tree, Tree};
use crate::listening::{menu_step, pregame_step, Frame, ListenView, LobbyReply, MenuReply, SocketReply};
use crate::presence::{first_loop_state, first_own_private, listed_loop_state, loop_state, message_loop_state, names_player, own_private, padded_bytes, private_loop_state, private_text, state_is, unpadded_bytes, value_loop_state, PresenceError};
use crate::riot::LiveContext;
use crate::text::same_ignoring_case;

verus! {

/// The values that stand directly in a value.
pub open spec fn children(value: Tree) -> Seq<Tree> {
    match value {
        Tree::Object(_, values) => values,
        Tree::Array(items) => items,
        _ => seq![],
    }
}

/// The value that stands in a value at the end of a path, each step of which picks a child.
pub open spec fn part_at(value: Tree, path: Seq<int>) -> Option<Tree>
    decreases path.len(),
{
    if path.len() == 0 {
        Some(value)
    } else if 0 <= path[0] < children(value).len() {
        part_at(children(value)[path[0]], path.skip(1))
    } else {
        None
    }
}

/// Whether a value is a presence of that player with that private part.
pub open spec fn is_own(value: Tree, puuid: Seq<char>, private: Seq<char>) -> bool {
    names_player(value, puuid) && value.text_member("private"@) == Some(private)
}

/// What is taken for a player's private part is that of a presence of this player.
pub proof fn law_private_is_own(value: Tree, puuid: Seq<char>, private: Seq<char>)
    requires
        own_private(value, puuid) == Some(private),
    ensures
        exists|path: Seq<int>|
            (#[trigger] part_at(value, path)) matches Some(part) && is_own(part, puuid, private),
    decreases value,
{
    if is_own(value, puuid, private) {
        assert(part_at(value, seq![]) == Some(value));
    } else {
        let values = children(value);
        lemma_first_own_private(values, puuid, private);
        let (i, path) = choose|i: int, path: Seq<int>|
            0 <= i < values.len() && ((#[trigger] part_at(values[i], path)) matches Some(part)
                && is_own(part, puuid, private));
        let whole = seq![i] + path;
        assert(whole.skip(1) =~= path);
        assert(part_at(value, whole) == part_at(values[i], path));
    }
}

proof fn lemma_first_own_private(values: Seq<Tree>, puuid: Seq<char>, private: Seq<char>)
    requires
        first_own_private(values, puuid) == Some(private),
    ensures
        exists|i: int, path: Seq<int>|
            0 <= i < values.len() && ((#[trigger] part_at(values[i], path)) matches Some(part)
                && is_own(part, puuid, private)),
    decreases values,
{
    if own_private(values[0], puuid) is Some {
        law_private_is_own(values[0], puuid, private);
        let path = choose|path: Seq<int>|
            (#[trigger] part_at(values[0], path)) matches Some(part) && is_own(
                part,
                puuid,
                private,
            );
        assert(part_at(values[0], path) is Some);
    } else {
        let rest = values.skip(1);
        lemma_first_own_private(rest, puuid, private);
        let (i, path) = choose|i: int, path: Seq<int>|
            0 <= i < rest.len() && ((#[trigger] part_at(rest[i], path)) matches Some(part)
                && is_own(part, puuid, private));
        assert(rest[i] == values[i + 1]);
        assert(part_at(values[i + 1], path) is Some);
    }
}

/// If a presence of the player stands anywhere in a value, one is found.
pub proof fn law_own_presence_is_found(
    value: Tree,
    puuid: Seq<char>,
    path: Seq<int>,
    part: Tree,
    private: Seq<char>,
)
    requires
        part_at(value, path) == Some(part),
        is_own(part, puuid, private),
    ensures
        own_private(value, puuid) is Some,
    decreases path.len(),
{
    if path.len() > 0 {
        let values = children(value);
        law_own_presence_is_found(values[path[0]], puuid, path.skip(1), part, private);
        lemma_some_own_private(values, puuid, path[0]);
    }
}

proof fn lemma_some_own_private(values: Seq<Tree>, puuid: Seq<char>, i: int)
    requires
        0 <= i < values.len(),
        own_private(values[i], puuid) is Some,
    ensures
        first_own_private(values, puuid) is Some,
    decreases i,
{
    if i > 0 {
        assert(values.skip(1)[i - 1] == values[i]);
        lemma_some_own_private(values.skip(1), puuid, i - 1);
    }
}

/// A message in which no presence of the player stands says nothing of the player, and ends no wait
/// for the menus and announces no lobby.
pub proof fn law_others_are_ignored(live: LiveContext, message: String, value: Tree)
    requires
        read_tree(message@) == Some(value),
        forall|path: Seq<int>|
            (#[trigger] part_at(value, path)) matches Some(part) ==> !(names_player(
                part,
                live.puuid@,
            ) && part.text_member("private"@) is Some),
    ensures
        message_loop_state(message@, live.puuid@) is None,
        menu_step(live, MenuReply::Socket(SocketReply::Message(Frame::Text(message))))
            == ListenView::Read,
        pregame_step(live, LobbyReply::Socket(SocketReply::Message(Frame::Text(message))))
            == ListenView::Read,
{
    if let Some(private) = own_private(value, live.puuid@) {
        law_private_is_own(value, live.puuid@, private);
        let path = choose|path: Seq<int>|
            (#[trigger] part_at(value, path)) matches Some(part) && is_own(
                part,
                live.puuid@,
                private,
            );
        assert(part_at(value, path) is Some);
    }
}

/// In which case a player's identity is written makes no difference.
pub proof fn law_player_in_any_case(value: Tree, puuid: Seq<char>, other: Seq<char>)
    requires
        same_ignoring_case(puuid, other),
    ensures
        own_private(value, puuid) == own_private(value, other),
        value_loop_state(value, puuid) == value_loop_state(value, other),
    decreases value,
{
    assert(names_player(value, puuid) == names_player(value, other));
    match value {
        Tree::Object(_, values) => lemma_first_in_any_case(values, puuid, other),
        Tree::Array(items) => lemma_first_in_any_case(items, puuid, other),
        _ => {},
    }
}

proof fn lemma_first_in_any_case(values: Seq<Tree>, puuid: Seq<char>, other: Seq<char>)
    requires
        same_ignoring_case(puuid, other),
    ensures
        first_own_private(values, puuid) == first_own_private(values, other),
    decreases values,
{
    if values.len() > 0 {
        law_player_in_any_case(values[0], puuid, other);
        lemma_first_in_any_case(values.skip(1), puuid, other);
    }
}

/// A presence of the player at the top of a message is the one that counts: the message gives the
/// session state in its private part.
pub proof fn law_top_presence_counts(
    message: Seq<char>,
    puuid: Seq<char>,
    value: Tree,
    private: Seq<char>,
)
    requires
        read_tree(message) == Some(value),
        is_own(value, puuid, private),
    ensures
        message_loop_state(message, puuid) == private_loop_state(private),
{
}

/// A text that is encoded with padding, or without padding where that is no padded encoding, is
/// read back from a presence's private part.
pub proof fn law_private_reads_back(private: Seq<char>, text: Seq<char>)
    requires
        padded_bytes(private) == Some(encode_utf8(text)) || (padded_bytes(private) is None
            && unpadded_bytes(private) == Some(encode_utf8(text))),
    ensures
        private_text(private) == Ok::<Seq<char>, PresenceError>(text),
{
    encode_utf8_valid_utf8(text);
    encode_utf8_decode_utf8(text);
}

/// A session state on a presence's top level counts, whatever stands in its match data.
pub proof fn law_top_state_counts(presence: Tree, state: Seq<char>)
    requires
        presence.text_member("sessionLoopState"@) == Some(state),
    ensures
        loop_state(presence) == Some(state),
{
}

proof fn lemma_place_of(names: Seq<Seq<char>>, name: Seq<char>)
    ensures
        match place_of(names, name) {
            Some(i) => 0 <= i < names.len() && names[i] == name && forall|j: int|
                0 <= j < i ==> #[trigger] names[j] != name,
            None => forall|j: int| 0 <= j < names.len() ==> #[trigger] names[j] != name,
        },
    decreases names.len(),
{
    if names.len() > 0 && names[0] != name {
        let rest = names.skip(1);
        lemma_place_of(rest, name);
        match place_of(rest, name) {
            Some(i) => {
                assert(names[i + 1] == rest[i]);
                assert forall|j: int| 0 <= j < i + 1 implies #[trigger] names[j] != name by {
                    if j > 0 {
                        assert(rest[j - 1] != name);
                    }
                }
            },
            None => {
                assert forall|j: int| 0 <= j < names.len() implies #[trigger] names[j] != name by {
                    if j > 0 {
                        assert(rest[j - 1] != name);
                    }
                }
            },
        }
    }
}

/// A member of an object is the value that stands where its name first does; an object without the
/// name has no such member.
pub proof fn law_member(names: Seq<Seq<char>>, values: Seq<Tree>, name: Seq<char>)
    ensures
        match Tree::Object(names, values).member(name) {
            Some(value) => exists|i: int|
                0 <= i < names.len() && #[trigger] names[i] == name && value == values[i] && forall|
                    j: int,
                |
                    0 <= j < i ==> #[trigger] names[j] != name,
            None => forall|j: int| 0 <= j < names.len() ==> #[trigger] names[j] != name,
        },
{
    lemma_place_of(names, name);
    if let Some(i) = place_of(names, name) {
        assert(names[i] == name);
    }
}

/// Only objects have members, only strings are texts, and only arrays have elements.
pub proof fn law_kinds_of_values(value: Tree, name: Seq<char>)
    ensures
        !(value is Object) ==> value.member(name) is None,
        value.text() == if value is Text {
            Some(value->Text_0)
        } else {
            None
        },
        value.items() == if value is Array {
            Some(value->Array_0)
        } else {
            None
        },
        value.text_member(name) is Some <==> value.member(name) matches Some(Tree::Text(_)),
        value.text_member(name) matches Some(text) ==> value.member(name) == Some(Tree::Text(text)),
{
}

/// The names under which a presence may hold its player, in the order in which they count.
pub open spec fn spelling(k: int) -> Seq<char> {
    if k == 0 {
        "puuid"@
    } else if k == 1 {
        "Puuid"@
    } else if k == 2 {
        "PUUID"@
    } else {
        "pid"@
    }
}

/// A value names a player exactly if the first of the four members that it has is a string with the
/// player's identity, whatever the case.
pub proof fn law_names_player(value: Tree, puuid: Seq<char>)
    ensures
        names_player(value, puuid) <==> exists|k: int|
            0 <= k < 4 && (forall|j: int|
                0 <= j < k ==> value.member(#[trigger] spelling(j)) is None) && (value.member(
                #[trigger] spelling(k),
            ) matches Some(Tree::Text(name)) && same_ignoring_case(name, puuid)),
{
    let (a, b, c, d) = (spelling(0), spelling(1), spelling(2), spelling(3));
    if names_player(value, puuid) {
        let k = if value.member(a) is Some {
            0
        } else if value.member(b) is Some {
            1
        } else if value.member(c) is Some {
            2
        } else {
            3int
        };
        assert forall|j: int| 0 <= j < k implies value.member(#[trigger] spelling(j)) is None by {
            assert(j == 0 || j == 1 || j == 2);
        }
        assert(value.member(spelling(k)) matches Some(Tree::Text(name)) && same_ignoring_case(
            name,
            puuid,
        ));
    }
    if exists|k: int|
        0 <= k < 4 && (forall|j: int| 0 <= j < k ==> value.member(#[trigger] spelling(j)) is None)
            && (value.member(#[trigger] spelling(k)) matches Some(Tree::Text(name))
            && same_ignoring_case(name, puuid)) {
        let k = choose|k: int|
            0 <= k < 4 && (forall|j: int|
                0 <= j < k ==> value.member(#[trigger] spelling(j)) is None) && (value.member(
                #[trigger] spelling(k),
            ) matches Some(Tree::Text(name)) && same_ignoring_case(name, puuid));
        assert(k > 0 ==> value.member(spelling(0)) is None);
        assert(k > 1 ==> value.member(spelling(1)) is None);
        assert(k > 2 ==> value.member(spelling(2)) is None);
        assert(k == 0 || k == 1 || k == 2 || k == 3);
    }
}

proof fn lemma_first_in_order(values: Seq<Tree>, puuid: Seq<char>)
    ensures
        match first_own_private(values, puuid) {
            Some(private) => exists|i: int|
                0 <= i < values.len() && own_private(#[trigger] values[i], puuid) == Some(private)
                    && forall|j: int|
                    0 <= j < i ==> own_private(#[trigger] values[j], puuid) is None,
            None => forall|j: int|
                0 <= j < values.len() ==> own_private(#[trigger] values[j], puuid) is None,
        },
    decreases values.len(),
{
    if values.len() > 0 && own_private(values[0], puuid) is None {
        let rest = values.skip(1);
        lemma_first_in_order(rest, puuid);
        if first_own_private(rest, puuid) is Some {
            let i = choose|i: int|
                0 <= i < rest.len() && own_private(#[trigger] rest[i], puuid) == first_own_private(
                    rest,
                    puuid,
                ) && forall|j: int|
                    0 <= j < i ==> own_private(#[trigger] rest[j], puuid) is None;
            assert(values[i + 1] == rest[i]);
            assert forall|j: int| 0 <= j < i + 1 implies own_private(
                #[trigger] values[j],
                puuid,
            ) is None by {
                if j > 0 {
                    assert(own_private(rest[j - 1], puuid) is None);
                }
            }
        } else {
            assert forall|j: int| 0 <= j < values.len() implies own_private(
                #[trigger] values[j],
                puuid,
            ) is None by {
                if j > 0 {
                    assert(own_private(rest[j - 1], puuid) is None);
                }
            }
        }
    } else if values.len() > 0 {
        assert(own_private(values[0], puuid) == first_own_private(values, puuid));
    }
}

/// The search for a player's private part goes from the outside in and from the front to the back:
/// a presence of the player counts before all that stands in it, and of the values in a value the
/// first one that leads to a private part counts.
pub proof fn law_search_order(value: Tree, puuid: Seq<char>)
    ensures
        forall|private: Seq<char>| #[trigger] is_own(value, puuid, private) ==> own_private(
            value,
            puuid,
        ) == Some(private),
        (forall|private: Seq<char>| !#[trigger] is_own(value, puuid, private)) ==> match own_private(
            value,
            puuid,
        ) {
            Some(private) => exists|i: int|
                0 <= i < children(value).len() && own_private(
                    #[trigger] children(value)[i],
                    puuid,
                ) == Some(private) && forall|j: int|
                    0 <= j < i ==> own_private(#[trigger] children(value)[j], puuid) is None,
            None => forall|j: int|
                0 <= j < children(value).len() ==> own_private(
                    #[trigger] children(value)[j],
                    puuid,
                ) is None,
        },
{
    lemma_first_in_order(children(value), puuid);
    if names_player(value, puuid) && value.text_member("private"@) is Some {
        assert(is_own(value, puuid, value.text_member("private"@)->0));
    }
}

/// What a private part does not encode: it is no base64 in either form, or not the encoding of a
/// text.
pub proof fn law_unreadable_private(private: Seq<char>, bytes: Seq<u8>)
    ensures
        padded_bytes(private) is None && unpadded_bytes(private) is None ==> private_text(private)
            == Err::<Seq<char>, PresenceError>(PresenceError::Base64),
        !valid_utf8(bytes) && (padded_bytes(private) == Some(bytes) || (padded_bytes(private) is None
            && unpadded_bytes(private) == Some(bytes))) ==> private_text(private) == Err::<
            Seq<char>,
            PresenceError,
        >(PresenceError::Utf8),
{
}

/// A presence's session state is the string in its top level's member; if there is no such member,
/// it is the string in the member of its match data.
pub proof fn law_loop_state(presence: Tree)
    ensures
        presence.member("sessionLoopState"@) matches Some(state) ==> loop_state(presence)
            == state.text(),
        presence.member("sessionLoopState"@) is None ==> match presence.member(
            "matchPresenceData"@,
        ) {
            Some(data) => loop_state(presence) == data.text_member("sessionLoopState"@),
            None => loop_state(presence) is None,
        },
{
}

/// A message gives the session state of the presence that its private part encodes, and none if any
/// step on the way fails.
pub proof fn law_message_state(
    message: Seq<char>,
    puuid: Seq<char>,
    value: Tree,
    private: Seq<char>,
    text: Seq<char>,
    presence: Tree,
)
    ensures
        read_tree(message) is None ==> message_loop_state(message, puuid) is None,
        read_tree(message) == Some(value) ==> message_loop_state(message, puuid)
            == value_loop_state(value, puuid),
        own_private(value, puuid) is None ==> value_loop_state(value, puuid) is None,
        own_private(value, puuid) == Some(private) && private_text(private) is Err
            ==> value_loop_state(value, puuid) is None,
        own_private(value, puuid) == Some(private) && private_text(private) == Ok::<
            Seq<char>,
            PresenceError,
        >(text) && read_tree(text) is None ==> value_loop_state(value, puuid) is None,
        own_private(value, puuid) == Some(private) && private_text(private) == Ok::<
            Seq<char>,
            PresenceError,
        >(text) && read_tree(text) == Some(presence) ==> value_loop_state(value, puuid)
            == loop_state(presence),
{
}

/// What a user is told of a private part that cannot be read.
pub proof fn law_shown_presence_errors(error: PresenceError)
    ensures
        error.shown() == match error {
            PresenceError::Base64 => "failed to decode base64 presence"@,
            PresenceError::Utf8 => "presence was not valid UTF-8"@,
        },
{
}

/// A session state is the named one exactly if there is one and it is the name, whatever the case.
pub proof fn law_state_is(state: Option<Seq<char>>, name: Seq<char>)
    ensures
        state_is(state, name) <==> state is Some && same_ignoring_case(state->0, name),
{
}

/// Whether a listed presence gives that session state for the player: it names no product or this
/// game's, and its own private part holds the state.
pub open spec fn gives_state(presence: Tree, puuid: Seq<char>, state: Option<Seq<char>>) -> bool {
    &&& presence.text_member("product"@) is None || same_ignoring_case(
        presence.text_member("product"@)->0,
        "valorant"@,
    )
    &&& value_loop_state(presence, puuid) == state
    &&& state is Some
}

proof fn lemma_first_loop_state(presences: Seq<Tree>, puuid: Seq<char>)
    ensures
        match first_loop_state(presences, puuid) {
            Some(state) => exists|i: int|
                0 <= i < presences.len() && gives_state(
                    #[trigger] presences[i],
                    puuid,
                    Some(state),
                ) && forall|j: int, other: Seq<char>|
                    0 <= j < i ==> !#[trigger] gives_state(presences[j], puuid, Some(other)),
            None => forall|j: int, other: Seq<char>|
                0 <= j < presences.len() ==> !#[trigger] gives_state(
                    presences[j],
                    puuid,
                    Some(other),
                ),
        },
    decreases presences.len(),
{
    if presences.len() > 0 {
        let first = value_loop_state(presences[0], puuid);
        if first is Some && gives_state(presences[0], puuid, first) {
            assert(first_loop_state(presences, puuid) == first);
        } else {
            let rest = presences.skip(1);
            lemma_first_loop_state(rest, puuid);
            assert(first_loop_state(presences, puuid) == first_loop_state(rest, puuid));
            if first_loop_state(rest, puuid) is Some {
                let state = first_loop_state(rest, puuid)->0;
                let i = choose|i: int|
                    0 <= i < rest.len() && gives_state(#[trigger] rest[i], puuid, Some(state))
                        && forall|j: int, other: Seq<char>|
                        0 <= j < i ==> !#[trigger] gives_state(rest[j], puuid, Some(other));
                assert(presences[i + 1] == rest[i]);
                assert forall|j: int, other: Seq<char>| 0 <= j < i + 1 implies !#[trigger] gives_state(
                    presences[j],
                    puuid,
                    Some(other),
                ) by {
                    if j > 0 {
                        assert(presences[j] == rest[j - 1]);
                        assert(!gives_state(rest[j - 1], puuid, Some(other)));
                    }
                }
            } else {
                assert forall|j: int, other: Seq<char>|
                    0 <= j < presences.len() implies !#[trigger] gives_state(
                    presences[j],
                    puuid,
                    Some(other),
                ) by {
                    if j > 0 {
                        assert(presences[j] == rest[j - 1]);
                        assert(!gives_state(rest[j - 1], puuid, Some(other)));
                    }
                }
            }
        }
    }
}

/// The client's list gives the session state of the first listed presence of this game, or of no
/// named product, that holds one for the player; it gives none exactly if there is no such presence.
pub proof fn law_listed_state(body: Tree, puuid: Seq<char>, presences: Seq<Tree>)
    requires
        body.member("presences"@) == Some(Tree::Array(presences)),
    ensures
        match listed_loop_state(body, puuid) {
            Some(state) => exists|i: int|
                0 <= i < presences.len() && gives_state(
                    #[trigger] presences[i],
                    puuid,
                    Some(state),
                ) && forall|j: int, other: Seq<char>|
                    0 <= j < i ==> !#[trigger] gives_state(presences[j], puuid, Some(other)),
            None => forall|j: int, other: Seq<char>|
                0 <= j < presences.len() ==> !#[trigger] gives_state(
                    presences[j],
                    puuid,
                    Some(other),
                ),
        },
{
    lemma_first_loop_state(presences, puuid);
}

/// An answer without a list of presences gives no session state.
pub proof fn law_no_list(body: Tree, puuid: Seq<char>)
    requires
        !(body.member("presences"@) matches Some(Tree::Array(_))),
    ensures
        listed_loop_state(body, puuid) is None,
{
}

proof fn lemma_prefix_ignored(others: Seq<Tree>, rest: Seq<Tree>, puuid: Seq<char>)
    requires
        forall|i: int, state: Seq<char>|
            0 <= i < others.len() ==> !#[trigger] gives_state(others[i], puuid, Some(state)),
    ensures
        first_loop_state(others + rest, puuid) == first_loop_state(rest, puuid),
    decreases others.len(),
{
    if others.len() == 0 {
        assert(others + rest =~= rest);
    } else {
        let tail = others.skip(1);
        assert((others + rest).skip(1) =~= tail + rest);
        assert((others + rest)[0] == others[0]);
        assert forall|i: int, state: Seq<char>| 0 <= i < tail.len() implies !#[trigger] gives_state(
            tail[i],
            puuid,
            Some(state),
        ) by {
            assert(tail[i] == others[i + 1]);
            assert(!gives_state(others[i + 1], puuid, Some(state)));
        }
        let first = value_loop_state(others[0], puuid);
        if first is Some {
            assert(!gives_state(others[0], puuid, Some(first->0)));
        }
        lemma_prefix_ignored(tail, rest, puuid);
    }
}

/// Presences that are not the player's make no difference, however many stand before the player's
/// own.
pub proof fn law_listed_others_are_ignored(
    body: Tree,
    shorter: Tree,
    puuid: Seq<char>,
    others: Seq<Tree>,
    rest: Seq<Tree>,
)
    requires
        body.member("presences"@) == Some(Tree::Array(others + rest)),
        shorter.member("presences"@) == Some(Tree::Array(rest)),
        forall|i: int| 0 <= i < others.len() ==> own_private(#[trigger] others[i], puuid) is None,
    ensures
        listed_loop_state(body, puuid) == listed_loop_state(shorter, puuid),
{
    assert forall|i: int, state: Seq<char>| 0 <= i < others.len() implies !#[trigger] gives_state(
        others[i],
        puuid,
        Some(state),
    ) by {
        assert(own_private(others[i], puuid) is None);
    }
    lemma_prefix_ignored(others, rest, puuid);
}

} // verus!
