//! Presence data of the Riot Client: finding a player's own presence in a message, decoding it
//! and reading in it where in a session the player is.
use vstd::prelude::*;
use vstd::utf8::{decode_utf8, valid_utf8};

use crate::json::{item_trees, lemma_item_trees, lemma_member_trees, member_trees, parse_json, read_tree, Json, Tree};
use crate::text::{eq_ignore_ascii_case, same_ignoring_case};

verus! {

/// Why `base64` could not decode a text.
#[verifier::external_type_specification]
#[verifier::external_body]
pub struct ExDecodeError(base64::DecodeError);

/// Why some bytes are no text.
#[verifier::external_type_specification]
#[verifier::external_body]
pub struct ExFromUtf8Error(std::string::FromUtf8Error);

/// The bytes that `base64` decodes a text to under its standard, padded alphabet.
pub uninterp spec fn padded_bytes(text: Seq<char>) -> Option<Seq<u8>>;

/// The bytes that `base64` decodes a text to under its standard alphabet without padding.
pub uninterp spec fn unpadded_bytes(text: Seq<char>) -> Option<Seq<u8>>;

/// `base64::Engine::decode` of the engine `STANDARD`: the bytes are those that `padded_bytes`
/// names, and it fails where that names none.
#[verifier::external_body]
fn decode_padded(text: &str) -> (r: Result<Vec<u8>, base64::DecodeError>)
    ensures
        match r {
            Ok(bytes) => padded_bytes(text@) == Some(bytes@),
            Err(_) => padded_bytes(text@) is None,
        },
{
    base64::Engine::decode(&base64::engine::general_purpose::STANDARD, text)
}

/// `base64::Engine::decode` of the engine `STANDARD_NO_PAD`: the bytes are those that
/// `unpadded_bytes` names, and it fails where that names none.
#[verifier::external_body]
fn decode_unpadded(text: &str) -> (r: Result<Vec<u8>, base64::DecodeError>)
    ensures
        match r {
            Ok(bytes) => unpadded_bytes(text@) == Some(bytes@),
            Err(_) => unpadded_bytes(text@) is None,
        },
{
    base64::Engine::decode(&base64::engine::general_purpose::STANDARD_NO_PAD, text)
}

/// `String::from_utf8` gives the text that the bytes encode, and fails if they are not valid
/// UTF-8.
pub assume_specification[ String::from_utf8 ](bytes: Vec<u8>) -> (r: Result<
    String,
    std::string::FromUtf8Error,
>)
    ensures
        match r {
            Ok(text) => valid_utf8(bytes@) && text@ == decode_utf8(bytes@),
            Err(_) => !valid_utf8(bytes@),
        },
;

/// Why a presence's private part could not be read.
#[derive(Clone, Copy, Debug, PartialEq, Eq, Structural)]
pub enum PresenceError {
    /// It is not base64.
    Base64,
    /// What it encodes is not UTF-8.
    Utf8,
}

impl PresenceError {
    /// What a user is told of the error.
    pub open spec fn shown(self) -> Seq<char> {
        match self {
            PresenceError::Base64 => "failed to decode base64 presence"@,
            PresenceError::Utf8 => "presence was not valid UTF-8"@,
        }
    }

    /// What a user is told of the error.
    pub fn message(&self) -> (r: &'static str)
        ensures
            r@ == self.shown(),
    {
        match self {
            PresenceError::Base64 => "failed to decode base64 presence",
            PresenceError::Utf8 => "presence was not valid UTF-8",
        }
    }
}

/// The text that decoded bytes hold.
pub open spec fn bytes_text(bytes: Option<Seq<u8>>) -> Result<Seq<char>, PresenceError> {
    match bytes {
        Some(bytes) => if valid_utf8(bytes) {
            Ok(decode_utf8(bytes))
        } else {
            Err(PresenceError::Utf8)
        },
        None => Err(PresenceError::Base64),
    }
}

/// The bytes that a presence's private part encodes, with or without padding.
pub open spec fn private_bytes(private: Seq<char>) -> Option<Seq<u8>> {
    match padded_bytes(private) {
        Some(bytes) => Some(bytes),
        None => unpadded_bytes(private),
    }
}

/// The text that a presence's private part encodes.
pub open spec fn private_text(private: Seq<char>) -> Result<Seq<char>, PresenceError> {
    bytes_text(private_bytes(private))
}

/// The value under which an object names its player: the first of the four spellings that it has.
pub open spec fn player_member(value: Tree) -> Option<Tree> {
    if value.member("puuid"@) is Some {
        value.member("puuid"@)
    } else if value.member("Puuid"@) is Some {
        value.member("Puuid"@)
    } else if value.member("PUUID"@) is Some {
        value.member("PUUID"@)
    } else {
        value.member("pid"@)
    }
}

/// Whether an object names that player.
pub open spec fn names_player(value: Tree, puuid: Seq<char>) -> bool {
    player_member(value) matches Some(Tree::Text(name)) && same_ignoring_case(name, puuid)
}

/// The private part of the first presence of that player in a value, searched from the outside in.
pub open spec fn own_private(value: Tree, puuid: Seq<char>) -> Option<Seq<char>>
    decreases value,
{
    match value {
        Tree::Object(names, values) => if names_player(value, puuid) && value.text_member(
            "private"@,
        ) is Some {
            value.text_member("private"@)
        } else {
            first_own_private(values, puuid)
        },
        Tree::Array(items) => first_own_private(items, puuid),
        _ => None,
    }
}

/// The private part that the first of the values with one gives.
pub open spec fn first_own_private(values: Seq<Tree>, puuid: Seq<char>) -> Option<Seq<char>>
    decreases values,
{
    if values.len() == 0 {
        None
    } else {
        match own_private(values[0], puuid) {
            Some(private) => Some(private),
            None => first_own_private(values.skip(1), puuid),
        }
    }
}

/// The session state that a decoded presence gives, on its top level or in its match data.
pub open spec fn loop_state(presence: Tree) -> Option<Seq<char>> {
    if presence.member("sessionLoopState"@) is Some {
        presence.text_member("sessionLoopState"@)
    } else {
        match presence.member("matchPresenceData"@) {
            Some(data) => data.text_member("sessionLoopState"@),
            None => None,
        }
    }
}

/// The session state that a presence's private part gives.
pub open spec fn private_loop_state(private: Seq<char>) -> Option<Seq<char>> {
    match private_text(private) {
        Ok(text) => match read_tree(text) {
            Some(presence) => loop_state(presence),
            None => None,
        },
        Err(_) => None,
    }
}

/// The session state that a value gives for that player.
pub open spec fn value_loop_state(value: Tree, puuid: Seq<char>) -> Option<Seq<char>> {
    match own_private(value, puuid) {
        Some(private) => private_loop_state(private),
        None => None,
    }
}

/// The session state that a message gives for that player.
pub open spec fn message_loop_state(message: Seq<char>, puuid: Seq<char>) -> Option<Seq<char>> {
    match read_tree(message) {
        Some(value) => value_loop_state(value, puuid),
        None => None,
    }
}

/// Whether a session state is the given one.
pub open spec fn state_is(state: Option<Seq<char>>, name: Seq<char>) -> bool {
    state matches Some(state) && same_ignoring_case(state, name)
}

/// Whether a listed presence is one of this game: it names the game's product, or no product.
pub open spec fn of_this_game(presence: Tree) -> bool {
    presence.text_member("product"@) matches Some(product) ==> same_ignoring_case(
        product,
        "valorant"@,
    )
}

/// The session state that the first of the listed presences with one gives for that player.
pub open spec fn first_loop_state(presences: Seq<Tree>, puuid: Seq<char>) -> Option<Seq<char>>
    decreases presences.len(),
{
    if presences.len() == 0 {
        None
    } else if of_this_game(presences[0]) && value_loop_state(presences[0], puuid) is Some {
        value_loop_state(presences[0], puuid)
    } else {
        first_loop_state(presences.skip(1), puuid)
    }
}

/// The session state that the client's list of presences gives for that player.
pub open spec fn listed_loop_state(body: Tree, puuid: Seq<char>) -> Option<Seq<char>> {
    match body.member("presences"@) {
        Some(Tree::Array(presences)) => first_loop_state(presences, puuid),
        _ => None,
    }
}

/// The private part of the first presence of that player in a value, searched from the outside in.
pub fn find_private_presence_for_puuid<'a>(value: &'a Json, puuid: &str) -> (r: Option<&'a str>)
    ensures
        match r {
            Some(private) => own_private(value@, puuid@) == Some(private@),
            None => own_private(value@, puuid@) is None,
        },
    decreases value,
{
    match value {
        Json::Object(members) => {
            let name = match value.get("puuid") {
                Some(name) => Some(name),
                None => match value.get("Puuid") {
                    Some(name) => Some(name),
                    None => match value.get("PUUID") {
                        Some(name) => Some(name),
                        None => value.get("pid"),
                    },
                },
            };
            let has_puuid = match name {
                Some(name) => match name.as_str() {
                    Some(name) => eq_ignore_ascii_case(name, puuid),
                    None => false,
                },
                None => false,
            };
            assert(has_puuid == names_player(value@, puuid@));
            if has_puuid {
                if let Some(private) = value.get_str("private") {
                    return Some(private);
                }
            }
            let ghost trees = member_trees(members@);
            proof {
                lemma_member_trees(members@);
                assert(trees.skip(0) == trees);
            }
            for i in 0..members.len()
                invariant
                    *value == Json::Object(*members),
                    trees == member_trees(members@),
                    trees.len() == members@.len(),
                    forall|i: int|
                        0 <= i < members@.len() ==> #[trigger] trees[i] == members@[i].1@,
                    own_private(value@, puuid@) == first_own_private(
                        trees.skip(i as int),
                        puuid@,
                    ),
            {
                assert(trees.skip(i as int)[0] == members@[i as int].1@);
                assert(trees.skip(i as int).skip(1) == trees.skip(i + 1));
                if let Some(private) = find_private_presence_for_puuid(&members[i].1, puuid) {
                    return Some(private);
                }
            }
            None
        },
        Json::Array(items) => {
            let ghost trees = item_trees(items@);
            proof {
                lemma_item_trees(items@);
                assert(trees.skip(0) == trees);
            }
            for i in 0..items.len()
                invariant
                    *value == Json::Array(*items),
                    trees == item_trees(items@),
                    trees.len() == items@.len(),
                    forall|i: int| 0 <= i < items@.len() ==> #[trigger] trees[i] == items@[i]@,
                    own_private(value@, puuid@) == first_own_private(
                        trees.skip(i as int),
                        puuid@,
                    ),
            {
                assert(trees.skip(i as int)[0] == items@[i as int]@);
                assert(trees.skip(i as int).skip(1) == trees.skip(i + 1));
                if let Some(private) = find_private_presence_for_puuid(&items[i], puuid) {
                    return Some(private);
                }
            }
            None
        },
        _ => None,
    }
}

/// The text that decoded bytes hold, or why there is none.
pub fn decoded_text(bytes: Option<Vec<u8>>) -> (r: Result<String, PresenceError>)
    ensures
        match r {
            Ok(text) => bytes_text(bytes.deep_view()) == Ok::<Seq<char>, PresenceError>(text@),
            Err(error) => bytes_text(bytes.deep_view()) == Err::<Seq<char>, PresenceError>(error),
        },
{
    match bytes {
        Some(bytes) => {
            assert(bytes.deep_view() == bytes@);
            match String::from_utf8(bytes) {
                Ok(text) => Ok(text),
                Err(_) => Err(PresenceError::Utf8),
            }
        },
        None => Err(PresenceError::Base64),
    }
}

/// The text that a presence's private part encodes in base64, with or without padding.
pub fn decode_presence_private(private: &str) -> (r: Result<String, PresenceError>)
    ensures
        match r {
            Ok(text) => private_text(private@) == Ok::<Seq<char>, PresenceError>(text@),
            Err(error) => private_text(private@) == Err::<Seq<char>, PresenceError>(error),
        },
{
    let bytes = match decode_padded(private) {
        Ok(bytes) => {
            assert(bytes.deep_view() == bytes@);
            Some(bytes)
        },
        Err(_) => match decode_unpadded(private) {
            Ok(bytes) => {
                assert(bytes.deep_view() == bytes@);
                Some(bytes)
            },
            Err(_) => None,
        },
    };
    decoded_text(bytes)
}

/// The session state that a decoded presence gives, on its top level or in its match data.
pub fn presence_session_loop_state(presence: &Json) -> (r: Option<&str>)
    ensures
        match r {
            Some(state) => loop_state(presence@) == Some(state@),
            None => loop_state(presence@) is None,
        },
{
    match presence.get("sessionLoopState") {
        Some(state) => state.as_str(),
        None => match presence.get("matchPresenceData") {
            Some(data) => data.get_str("sessionLoopState"),
            None => None,
        },
    }
}

/// Whether a session state is the given one.
pub fn is_loop_state(state: Option<&str>, name: &str) -> (r: bool)
    ensures
        r == state_is(state.deep_view(), name@),
{
    match state {
        Some(state) => eq_ignore_ascii_case(state, name),
        None => false,
    }
}

/// Whether a decoded presence says that the player is in a pre-game lobby.
pub fn presence_has_pregame_state(presence: &Json) -> (r: bool)
    ensures
        r == state_is(loop_state(presence@), "PREGAME"@),
{
    is_loop_state(presence_session_loop_state(presence), "PREGAME")
}

/// The decoded presence of a private part, if it can be read.
fn read_private(private: &str) -> (r: Option<Json>)
    ensures
        match r {
            Some(presence) => private_loop_state(private@) == loop_state(presence@),
            None => private_loop_state(private@) is None,
        },
{
    match decode_presence_private(private) {
        Ok(text) => parse_json(text.as_str()),
        Err(_) => None,
    }
}

/// The session state that a value gives for that player.
pub fn session_loop_state_in(value: &Json, puuid: &str) -> (r: Option<String>)
    ensures
        r.deep_view() == value_loop_state(value@, puuid@),
{
    let private = match find_private_presence_for_puuid(value, puuid) {
        Some(private) => private,
        None => {
            return None;
        },
    };
    match read_private(private) {
        Some(presence) => match presence_session_loop_state(&presence) {
            Some(state) => Some(state.to_string()),
            None => None,
        },
        None => None,
    }
}

/// Whether a message of the client's websocket says that the player is in a pre-game lobby.
pub fn websocket_message_is_pregame_for_player(message: &str, puuid: &str) -> (r: bool)
    ensures
        r == state_is(message_loop_state(message@, puuid@), "PREGAME"@),
{
    let value = match parse_json(message) {
        Some(value) => value,
        None => {
            return false;
        },
    };
    let private = match find_private_presence_for_puuid(&value, puuid) {
        Some(private) => private,
        None => {
            return false;
        },
    };
    match read_private(private) {
        Some(presence) => presence_has_pregame_state(&presence),
        None => false,
    }
}

/// The session state that a message of the client's websocket gives for that player.
pub fn websocket_message_session_loop_state_for_player(message: &str, puuid: &str) -> (r: Option<
    String,
>)
    ensures
        r.deep_view() == message_loop_state(message@, puuid@),
{
    match parse_json(message) {
        Some(value) => session_loop_state_in(&value, puuid),
        None => None,
    }
}

/// The session state that the client's list of presences gives for that player.
pub fn get_local_player_session_loop_state(body: &Json, puuid: &str) -> (r: Option<String>)
    ensures
        r.deep_view() == listed_loop_state(body@, puuid@),
{
    let listed = match body.get("presences") {
        Some(listed) => listed,
        None => {
            return None;
        },
    };
    let presences = match listed.as_array() {
        Some(presences) => presences,
        None => {
            return None;
        },
    };
    let ghost trees = item_trees(presences@);
    proof {
        lemma_item_trees(presences@);
        assert(trees.skip(0) == trees);
    }
    for i in 0..presences.len()
        invariant
            trees == item_trees(presences@),
            trees.len() == presences@.len(),
            forall|i: int| 0 <= i < presences@.len() ==> #[trigger] trees[i] == presences@[i]@,
            listed_loop_state(body@, puuid@) == first_loop_state(trees.skip(i as int), puuid@),
    {
        assert(trees.skip(i as int)[0] == presences@[i as int]@);
        assert(trees.skip(i as int).skip(1) == trees.skip(i + 1));
        let of_game = match presences[i].get_str("product") {
            Some(product) => eq_ignore_ascii_case(product, "valorant"),
            None => true,
        };
        if of_game {
            let state = session_loop_state_in(&presences[i], puuid);
            if state.is_some() {
                return state;
            }
        }
    }
    None
}

} // verus!
