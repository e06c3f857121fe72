//! Picks the character to play from the character list, or creates one for a new account.

use vstd::prelude::*;
use vstd::string::StringExecFns;
use vstd::utf8::encode_utf8;

use crate::client::opcodes::{server_opcode_name, Opcode};
use crate::client::packet::{
    is_debug_message, is_packet, is_response_message, is_response_with, world_frame,
    PacketDetails, PacketDetailsView, HandlerError, HandlerOutput,
};
use crate::client::player::globals::CharacterEnumOutcome;
use crate::client::player::traits::{
    generate_random_string, get_random_class, get_random_gender, get_random_race,
    ascii_lower, ascii_upper, name_from_letters, random_letters,
};
use crate::client::player::types::{Class, Gender, Player, PlayerView, Race};
use crate::client::player::CharCreateOutcome;
use crate::client::session::{copy_players, player_views, HandlerInput, Session};
use crate::client::player::character_list::{character_list, read_character_list};
use crate::client::reader::ByteReader;
use crate::errors::{CharacterListError, FieldError};
use crate::text::{pattern_compiles, pattern_matches, regex_compiles, regex_is_match};

verus! {

/// The body of the creation request for a character with this name (a zero byte is
/// appended to it) and attributes, the appearance all zero.
pub open spec fn new_character_body(name: Seq<char>, race: u8, class: u8, gender: u8) -> Seq<u8> {
    encode_utf8(name + "\0"@) + seq![race, class, gender, 0u8, 0u8, 0u8, 0u8, 0u8, 0u8]
}

/// The outputs that create a character: the announcement, the creation request and a new
/// request for the character list.
pub open spec fn is_creation(out: Seq<HandlerOutput>, name: Seq<char>, race: u8, class: u8, gender: u8) -> bool {
    &&& out.len() == 3
    &&& is_response_message(out[0], "Creating character with name \""@ + name + "\""@)
    &&& is_packet(
        out[1],
        Opcode::CMSG_CHAR_CREATE,
        world_frame(Opcode::CMSG_CHAR_CREATE, new_character_body(name, race, class, gender)),
    )
    &&& is_packet(out[2], Opcode::CMSG_CHAR_ENUM, world_frame(Opcode::CMSG_CHAR_ENUM, Seq::empty()))
}

/// The race, class and gender the client may draw for a new character.
pub open spec fn allowed_new_character(race: u8, class: u8, gender: u8) -> bool {
    &&& (race == Race::HUMAN || race == Race::ORC || race == Race::DWARF || race == Race::NIGHTELF
        || race == Race::UNDEAD || race == Race::TROLL)
    &&& (class == Class::WARRIOR || class == Class::ROGUE)
    &&& (gender == Gender::GENDER_MALE || gender == Gender::GENDER_FEMALE)
}

/// Announces and requests the creation of a character.
pub fn character_creation(name: &String, race: u8, class: u8, gender: u8) -> (out: Vec<HandlerOutput>)
    requires
        encode_utf8(name@ + "\0"@).len() + 13 <= u16::MAX,
    ensures
        is_creation(out@, name@, race, class, gender),
{
    let mut announce = String::from_str("Creating character with name \"");
    announce.append(name.as_str());
    announce.append("\"");
    let mut full_name = name.clone();
    full_name.append("\0");
    let create = CharCreateOutcome {
        name: full_name,
        race,
        class,
        gender,
        skin: 0,
        face: 0,
        hair_style: 0,
        hair_color: 0,
        facial_hair: 0,
        outfit_id: 0,
    };
    let mut out: Vec<HandlerOutput> = Vec::new();
    out.push(HandlerOutput::ResponseMessage(announce, None));
    out.push(HandlerOutput::Data(create.packet()));
    out.push(HandlerOutput::Data(CharacterEnumOutcome {}.packet()));
    out
}

/// The first character at or after `start` whose name the pattern matches.
pub open spec fn first_character_match(pattern: Seq<char>, players: Seq<PlayerView>, start: int) -> Option<int>
    decreases players.len() - start,
{
    if start < 0 || start >= players.len() {
        None
    } else if regex_is_match(pattern, players[start].name) {
        Some(start)
    } else {
        first_character_match(pattern, players, start + 1)
    }
}

proof fn lemma_first_character_match(pattern: Seq<char>, players: Seq<PlayerView>, start: int)
    requires
        0 <= start <= players.len(),
    ensures
        first_character_match(pattern, players, start) matches Some(i) ==> start <= i
            < players.len(),
    decreases players.len() - start,
{
    if start < players.len() && !regex_is_match(pattern, players[start].name) {
        lemma_first_character_match(pattern, players, start + 1);
    }
}

/// The index of the first character whose name the pattern matches.
pub fn select_character(players: &Vec<Player>, pattern: &str) -> (found: Option<usize>)
    requires
        regex_compiles(pattern@),
    ensures
        match found {
            None => first_character_match(pattern@, player_views(players@), 0) is None,
            Some(i) => first_character_match(pattern@, player_views(players@), 0) == Some(i as int),
        },
{
    let ghost views = player_views(players@);
    let mut i: usize = 0;
    while i < players.len()
        invariant
            i <= players@.len(),
            views == player_views(players@),
            regex_compiles(pattern@),
            first_character_match(pattern@, views, 0) == first_character_match(pattern@, views, i as int),
        decreases players@.len() - i,
    {
        if pattern_matches(pattern, players[i].name.as_str()) {
            return Some(i);
        }
        i = i + 1;
    }
    None
}

/// A name of random letters, with a zero byte after it, is short ASCII text.
proof fn lemma_name_size(letters: Seq<u8>)
    requires
        random_letters(letters),
    ensures
        encode_utf8(name_from_letters(letters, true) + "\0"@).len() + 13 <= u16::MAX,
{
    let name = name_from_letters(letters, true);
    reveal_strlit("\0");
    let full = name + "\0"@;
    assert(vstd::utf8::is_ascii_chars(full)) by {
        assert forall|i| 0 <= i < full.len() implies '\0' <= #[trigger] full[i] <= '\u{7f}' by {
            if i < name.len() {
                if i == 0 {
                    assert(is_ascii_letter_char(letters[0]));
                } else {
                    assert(is_ascii_letter_char(letters[i - 1]));
                }
            }
        }
    }
    vstd::utf8::is_ascii_chars_encode_utf8(full);
}

pub open spec fn is_ascii_letter_char(c: u8) -> bool {
    (ascii_upper(c) as char) <= '\u{7f}' && (ascii_lower(c) as char) <= '\u{7f}'
}

pub struct Handler;

impl Handler {
    /// What the handler does with the character list of the answer.
    pub open spec fn answered(
        before: HandlerInput,
        after: HandlerInput,
        characters: Seq<PlayerView>,
        result: Result<Vec<HandlerOutput>, HandlerError>,
    ) -> bool {
        if before.session.me is Some {
            &&& after == before
            &&& result is Ok
            &&& result->Ok_0@.len() == 1
            &&& is_response_with(result->Ok_0@[0], server_opcode_name(before.opcode), PacketDetailsView::Characters(characters))
        } else if before.session.config is None {
            after == before && result == Err::<Vec<HandlerOutput>, HandlerError>(
                HandlerError::ConfigNotSet,
            )
        } else {
            let config = before.session.config->Some_0;
            let auto_create = config.common.auto_create_character_for_new_account;
            let pattern = config.connection_data.autoselect_character_name@;
            if characters.len() == 0 {
                &&& after == before
                &&& result is Ok
                &&& is_response_with(result->Ok_0@[0], server_opcode_name(before.opcode), PacketDetailsView::Characters(characters))
                &&& if auto_create {
                    exists|letters: Seq<u8>, race: u8, class: u8, gender: u8|
                        random_letters(letters) && allowed_new_character(race, class, gender)
                            && #[trigger] is_creation(
                            result->Ok_0@.skip(1),
                            name_from_letters(letters, true),
                            race,
                            class,
                            gender,
                        )
                } else {
                    result->Ok_0@.len() == 1
                }
            } else if pattern.len() == 0 {
                &&& after == before
                &&& result is Ok
                &&& result->Ok_0@.len() == 3
                &&& is_response_with(result->Ok_0@[0], server_opcode_name(before.opcode), PacketDetailsView::Characters(characters))
                &&& result->Ok_0@[1] matches HandlerOutput::TransferCharactersList(list)
                    && player_views(list@) == characters
                &&& result->Ok_0@[2] is Freeze
            } else {
                match first_character_match(pattern, characters, 0) {
                    Some(i) => {
                        &&& result is Ok
                        &&& result->Ok_0@.len() == 2
                        &&& is_response_with(result->Ok_0@[0], server_opcode_name(before.opcode), PacketDetailsView::Characters(characters))
                        &&& is_debug_message(
                            result->Ok_0@[1],
                            "Selected \""@ + characters[i].name + "\" Character"@,
                            None,
                        )
                        &&& after.session.me matches Some(p) && p@ == characters[i]
                        &&& after == (HandlerInput {
                            session: Session { me: after.session.me, ..before.session },
                            ..before
                        })
                    },
                    None => after == before && if auto_create {
                        &&& result is Ok
                        &&& result->Ok_0@.len() == 1
                        &&& is_response_with(result->Ok_0@[0], server_opcode_name(before.opcode), PacketDetailsView::Characters(characters))
                    } else {
                        result == Err::<Vec<HandlerOutput>, HandlerError>(
                            HandlerError::CharacterList(CharacterListError::NotFound),
                        )
                    },
                }
            }
        }
    }

    /// Works on the characters the `SMSG_CHAR_ENUM` answer lists.
    pub fn handle_characters(&mut self, input: &mut HandlerInput, characters: Vec<Player>) -> (result: Result<
        Vec<HandlerOutput>,
        HandlerError,
    >)
        requires
            old(input).session.config matches Some(c) ==> (
                c.connection_data.autoselect_character_name@.len() > 0 ==> regex_compiles(
                    c.connection_data.autoselect_character_name@,
                )),
        ensures
            Self::answered(*old(input), *final(input), player_views(characters@), result),
    {
        let ghost views = player_views(characters@);
        let mut response: Vec<HandlerOutput> = Vec::new();
        response.push(
            HandlerOutput::ResponseMessage(
                Opcode::get_server_opcode_name(input.opcode),
                Some(PacketDetails::Characters(copy_players(&characters))),
            ),
        );
        if input.session.me.is_some() {
            return Ok(response);
        }
        let (auto_create, pattern) = match &input.session.config {
            Some(config) => (
                config.common.auto_create_character_for_new_account,
                config.connection_data.autoselect_character_name.clone(),
            ),
            None => {
                return Err(HandlerError::ConfigNotSet);
            },
        };
        if characters.len() == 0 {
            if auto_create {
                let name = generate_random_string(true);
                let race = get_random_race();
                let class = get_random_class();
                let gender = get_random_gender();
                let ghost letters = choose|letters: Seq<u8>|
                    random_letters(letters) && name@ == #[trigger] name_from_letters(letters, true);
                proof {
                    lemma_name_size(letters);
                }
                let mut created = character_creation(&name, race, class, gender);
                let ghost made = created@;
                response.append(&mut created);
                assert(response@.skip(1) =~= made);
                assert(is_creation(response@.skip(1), name_from_letters(letters, true), race, class, gender));
            }
            return Ok(response);
        }
        if pattern.as_str().unicode_len() == 0 {
            response.push(HandlerOutput::TransferCharactersList(characters));
            response.push(HandlerOutput::Freeze);
            return Ok(response);
        }
        match select_character(&characters, pattern.as_str()) {
            Some(i) => {
                proof {
                    lemma_first_character_match(pattern@, views, 0);
                }
                let mut characters = characters;
                let character = characters.remove(i);
                assert(character@ == views[i as int]);
                let mut message = String::from_str("Selected \"");
                message.append(character.name.as_str());
                message.append("\" Character");
                response.push(HandlerOutput::DebugMessage(message, None));
                input.session.me = Some(character);
                Ok(response)
            },
            None => {
                if auto_create {
                    Ok(response)
                } else {
                    Err(HandlerError::CharacterList(CharacterListError::NotFound))
                }
            },
        }
    }
}

impl Handler {
    /// Runs the handler when the character pattern of the config compiles; gives `None`,
    /// and changes nothing, when it does not.
    pub fn try_handle_characters(&mut self, input: &mut HandlerInput, characters: Vec<Player>) -> (result: Option<
        Result<Vec<HandlerOutput>, HandlerError>,
    >)
        ensures
            match old(input).session.config {
                Some(c) => {
                    let pattern = c.connection_data.autoselect_character_name@;
                    if pattern.len() > 0 && !regex_compiles(pattern) {
                        result is None && *final(input) == *old(input)
                    } else {
                        result matches Some(r) && Self::answered(
                            *old(input),
                            *final(input),
                            player_views(characters@),
                            r,
                        )
                    }
                },
                None => result matches Some(r) && Self::answered(
                    *old(input),
                    *final(input),
                    player_views(characters@),
                    r,
                ),
            },
    {
        let compiles = match &input.session.config {
            Some(c) => {
                let pattern = c.connection_data.autoselect_character_name.as_str();
                pattern.unicode_len() == 0 || pattern_compiles(pattern)
            },
            None => true,
        };
        if !compiles {
            return None;
        }
        Some(self.handle_characters(input, characters))
    }
}

impl Handler {
    /// What the handler does with a `SMSG_CHAR_ENUM` answer.
    pub open spec fn answered_packet(
        before: HandlerInput,
        after: HandlerInput,
        result: Result<Vec<HandlerOutput>, HandlerError>,
    ) -> bool {
        match character_list(before.data@) {
            None => after == before && result == Err::<Vec<HandlerOutput>, HandlerError>(
                HandlerError::Field(FieldError::CannotRead),
            ),
            Some(characters) => Self::answered(before, after, characters, result),
        }
    }

    /// Reads the character list of the answer and works on it.
    pub fn handle(&mut self, input: &mut HandlerInput) -> (result: Result<
        Vec<HandlerOutput>,
        HandlerError,
    >)
        requires
            old(input).session.config matches Some(c) ==> (
                c.connection_data.autoselect_character_name@.len() > 0 ==> regex_compiles(
                    c.connection_data.autoselect_character_name@,
                )),
        ensures
            Self::answered_packet(*old(input), *final(input), result),
    {
        let mut reader = ByteReader::new(input.data.as_slice());
        let parsed = read_character_list(&mut reader);
        assert(input.data@.skip(0) =~= input.data@);
        match parsed {
            Ok(characters) => self.handle_characters(input, characters),
            Err(_) => Err(HandlerError::Field(FieldError::CannotRead)),
        }
    }
}

} // verus!

verus! {

/// The request to create a character holds the name, a zero byte, then the race, the
/// class and the gender it was given, in this order, then six zero bytes of appearance.
/// It follows the announcement and comes before a new request for the character list.
pub proof fn lemma_creation_request_layout(
    out: Seq<HandlerOutput>,
    name: Seq<char>,
    race: u8,
    class: u8,
    gender: u8,
)
    requires
        is_creation(out, name, race, class, gender),
    ensures
        ({
            let n = encode_utf8(name).len() as int;
            out[1] matches HandlerOutput::Data(p) && p.opcode == Opcode::CMSG_CHAR_CREATE && {
                let body = p.data@.skip(6);
                &&& body.len() == n + 10
                &&& body.take(n) == encode_utf8(name)
                &&& body[n] == 0
                &&& body[n + 1] == race
                &&& body[n + 2] == class
                &&& body[n + 3] == gender
                &&& forall|k: int| n + 4 <= k < n + 10 ==> body[k] == 0
            }
        }),
{
    crate::text::lemma_encode_utf8_concat(name, "\0"@);
    crate::text::lemma_encode_nul();
    let body = new_character_body(name, race, class, gender);
    crate::bytes::lemma_le_bytes_len(Opcode::CMSG_CHAR_CREATE as nat, 4);
    let frame = world_frame(Opcode::CMSG_CHAR_CREATE, body);
    assert(frame.skip(6) =~= body);
    let n = encode_utf8(name).len() as int;
    assert(body.take(n) =~= encode_utf8(name));
}

} // verus!
