//! Picks the character to play from the listed characters, without creating one.

use vstd::prelude::*;

use crate::client::characters::types::Character;
use crate::client::opcodes::{server_opcode_name, Opcode};
use crate::client::packet::{
    is_response_with, HandlerError, HandlerOutput, PacketDetails, PacketDetailsView,
};
use crate::client::player::types::{Player, PlayerView};
use crate::client::session::{copy_players, player_views, HandlerInput, Session};
use crate::errors::CharacterListError;
use crate::text::{pattern_compiles, pattern_matches, regex_compiles, regex_is_match};

verus! {

/// The player a listed character becomes.
pub open spec fn player_of(c: Character) -> PlayerView {
    PlayerView {
        guid: c.guid,
        name: c.name@,
        race: c.race,
        class: c.class,
        gender: c.gender,
        level: c.level,
    }
}

pub open spec fn character_views(characters: Seq<Character>) -> Seq<PlayerView> {
    characters.map_values(|c: Character| player_of(c))
}

/// The first character at or after `start` whose name the pattern matches.
pub open spec fn first_listed_match(pattern: Seq<char>, characters: Seq<PlayerView>, start: int) -> Option<int>
    decreases characters.len() - start,
{
    if start < 0 || start >= characters.len() {
        None
    } else if regex_is_match(pattern, characters[start].name) {
        Some(start)
    } else {
        first_listed_match(pattern, characters, start + 1)
    }
}

proof fn lemma_first_listed_match(pattern: Seq<char>, characters: Seq<PlayerView>, start: int)
    requires
        0 <= start <= characters.len(),
    ensures
        first_listed_match(pattern, characters, start) matches Some(i) ==> start <= i
            < characters.len(),
    decreases characters.len() - start,
{
    if start < characters.len() && !regex_is_match(pattern, characters[start].name) {
        lemma_first_listed_match(pattern, characters, start + 1);
    }
}

pub struct Handler;

impl Handler {
    /// What the handler does with the listed characters.
    pub open spec fn answered(
        before: HandlerInput,
        after: HandlerInput,
        characters: Seq<PlayerView>,
        result: Result<Vec<HandlerOutput>, HandlerError>,
    ) -> bool {
        if before.session.me is Some || characters.len() == 0 {
            &&& after == before
            &&& result is Ok
            &&& result->Ok_0@.len() == 0
        } else if before.session.config is None {
            after == before && result == Err::<Vec<HandlerOutput>, HandlerError>(
                HandlerError::ConfigNotSet,
            )
        } else {
            let pattern = before.session.config->Some_0.connection_data.autoselect_character_name@;
            if pattern.len() == 0 {
                &&& after == before
                &&& result is Ok
                &&& result->Ok_0@.len() == 3
                &&& is_response_with(result->Ok_0@[0], server_opcode_name(before.opcode), PacketDetailsView::Characters(characters))
                &&& result->Ok_0@[1] matches HandlerOutput::TransferCharactersList(list)
                    && player_views(list@) == characters
                &&& result->Ok_0@[2] is Freeze
            } else {
                match first_listed_match(pattern, characters, 0) {
                    Some(i) => {
                        &&& result is Ok
                        &&& result->Ok_0@.len() == 1
                        &&& is_response_with(result->Ok_0@[0], server_opcode_name(before.opcode), PacketDetailsView::Characters(characters))
                        &&& after.session.me matches Some(p) && p@ == characters[i]
                        &&& after == (HandlerInput {
                            session: Session { me: after.session.me, ..before.session },
                            ..before
                        })
                    },
                    None => after == before && result == Err::<Vec<HandlerOutput>, HandlerError>(
                        HandlerError::CharacterList(CharacterListError::NotFound),
                    ),
                }
            }
        }
    }

    /// Works on the characters the `SMSG_CHAR_ENUM` answer lists.
    pub fn handle_characters(&mut self, input: &mut HandlerInput, characters: Vec<Character>) -> (result: Result<
        Vec<HandlerOutput>,
        HandlerError,
    >)
        requires
            old(input).session.config matches Some(c) ==> (
                c.connection_data.autoselect_character_name@.len() > 0 ==> regex_compiles(
                    c.connection_data.autoselect_character_name@,
                )),
        ensures
            Self::answered(*old(input), *final(input), character_views(characters@), result),
    {
        if input.session.me.is_some() || characters.len() == 0 {
            return Ok(Vec::new());
        }
        let pattern = match &input.session.config {
            Some(config) => config.connection_data.autoselect_character_name.clone(),
            None => {
                return Err(HandlerError::ConfigNotSet);
            },
        };
        let ghost views = character_views(characters@);
        let mut players: Vec<Player> = Vec::new();
        let mut k: usize = 0;
        while k < characters.len()
            invariant
                k <= characters@.len(),
                views == character_views(characters@),
                *input == *old(input),
                player_views(players@) == views.take(k as int),
            decreases characters@.len() - k,
        {
            let c = &characters[k];
            let player = Player::new(c.guid, c.name.clone(), c.race, c.class, c.gender, c.level);
            assert(player@ == views[k as int]);
            let ghost before = players@;
            players.push(player);
            assert(player_views(players@) =~= player_views(before).push(player@));
            k = k + 1;
            assert(player_views(players@) =~= views.take(k as int));
        }
        assert(views.take(characters@.len() as int) =~= views);
        let mut response: Vec<HandlerOutput> = Vec::new();
        response.push(
            HandlerOutput::ResponseMessage(
                Opcode::get_server_opcode_name(input.opcode),
                Some(PacketDetails::Characters(copy_players(&players))),
            ),
        );
        if pattern.as_str().unicode_len() == 0 {
            response.push(HandlerOutput::TransferCharactersList(players));
            response.push(HandlerOutput::Freeze);
            return Ok(response);
        }
        let mut i: usize = 0;
        while i < players.len()
            invariant
                i <= players@.len(),
                views == player_views(players@),
                regex_compiles(pattern@),
                *input == *old(input),
                old(input).session.me is None,
                old(input).session.config matches Some(c) && pattern@
                    == c.connection_data.autoselect_character_name@,
                response@.len() == 1,
                is_response_with(
                    response@[0],
                    server_opcode_name(old(input).opcode),
                    PacketDetailsView::Characters(views),
                ),
                pattern@.len() > 0,
                views.len() > 0,
                views == character_views(characters@),
                first_listed_match(pattern@, views, 0) == first_listed_match(pattern@, views, i as int),
            decreases players@.len() - i,
        {
            if pattern_matches(pattern.as_str(), players[i].name.as_str()) {
                proof {
                    lemma_first_listed_match(pattern@, views, 0);
                }
                let player = players.remove(i);
                assert(player@ == views[i as int]);
                input.session.me = Some(player);
                return Ok(response);
            }
            i = i + 1;
        }
        Err(HandlerError::CharacterList(CharacterListError::NotFound))
    }

    /// Runs the handler when the character pattern of the config compiles; gives `None`,
    /// and changes nothing, when it does not.
    pub fn try_handle_characters(&mut self, input: &mut HandlerInput, characters: Vec<Character>) -> (result: Option<
        Result<Vec<HandlerOutput>, HandlerError>,
    >)
        ensures
            match old(input).session.config {
                Some(c) => {
                    let pattern = c.connection_data.autoselect_character_name@;
                    if pattern.len() > 0 && !regex_compiles(pattern) {
                        result is None && *final(input) == *old(input)
                    } else {
                        result matches Some(r) && Self::answered(
                            *old(input),
                            *final(input),
                            character_views(characters@),
                            r,
                        )
                    }
                },
                None => result matches Some(r) && Self::answered(
                    *old(input),
                    *final(input),
                    character_views(characters@),
                    r,
                ),
            },
    {
        let compiles = match &input.session.config {
            Some(c) => {
                let pattern = c.connection_data.autoselect_character_name.as_str();
                pattern.unicode_len() == 0 || pattern_compiles(pattern)
            },
            None => true,
        };
        if !compiles {
            return None;
        }
        Some(self.handle_characters(input, characters))
    }
}

} // verus!
