//! Learns of the players an object update reveals, and tells when the character itself
//! changes.

use vstd::prelude::*;

use crate::bytes::le_bytes;
use crate::client::opcodes::{server_opcode_name, Opcode};
use crate::client::packet::{
    copy_values, is_packet, is_response_with, world_frame, HandlerError, HandlerOutput, PacketDetails,
    PacketDetailsView,
};
use crate::client::player::globals::NameQueryOutcome;
use crate::client::player::types::{Gender, Player, PlayerView};
use crate::client::session::{player_map, HandlerInput};

verus! {

/// The object type masks of the `OBJECT_FIELD_TYPE` update field.
#[non_exhaustive]
pub struct ObjectTypeMask;

impl ObjectTypeMask {
    pub const IS_UNIT: u32 = 0x0009;
    pub const IS_PLAYER: u32 = 0x0019;
}

/// What an update block holds in its object type field.
#[derive(Clone, Copy, Debug, PartialEq, Eq, Structural)]
pub enum ObjectTypeField {
    /// The block does not update the field.
    Missing,
    /// An integer value.
    Integer(u32),
    /// A value of another kind.
    Other,
}

/// An update block, as far as the handler reads it: the object and its type field.
#[derive(Clone, Copy, Debug, PartialEq, Eq, Structural)]
pub struct UpdateBlock {
    pub guid: u64,
    pub object_type: ObjectTypeField,
}

/// The first block, from `start` on, about another player the client does not know yet,
/// with the entry the client adds for it: a player type gives an empty entry, a block
/// without a type an entry of no gender at level 1.
pub open spec fn first_stranger(my_guid: u64, known: Set<u64>, blocks: Seq<UpdateBlock>, start: int) -> Option<PlayerView>
    decreases blocks.len() - start,
{
    if start < 0 || start >= blocks.len() {
        None
    } else {
        let b = blocks[start];
        if b.guid == 0 || b.guid == my_guid || known.contains(b.guid) {
            first_stranger(my_guid, known, blocks, start + 1)
        } else {
            match b.object_type {
                ObjectTypeField::Integer(mask) => if mask == ObjectTypeMask::IS_PLAYER {
                    Some(PlayerView { guid: b.guid, name: Seq::empty(), race: 0, class: 0, gender: 0, level: 0 })
                } else {
                    first_stranger(my_guid, known, blocks, start + 1)
                },
                ObjectTypeField::Missing => Some(
                    PlayerView {
                        guid: b.guid,
                        name: Seq::empty(),
                        race: 0,
                        class: 0,
                        gender: Gender::GENDER_NONE,
                        level: 1,
                    },
                ),
                ObjectTypeField::Other => first_stranger(my_guid, known, blocks, start + 1),
            }
        }
    }
}

/// How many blocks update the character itself.
pub open spec fn self_updates(my_guid: u64, blocks: Seq<UpdateBlock>) -> nat
    decreases blocks.len(),
{
    if blocks.len() == 0 {
        0
    } else {
        self_updates(my_guid, blocks.drop_last()) + if blocks.last().guid != 0 && blocks.last().guid
            == my_guid {
            1nat
        } else {
            0nat
        }
    }
}

/// The character itself, reported after an update.
pub open spec fn is_self_update(output: HandlerOutput, me: PlayerView) -> bool {
    output matches HandlerOutput::UpdatePlayer(p) && p@ == me
}

fn new_entry(guid: u64, object_type: ObjectTypeField) -> (player: Player)
    ensures
        object_type == ObjectTypeField::Missing ==> player@ == (PlayerView {
            guid,
            name: Seq::empty(),
            race: 0,
            class: 0,
            gender: Gender::GENDER_NONE,
            level: 1,
        }),
        object_type != ObjectTypeField::Missing ==> player@ == (PlayerView {
            guid,
            name: Seq::empty(),
            race: 0,
            class: 0,
            gender: 0,
            level: 0,
        }),
{
    let name = String::new();
    if object_type == ObjectTypeField::Missing {
        Player::new(guid, name, 0, 0, Gender::GENDER_NONE, 1)
    } else {
        Player::new(guid, name, 0, 0, 0, 0)
    }
}

pub struct Handler;

impl Handler {
    /// What the handler does with the blocks of an update.
    pub open spec fn answered(
        before: HandlerInput,
        after: HandlerInput,
        blocks: Seq<UpdateBlock>,
        result: Result<Vec<HandlerOutput>, HandlerError>,
    ) -> bool {
        let me = before.session.me->Some_0;
        let known = before.data_storage.players@.dom();
        &&& result is Ok
        &&& after.session == before.session
        &&& after.data == before.data
        &&& after.opcode == before.opcode
        &&& match first_stranger(me.guid, known, blocks, 0) {
            Some(p) => {
                &&& player_map(after.data_storage.players@) == player_map(
                    before.data_storage.players@,
                ).insert(p.guid, p)
                &&& result->Ok_0@.len() == 1
                &&& is_packet(
                    result->Ok_0@[0],
                    Opcode::CMSG_NAME_QUERY,
                    world_frame(Opcode::CMSG_NAME_QUERY, le_bytes(p.guid as nat, 8)),
                )
            },
            None => {
                &&& after.data_storage == before.data_storage
                &&& result->Ok_0@.len() == 1 + self_updates(me.guid, blocks)
                &&& is_response_with(
                    result->Ok_0@[0],
                    server_opcode_name(before.opcode),
                    PacketDetailsView::Blocks(blocks),
                )
                &&& forall|k: int|
                    1 <= k < result->Ok_0@.len() ==> is_self_update(#[trigger] result->Ok_0@[k], me@)
            },
        }
    }

    /// Works on the blocks the update lists. The first block about a player the client
    /// does not know yet adds it and asks for its name, and nothing else is answered;
    /// otherwise each block about the character itself reports it.
    pub fn handle_blocks(&mut self, input: &mut HandlerInput, blocks: Vec<UpdateBlock>) -> (result: Result<
        Vec<HandlerOutput>,
        HandlerError,
    >)
        requires
            old(input).session.me is Some,
        ensures
            Self::answered(*old(input), *final(input), blocks@, result),
            old(input).wf() ==> final(input).wf(),
    {
        let mut response: Vec<HandlerOutput> = Vec::new();
        response.push(
            HandlerOutput::ResponseMessage(
                Opcode::get_server_opcode_name(input.opcode),
                Some(PacketDetails::Blocks(copy_values(&blocks))),
            ),
        );
        let my_guid = match &input.session.me {
            Some(me) => me.guid,
            None => 0,
        };
        let ghost me = input.session.me->Some_0;
        let ghost known = input.data_storage.players@.dom();
        let mut k: usize = 0;
        while k < blocks.len()
            invariant
                k <= blocks@.len(),
                *input == *old(input),
                input.session.me == Some(me),
                my_guid == me.guid,
                known == input.data_storage.players@.dom(),
                old(input).wf() ==> input.wf(),
                first_stranger(my_guid, known, blocks@, 0) == first_stranger(my_guid, known, blocks@, k as int),
                response@.len() == 1 + self_updates(my_guid, blocks@.take(k as int)),
                is_response_with(
                    response@[0],
                    server_opcode_name(old(input).opcode),
                    PacketDetailsView::Blocks(blocks@),
                ),
                forall|m: int|
                    1 <= m < response@.len() ==> is_self_update(#[trigger] response@[m], me@),
            decreases blocks@.len() - k,
        {
            let block = blocks[k];
            proof {
                assert(blocks@.take(k + 1).drop_last() =~= blocks@.take(k as int));
                assert(blocks@.take(k + 1).last() == block);
            }
            if block.guid != 0 {
                if block.guid != my_guid {
                    if !input.data_storage.contains(block.guid) {
                        let adds = match block.object_type {
                            ObjectTypeField::Integer(mask) => mask == ObjectTypeMask::IS_PLAYER,
                            ObjectTypeField::Missing => true,
                            ObjectTypeField::Other => false,
                        };
                        if adds {
                            let player = new_entry(block.guid, block.object_type);
                            let ghost before = input.data_storage.players@;
                            let ghost added = player;
                            input.data_storage.add(player);
                            assert(player_map(input.data_storage.players@) =~= player_map(before).insert(
                                added.guid,
                                added@,
                            ));
                            let query = NameQueryOutcome { guid: block.guid };
                            let mut out: Vec<HandlerOutput> = Vec::new();
                            out.push(HandlerOutput::Data(query.packet()));
                            return Ok(out);
                        }
                    }
                } else {
                    let me_now = match &input.session.me {
                        Some(p) => Player::new(p.guid, p.name.clone(), p.race, p.class, p.gender, p.level),
                        None => Player::new(0, String::new(), 0, 0, 0, 0),
                    };
                    response.push(HandlerOutput::UpdatePlayer(me_now));
                }
            }
            k = k + 1;
        }
        assert(blocks@.take(blocks@.len() as int) =~= blocks@);
        Ok(response)
    }
}

} // verus!

verus! {

/// The player an update adds is one the client does not know yet, not the character
/// itself, with the guid of one of the blocks.
proof fn lemma_first_stranger_is_unknown(my_guid: u64, known: Set<u64>, blocks: Seq<UpdateBlock>, start: int)
    ensures
        first_stranger(my_guid, known, blocks, start) matches Some(p) ==> {
            &&& !known.contains(p.guid)
            &&& p.guid != my_guid
            &&& p.guid != 0
            &&& exists|k: int| 0 <= k < blocks.len() && #[trigger] blocks[k].guid == p.guid
        },
        (forall|k: int|
            0 <= k < blocks.len() ==> #[trigger] blocks[k].guid == 0 || blocks[k].guid == my_guid
                || known.contains(blocks[k].guid)) ==> first_stranger(my_guid, known, blocks, start)
            is None,
    decreases blocks.len() - start,
{
    if 0 <= start < blocks.len() {
        lemma_first_stranger_is_unknown(my_guid, known, blocks, start + 1);
        assert(blocks[start].guid == blocks[start].guid);
    }
}

/// An update never changes a player the client already knows: each known player stays as
/// it was, and a player is added, with its name asked in the only packet sent, only for a
/// guid of the blocks that the client did not know and that is not its own. When every
/// block is about the character itself or a known player, the players stay as they were
/// and nothing is sent.
pub proof fn lemma_updates_keep_known_players(
    before: HandlerInput,
    after: HandlerInput,
    blocks: Seq<UpdateBlock>,
    result: Result<Vec<HandlerOutput>, HandlerError>,
)
    requires
        Handler::answered(before, after, blocks, result),
    ensures
        ({
            let known = before.data_storage.players@;
            let me = before.session.me->Some_0.guid;
            let out = result->Ok_0@;
            &&& forall|g: u64|
                #[trigger] known.contains_key(g) ==> after.data_storage.players@.contains_key(g)
                    && player_map(after.data_storage.players@)[g] == player_map(known)[g]
            &&& forall|g: u64|
                #[trigger] after.data_storage.players@.contains_key(g) && !known.contains_key(g)
                    ==> g != me && g != 0 && exists|k: int| 0 <= k < blocks.len() && #[trigger] blocks[k].guid == g
            &&& forall|k: int|
                0 <= k < out.len() && #[trigger] out[k] is Data ==> exists|g: u64|
                    !known.contains_key(g) && g != me && is_packet(
                        out[k],
                        Opcode::CMSG_NAME_QUERY,
                        world_frame(Opcode::CMSG_NAME_QUERY, le_bytes(g as nat, 8)),
                    )
            &&& (forall|k: int|
                0 <= k < blocks.len() ==> #[trigger] blocks[k].guid == 0 || blocks[k].guid == me
                    || known.contains_key(blocks[k].guid)) ==> after.data_storage == before.data_storage
                && forall|k: int| 0 <= k < out.len() ==> !(#[trigger] out[k] is Data)
        }),
{
    let me = before.session.me->Some_0;
    let known = before.data_storage.players@.dom();
    lemma_first_stranger_is_unknown(me.guid, known, blocks, 0);
    let out = result->Ok_0@;
    match first_stranger(me.guid, known, blocks, 0) {
        Some(p) => {
            assert(player_map(after.data_storage.players@).dom() == after.data_storage.players@.dom());
            assert(player_map(before.data_storage.players@).dom() == before.data_storage.players@.dom());
            assert forall|k: int| 0 <= k < out.len() && #[trigger] out[k] is Data implies exists|g: u64|
                !before.data_storage.players@.contains_key(g) && g != me.guid && is_packet(
                    out[k],
                    Opcode::CMSG_NAME_QUERY,
                    world_frame(Opcode::CMSG_NAME_QUERY, le_bytes(g as nat, 8)),
                ) by {
                assert(k == 0);
                assert(!before.data_storage.players@.contains_key(p.guid));
            }
        },
        None => {
            assert forall|k: int| 0 <= k < out.len() implies !(#[trigger] out[k] is Data) by {
                if k >= 1 {
                    assert(is_self_update(out[k], me@));
                }
            }
        },
    }
}

} // verus!
