//! Records the spells the character knows when it enters the world.

use vstd::prelude::*;

use crate::client::opcodes::{server_opcode_name, Opcode};
use crate::client::packet::{
    copy_values, is_response_with, HandlerError, HandlerOutput, PacketDetails, PacketDetailsView,
};
use crate::client::session::{HandlerInput, Session};

verus! {

pub struct Handler;

impl Handler {
    /// What the handler does with the spells the packet lists.
    pub open spec fn answered(
        before: HandlerInput,
        after: HandlerInput,
        spell_ids: Seq<u32>,
        result: Result<Vec<HandlerOutput>, HandlerError>,
    ) -> bool {
        &&& result is Ok
        &&& result->Ok_0@.len() == 1
        &&& is_response_with(result->Ok_0@[0], server_opcode_name(before.opcode), PacketDetailsView::Spells(spell_ids))
        &&& after == (HandlerInput {
            session: Session { spells: after.session.spells, ..before.session },
            ..before
        })
        &&& after.session.spells@.to_set() == before.session.spells@.to_set() + spell_ids.to_set()
        &&& before.session.spells@.no_duplicates() ==> after.session.spells@.no_duplicates()
    }

    /// Adds each listed spell to the spells the character knows, each at most once.
    pub fn handle_spells(&mut self, input: &mut HandlerInput, spell_ids: Vec<u32>) -> (result: Result<
        Vec<HandlerOutput>,
        HandlerError,
    >)
        ensures
            Self::answered(*old(input), *final(input), spell_ids@, result),
    {
        let mut response: Vec<HandlerOutput> = Vec::new();
        response.push(
            HandlerOutput::ResponseMessage(
                Opcode::get_server_opcode_name(input.opcode),
                Some(PacketDetails::Spells(copy_values(&spell_ids))),
            ),
        );
        let mut k: usize = 0;
        while k < spell_ids.len()
            invariant
                k <= spell_ids@.len(),
                *input == (HandlerInput {
                    session: Session { spells: input.session.spells, ..old(input).session },
                    ..*old(input)
                }),
                input.session.spells@.to_set() == old(input).session.spells@.to_set()
                    + spell_ids@.take(k as int).to_set(),
                old(input).session.spells@.no_duplicates() ==> input.session.spells@.no_duplicates(),
            decreases spell_ids@.len() - k,
        {
            let id = spell_ids[k];
            let mut found = false;
            let mut m: usize = 0;
            while m < input.session.spells.len()
                invariant
                    m <= input.session.spells@.len(),
                    found == (exists|j: int| 0 <= j < m && input.session.spells@[j] == id),
                decreases input.session.spells@.len() - m,
            {
                if input.session.spells[m] == id {
                    found = true;
                }
                m = m + 1;
            }
            let ghost before = input.session.spells@;
            if !found {
                input.session.spells.push(id);
                proof {
                    before.lemma_push_to_set_commute(id);
                    if before.no_duplicates() {
                        assert forall|i: int, j: int|
                            0 <= i < j < before.push(id).len() implies before.push(id)[i] != before.push(
                                id,
                            )[j] by {
                            if j == before.len() {
                                assert(before[i] != id);
                            }
                        }
                    }
                }
            } else {
                assert(before.to_set().contains(id));
            }
            proof {
                assert(spell_ids@.take(k + 1) =~= spell_ids@.take(k as int).push(id));
                spell_ids@.take(k as int).lemma_push_to_set_commute(id);
                assert(input.session.spells@.to_set() =~= old(input).session.spells@.to_set()
                    + spell_ids@.take(k + 1).to_set());
            }
            k = k + 1;
        }
        assert(spell_ids@.take(spell_ids@.len() as int) =~= spell_ids@);
        Ok(response)
    }
}

} // verus!
