//! Marks the character as in the world once the server verifies the login.

use vstd::prelude::*;

use crate::client::packet::{HandlerError, HandlerOutput};
use crate::client::session::HandlerInput;

verus! {

pub struct Handler;

impl Handler {
    /// What the handler changes.
    pub open spec fn answered(
        before: HandlerInput,
        after: HandlerInput,
        result: Result<Vec<HandlerOutput>, HandlerError>,
    ) -> bool {
        &&& (after.session.in_world)
        &&& (after == (HandlerInput {
            session: crate::client::session::Session { in_world: true, ..before.session },
            ..before
        }))
        &&& (result is Ok)
        &&& (result->Ok_0@.len() == 0)
    }

    pub fn handle(&mut self, input: &mut HandlerInput) -> (result: Result<
        Vec<HandlerOutput>,
        HandlerError,
    >)
        ensures
            Self::answered(*old(input), *final(input), result),
    {
        input.session.in_world = true;
        Ok(Vec::new())
    }
}

} // verus!
