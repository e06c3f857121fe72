//! Confirms the exit once the server completes the logout.

use vstd::prelude::*;

use crate::client::packet::{HandlerError, HandlerOutput};
use crate::client::session::HandlerInput;

verus! {

pub struct Handler;

impl Handler {
    /// What the handler gives.
    pub open spec fn answered(
        before: HandlerInput,
        after: HandlerInput,
        result: Result<Vec<HandlerOutput>, HandlerError>,
    ) -> bool {
        &&& (after == before)
        &&& (result is Ok)
        &&& (result->Ok_0@.len() == 1)
        &&& (result->Ok_0@[0] is ExitConfirmed)
    }

    pub fn handle(&mut self, input: &mut HandlerInput) -> (result: Result<
        Vec<HandlerOutput>,
        HandlerError,
    >)
        ensures
            Self::answered(*old(input), *final(input), result),
    {
        let mut response: Vec<HandlerOutput> = Vec::new();
        response.push(HandlerOutput::ExitConfirmed);
        Ok(response)
    }
}

} // verus!
