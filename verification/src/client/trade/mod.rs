//! Trade: no packet has a handler yet.

use vstd::prelude::*;

use crate::client::packet::HandlerKind;
use crate::client::session::HandlerInput;

verus! {

/// Routes trade packets: none has a handler.
pub struct TradeProcessor;

impl TradeProcessor {
    pub fn get_handlers(input: &mut HandlerInput) -> (handlers: Vec<HandlerKind>)
        ensures
            *final(input) == *old(input),
            handlers@.len() == 0,
    {
        Vec::new()
    }
}

} // verus!
