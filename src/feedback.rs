use vstd::prelude::*;

use crate::accumulator::TokenAccumulator;
use crate::events::{payload, Feedback, TokenEvent};

verus! {

/// The decision for one event: only the end-of-sequence marker halts.
pub open spec fn decision(e: TokenEvent) -> Feedback {
    if e is EndOfSequence {
        Feedback::Halt
    } else {
        Feedback::Continue
    }
}

/// Handles one event: a token's text goes to the accumulator first, and the
/// decision is taken after that update.
pub fn decide(event: &TokenEvent, acc: &mut TokenAccumulator) -> (r: Feedback)
    requires
        old(acc).wf(),
    ensures
        final(acc).wf(),
        final(acc).output() == old(acc).output() + payload(*event),
        r == decision(*event),
{
    match event {
        TokenEvent::InferredToken(t) => {
            acc.update(t);
            Feedback::Continue
        },
        TokenEvent::EndOfSequence => Feedback::Halt,
        TokenEvent::Other => Feedback::Continue,
    }
}

} // verus!
