use vstd::prelude::*;

verus! {

/// One observation of the generation loop.
pub enum TokenEvent {
    /// A token produced by the model, as the bytes of its text.
    InferredToken(Vec<u8>),
    /// The model's end-of-sequence marker.
    EndOfSequence,
    /// A control signal with no text.
    Other,
}

/// The decision taken after each event: go on generating or stop.
#[derive(PartialEq, Eq, Structural, Clone, Copy, Debug)]
pub enum Feedback {
    Continue,
    Halt,
}

/// The text that an event carries; empty for events without text.
pub open spec fn payload(e: TokenEvent) -> Seq<u8> {
    match e {
        TokenEvent::InferredToken(t) => t@,
        _ => Seq::empty(),
    }
}

/// The plain concatenation of the payloads of `s`, in order.
pub open spec fn concat_payloads(s: Seq<TokenEvent>) -> Seq<u8>
    decreases s.len(),
{
    if s.len() == 0 {
        Seq::empty()
    } else {
        concat_payloads(s.drop_last()) + payload(s.last())
    }
}

/// How many events of `s` carry a token.
pub open spec fn count_tokens(s: Seq<TokenEvent>) -> nat
    decreases s.len(),
{
    if s.len() == 0 {
        0
    } else {
        count_tokens(s.drop_last()) + if s.last() is InferredToken { 1nat } else { 0nat }
    }
}

} // verus!
