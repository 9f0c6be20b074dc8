use vstd::prelude::*;

use crate::events::{concat_payloads, payload, TokenEvent};

verus! {

/// The output after one token: the token is appended as it stands where the
/// lookback buffer is empty, else after the buffer.
pub open spec fn merged(buf: Seq<u8>, out: Seq<u8>, token: Seq<u8>) -> Seq<u8> {
    if buf.len() == 0 {
        out + token
    } else {
        out + buf + token
    }
}

/// The output after the events `s` are taken in one by one, from an empty
/// output, with the lookback buffer `buf`.
pub open spec fn accumulated(buf: Seq<u8>, s: Seq<TokenEvent>) -> Seq<u8>
    decreases s.len(),
{
    if s.len() == 0 {
        Seq::empty()
    } else if s.last() is InferredToken {
        merged(buf, accumulated(buf, s.drop_last()), payload(s.last()))
    } else {
        accumulated(buf, s.drop_last())
    }
}

/// With the lookback buffer left empty, the output is the plain
/// concatenation of the tokens' text, in the order they came.
pub proof fn law_output_is_concatenation(s: Seq<TokenEvent>)
    ensures
        accumulated(Seq::empty(), s) == concat_payloads(s),
    decreases s.len(),
{
    if s.len() > 0 {
        law_output_is_concatenation(s.drop_last());
        if !(s.last() is InferredToken) {
            assert(payload(s.last()) == Seq::<u8>::empty());
            assert(concat_payloads(s) == concat_payloads(s.drop_last()) + Seq::<u8>::empty());
        }
    }
}

/// Gathers streamed token text into the output.
///
/// `buf` is a lookback buffer for merging a token with what came before it;
/// nothing ever fills it, so each token is appended to `out` as it stands.
pub struct TokenAccumulator {
    buf: Vec<u8>,
    out: Vec<u8>,
}

impl TokenAccumulator {
    pub closed spec fn buf_view(&self) -> Seq<u8> {
        self.buf@
    }

    /// The output gathered so far.
    pub closed spec fn output(&self) -> Seq<u8> {
        self.out@
    }

    /// The lookback buffer stays empty.
    pub open spec fn wf(&self) -> bool {
        self.buf_view().len() == 0
    }

    /// An accumulator with empty buffer and empty output.
    pub fn new() -> (r: TokenAccumulator)
        ensures
            r.wf(),
            r.output() == Seq::<u8>::empty(),
    {
        TokenAccumulator { buf: Vec::new(), out: Vec::new() }
    }

    /// Takes in one token: the token is appended to the output, after the
    /// lookback buffer where that is not empty.
    pub fn update(&mut self, token: &Vec<u8>)
        ensures
            final(self).buf_view() == old(self).buf_view(),
            final(self).output() == merged(old(self).buf_view(), old(self).output(), token@),
    {
        let mut candidate = self.buf.clone();
        let mut i: usize = 0;
        while i < token.len()
            invariant
                i <= token@.len(),
                candidate@ == self.buf@ + token@.subrange(0, i as int),
            decreases token@.len() - i,
        {
            candidate.push(token[i]);
            i = i + 1;
        }
        assert(token@.subrange(0, token@.len() as int) == token@);
        if self.buf.len() == 0 {
            self.append_bytes(token);
        } else {
            self.append_bytes(&candidate);
        }
    }

    fn append_bytes(&mut self, bytes: &Vec<u8>)
        ensures
            final(self).buf_view() == old(self).buf_view(),
            final(self).output() == old(self).output() + bytes@,
    {
        let mut i: usize = 0;
        while i < bytes.len()
            invariant
                i <= bytes@.len(),
                self.buf@ == old(self).buf@,
                self.out@ == old(self).out@ + bytes@.subrange(0, i as int),
            decreases bytes@.len() - i,
        {
            self.out.push(bytes[i]);
            i = i + 1;
        }
        assert(bytes@.subrange(0, bytes@.len() as int) == bytes@);
    }

    /// The bytes gathered so far.
    pub fn output_bytes(&self) -> (r: Vec<u8>)
        ensures
            r@ == self.output(),
    {
        self.out.clone()
    }
}

} // verus!
