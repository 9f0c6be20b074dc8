use vstd::prelude::*;

use crate::accumulator::TokenAccumulator;
use crate::events::{concat_payloads, count_tokens, Feedback, TokenEvent};
use crate::feedback::decide;

verus! {

/// The most tokens a run may emit: the limit, or no bound but the machine's.
pub open spec fn budget_of(limit: Option<usize>) -> nat {
    match limit {
        Some(n) => n as nat,
        None => usize::MAX as nat,
    }
}

/// After the events `s`, the loop reads one more event: no event of `s`
/// ended the sequence and fewer than `budget` tokens came.
pub open spec fn open_after(s: Seq<TokenEvent>, budget: nat) -> bool
    decreases s.len(),
{
    if s.len() == 0 {
        budget > 0
    } else {
        open_after(s.drop_last(), budget) && !(s.last() is EndOfSequence) && count_tokens(s)
            < budget
    }
}

/// The loop reads every event of `s`.
pub open spec fn consumes(s: Seq<TokenEvent>, budget: nat) -> bool {
    s.len() == 0 || open_after(s.drop_last(), budget)
}

/// The state of one generation run.
pub struct Generation {
    acc: TokenAccumulator,
    emitted: usize,
    budget: usize,
    halted: bool,
    seen: Ghost<Seq<TokenEvent>>,
}

impl Generation {
    /// The events taken in so far.
    pub closed spec fn events(&self) -> Seq<TokenEvent> {
        self.seen@
    }

    pub closed spec fn budget(&self) -> nat {
        self.budget as nat
    }

    pub closed spec fn output(&self) -> Seq<u8> {
        self.acc.output()
    }

    pub closed spec fn emitted(&self) -> nat {
        self.emitted as nat
    }

    pub closed spec fn wf(&self) -> bool {
        &&& self.acc.wf()
        &&& consumes(self.seen@, self.budget as nat)
        &&& self.acc.output() == concat_payloads(self.seen@)
        &&& self.emitted as nat == count_tokens(self.seen@)
        &&& self.halted == (self.seen@.len() > 0 && self.seen@.last() is EndOfSequence)
    }

    /// What the run holds follows from the events it took in.
    pub open spec fn consistent(&self) -> bool {
        &&& consumes(self.events(), self.budget())
        &&& self.output() == concat_payloads(self.events())
        &&& self.emitted() == count_tokens(self.events())
    }

    pub proof fn lemma_consistent(&self)
        requires
            self.wf(),
        ensures
            self.consistent(),
    {
    }

    /// The loop goes on reading events.
    pub open spec fn is_open(&self) -> bool {
        open_after(self.events(), self.budget())
    }

    /// A run that has seen nothing, with at most `limit` tokens.
    pub fn new(limit: Option<usize>) -> (r: Generation)
        ensures
            r.wf(),
            r.events() == Seq::<TokenEvent>::empty(),
            r.budget() == budget_of(limit),
    {
        let budget: usize = match limit {
            Some(n) => n,
            None => usize::MAX,
        };
        Generation {
            acc: TokenAccumulator::new(),
            emitted: 0,
            budget,
            halted: false,
            seen: Ghost(Seq::empty()),
        }
    }

    /// Whether the loop reads another event.
    pub fn wants_more(&self) -> (r: bool)
        requires
            self.wf(),
        ensures
            r == self.is_open(),
    {
        !self.halted && self.emitted < self.budget
    }

    /// Takes in the next event: its text reaches the output, then the
    /// decision for it is returned.
    pub fn feed(&mut self, event: &TokenEvent) -> (r: Feedback)
        requires
            old(self).wf(),
            old(self).is_open(),
        ensures
            final(self).wf(),
            final(self).events() == old(self).events().push(*event),
            final(self).budget() == old(self).budget(),
            r == crate::feedback::decision(*event),
    {
        let ghost before = self.seen@;
        let r = decide(event, &mut self.acc);
        match event {
            TokenEvent::InferredToken(_) => {
                self.emitted = self.emitted + 1;
            },
            TokenEvent::EndOfSequence => {
                self.halted = true;
            },
            TokenEvent::Other => {},
        }
        self.seen = Ghost(before.push(*event));
        assert(self.seen@.drop_last() == before);
        r
    }

    /// The tokens emitted so far.
    pub fn emitted_tokens(&self) -> (r: usize)
        requires
            self.wf(),
        ensures
            r as nat == count_tokens(self.events()),
    {
        self.emitted
    }

    /// The output gathered so far.
    pub fn output_bytes(&self) -> (r: Vec<u8>)
        requires
            self.wf(),
        ensures
            r@ == concat_payloads(self.events()),
    {
        self.acc.output_bytes()
    }
}

/// Runs the loop over the events `events`, in order, until an event halts it,
/// the token budget is spent, or the events run out.
pub fn replay(events: &Vec<TokenEvent>, limit: Option<usize>) -> (r: Generation)
    ensures
        r.wf(),
        r.consistent(),
        r.budget() == budget_of(limit),
        r.events().len() <= events@.len(),
        r.events() == events@.take(r.events().len() as int),
        r.events().len() == events@.len() || !r.is_open(),
        r.emitted() <= budget_of(limit),
{
    let mut g = Generation::new(limit);
    let mut i: usize = 0;
    while i < events.len() && g.wants_more()
        invariant
            i <= events@.len(),
            g.wf(),
            g.budget() == budget_of(limit),
            g.events() == events@.take(i as int),
        decreases events@.len() - i,
    {
        g.feed(&events[i]);
        assert(events@.take(i as int).push(events@[i as int]) == events@.take(i + 1));
        i = i + 1;
    }
    proof {
        g.lemma_consistent();
        law_tokens_within_budget(g.events(), g.budget());
    }
    g
}

/// Once the loop has stopped, no later event is read.
proof fn lemma_stays_closed(s: Seq<TokenEvent>, t: Seq<TokenEvent>, budget: nat)
    requires
        !open_after(s, budget),
    ensures
        !open_after(s + t, budget),
    decreases t.len(),
{
    if t.len() == 0 {
        assert(s + t == s);
    } else {
        lemma_stays_closed(s, t.drop_last(), budget);
        assert((s + t).drop_last() == s + t.drop_last());
    }
}

/// The end-of-sequence marker halts the loop, whatever came before it and
/// whatever the budget: no event after it is read.
pub proof fn law_end_of_sequence_halts(s: Seq<TokenEvent>, t: Seq<TokenEvent>, budget: nat)
    requires
        t.len() > 0,
    ensures
        !open_after(s.push(TokenEvent::EndOfSequence), budget),
        !consumes(s.push(TokenEvent::EndOfSequence) + t, budget),
{
    let h = s.push(TokenEvent::EndOfSequence);
    assert(h.drop_last() == s);
    assert(!open_after(h, budget));
    lemma_stays_closed(h, t.drop_last(), budget);
    assert((h + t).drop_last() == h + t.drop_last());
}

/// A run never emits more tokens than its budget.
pub proof fn law_tokens_within_budget(s: Seq<TokenEvent>, budget: nat)
    requires
        consumes(s, budget),
    ensures
        count_tokens(s) <= budget,
{
    if s.len() > 0 {
        assert(count_tokens(s.drop_last()) < budget);
    }
}

} // verus!
