//! The game-over signal and its delivery to any number of listeners.

use vstd::prelude::*;

verus! {

/// Raised when an enemy hits the player; carries the score of that moment.
#[derive(Clone, Copy, Debug, PartialEq, Eq, Structural)]
pub struct GameOver {
    pub score: u32,
}

/// Every game-over signal of the session, in the order raised.
pub struct GameOverEvents {
    sent: Vec<GameOver>,
}

impl View for GameOverEvents {
    type V = Seq<GameOver>;

    closed spec fn view(&self) -> Seq<GameOver> {
        self.sent@
    }
}

/// One listener's place in the sequence of signals: how many it has seen.
pub struct EventReader {
    seen: usize,
}

impl View for EventReader {
    type V = nat;

    closed spec fn view(&self) -> nat {
        self.seen as nat
    }
}

impl GameOverEvents {
    /// No signal yet.
    pub fn new() -> (r: GameOverEvents)
        ensures
            r@ == Seq::<GameOver>::empty(),
    {
        GameOverEvents { sent: Vec::new() }
    }

    /// Raises a signal.
    pub fn send(&mut self, event: GameOver)
        ensures
            final(self)@ == old(self)@.push(event),
    {
        self.sent.push(event);
    }

    /// How many signals were raised so far.
    pub fn len(&self) -> (r: usize)
        ensures
            r == self@.len(),
    {
        self.sent.len()
    }
}

/// The signals that a listener at place `seen` has not seen yet.
pub open spec fn unseen(events: Seq<GameOver>, seen: nat) -> Seq<GameOver> {
    if seen <= events.len() {
        events.subrange(seen as int, events.len() as int)
    } else {
        Seq::empty()
    }
}

/// The place of a listener that was at `seen` once it has taken what it had
/// not seen: the end of the sequence, unless it was beyond that already.
pub open spec fn caught_up(seen: nat, events: Seq<GameOver>) -> nat {
    if seen <= events.len() {
        events.len()
    } else {
        seen
    }
}

impl EventReader {
    /// A listener that has seen nothing.
    pub fn new() -> (r: EventReader)
        ensures
            r@ == 0,
    {
        EventReader { seen: 0 }
    }

    /// Hands over the signals that this listener has not seen, oldest first,
    /// and marks them seen.
    pub fn read(&mut self, events: &GameOverEvents) -> (r: Vec<GameOver>)
        ensures
            r@ == unseen(events@, old(self)@),
            final(self)@ == caught_up(old(self)@, events@),
    {
        let mut fresh: Vec<GameOver> = Vec::new();
        let start: usize = self.seen;
        let end: usize = events.sent.len();
        let mut i: usize = start;
        while i < end
            invariant
                end == events.sent@.len(),
                start <= end ==> start <= i <= end,
                start > end ==> i == start,
                start <= end ==> fresh@ == events.sent@.subrange(start as int, i as int),
                start > end ==> fresh@ == Seq::<GameOver>::empty(),
            decreases end - i,
        {
            fresh.push(events.sent[i]);
            i += 1;
            assert(events.sent@.subrange(start as int, i as int) == events.sent@.subrange(
                start as int,
                i - 1,
            ).push(events.sent@[i - 1]));
        }
        if start <= end {
            self.seen = end;
        }
        fresh
    }
}

/// A listener that reads, and reads again after more signals were raised, has
/// then seen every signal that it had not seen at the start, each once and in
/// order.
pub proof fn lemma_reads_deliver_each_once(
    earlier: Seq<GameOver>,
    later: Seq<GameOver>,
    seen: nat,
)
    requires
        seen <= earlier.len(),
    ensures
        unseen(earlier, seen) + unseen(earlier + later, earlier.len()) == unseen(
            earlier + later,
            seen,
        ),
        unseen(earlier + later, earlier.len()) == later,
        unseen(earlier, earlier.len()) == Seq::<GameOver>::empty(),
{
    assert(unseen(earlier + later, earlier.len()) =~= later);
    assert(unseen(earlier, seen) + later =~= unseen(earlier + later, seen));
    assert(unseen(earlier, earlier.len()) =~= Seq::<GameOver>::empty());
}

} // verus!
