//! The producer itself: the executable type and its two operations.

use crate::model::Producer;
use vstd::prelude::*;

verus! {

/// The position of a producer, as the machine holds it.
struct Position {
    /// The number of requests made so far, held at `usize::MAX` once it has
    /// come that far.
    count: usize,
    /// The number of requests made so far, without bound.
    requests: Ghost<nat>,
}

/// A producer of two values: the first request yields the first value, the
/// second request the second, and every later request yields nothing.
pub struct IteratorTest {
    first: String,
    second: String,
    position: Position,
}

impl View for IteratorTest {
    type V = Producer;

    closed spec fn view(&self) -> Producer {
        Producer { first: self.first@, second: self.second@, position: self.position.requests@ }
    }
}

impl IteratorTest {
    /// The machine's count is the number of requests as long as that fits,
    /// and stays at the largest `usize` from then on.
    #[verifier::type_invariant]
    spec fn count_follows_requests(self) -> bool {
        self.position.count == if self.position.requests@ <= usize::MAX {
            self.position.requests@
        } else {
            usize::MAX as nat
        }
    }

    /// Makes a producer of `first` and `second`, of which nothing has been
    /// requested yet. It takes both values over as they are.
    pub fn new(first: String, second: String) -> (producer: IteratorTest)
        ensures
            producer@ == Producer::fresh(first@, second@),
    {
        IteratorTest { first, second, position: Position { count: 0, requests: Ghost(0) } }
    }

    /// Moves the position on by one and hands out a copy of the value that
    /// belongs to the new position, if there is one. The producer keeps its
    /// own values whatever the caller does with the copy.
    pub fn next(&mut self) -> (item: Option<String>)
        ensures
            final(self)@ == old(self)@.advance(),
            item.deep_view() == old(self)@.next_value(),
    {
        proof {
            use_type_invariant(&*self);
        }
        let count: usize = self.position.count.saturating_add(1);
        self.position = Position { count, requests: Ghost((self.position.requests@ + 1) as nat) };
        if count == 1 {
            Some(self.first.clone())
        } else if count == 2 {
            Some(self.second.clone())
        } else {
            None
        }
    }
}

} // verus!
