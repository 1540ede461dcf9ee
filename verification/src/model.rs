//! The mathematical model of a producer.
//!
//! A producer is two texts and a position. The position counts the requests
//! made so far; it starts at zero and every request raises it by exactly one.

use vstd::prelude::*;

verus! {

/// The state of a producer: its two values and the number of requests that
/// have been made of it.
pub struct Producer {
    /// The value handed out by the first request.
    pub first: Seq<char>,
    /// The value handed out by the second request.
    pub second: Seq<char>,
    /// The number of requests made so far.
    pub position: nat,
}

impl Producer {
    /// A producer of `first` and `second` of which nothing has been requested.
    pub open spec fn fresh(first: Seq<char>, second: Seq<char>) -> Producer {
        Producer { first, second, position: 0 }
    }

    /// What the request that brings the position to `n` yields: the first
    /// value for `n == 1`, the second for `n == 2`, and nothing otherwise.
    pub open spec fn yield_at(self, n: nat) -> Option<Seq<char>> {
        if n == 1 {
            Some(self.first)
        } else if n == 2 {
            Some(self.second)
        } else {
            None
        }
    }

    /// The state after one more request: the position has moved on by one
    /// and the values are as they were.
    pub open spec fn advance(self) -> Producer {
        Producer { position: self.position + 1, ..self }
    }

    /// What the next request yields.
    pub open spec fn next_value(self) -> Option<Seq<char>> {
        self.yield_at(self.position + 1)
    }

    /// The state after `n` more requests.
    pub open spec fn after(self, n: nat) -> Producer
        decreases n,
    {
        if n == 0 {
            self
        } else {
            self.after((n - 1) as nat).advance()
        }
    }

    /// The values that the next `n` requests hand out, in the order in which
    /// they come; a request that yields nothing adds nothing.
    pub open spec fn handed_out(self, n: nat) -> Seq<Seq<char>>
        decreases n,
    {
        if n == 0 {
            Seq::empty()
        } else {
            let earlier = self.handed_out((n - 1) as nat);
            match self.after((n - 1) as nat).next_value() {
                Some(value) => earlier.push(value),
                None => earlier,
            }
        }
    }

    /// How many of its two values the producer has handed out so far.
    pub open spec fn given(self) -> nat {
        if self.position <= 2 {
            self.position
        } else {
            2
        }
    }

    /// Where the producer stands in its life.
    pub open spec fn stage(self) -> Stage {
        if self.position == 0 {
            Stage::Fresh
        } else if self.position == 1 {
            Stage::OneProduced
        } else {
            Stage::Exhausted
        }
    }
}

/// The three stages of a producer's life. A request moves a producer from
/// each stage to the one after it, and leaves it in the last.
pub enum Stage {
    /// Nothing has been requested; the first value comes next.
    Fresh,
    /// The first value has been handed out; the second comes next.
    OneProduced,
    /// Both values have been handed out; nothing comes any more.
    Exhausted,
}

impl Stage {
    /// The stage that one request leads to.
    pub open spec fn following(self) -> Stage {
        match self {
            Stage::Fresh => Stage::OneProduced,
            Stage::OneProduced => Stage::Exhausted,
            Stage::Exhausted => Stage::Exhausted,
        }
    }
}

/// The states that two producers reach when requests are made now of the one
/// and now of the other: `turns` gives the order, `true` for a request to `p`
/// and `false` for a request to `q`.
pub open spec fn interleaved(p: Producer, q: Producer, turns: Seq<bool>) -> (Producer, Producer)
    decreases turns.len(),
{
    if turns.len() == 0 {
        (p, q)
    } else {
        let (p_before, q_before) = interleaved(p, q, turns.drop_last());
        if turns.last() {
            (p_before.advance(), q_before)
        } else {
            (p_before, q_before.advance())
        }
    }
}

/// How many of `turns` fall to `whose`.
pub open spec fn turns_of(turns: Seq<bool>, whose: bool) -> nat
    decreases turns.len(),
{
    if turns.len() == 0 {
        0
    } else {
        turns_of(turns.drop_last(), whose) + if turns.last() == whose {
            1nat
        } else {
            0nat
        }
    }
}

} // verus!
