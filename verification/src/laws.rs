//! What holds of every producer, proved over the model that the contracts of
//! [`IteratorTest::new`](crate::producer::IteratorTest::new) and
//! [`IteratorTest::next`](crate::producer::IteratorTest::next) speak of.

use crate::model::{interleaved, turns_of, Producer, Stage};
use vstd::prelude::*;

verus! {

/// Requests change nothing but the position, and the position counts them:
/// after `n` requests it has grown by exactly `n`, and both values are what
/// they were.
pub proof fn law_position_counts_requests(p: Producer, n: nat)
    ensures
        p.after(n).position == p.position + n,
        p.after(n).first == p.first,
        p.after(n).second == p.second,
    decreases n,
{
    if n > 0 {
        law_position_counts_requests(p, (n - 1) as nat);
    }
}

/// Of a producer made with `first` and `second`, the first request yields
/// `first`, the second yields `second`, and every request after these yields
/// nothing, however many are made. Here `n` is the number of requests that
/// came before the one in question.
pub proof fn law_yields_first_then_second_then_nothing(
    first: Seq<char>,
    second: Seq<char>,
    n: nat,
)
    ensures
        n == 0 ==> Producer::fresh(first, second).after(n).next_value() == Some(first),
        n == 1 ==> Producer::fresh(first, second).after(n).next_value() == Some(second),
        n >= 2 ==> Producer::fresh(first, second).after(n).next_value() is None,
{
    law_position_counts_requests(Producer::fresh(first, second), n);
}

/// Once a request has yielded nothing, no later request yields anything:
/// a producer does not start over.
pub proof fn law_nothing_comes_after_nothing(p: Producer, n: nat)
    requires
        p.next_value() is None,
    ensures
        p.after(n).next_value() is None,
{
    law_position_counts_requests(p, n);
}

/// A request yields nothing only when two requests have come before it: the
/// first two requests of a new producer both yield a value.
pub proof fn law_nothing_comes_only_from_the_third_request_on(
    first: Seq<char>,
    second: Seq<char>,
    n: nat,
)
    ensures
        Producer::fresh(first, second).after(n).next_value() is None <==> n >= 2,
{
    law_position_counts_requests(Producer::fresh(first, second), n);
}

/// The values that any `n` requests in a row hand out are a stretch of the
/// pair `first`, `second`: they come in that order, none comes twice and
/// none is passed over. The stretch starts behind the values given before
/// these requests and ends with the last one given after them.
pub proof fn law_values_come_in_order_and_once(p: Producer, n: nat)
    ensures
        p.handed_out(n) == seq![p.first, p.second].subrange(
            p.given() as int,
            p.after(n).given() as int,
        ),
    decreases n,
{
    law_position_counts_requests(p, n);
    if n > 0 {
        let m = (n - 1) as nat;
        law_values_come_in_order_and_once(p, m);
        law_position_counts_requests(p, m);
    }
    assert(p.handed_out(n) =~= seq![p.first, p.second].subrange(
        p.given() as int,
        p.after(n).given() as int,
    ));
}

/// Of a new producer, no requests hand out nothing, one request hands out
/// `first`, and two or more hand out `first` and then `second` and no more.
pub proof fn law_new_producer_hands_out_first_then_second(
    first: Seq<char>,
    second: Seq<char>,
    n: nat,
)
    ensures
        n == 0 ==> Producer::fresh(first, second).handed_out(n) == Seq::<Seq<char>>::empty(),
        n == 1 ==> Producer::fresh(first, second).handed_out(n) == seq![first],
        n >= 2 ==> Producer::fresh(first, second).handed_out(n) == seq![first, second],
{
    let p = Producer::fresh(first, second);
    law_values_come_in_order_and_once(p, n);
    let pair = seq![first, second];
    if n == 0 {
        assert(pair.subrange(0, 0) =~= Seq::<Seq<char>>::empty());
    } else if n == 1 {
        assert(pair.subrange(0, 1) =~= seq![first]);
    } else {
        assert(pair.subrange(0, 2) =~= pair);
    }
}

/// A producer starts its life fresh.
pub proof fn law_new_producer_is_fresh(first: Seq<char>, second: Seq<char>)
    ensures
        Producer::fresh(first, second).stage() == Stage::Fresh,
{
}

/// Each request moves a producer to the stage that follows its own, never
/// back, and a producer is exhausted exactly when its next request yields
/// nothing.
pub proof fn law_stages_move_forward(p: Producer)
    ensures
        p.advance().stage() == p.stage().following(),
        p.stage() == Stage::Exhausted <==> p.next_value() is None,
{
}

/// An exhausted producer stays exhausted, whatever is requested of it.
pub proof fn law_exhausted_for_good(p: Producer, n: nat)
    requires
        p.stage() == Stage::Exhausted,
    ensures
        p.after(n).stage() == Stage::Exhausted,
{
    law_position_counts_requests(p, n);
}

/// Two producers do not touch each other: in whatever order requests are
/// made of the one and of the other, each ends where its own requests alone
/// would have brought it. This holds of producers with the same values too.
pub proof fn law_producers_are_independent(p: Producer, q: Producer, turns: Seq<bool>)
    ensures
        interleaved(p, q, turns) == (p.after(turns_of(turns, true)), q.after(turns_of(turns, false))),
    decreases turns.len(),
{
    if turns.len() > 0 {
        law_producers_are_independent(p, q, turns.drop_last());
    }
}

} // verus!
