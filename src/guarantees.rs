//! What holds across calls of an adapter, stated over its progress.
//!
//! Every operation of `TimeoutIterator` ensures `advances` (the `next`-like
//! ones) or `looks` (the `peek`-like ones) between its progress before and
//! after the call, so each fact below applies to any run of calls.
use crate::lookahead::{advances, looks, Progress, Pulled};
use vstd::prelude::*;

verus! {

/// Any operation of an adapter: a `next`-like or a `peek`-like one.
pub open spec fn operates<T>(pre: Progress<T>, post: Progress<T>, out: Pulled<T>) -> bool {
    advances(pre, post, out) || looks(pre, post, out)
}

/// No operation takes an adapter out of a valid state; none forgets an item
/// taken from the source or unhands one handed out.
pub proof fn lemma_operation_keeps_valid<T>(pre: Progress<T>, post: Progress<T>, out: Pulled<T>)
    requires
        pre.valid(),
        operates(pre, post, out),
    ensures
        post.valid(),
        pre.taken.is_prefix_of(post.taken),
        pre.handed <= post.handed,
        pre.ended ==> post.ended,
{
    match out {
        Pulled::Item(x) => {
            assert(pre.taken.is_prefix_of(pre.taken.push(x)));
        },
        _ => {},
    }
    assert(pre.taken.is_prefix_of(pre.taken));
}

/// Order: consecutive `next`-like calls that all hand out an item hand out
/// the items taken from the source, each once, in the order the source
/// produced them, and nothing taken before is lost.
pub proof fn lemma_next_in_order<T>(states: Seq<Progress<T>>, outs: Seq<Pulled<T>>)
    requires
        states.len() == outs.len() + 1,
        states[0].valid(),
        forall|i: int|
            0 <= i < outs.len() ==> #[trigger] advances(states[i], states[i + 1], outs[i]),
        forall|i: int| 0 <= i < outs.len() ==> #[trigger] outs[i] is Item,
    ensures
        states.last().valid(),
        states.last().handed == states[0].handed + outs.len(),
        states[0].taken.is_prefix_of(states.last().taken),
        forall|i: int|
            0 <= i < outs.len() ==> #[trigger] outs[i] == Pulled::Item(
                states.last().taken[states[0].handed + i],
            ),
    decreases outs.len(),
{
    let n = outs.len() as int;
    if n > 0 {
        let front = states.take(n);
        let early = outs.take(n - 1);
        assert forall|i: int| 0 <= i < early.len() implies #[trigger] advances(
            front[i],
            front[i + 1],
            early[i],
        ) by {
            assert(advances(states[i], states[i + 1], outs[i]));
        }
        assert forall|i: int| 0 <= i < early.len() implies #[trigger] early[i] is Item by {
            assert(outs[i] is Item);
        }
        lemma_next_in_order(front, early);
        let mid = states[n - 1];
        let last = states[n];
        assert(advances(mid, last, outs[n - 1]));
        lemma_operation_keeps_valid(mid, last, outs[n - 1]);
        assert(outs[n - 1] == Pulled::Item(last.taken[mid.handed as int]));
        assert forall|i: int| 0 <= i < n implies #[trigger] outs[i] == Pulled::Item(
            last.taken[states[0].handed + i],
        ) by {
            if i < n - 1 {
                assert(early[i] == outs[i]);
                assert(mid.taken[states[0].handed + i] == last.taken[states[0].handed + i]);
            }
        }
    } else {
        assert(states[0].taken.is_prefix_of(states[0].taken));
    }
}

/// Peeking repeats itself: once a `peek`-like call has shown an item, every
/// following one shows that same item and leaves the adapter as it is, so
/// the source is not pulled again.
pub proof fn lemma_peek_repeats<T>(states: Seq<Progress<T>>, outs: Seq<Pulled<T>>)
    requires
        states.len() == outs.len() + 1,
        outs.len() >= 1,
        states[0].valid(),
        forall|i: int| 0 <= i < outs.len() ==> #[trigger] looks(states[i], states[i + 1], outs[i]),
        outs[0] is Item,
    ensures
        forall|i: int| 0 <= i < outs.len() ==> #[trigger] outs[i] == outs[0],
        forall|i: int| 1 <= i < states.len() ==> #[trigger] states[i] == states[1],
        states[1].pending() == Some(outs[0]->Item_0),
    decreases outs.len(),
{
    let n = outs.len() as int;
    let first = 0int;
    assert(looks(states[first], states[first + 1], outs[first]));
    lemma_operation_keeps_valid(states[0], states[1], outs[0]);
    if n > 1 {
        let front = states.take(n);
        let early = outs.take(n - 1);
        assert forall|i: int| 0 <= i < early.len() implies #[trigger] looks(
            front[i],
            front[i + 1],
            early[i],
        ) by {
            assert(looks(states[i], states[i + 1], outs[i]));
        }
        lemma_peek_repeats(front, early);
        assert(front[n - 1] == front[1]);
        assert(front[n - 1] == states[n - 1] && front[1] == states[1]);
        let k = n - 1;
        assert(looks(states[k], states[k + 1], outs[k]));
        assert forall|i: int| 0 <= i < outs.len() implies #[trigger] outs[i] == outs[0] by {
            if i < n - 1 {
                assert(early[i] == outs[i]);
            }
        }
        assert forall|i: int| 1 <= i < states.len() implies #[trigger] states[i] == states[1] by {
            if i < n {
                assert(front[i] == states[i]);
            }
        }
    }
}

/// After a `peek`-like call has shown an item, a `next`-like call hands out
/// that same item, without pulling from the source, and moves on by one.
pub proof fn lemma_next_after_peek<T>(
    s0: Progress<T>,
    s1: Progress<T>,
    x: T,
    s2: Progress<T>,
    out: Pulled<T>,
)
    requires
        s0.valid(),
        looks(s0, s1, Pulled::Item(x)),
        advances(s1, s2, out),
    ensures
        out == Pulled::Item(x),
        s2.taken == s1.taken,
        s2.handed == s1.handed + 1,
        s2.pending() is None,
{
    lemma_operation_keeps_valid(s0, s1, Pulled::Item(x));
}

/// A timed-out call, bounded `next` or `peek`, leaves the adapter exactly as
/// it was: whatever call follows behaves as if the timeout never happened,
/// so no item is skipped or lost for want of time.
pub proof fn lemma_timeout_changes_nothing<T>(
    s0: Progress<T>,
    s1: Progress<T>,
    s2: Progress<T>,
    out: Pulled<T>,
)
    requires
        operates(s0, s1, Pulled::TimedOut),
    ensures
        s1 == s0,
        advances(s1, s2, out) ==> advances(s0, s2, out),
        looks(s1, s2, out) ==> looks(s0, s2, out),
{
}

/// Once an operation has reported the end of the source, the adapter
/// records it.
pub proof fn lemma_end_is_recorded<T>(s0: Progress<T>, s1: Progress<T>)
    requires
        s0.valid(),
        operates(s0, s1, Pulled::Disconnected),
    ensures
        s1.ended,
        s1.pending() is None,
{
}

/// Once the source has ended, every following operation, bounded or not,
/// reports the end again and changes nothing: no item comes back.
pub proof fn lemma_end_is_final<T>(states: Seq<Progress<T>>, outs: Seq<Pulled<T>>)
    requires
        states.len() == outs.len() + 1,
        states[0].valid(),
        states[0].ended,
        forall|i: int|
            0 <= i < outs.len() ==> #[trigger] operates(states[i], states[i + 1], outs[i]),
    ensures
        forall|i: int| 0 <= i < outs.len() ==> #[trigger] outs[i] is Disconnected,
        forall|i: int| 0 <= i < states.len() ==> #[trigger] states[i] == states[0],
    decreases outs.len(),
{
    let n = outs.len() as int;
    if n > 0 {
        let front = states.take(n);
        let early = outs.take(n - 1);
        assert forall|i: int| 0 <= i < early.len() implies #[trigger] operates(
            front[i],
            front[i + 1],
            early[i],
        ) by {
            assert(operates(states[i], states[i + 1], outs[i]));
        }
        lemma_end_is_final(front, early);
        assert(front[n - 1] == states[n - 1]);
        assert(operates(states[n - 1], states[n], outs[n - 1]));
        assert forall|i: int| 0 <= i < outs.len() implies #[trigger] outs[i] is Disconnected by {
            if i < n - 1 {
                assert(early[i] == outs[i]);
            }
        }
        assert forall|i: int| 0 <= i < states.len() implies #[trigger] states[i] == states[0] by {
            if i < n {
                assert(front[i] == states[i]);
            }
        }
    }
}

} // verus!
