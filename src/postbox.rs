//! A pair of message queues, one inbound and one outbound, that the
//! synchronisation layer fills and drains.

use std::collections::VecDeque;
use vstd::prelude::*;

verus! {

/// The items of `s` whose pick equals `take`, in their order in `s`;
/// `picks[k]` is the pick of `s[k]`.
pub open spec fn select<T>(s: Seq<T>, picks: Seq<bool>, take: bool) -> Seq<T>
    decreases s.len(),
{
    if s.len() == 0 {
        Seq::empty()
    } else {
        let rest = select(s.drop_last(), picks.drop_last(), take);
        if picks.last() == take {
            rest.push(s.last())
        } else {
            rest
        }
    }
}

/// `taken` holds the items of `s` that `filter` accepts, and `left` those it
/// rejects, each in their order in `s`.
pub open spec fn split_by<T, F: Fn(&T) -> bool>(
    filter: F,
    s: Seq<T>,
    taken: Seq<T>,
    left: Seq<T>,
) -> bool {
    exists|picks: Seq<bool>|
        {
            &&& picks.len() == s.len()
            &&& forall|k: int| 0 <= k < s.len() ==> filter.ensures((&s[k],), #[trigger] picks[k])
            &&& taken == select(s, picks, true)
            &&& left == select(s, picks, false)
        }
}

proof fn lemma_select_step<T>(s: Seq<T>, picks: Seq<bool>, n: int, b: bool)
    requires
        0 <= n < s.len(),
        picks.len() == n,
    ensures
        select(s.subrange(0, n + 1), picks.push(b), b) == select(s.subrange(0, n), picks, b).push(
            s[n],
        ),
        select(s.subrange(0, n + 1), picks.push(b), !b) == select(s.subrange(0, n), picks, !b),
{
    assert(s.subrange(0, n + 1).drop_last() =~= s.subrange(0, n));
    assert(picks.push(b).drop_last() =~= picks);
}

/// Moves the items of `q` that `filter` accepts, in order, into the result;
/// the others stay in `q`, in order.
fn drain_where<T, F: Fn(&T) -> bool>(q: &mut VecDeque<T>, filter: &F) -> (r: Vec<T>)
    requires
        forall|x: &T| #[trigger] filter.requires((x,)),
    ensures
        split_by(*filter, old(q)@, r@, final(q)@),
{
    let ghost start = q@;
    let ghost mut picks: Seq<bool> = Seq::empty();
    let ghost mut seen: int = 0;
    let mut drained: Vec<T> = Vec::new();
    let mut i: usize = 0;
    while i != q.len()
        invariant
            0 <= seen <= start.len(),
            picks.len() == seen,
            forall|x: &T| #[trigger] filter.requires((x,)),
            forall|k: int| 0 <= k < seen ==> filter.ensures((&start[k],), #[trigger] picks[k]),
            drained@ == select(start.subrange(0, seen), picks, true),
            select(start.subrange(0, seen), picks, false).len() == i,
            q@ == select(start.subrange(0, seen), picks, false) + start.subrange(seen, start.len() as int),
        decreases start.len() - seen,
    {
        let ghost kept = select(start.subrange(0, seen), picks, false);
        assert(q@[i as int] == start[seen]);
        let take = filter(&q[i]);
        proof {
            lemma_select_step(start, picks, seen, take);
        }
        if take {
            let m = q.remove(i);
            if let Some(m) = m {
                drained.push(m);
            }
            proof {
                assert(q@ =~= kept + start.subrange(seen + 1, start.len() as int));
            }
        } else {
            i = i + 1;
            proof {
                assert(q@ =~= kept.push(start[seen]) + start.subrange(seen + 1, start.len() as int));
            }
        }
        proof {
            picks = picks.push(take);
            seen = seen + 1;
        }
    }
    proof {
        assert(start.subrange(0, seen) =~= start);
        assert(q@ =~= select(start, picks, false));
    }
    drained
}

/// An inbound and an outbound queue of messages.
pub struct PostBox<In, Out> {
    inbox: VecDeque<In>,
    outgoing: VecDeque<Out>,
}

impl<In, Out> PostBox<In, Out> {
    /// The messages received and not yet handled, oldest first.
    pub closed spec fn inbox_seq(&self) -> Seq<In> {
        self.inbox@
    }

    /// The messages waiting to be sent, oldest first.
    pub closed spec fn outgoing_seq(&self) -> Seq<Out> {
        self.outgoing@
    }

    /// A post box with both queues empty.
    pub fn new() -> (r: PostBox<In, Out>)
        ensures
            r.inbox_seq() == Seq::<In>::empty(),
            r.outgoing_seq() == Seq::<Out>::empty(),
    {
        PostBox { inbox: VecDeque::new(), outgoing: VecDeque::new() }
    }

    /// Appends a received message to the inbox.
    pub fn add_to_inbox(&mut self, event: In)
        ensures
            final(self).inbox_seq() == old(self).inbox_seq().push(event),
            final(self).outgoing_seq() == old(self).outgoing_seq(),
    {
        self.inbox.push_back(event);
    }

    /// Returns true if the inbox holds no message.
    pub fn empty_inbox(&self) -> (r: bool)
        ensures
            r == (self.inbox_seq().len() == 0),
    {
        self.inbox.len() == 0
    }

    /// Returns true if no message waits to be sent.
    pub fn empty_outgoing(&self) -> (r: bool)
        ensures
            r == (self.outgoing_seq().len() == 0),
    {
        self.outgoing.len() == 0
    }

    /// Appends a message to the queue to be sent on the next tick.
    pub fn send(&mut self, event: Out)
        ensures
            final(self).outgoing_seq() == old(self).outgoing_seq().push(event),
            final(self).inbox_seq() == old(self).inbox_seq(),
    {
        self.outgoing.push_back(event);
    }

    /// The messages waiting to be sent.
    pub fn get_outgoing(&self) -> (r: &VecDeque<Out>)
        ensures
            r@ == self.outgoing_seq(),
    {
        &self.outgoing
    }

    /// Takes out of the outgoing queue, in order, the messages that `filter`
    /// accepts, and returns them; the others stay queued, in order.
    pub fn drain_outgoing<F: Fn(&Out) -> bool>(&mut self, filter: F) -> (r: Vec<Out>)
        requires
            forall|x: &Out| #[trigger] filter.requires((x,)),
        ensures
            split_by(filter, old(self).outgoing_seq(), r@, final(self).outgoing_seq()),
            final(self).inbox_seq() == old(self).inbox_seq(),
    {
        drain_where(&mut self.outgoing, &filter)
    }

    /// Takes out of the inbox, in order, the messages that `filter` accepts,
    /// and returns them; the others stay, in order.
    pub fn drain_inbox<F: Fn(&In) -> bool>(&mut self, filter: F) -> (r: Vec<In>)
        requires
            forall|x: &In| #[trigger] filter.requires((x,)),
        ensures
            split_by(filter, old(self).inbox_seq(), r@, final(self).inbox_seq()),
            final(self).outgoing_seq() == old(self).outgoing_seq(),
    {
        drain_where(&mut self.inbox, &filter)
    }

    /// Removes the message at `index` from the inbox; an index past the end
    /// changes nothing.
    pub fn remove_from_inbox(&mut self, index: usize)
        ensures
            index < old(self).inbox_seq().len() ==> final(self).inbox_seq() == old(
                self,
            ).inbox_seq().remove(index as int),
            index >= old(self).inbox_seq().len() ==> final(self).inbox_seq() == old(
                self,
            ).inbox_seq(),
            final(self).outgoing_seq() == old(self).outgoing_seq(),
    {
        self.inbox.remove(index);
    }

    /// Each message of the inbox with its position, oldest first.
    pub fn enumerate_inbox(&self) -> (r: Vec<(usize, &In)>)
        ensures
            r@.len() == self.inbox_seq().len(),
            forall|k: int|
                0 <= k < r@.len() ==> (#[trigger] r@[k]).0 == k && *r@[k].1 == self.inbox_seq()[k],
    {
        let mut r: Vec<(usize, &In)> = Vec::new();
        let mut i: usize = 0;
        while i < self.inbox.len()
            invariant
                i <= self.inbox@.len(),
                r@.len() == i,
                forall|k: int| 0 <= k < i ==> (#[trigger] r@[k]).0 == k && *r@[k].1 == self.inbox@[k],
            decreases self.inbox@.len() - i,
        {
            r.push((i, &self.inbox[i]));
            i = i + 1;
        }
        r
    }
}

} // verus!
