//! The message bridge: a first-in first-out queue carrying inbound text
//! payloads from the messaging delivery context to the render loop. The
//! contracts pin the order down: a send appends at the back, a receive
//! takes from the front, so payloads come out in the order they went in.

use vstd::prelude::*;

verus! {

/// The queue of pending payloads, oldest first.
pub struct Bridge {
    queue: Vec<Vec<char>>,
}

impl Bridge {
    /// The pending payloads as sequences of characters, oldest first.
    pub closed spec fn contents(self) -> Seq<Seq<char>> {
        self.queue@.map_values(|v: Vec<char>| v@)
    }

    /// An empty bridge with no pending payload.
    pub fn new() -> (r: Bridge)
        ensures
            r.contents() == Seq::<Seq<char>>::empty(),
    {
        let b = Bridge { queue: Vec::new() };
        proof {
            assert(b.contents() =~= Seq::<Seq<char>>::empty());
        }
        b
    }

    /// How many payloads are pending.
    pub fn len(&self) -> (n: usize)
        ensures
            n == self.contents().len(),
    {
        self.queue.len()
    }

    /// Enqueues `t` behind every payload already pending; nothing already
    /// pending is dropped or reordered.
    pub fn send(&mut self, t: Vec<char>)
        ensures
            final(self).contents() == old(self).contents().push(t@),
    {
        self.queue.push(t);
        proof {
            assert(self.contents() =~= old(self).contents().push(t@));
        }
    }

    /// Dequeues the oldest pending payload, or returns `None` when nothing
    /// is pending; the remaining payloads keep their order.
    pub fn receive(&mut self) -> (r: Option<Vec<char>>)
        ensures
            old(self).contents().len() == 0 ==> r is None && final(self).contents() == old(
                self,
            ).contents(),
            old(self).contents().len() > 0 ==> r is Some && r.unwrap()@ == old(
                self,
            ).contents().first() && final(self).contents() == old(self).contents().drop_first(),
    {
        if self.queue.len() == 0 {
            None
        } else {
            let v = self.queue.remove(0);
            proof {
                assert(self.contents() =~= old(self).contents().drop_first());
            }
            Some(v)
        }
    }
}

/// First-in first-out delivery: three payloads sent to an empty bridge in
/// the order `a`, `b`, `c` are received in exactly that order, after which
/// the bridge is empty again; and a send never disturbs the payloads
/// already pending.
pub proof fn lemma_fifo_order(p: Seq<Seq<char>>, a: Seq<char>, b: Seq<char>, c: Seq<char>)
    ensures
        forall|i: int| 0 <= i < p.len() ==> p.push(a)[i] == p[i],
        ({
            let q = Seq::<Seq<char>>::empty().push(a).push(b).push(c);
            &&& q.first() == a
            &&& q.drop_first().first() == b
            &&& q.drop_first().drop_first().first() == c
            &&& q.drop_first().drop_first().drop_first().len() == 0
        }),
{
    let q = Seq::<Seq<char>>::empty().push(a).push(b).push(c);
    assert(q.drop_first() =~= Seq::<Seq<char>>::empty().push(b).push(c));
    assert(q.drop_first().drop_first() =~= Seq::<Seq<char>>::empty().push(c));
}

} // verus!
