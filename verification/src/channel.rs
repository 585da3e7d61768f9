use vstd::prelude::*;

use std::collections::VecDeque;

verus! {

/// A one-way FIFO queue between the worker and the caller, together with a
/// liveness flag for its receiving end. The surrounding runtime shares one
/// of these under a lock per direction: the event channel carries
/// `CommunicationEvent`s worker-to-caller, the command channel carries byte
/// payloads caller-to-worker. Dropping the receiving end closes the queue,
/// which is how a sender learns its peer is gone.
pub struct Channel<T> {
    items: VecDeque<T>,
    receiver_alive: bool,
}

impl<T> Channel<T> {
    /// The queued items, oldest first.
    pub closed spec fn contents(&self) -> Seq<T> {
        self.items@
    }

    /// Whether the receiving end is still attached.
    pub closed spec fn receiver_live(&self) -> bool {
        self.receiver_alive
    }

    /// An empty queue whose receiver is attached.
    pub fn new() -> (r: Self)
        ensures
            r.contents() == Seq::<T>::empty(),
            r.receiver_live(),
    {
        Channel { items: VecDeque::new(), receiver_alive: true }
    }

    /// Append one item, oldest first, and report whether it was delivered:
    /// with the receiver gone nothing is queued and the sender learns it.
    pub fn push(&mut self, x: T) -> (delivered: bool)
        ensures
            delivered == old(self).receiver_live(),
            final(self).receiver_live() == old(self).receiver_live(),
            old(self).receiver_live() ==> final(self).contents() == old(
                self,
            ).contents().push(x),
            !old(self).receiver_live() ==> final(self).contents() == old(self).contents(),
    {
        if self.receiver_alive {
            self.items.push_back(x);
            true
        } else {
            false
        }
    }

    /// Take the oldest queued item, if any, without ever blocking.
    pub fn try_recv(&mut self) -> (r: Option<T>)
        ensures
            final(self).receiver_live() == old(self).receiver_live(),
            old(self).contents().len() == 0 ==> r is None && final(self).contents() == old(
                self,
            ).contents(),
            old(self).contents().len() > 0 ==> {
                &&& r matches Some(x) && x == old(self).contents()[0]
                &&& final(self).contents() == old(self).contents().drop_first()
            },
    {
        self.items.pop_front()
    }

    /// Take every queued item at once, oldest first; the caller's per-tick
    /// poll drains the event channel fully this way.
    pub fn drain(&mut self) -> (r: Vec<T>)
        ensures
            r@ == old(self).contents(),
            final(self).contents().len() == 0,
            final(self).receiver_live() == old(self).receiver_live(),
    {
        let mut r: Vec<T> = Vec::new();
        loop
            invariant
                r@ + self.items@ == old(self).contents(),
                self.receiver_alive == old(self).receiver_alive,
            decreases self.items@.len(),
        {
            match self.items.pop_front() {
                Some(x) => {
                    r.push(x);
                    proof {
                        assert(r@ + self.items@ =~= old(self).contents());
                    }
                },
                None => {
                    proof {
                        assert(r@ =~= r@ + self.items@);
                    }
                    return r;
                },
            }
        }
    }

    /// Detach the receiving end: everything pushed from now on is discarded
    /// and reported undelivered.
    pub fn close(&mut self)
        ensures
            !final(self).receiver_live(),
            final(self).contents() == old(self).contents(),
    {
        self.receiver_alive = false;
    }

    /// How many items are queued.
    pub fn len(&self) -> (n: usize)
        ensures
            n == self.contents().len(),
    {
        self.items.len()
    }

    /// Whether the receiving end is still attached.
    pub fn is_receiver_live(&self) -> (r: bool)
        ensures
            r == self.receiver_live(),
    {
        self.receiver_alive
    }
}

/// Items are delivered in send order: pushing `x` and then `y` onto a live
/// queue with contents `s` places `x` at position `s.len()` and `y` right
/// after it, and since `try_recv` and `drain` hand items out front first,
/// `x` is observed before `y`. In particular, two byte chunks forwarded by
/// the worker arrive at the caller as data events in the order the
/// transport produced them.
pub proof fn lemma_fifo_delivery<T>(s: Seq<T>, x: T, y: T)
    ensures
        s.push(x).push(y)[s.len() as int] == x,
        s.push(x).push(y)[s.len() as int + 1] == y,
        s.push(x).push(y).len() == s.len() + 2,
{
}

} // verus!
