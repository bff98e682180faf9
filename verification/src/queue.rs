use vstd::prelude::*;

verus! {

/// A bounded FIFO that drops its oldest element on overflow. It backs the
/// outbound audio queue of the connection actor: packets leave in the
/// order they arrived, except that a full queue sheds from the front.
pub struct BoundedQueue<T> {
    items: Vec<T>,
    cap: usize,
}

impl<T> BoundedQueue<T> {
    /// The queued elements, front first.
    pub closed spec fn contents(&self) -> Seq<T> {
        self.items@
    }

    /// The bound the queue was made with.
    pub closed spec fn spec_cap(&self) -> nat {
        self.cap as nat
    }

    /// The queue never holds more than its bound.
    pub open spec fn wf(&self) -> bool {
        self.spec_cap() > 0 && self.contents().len() <= self.spec_cap()
    }

    /// An empty queue with the given bound.
    pub fn new(cap: usize) -> (q: BoundedQueue<T>)
        requires
            cap > 0,
        ensures
            q.wf(),
            q.spec_cap() == cap,
            q.contents() == Seq::<T>::empty(),
    {
        BoundedQueue { items: Vec::new(), cap }
    }

    /// How many elements are queued.
    pub fn len(&self) -> (n: usize)
        ensures
            n == self.contents().len(),
    {
        self.items.len()
    }

    /// Whether the queue is empty.
    pub fn is_empty(&self) -> (r: bool)
        ensures
            r == (self.contents().len() == 0),
    {
        self.items.len() == 0
    }

    /// Append at the back; when the queue is full the oldest element is
    /// dropped first and handed back, so the queue keeps the newest
    /// `cap` elements in arrival order.
    pub fn push_drop_oldest(&mut self, x: T) -> (dropped: Option<T>)
        requires
            old(self).wf(),
        ensures
            final(self).wf(),
            final(self).spec_cap() == old(self).spec_cap(),
            (if old(self).contents().len() < old(self).spec_cap() {
                final(self).contents() == old(self).contents().push(x) && dropped is None
            } else {
                final(self).contents() == old(self).contents().drop_first().push(x)
                    && dropped == Some(old(self).contents()[0])
            }),
    {
        let dropped: Option<T> = if self.items.len() >= self.cap {
            Some(self.items.remove(0))
        } else {
            None
        };
        self.items.push(x);
        dropped
    }

    /// Take the oldest element, if any.
    pub fn pop_front(&mut self) -> (r: Option<T>)
        ensures
            final(self).spec_cap() == old(self).spec_cap(),
            (if old(self).contents().len() == 0 {
                r is None && final(self).contents() == old(self).contents()
            } else {
                r == Some(old(self).contents()[0]) && final(self).contents() == old(
                    self,
                ).contents().drop_first()
            }),
            old(self).wf() ==> final(self).wf(),
    {
        if self.items.len() == 0 {
            None
        } else {
            let x = self.items.remove(0);
            proof {
                assert(self.items@ =~= old(self).items@.drop_first());
            }
            Some(x)
        }
    }
}

} // verus!
