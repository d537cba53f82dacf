//! The queue itself: a growable buffer together with a count of its elements.

use vstd::prelude::*;
use crate::model::polled;

verus! {

/// A first-in-first-out queue of `T`.
///
/// Elements enter at the back and leave at the front. The queue keeps count
/// of its elements in `size`, which always equals the length of `data`.
pub struct Queue<T> {
    data: Vec<T>,
    size: usize,
}

impl<T> View for Queue<T> {
    type V = Seq<T>;

    /// The elements of the queue from front to back.
    closed spec fn view(&self) -> Seq<T> {
        self.data@
    }
}

impl<T> Queue<T> {
    #[verifier::type_invariant]
    spec fn counted(&self) -> bool {
        self.size == self.data@.len()
    }

    /// Creates an empty queue.
    pub fn new() -> (queue: Queue<T>)
        ensures
            queue@ == Seq::<T>::empty(),
            queue@.len() == 0,
    {
        Queue { data: Vec::new(), size: 0 }
    }

    /// Appends `value` at the back of the queue.
    pub fn offer(&mut self, value: T)
        ensures
            final(self)@ == old(self)@.push(value),
            final(self)@.len() == old(self)@.len() + 1,
    {
        proof {
            use_type_invariant(&*self);
        }
        // The buffer and the count change together: the queue is taken apart
        // and put back whole, so that the two agree at every point.
        let mut taken = Queue::new();
        std::mem::swap(self, &mut taken);
        let Queue { mut data, size } = taken;
        data.push(value);
        // The buffer's new length fits in `usize`, and so does the count.
        assert(size + 1 == data.len());
        *self = Queue { data, size: size + 1 };
    }

    /// Removes the element at the front of the queue, if there is one.
    /// On an empty queue this does nothing.
    pub fn poll(&mut self)
        ensures
            final(self)@ == polled(old(self)@),
            old(self)@.len() > 0 ==> final(self)@.len() == old(self)@.len() - 1,
            old(self)@.len() == 0 ==> final(self)@.len() == 0,
    {
        proof {
            use_type_invariant(&*self);
        }
        if self.size > 0 {
            let mut taken = Queue::new();
            std::mem::swap(self, &mut taken);
            let Queue { mut data, size } = taken;
            data.remove(0);
            *self = Queue { data, size: size - 1 };
        }
    }

    /// The elements of the queue from front to back.
    pub fn data(&self) -> (elements: &[T])
        ensures
            elements@ == self@,
    {
        self.data.as_slice()
    }

    /// The number of elements in the queue.
    pub fn size(&self) -> (n: usize)
        ensures
            n == self@.len(),
    {
        proof {
            use_type_invariant(self);
        }
        self.size
    }
}

} // verus!
