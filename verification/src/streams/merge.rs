//! Where the events of many connections meet on their way to one consumer.
//!
//! The buffer is bounded. A producer that finds it full keeps its event and comes back
//! later: nothing is ever dropped to make room, and a consumer that stalls holds the
//! producers back instead of letting the buffer grow.

use std::collections::VecDeque;
use vstd::prelude::*;

verus! {

/// What became of an item that a producer offered.
#[derive(Debug, PartialEq)]
pub enum Offered<T> {
    /// The item is in the buffer.
    Accepted,
    /// The buffer is full; the item comes back, to be offered again when there is room.
    Full(T),
    /// The consumer is gone; the item comes back, and the producer has no more to do.
    Closed(T),
}

/// What a consumer gets when it asks for the next item.
#[derive(Debug, PartialEq)]
pub enum Taken<T> {
    /// The oldest item of the buffer.
    Item(T),
    /// The buffer is empty, but a producer may still fill it: ask again later.
    Empty,
    /// The buffer is empty and every producer is done: there is nothing more to come.
    Finished,
}

/// A bounded queue between several producers and one consumer.
#[derive(Debug)]
pub struct MergeBuffer<T> {
    queue: VecDeque<T>,
    capacity: usize,
    producers: usize,
    consumer_gone: bool,
}

impl<T> MergeBuffer<T> {
    /// The items in the buffer, the oldest first.
    pub closed spec fn items(self) -> Seq<T> {
        self.queue@
    }

    /// The number of items that the buffer takes.
    pub closed spec fn capacity(self) -> nat {
        self.capacity as nat
    }

    /// The number of producers that are not done.
    pub closed spec fn producers(self) -> nat {
        self.producers as nat
    }

    /// Whether the consumer is gone.
    pub closed spec fn consumer_gone(self) -> bool {
        self.consumer_gone
    }

    /// Whether the buffer holds no more than it takes.
    pub open spec fn within_capacity(self) -> bool {
        self.items().len() <= self.capacity()
    }

    /// An empty buffer that takes `capacity` items from `producers` producers.
    pub fn new(capacity: usize, producers: usize) -> (buffer: Self)
        ensures
            buffer.items() == Seq::<T>::empty(),
            buffer.capacity() == capacity,
            buffer.producers() == producers,
            !buffer.consumer_gone(),
    {
        MergeBuffer { queue: VecDeque::new(), capacity, producers, consumer_gone: false }
    }

    /// The number of items in the buffer.
    pub fn len(&self) -> (len: usize)
        ensures
            len == self.items().len(),
    {
        self.queue.len()
    }

    /// Offers `item` to the buffer, which takes it at its end if it has room and the
    /// consumer is still there.
    pub fn offer(&mut self, item: T) -> (offered: Offered<T>)
        ensures
            final(self).capacity() == old(self).capacity(),
            final(self).producers() == old(self).producers(),
            final(self).consumer_gone() == old(self).consumer_gone(),
            offered == if old(self).consumer_gone() {
                Offered::Closed(item)
            } else if old(self).items().len() >= old(self).capacity() {
                Offered::Full(item)
            } else {
                Offered::Accepted
            },
            final(self).items() == if offered == Offered::<T>::Accepted {
                old(self).items().push(item)
            } else {
                old(self).items()
            },
            old(self).within_capacity() ==> final(self).within_capacity(),
    {
        if self.consumer_gone {
            Offered::Closed(item)
        } else if self.queue.len() >= self.capacity {
            Offered::Full(item)
        } else {
            self.queue.push_back(item);
            Offered::Accepted
        }
    }

    /// Takes the oldest item out of the buffer.
    pub fn take(&mut self) -> (taken: Taken<T>)
        ensures
            final(self).capacity() == old(self).capacity(),
            final(self).producers() == old(self).producers(),
            final(self).consumer_gone() == old(self).consumer_gone(),
            taken == if old(self).items().len() > 0 {
                Taken::Item(old(self).items()[0])
            } else if old(self).producers() > 0 {
                Taken::Empty
            } else {
                Taken::Finished
            },
            final(self).items() == if old(self).items().len() > 0 {
                old(self).items().drop_first()
            } else {
                old(self).items()
            },
            old(self).within_capacity() ==> final(self).within_capacity(),
    {
        match self.queue.pop_front() {
            Some(item) => {
                assert(self.queue@ =~= old(self).queue@.drop_first());
                Taken::Item(item)
            },
            None => if self.producers > 0 {
                Taken::Empty
            } else {
                Taken::Finished
            },
        }
    }

    /// Takes note that one producer is done. What it put into the buffer stays there.
    pub fn producer_done(&mut self)
        ensures
            final(self).items() == old(self).items(),
            final(self).capacity() == old(self).capacity(),
            final(self).consumer_gone() == old(self).consumer_gone(),
            final(self).producers() == if old(self).producers() > 0 {
                (old(self).producers() - 1) as nat
            } else {
                0
            },
    {
        if self.producers > 0 {
            self.producers = self.producers - 1;
        }
    }

    /// Takes note that the consumer is gone. What is in the buffer is let go, since
    /// nobody will ask for it.
    pub fn consumer_done(&mut self)
        ensures
            final(self).items() == Seq::<T>::empty(),
            final(self).capacity() == old(self).capacity(),
            final(self).producers() == old(self).producers(),
            final(self).consumer_gone(),
    {
        self.queue.clear();
        self.consumer_gone = true;
    }
}

} // verus!
