//! A capacity-limited first-in first-out queue that refuses a push when full.
//!
//! The queue never blocks and never grows past its capacity: a producer that
//! finds it full gets its item back and decides itself when to try again.

use std::collections::VecDeque;
use vstd::prelude::*;

verus! {

/// What a refused push hands back: the item that found no room.
#[derive(Debug, PartialEq, Eq)]
pub struct Full<T> {
    pub item: T,
}

/// A first-in first-out queue that never holds more than `N` items.
///
/// Its view is the sequence of queued items, oldest first.
pub struct BoundedQueue<T, const N: usize> {
    items: VecDeque<T>,
}

impl<T, const N: usize> View for BoundedQueue<T, N> {
    type V = Seq<T>;

    closed spec fn view(&self) -> Seq<T> {
        self.items@
    }
}

/// The queue that a push of `item` leaves behind: the item is appended when
/// there is room, and nothing changes when there is none.
pub open spec fn after_push<T>(items: Seq<T>, capacity: nat, item: T) -> Seq<T> {
    if items.len() < capacity {
        items.push(item)
    } else {
        items
    }
}

/// The queue that a pop leaves behind: everything but the oldest item.
pub open spec fn after_pop<T>(items: Seq<T>) -> Seq<T> {
    if items.len() > 0 {
        items.subrange(1, items.len() as int)
    } else {
        items
    }
}

impl<T, const N: usize> BoundedQueue<T, N> {
    #[verifier::type_invariant]
    spec fn within_capacity(&self) -> bool {
        self.items@.len() <= N
    }

    /// An empty queue.
    pub fn new() -> (queue: Self)
        ensures
            queue@ == Seq::<T>::empty(),
    {
        BoundedQueue { items: VecDeque::new() }
    }

    /// The largest number of items the queue accepts.
    pub fn capacity(&self) -> (capacity: usize)
        ensures
            capacity == N,
            self@.len() <= capacity,
    {
        proof {
            use_type_invariant(self);
        }
        N
    }

    /// How many items are queued; never more than the capacity.
    pub fn len(&self) -> (len: usize)
        ensures
            len == self@.len(),
            len <= N,
    {
        proof {
            use_type_invariant(self);
        }
        self.items.len()
    }

    /// Whether nothing is queued.
    pub fn is_empty(&self) -> (empty: bool)
        ensures
            empty == (self@.len() == 0),
    {
        self.items.len() == 0
    }

    /// Whether the next push would be refused.
    pub fn is_full(&self) -> (full: bool)
        ensures
            full == (self@.len() >= N),
    {
        self.items.len() >= N
    }

    /// Moves the stored items out and leaves the queue empty.
    fn take_items(&mut self) -> (items: VecDeque<T>)
        ensures
            final(self).items@ == Seq::<T>::empty(),
            items@ == old(self).items@,
            items@.len() <= N,
    {
        proof {
            use_type_invariant(&*self);
        }
        let mut items: VecDeque<T> = VecDeque::new();
        core::mem::swap(&mut self.items, &mut items);
        items
    }

    /// Appends `item` when there is room. When the queue is full it is left
    /// as it was and the item comes back inside the error.
    pub fn push(&mut self, item: T) -> (pushed: Result<(), Full<T>>)
        ensures
            final(self)@ == after_push(old(self)@, N as nat, item),
            final(self)@.len() <= N,
            pushed is Ok <==> old(self)@.len() < N,
            pushed matches Err(full) ==> full.item == item,
    {
        proof {
            use_type_invariant(&*self);
        }
        if self.items.len() >= N {
            return Err(Full { item });
        }
        let mut items = self.take_items();
        items.push_back(item);
        self.items = items;
        Ok(())
    }

    /// Removes and returns the oldest item, or `None` when nothing is queued.
    pub fn pop_front(&mut self) -> (popped: Option<T>)
        ensures
            final(self)@ == after_pop(old(self)@),
            final(self)@.len() <= N,
            popped == (if old(self)@.len() > 0 {
                Some(old(self)@[0])
            } else {
                None
            }),
    {
        let mut items = self.take_items();
        let popped = items.pop_front();
        self.items = items;
        popped
    }

    /// The oldest item, left in place, or `None` when nothing is queued.
    pub fn peek_front(&self) -> (front: Option<&T>)
        ensures
            front == (if self@.len() > 0 {
                Some(&self@[0])
            } else {
                None
            }),
    {
        if self.items.len() == 0 {
            None
        } else {
            Some(&self.items[0])
        }
    }

    /// Empties the queue and returns what it held, oldest first, so that the
    /// caller can release each item.
    pub fn drain(&mut self) -> (drained: Vec<T>)
        ensures
            final(self)@ == Seq::<T>::empty(),
            drained@ == old(self)@,
    {
        let mut items = self.take_items();
        let mut drained: Vec<T> = Vec::new();
        loop
            invariant
                drained@ + items@ == old(self).items@,
            ensures
                items@.len() == 0,
            decreases items@.len(),
        {
            match items.pop_front() {
                Some(item) => {
                    drained.push(item);
                },
                None => {
                    break ;
                },
            }
        }
        assert(drained@ == drained@ + items@);
        drained
    }

    /// Empties the queue, handing every item, oldest first, to `finalizer`,
    /// which releases what the item stands for. Returns what the finalizer
    /// answered, item by item.
    pub fn clear<R, F: Fn(T) -> R>(&mut self, finalizer: F) -> (answers: Vec<R>)
        requires
            forall|item: T| #[trigger] old(self)@.contains(item) ==> call_requires(finalizer, (item,)),
        ensures
            final(self)@ == Seq::<T>::empty(),
            answers@.len() == old(self)@.len(),
            forall|i: int|
                0 <= i < answers@.len() ==> call_ensures(
                    finalizer,
                    (old(self)@[i],),
                    #[trigger] answers@[i],
                ),
    {
        let mut items = self.take_items();
        let mut answers: Vec<R> = Vec::new();
        assert(items@ == old(self)@);
        loop
            invariant
                answers@.len() + items@.len() == old(self)@.len(),
                items@ == old(self)@.skip(answers@.len() as int),
                forall|item: T| #[trigger] items@.contains(item) ==> call_requires(finalizer, (item,)),
                forall|i: int|
                    0 <= i < answers@.len() ==> call_ensures(
                        finalizer,
                        (old(self)@[i],),
                        #[trigger] answers@[i],
                    ),
            ensures
                items@.len() == 0,
            decreases items@.len(),
        {
            let ghost before = items@;
            match items.pop_front() {
                Some(item) => {
                    assert(before[0] == item && before.contains(item));
                    assert forall|other: T| #[trigger] items@.contains(other) implies call_requires(
                        finalizer,
                        (other,),
                    ) by {
                        let i = choose|i: int| 0 <= i < items@.len() && items@[i] == other;
                        assert(before[i + 1] == other && before.contains(other));
                    }
                    let answer = finalizer(item);
                    answers.push(answer);
                    assert(items@ =~= old(self)@.skip(answers@.len() as int));
                },
                None => {
                    break ;
                },
            }
        }
        answers
    }
}

/// One call on a queue: a push of an item, or a pop.
pub enum QueueOp<T> {
    Push(T),
    Pop,
}

/// What a run of calls on a fresh queue has led to.
pub struct History<T> {
    /// The items now queued, oldest first.
    pub queued: Seq<T>,
    /// The items whose push succeeded, in the order of the pushes.
    pub accepted: Seq<T>,
    /// The items that pops returned, in the order of the pops.
    pub popped: Seq<T>,
}

/// Runs `ops`, first to last, on an empty queue of the given capacity.
pub open spec fn replay<T>(ops: Seq<QueueOp<T>>, capacity: nat) -> History<T>
    decreases ops.len(),
{
    if ops.len() == 0 {
        History { queued: Seq::empty(), accepted: Seq::empty(), popped: Seq::empty() }
    } else {
        let before = replay(ops.drop_last(), capacity);
        match ops.last() {
            QueueOp::Push(item) => History {
                queued: after_push(before.queued, capacity, item),
                accepted: if before.queued.len() < capacity {
                    before.accepted.push(item)
                } else {
                    before.accepted
                },
                popped: before.popped,
            },
            QueueOp::Pop => History {
                queued: after_pop(before.queued),
                accepted: before.accepted,
                popped: if before.queued.len() > 0 {
                    before.popped.push(before.queued[0])
                } else {
                    before.popped
                },
            },
        }
    }
}

/// Whatever is pushed and popped, in whatever order, the queue never holds
/// more than its capacity.
pub proof fn lemma_replay_within_capacity<T>(ops: Seq<QueueOp<T>>, capacity: nat)
    ensures
        replay(ops, capacity).queued.len() <= capacity,
    decreases ops.len(),
{
    if ops.len() > 0 {
        lemma_replay_within_capacity(ops.drop_last(), capacity);
    }
}

/// Every popped item is the item of exactly one earlier successful push, in
/// the same order: the accepted items are the popped items followed by the
/// items still queued. Nothing is lost and nothing is made up.
pub proof fn lemma_replay_accounts_for_every_item<T>(ops: Seq<QueueOp<T>>, capacity: nat)
    ensures
        replay(ops, capacity).accepted == replay(ops, capacity).popped + replay(
            ops,
            capacity,
        ).queued,
    decreases ops.len(),
{
    let now = replay(ops, capacity);
    if ops.len() == 0 {
        assert(now.accepted =~= now.popped + now.queued);
    } else {
        let before = replay(ops.drop_last(), capacity);
        lemma_replay_accounts_for_every_item(ops.drop_last(), capacity);
        assert(before.accepted == before.popped + before.queued);
        assert(now.accepted =~= now.popped + now.queued);
    }
}

} // verus!
