//! The shared work-item queue that publisher tasks drain competitively.
//! Taking an item removes it, so the distribution mechanism itself can
//! neither duplicate nor drop an item: what has been delivered and what is
//! still queued always partition what was ever enqueued, in order.

use vstd::prelude::*;

verus! {

/// One unit of externally generated publish intent.
pub enum WorkItem {
    Publish { topic: String, key: Vec<u8>, message: Vec<u8> },
}

/// A first-in-first-out queue of work items, viewed as the sequence still
/// awaiting delivery.
pub struct WorkQueue {
    items: Vec<WorkItem>,
}

impl View for WorkQueue {
    type V = Seq<WorkItem>;

    closed spec fn view(&self) -> Seq<WorkItem> {
        self.items@
    }
}

impl WorkQueue {
    /// An empty queue.
    pub fn new() -> (q: WorkQueue)
        ensures
            q@.len() == 0,
    {
        WorkQueue { items: Vec::new() }
    }

    /// How many items are still queued.
    pub fn len(&self) -> (n: usize)
        ensures
            n == self@.len(),
    {
        self.items.len()
    }

    /// Enqueues one item at the back.
    pub fn push(&mut self, item: WorkItem)
        ensures
            final(self)@ == old(self)@.push(item),
    {
        self.items.push(item);
    }

    /// Takes the oldest queued item, or `None` when the queue is empty.
    /// A delivered item is removed in the same step, so it can never be
    /// handed out a second time.
    pub fn take_next(&mut self) -> (r: Option<WorkItem>)
        ensures
            (match r {
                Some(item) => {
                    &&& old(self)@.len() > 0
                    &&& item == old(self)@[0]
                    &&& final(self)@ == old(self)@.drop_first()
                },
                None => {
                    &&& old(self)@.len() == 0
                    &&& final(self)@ == old(self)@
                },
            }),
    {
        if self.items.len() == 0 {
            None
        } else {
            let item = self.items.remove(0);
            proof {
                assert(old(self)@.remove(0) =~= old(self)@.drop_first());
            }
            Some(item)
        }
    }
}

/// Single consumption: when the items delivered so far and the items still
/// queued partition the original stream, delivering the next queued item
/// keeps the partition, and that delivery is exactly the stream's
/// `delivered.len()`-th item — each position of the stream is handed out at
/// most once, to whichever taker gets there first.
pub proof fn lemma_single_consumption(
    original: Seq<WorkItem>,
    delivered: Seq<WorkItem>,
    remaining: Seq<WorkItem>,
    item: WorkItem,
)
    requires
        original == delivered + remaining,
        remaining.len() > 0,
        item == remaining[0],
    ensures
        original == delivered.push(item) + remaining.drop_first(),
        original[delivered.len() as int] == item,
{
    assert(original =~= delivered.push(item) + remaining.drop_first());
}

} // verus!
