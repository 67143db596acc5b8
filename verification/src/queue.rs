//! The holding area between discovery and download: a FIFO queue of media
//! items. The scanner pushes whole pages in listing order; the fetcher pops
//! the front and may push a failed item to the back for a later retry.
//! Capacity is advisory: the queue grows rather than rejects.

use vstd::prelude::*;

use crate::items::MediaItem;
use std::collections::VecDeque;

verus! {

/// FIFO queue of discovered-but-not-yet-downloaded items.
pub struct SyncQueue {
    pub entries: VecDeque<MediaItem>,
}

impl View for SyncQueue {
    type V = Seq<MediaItem>;

    open spec fn view(&self) -> Seq<MediaItem> {
        self.entries@
    }
}

impl SyncQueue {
    /// An empty queue, sized for a typical listing page.
    pub fn new() -> (r: SyncQueue)
        ensures
            r@ == Seq::<MediaItem>::empty(),
    {
        SyncQueue { entries: VecDeque::with_capacity(50) }
    }

    pub fn is_empty(&self) -> (r: bool)
        ensures
            r == (self@.len() == 0),
    {
        self.entries.len() == 0
    }

    pub fn len(&self) -> (r: usize)
        ensures
            r == self@.len(),
    {
        self.entries.len()
    }

    /// Appends every item of `items`, preserving their order.
    pub fn push(&mut self, items: Vec<MediaItem>)
        ensures
            final(self)@ == old(self)@ + items@,
    {
        let ghost orig = items@;
        let mut items = items;
        let n0 = items.len();
        let mut k: usize = 0;
        while k < n0
            invariant
                n0 == orig.len(),
                0 <= k <= n0,
                items@ == orig.subrange(k as int, orig.len() as int),
                self@ == old(self)@ + orig.subrange(0, k as int),
            decreases n0 - k,
        {
            let it = items.remove(0);
            self.entries.push_back(it);
            k = k + 1;
            proof {
                assert(items@ =~= orig.subrange(k as int, orig.len() as int));
                assert(self@ =~= old(self)@ + orig.subrange(0, k as int));
            }
        }
        proof {
            assert(orig.subrange(0, orig.len() as int) =~= orig);
        }
    }

    /// Appends a single item at the back (used to requeue a failed attempt).
    pub fn push_back(&mut self, item: MediaItem)
        ensures
            final(self)@ == old(self)@.push(item),
    {
        self.entries.push_back(item);
    }

    /// Removes and returns the front item, oldest first.
    pub fn pop_front(&mut self) -> (r: Option<MediaItem>)
        ensures
            match r {
                Some(item) => {
                    &&& old(self)@.len() > 0
                    &&& item == old(self)@[0]
                    &&& final(self)@ == old(self)@.drop_first()
                },
                None => {
                    &&& old(self)@.len() == 0
                    &&& final(self)@ == old(self)@
                },
            },
    {
        self.entries.pop_front()
    }
}

} // verus!
