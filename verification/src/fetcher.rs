//! The consumer side of the pipeline: drains the queue, hands each item to
//! the downloader, and persists the outcome. A failed item goes to the back
//! of the queue until the attempt cap is reached; then it is persisted as a
//! permanent failure so a poison item cannot starve the queue. The download
//! itself happens outside; `pop_candidate` prepares the attempt and
//! `complete_attempt` records its result.

use vstd::prelude::*;

use crate::items::MediaItem;
use crate::queue::SyncQueue;
use crate::store::{lemma_upsert_has_id, spec_has_id, spec_has_success, spec_upsert, Store};

verus! {

/// How many times an item is attempted before it is persisted as failed.
pub const MAX_DOWNLOAD_ATTEMPTS: u32 = 4;

/// Idle sleep when the queue is empty, in seconds.
pub const IDLE_SLEEP_SECS: u64 = 5;

/// Idle sleep while the scanner cools down, in seconds.
pub const COOLDOWN_SLEEP_SECS: u64 = 600;

/// Sleep between fetcher iterations, in milliseconds.
pub const FETCH_PAUSE_MILLIS: u64 = 100;

/// Queue entries are attempts in progress: not yet successful and still
/// below the attempt cap (so every entry may be attempted once more).
pub open spec fn spec_queue_wf(queue: Seq<MediaItem>, max_attempts: u32) -> bool {
    forall|i: int|
        0 <= i < queue.len() ==> (#[trigger] queue[i]).download_attempts < max_attempts
            && !queue[i].download_success
}

/// The item as it is about to be attempted once more.
pub open spec fn spec_attempted(item: MediaItem) -> MediaItem {
    MediaItem {
        download_attempts: (item.download_attempts + 1) as u32,
        download_success: false,
        ..item
    }
}

/// The item as it is persisted after a successful download.
pub open spec fn spec_succeeded(item: MediaItem) -> MediaItem {
    MediaItem { download_success: true, ..item }
}

/// What `pop_candidate` returns: the front item prepared for an attempt,
/// or nothing (empty queue, or the front was already synced and dropped).
pub open spec fn spec_pop_result(queue: Seq<MediaItem>, store: Seq<MediaItem>) -> Option<
    MediaItem,
> {
    if queue.len() == 0 {
        None
    } else if spec_has_success(store, queue[0].id@) {
        None
    } else {
        Some(spec_attempted(queue[0]))
    }
}

/// The queue after `pop_candidate`: the front is gone unless it was empty.
pub open spec fn spec_pop_queue(queue: Seq<MediaItem>) -> Seq<MediaItem> {
    if queue.len() == 0 {
        queue
    } else {
        queue.drop_first()
    }
}

/// The queue after `complete_attempt`: a failed item below the cap goes to
/// the back; otherwise the queue is untouched.
pub open spec fn spec_complete_queue(
    queue: Seq<MediaItem>,
    item: MediaItem,
    ok: bool,
    max_attempts: u32,
) -> Seq<MediaItem> {
    if !ok && item.download_attempts < max_attempts {
        queue.push(item)
    } else {
        queue
    }
}

/// The store after `complete_attempt`: a success is persisted as such, an
/// item at the cap is persisted with `download_success` false, and an item
/// below the cap is not persisted at all.
pub open spec fn spec_complete_store(
    store: Seq<MediaItem>,
    item: MediaItem,
    ok: bool,
    max_attempts: u32,
) -> Seq<MediaItem> {
    if ok {
        spec_upsert(store, spec_succeeded(item))
    } else if item.download_attempts >= max_attempts {
        spec_upsert(store, item)
    } else {
        store
    }
}

/// How one attempt was recorded.
pub enum AttemptOutcome {
    /// Downloaded and persisted with `download_success` set.
    PersistedSuccess,
    /// Failed at the attempt cap: persisted with `download_success` false;
    /// the pipeline will not retry it.
    PersistedFailure,
    /// Failed below the cap: requeued at the back for a later retry.
    Requeued,
}

/// How long the fetcher sleeps when the queue is empty: a long interval
/// while the scanner cools down, a short one otherwise.
pub fn idle_sleep_secs(awaiting_cooldown: bool) -> (r: u64)
    ensures
        r == if awaiting_cooldown {
            COOLDOWN_SLEEP_SECS
        } else {
            IDLE_SLEEP_SECS
        },
{
    if awaiting_cooldown {
        COOLDOWN_SLEEP_SECS
    } else {
        IDLE_SLEEP_SECS
    }
}

/// Takes the front of the queue. An item already marked successful in the
/// store is discarded (a race with a duplicate scan push); otherwise the
/// attempt counter is advanced and the item is handed out for download.
pub fn pop_candidate(queue: &mut SyncQueue, store: &Store, max_attempts: u32) -> (r: Option<
    MediaItem,
>)
    requires
        spec_queue_wf(old(queue)@, max_attempts),
        max_attempts < u32::MAX,
    ensures
        r == spec_pop_result(old(queue)@, store@),
        final(queue)@ == spec_pop_queue(old(queue)@),
        spec_queue_wf(final(queue)@, max_attempts),
        r matches Some(it) ==> it.download_attempts <= max_attempts && !it.download_success
            && it.download_attempts >= 1,
{
    let popped = queue.pop_front();
    match popped {
        None => None,
        Some(mut item) => {
            proof {
                assert(old(queue)@[0].download_attempts < max_attempts);
                assert(forall|i: int|
                    0 <= i < final(queue)@.len() ==> final(queue)@[i] == old(queue)@[i + 1]);
            }
            if store.has_success(&item.id) {
                None
            } else {
                item.download_attempts = item.download_attempts + 1;
                item.download_success = false;
                Some(item)
            }
        },
    }
}

/// Records the outcome of one download attempt, as `spec_complete_queue`
/// and `spec_complete_store` describe: persist on success, persist as a
/// permanent failure at the attempt cap, requeue below it.
pub fn complete_attempt(
    queue: &mut SyncQueue,
    store: &mut Store,
    item: MediaItem,
    ok: bool,
    max_attempts: u32,
) -> (r: AttemptOutcome)
    requires
        old(store).wf(),
        !item.download_success,
        1 <= item.download_attempts <= max_attempts,
    ensures
        final(queue)@ == spec_complete_queue(old(queue)@, item, ok, max_attempts),
        final(store)@ == spec_complete_store(old(store)@, item, ok, max_attempts),
        final(store).cursor == old(store).cursor,
        final(store).wf(),
        spec_queue_wf(old(queue)@, max_attempts) ==> spec_queue_wf(
            final(queue)@,
            max_attempts,
        ),
        match r {
            AttemptOutcome::PersistedSuccess => ok,
            AttemptOutcome::PersistedFailure => !ok && item.download_attempts == max_attempts,
            AttemptOutcome::Requeued => !ok && item.download_attempts < max_attempts,
        },
{
    if ok {
        let mut done = item;
        done.download_success = true;
        proof {
            assert(done == spec_succeeded(item));
        }
        store.upsert(done);
        AttemptOutcome::PersistedSuccess
    } else if item.download_attempts >= max_attempts {
        store.upsert(item);
        AttemptOutcome::PersistedFailure
    } else {
        queue.push_back(item);
        AttemptOutcome::Requeued
    }
}

/// True when some queue entry carries `id`.
pub open spec fn spec_in_queue(queue: Seq<MediaItem>, id: Seq<char>) -> bool {
    exists|i: int| 0 <= i < queue.len() && #[trigger] queue[i].id@ == id
}

/// One full fetcher cycle — `pop_candidate` followed, when an item came
/// out, by `complete_attempt` with the download outcome `ok` — as a
/// function on the (queue, store) pair.
pub open spec fn spec_fetch_cycle(
    queue: Seq<MediaItem>,
    store: Seq<MediaItem>,
    ok: bool,
    max_attempts: u32,
) -> (Seq<MediaItem>, Seq<MediaItem>) {
    let q1 = spec_pop_queue(queue);
    match spec_pop_result(queue, store) {
        None => (q1, store),
        Some(it) => (
            spec_complete_queue(q1, it, ok, max_attempts),
            spec_complete_store(store, it, ok, max_attempts),
        ),
    }
}

/// No item is ever silently lost: an id tracked by the pipeline — in the
/// queue or in the store — is still tracked after any fetcher cycle,
/// whatever the download outcome was.
pub proof fn lemma_no_item_lost(
    queue: Seq<MediaItem>,
    store: Seq<MediaItem>,
    ok: bool,
    max_attempts: u32,
    id: Seq<char>,
)
    requires
        spec_in_queue(queue, id) || spec_has_id(store, id),
    ensures
        ({
            let (q2, s2) = spec_fetch_cycle(queue, store, ok, max_attempts);
            spec_in_queue(q2, id) || spec_has_id(s2, id)
        }),
{
    let (q2, s2) = spec_fetch_cycle(queue, store, ok, max_attempts);
    if queue.len() == 0 {
        return ;
    }
    let head = queue[0];
    let q1 = spec_pop_queue(queue);
    assert(forall|i: int| 1 <= i < queue.len() ==> q1[i - 1] == queue[i]);
    if spec_in_queue(queue, id) {
        let i = choose|i: int| 0 <= i < queue.len() && #[trigger] queue[i].id@ == id;
        if i == 0 {
            // the head's id: it is discarded only because the store already
            // holds it as a success, and otherwise lands in store or queue
            if spec_has_success(store, head.id@) {
                let w = choose|w: int|
                    0 <= w < store.len() && #[trigger] store[w].id@ == head.id@
                        && store[w].download_success;
                assert(store[w].id@ == id);
                assert(spec_has_id(store, id));
            } else {
                let it = spec_attempted(head);
                assert(it.id@ == id);
                if ok {
                    lemma_upsert_has_id(store, spec_succeeded(it), id);
                } else if it.download_attempts >= max_attempts {
                    lemma_upsert_has_id(store, it, id);
                } else {
                    assert(q2[q2.len() - 1].id@ == id);
                }
            }
        } else {
            assert(q1[i - 1].id@ == id);
            match spec_pop_result(queue, store) {
                None => {
                    assert(spec_in_queue(q2, id));
                },
                Some(it) => {
                    if !ok && it.download_attempts < max_attempts {
                        assert(q2[i - 1].id@ == id);
                    } else {
                        assert(q2[i - 1].id@ == id);
                    }
                },
            }
        }
    } else {
        // tracked by the store: upserts never remove an id
        match spec_pop_result(queue, store) {
            None => {},
            Some(it) => {
                if ok {
                    lemma_upsert_has_id(store, spec_succeeded(it), id);
                } else if it.download_attempts >= max_attempts {
                    lemma_upsert_has_id(store, it, id);
                } else {
                }
            },
        }
    }
}

/// `spec_fetch_cycle` iterated `k` times, each download failing.
pub open spec fn spec_failed_cycles(
    queue: Seq<MediaItem>,
    store: Seq<MediaItem>,
    max_attempts: u32,
    k: nat,
) -> (Seq<MediaItem>, Seq<MediaItem>)
    decreases k,
{
    if k == 0 {
        (queue, store)
    } else {
        let prev = spec_failed_cycles(queue, store, max_attempts, (k - 1) as nat);
        spec_fetch_cycle(prev.0, prev.1, false, max_attempts)
    }
}

/// The item of a retry run after `k` failures.
pub open spec fn spec_after_attempts(item: MediaItem, k: nat) -> MediaItem {
    MediaItem { download_attempts: k as u32, download_success: false, ..item }
}

/// The retry cap: an item whose download always fails is attempted exactly
/// `max_attempts` times. Until then it circulates through the queue with
/// its attempt counter equal to the number of failures; on the final
/// failure it leaves the queue for good and is persisted with
/// `download_success` false and the counter at the cap.
pub proof fn lemma_retry_cap(item: MediaItem, store: Seq<MediaItem>, max_attempts: u32, k: nat)
    requires
        !item.download_success,
        item.download_attempts == 0,
        !spec_has_success(store, item.id@),
        max_attempts >= 1,
        k <= max_attempts,
    ensures
        ({
            let (qk, sk) = spec_failed_cycles(seq![item], store, max_attempts, k);
            if k < max_attempts {
                qk == seq![spec_after_attempts(item, k)] && sk == store
            } else {
                qk == Seq::<MediaItem>::empty() && sk == spec_upsert(
                    store,
                    spec_after_attempts(item, max_attempts as nat),
                )
            }
        }),
    decreases k,
{
    if k == 0 {
        assert(spec_after_attempts(item, 0) == item);
    } else {
        lemma_retry_cap(item, store, max_attempts, (k - 1) as nat);
        let prev = spec_failed_cycles(seq![item], store, max_attempts, (k - 1) as nat);
        let cur = spec_after_attempts(item, (k - 1) as nat);
        assert(prev.0 == seq![cur] && prev.1 == store);
        assert(prev.0[0] == cur);
        assert(!spec_has_success(store, cur.id@));
        let it = spec_attempted(cur);
        assert(it == spec_after_attempts(item, k));
        assert(spec_pop_queue(prev.0) =~= Seq::<MediaItem>::empty());
        if k < max_attempts {
            assert(spec_pop_queue(prev.0).push(it) =~= seq![it]);
        }
    }
}

/// Once the attempt cap persisted an item as failed, it consumes no
/// further queue slots: every later cycle leaves the pipeline exactly
/// where the final failure left it.
pub proof fn lemma_retry_cap_stable(item: MediaItem, store: Seq<MediaItem>, max_attempts: u32, k: nat)
    requires
        !item.download_success,
        item.download_attempts == 0,
        !spec_has_success(store, item.id@),
        max_attempts >= 1,
        k >= max_attempts,
    ensures
        spec_failed_cycles(seq![item], store, max_attempts, k) == spec_failed_cycles(
            seq![item],
            store,
            max_attempts,
            max_attempts as nat,
        ),
    decreases k,
{
    if k > max_attempts {
        lemma_retry_cap_stable(item, store, max_attempts, (k - 1) as nat);
        lemma_retry_cap(item, store, max_attempts, max_attempts as nat);
        let settled = spec_failed_cycles(seq![item], store, max_attempts, max_attempts as nat);
        assert(settled.0 == Seq::<MediaItem>::empty());
        assert(spec_fetch_cycle(settled.0, settled.1, false, max_attempts) == settled);
    }
}

} // verus!
