//! The producer side of the pipeline: fetches listing pages, deduplicates
//! them against the store, feeds the queue, checkpoints the pagination
//! cursor, and backs off exponentially on listing failures. The network
//! call itself happens outside; `on_page` and `on_listing_failure` receive
//! its outcome and perform every decision that follows from it.

use vstd::prelude::*;

use crate::fetcher::spec_in_queue;
use crate::items::{GetMediaItems, MediaItem};
use crate::queue::SyncQueue;
use crate::store::{spec_has_id, spec_has_success, Store};

verus! {

/// First sleep after a listing failure, in seconds.
pub const BACKOFF_FLOOR_SECS: u64 = 1;

/// Longest sleep between listing retries, in seconds.
pub const BACKOFF_CAP_SECS: u64 = 1800;

/// A successful fetch older than this forces a full re-fetch, in seconds.
pub const STALE_AFTER_SECS: u64 = 3300;

/// Sleep while a full pass found nothing new, in seconds.
pub const COOLDOWN_SECS: u64 = 1800;

/// Sleep between scanner iterations, in milliseconds.
pub const POLL_SLEEP_MILLIS: u64 = 100;

/// The page items that still need downloading: those without a
/// successfully-downloaded record in the store, in listing order.
pub open spec fn spec_filter_new(items: Seq<MediaItem>, records: Seq<MediaItem>) -> Seq<
    MediaItem,
> {
    items.filter(|it: MediaItem| !spec_has_success(records, it.id@))
}

/// The backoff that follows a failure: doubled, capped.
pub open spec fn spec_backoff_next(b: u64) -> u64 {
    if 2 * b > BACKOFF_CAP_SECS {
        BACKOFF_CAP_SECS
    } else {
        (2 * b) as u64
    }
}

/// A fetch made at `last_refresh` is stale at `now`.
pub open spec fn spec_is_stale(last_refresh: u64, now: u64) -> bool {
    now > last_refresh + STALE_AFTER_SECS
}

proof fn lemma_filter_new_step(items: Seq<MediaItem>, records: Seq<MediaItem>, k: int)
    requires
        0 <= k < items.len(),
    ensures
        spec_filter_new(items.subrange(0, k + 1), records) == if !spec_has_success(
            records,
            items[k].id@,
        ) {
            spec_filter_new(items.subrange(0, k), records).push(items[k])
        } else {
            spec_filter_new(items.subrange(0, k), records)
        },
{
    let pred = |it: MediaItem| !spec_has_success(records, it.id@);
    let single = seq![items[k]];
    assert(items.subrange(0, k + 1) =~= items.subrange(0, k) + single);
    Seq::<MediaItem>::filter_distributes_over_add(items.subrange(0, k), single, pred);
    reveal_with_fuel(Seq::filter, 2);
    assert(single.drop_last() =~= Seq::<MediaItem>::empty());
    assert(single.last() == items[k]);
    assert(Seq::<MediaItem>::empty().filter(pred) =~= Seq::<MediaItem>::empty());
    if pred(items[k]) {
        assert(single.filter(pred) =~= single);
    } else {
        assert(single.filter(pred) =~= Seq::<MediaItem>::empty());
    }
    if pred(items[k]) {
        assert(items.subrange(0, k).filter(pred) + single =~= items.subrange(0, k).filter(
            pred,
        ).push(items[k]));
    } else {
        assert(items.subrange(0, k).filter(pred) + Seq::<MediaItem>::empty() =~= items.subrange(
            0,
            k,
        ).filter(pred));
    }
}

/// What one scanner cycle concluded about the page it fetched.
pub enum ScanOutcome {
    /// The listing returned no items: the initial scan is complete.
    EmptyPage,
    /// New items were queued, in listing order, and the cursor advanced.
    QueuedNew { queued: usize },
    /// Every item was already synced and this completed the initial scan.
    AllPresentScanComplete,
    /// Every item was already synced on a later pass: cool down.
    NothingNew,
}

/// What the staleness timer concluded.
pub enum StalenessOutcome {
    /// The last successful fetch is recent enough.
    Fresh,
    /// Stale: the next fetch is forced to reload the previous page.
    ForcedReload,
    /// Stale before the initial scan completed: reload is forced, and the
    /// caller should log the inconsistency.
    StaleBeforeFirstScan,
}

/// The producer task's private state.
pub struct Scanner {
    /// Current error backoff, in seconds.
    pub backoff_secs: u64,
    /// Whether the next listing request must re-fetch the previous page.
    pub reload: bool,
    /// When the last successful listing fetch happened, in epoch seconds.
    pub last_refresh: u64,
    /// Advisory flag read by the fetcher to pick its idle sleep.
    pub awaiting_cooldown: bool,
}

impl Scanner {
    pub open spec fn wf(&self) -> bool {
        BACKOFF_FLOOR_SECS <= self.backoff_secs <= BACKOFF_CAP_SECS
    }

    /// A scanner about to make its first request. The first fetch reloads
    /// only when an initial scan has already completed, to catch items
    /// inserted ahead of the cursor.
    pub fn new(initial_scan_complete: bool, now: u64) -> (r: Scanner)
        ensures
            r.backoff_secs == BACKOFF_FLOOR_SECS,
            r.reload == initial_scan_complete,
            r.last_refresh == now,
            !r.awaiting_cooldown,
            r.wf(),
    {
        Scanner {
            backoff_secs: BACKOFF_FLOOR_SECS,
            reload: initial_scan_complete,
            last_refresh: now,
            awaiting_cooldown: false,
        }
    }

    /// Whether this cycle should fetch a page at all: only while the queue
    /// is drained and the fetcher is idle.
    pub fn should_fetch(&self, queue_empty: bool, processing: bool) -> (r: bool)
        ensures
            r == (queue_empty && !processing),
    {
        queue_empty && !processing
    }

    /// A listing failure: sleep for the current backoff, then double it,
    /// capped. The cursor is not touched, so the page will be retried.
    pub fn on_listing_failure(&mut self) -> (sleep_secs: u64)
        requires
            old(self).wf(),
        ensures
            sleep_secs == old(self).backoff_secs,
            final(self).backoff_secs == spec_backoff_next(old(self).backoff_secs),
            final(self).reload == old(self).reload,
            final(self).last_refresh == old(self).last_refresh,
            final(self).awaiting_cooldown == old(self).awaiting_cooldown,
            final(self).wf(),
    {
        let sleep_secs = self.backoff_secs;
        if self.backoff_secs > BACKOFF_CAP_SECS / 2 {
            self.backoff_secs = BACKOFF_CAP_SECS;
        } else {
            self.backoff_secs = self.backoff_secs * 2;
        }
        sleep_secs
    }

    /// A page arrived: reset the backoff, record the fetch time, queue the
    /// items that are not yet synced (in listing order), and — for a
    /// non-empty page — advance the cursor checkpoint only now that the
    /// page's items sit in the queue.
    pub fn on_page(
        &mut self,
        store: &mut Store,
        queue: &mut SyncQueue,
        page: GetMediaItems,
        now: u64,
    ) -> (r: ScanOutcome)
        ensures
            final(self).backoff_secs == BACKOFF_FLOOR_SECS,
            final(self).last_refresh == now,
            final(self).wf(),
            final(store)@ == old(store)@,
            ({
                let items = page.mediaItems@;
                let kept = spec_filter_new(items, old(store)@);
                if items.len() == 0 {
                    &&& r is EmptyPage
                    &&& final(queue)@ == old(queue)@
                    &&& final(self).reload == old(self).reload
                    &&& final(self).awaiting_cooldown == old(self).awaiting_cooldown
                    &&& final(store).cursor.next_token == old(store).cursor.next_token
                    &&& final(store).cursor.prev_token == old(store).cursor.prev_token
                    &&& final(store).cursor.initial_scan_complete
                } else {
                    &&& final(queue)@ == old(queue)@ + kept
                    &&& !final(self).reload
                    &&& final(store).cursor.prev_token == old(store).cursor.next_token
                    &&& final(store).cursor.next_token == page.nextPageToken
                    &&& match r {
                        ScanOutcome::QueuedNew { queued } => {
                            &&& kept.len() > 0
                            &&& queued == kept.len()
                            &&& !final(self).awaiting_cooldown
                            &&& final(store).cursor.initial_scan_complete == (old(
                                store,
                            ).cursor.initial_scan_complete || page.nextPageToken is None)
                        },
                        ScanOutcome::AllPresentScanComplete => {
                            &&& kept.len() == 0
                            &&& !old(store).cursor.initial_scan_complete
                            &&& final(store).cursor.initial_scan_complete
                            &&& !final(self).awaiting_cooldown
                        },
                        ScanOutcome::NothingNew => {
                            &&& kept.len() == 0
                            &&& old(store).cursor.initial_scan_complete
                            &&& final(store).cursor.initial_scan_complete
                            &&& final(self).awaiting_cooldown
                        },
                        ScanOutcome::EmptyPage => false,
                    }
                }
            }),
    {
        self.backoff_secs = BACKOFF_FLOOR_SECS;
        self.last_refresh = now;

        let GetMediaItems { mediaItems: mut items, nextPageToken: next_token } = page;
        let ghost orig = items@;

        if items.len() == 0 {
            store.cursor.initial_scan_complete = true;
            return ScanOutcome::EmptyPage;
        }

        let n0 = items.len();
        let mut k: usize = 0;
        let mut queued: usize = 0;
        while k < n0
            invariant
                n0 == orig.len(),
                0 <= k <= n0,
                queued <= k,
                items@ == orig.subrange(k as int, orig.len() as int),
                *store == *old(store),
                queue@ == old(queue)@ + spec_filter_new(orig.subrange(0, k as int), old(store)@),
                queued == spec_filter_new(orig.subrange(0, k as int), old(store)@).len(),
            decreases n0 - k,
        {
            let it = items.remove(0);
            proof {
                assert(it == orig[k as int]);
                assert(items@ =~= orig.subrange(k as int + 1, orig.len() as int));
                lemma_filter_new_step(orig, old(store)@, k as int);
            }
            if !store.has_success(&it.id) {
                queue.push_back(it);
                queued = queued + 1;
            }
            k = k + 1;
        }
        proof {
            assert(orig.subrange(0, orig.len() as int) =~= orig);
        }

        let was_complete = store.cursor.initial_scan_complete;
        store.cursor.advance(next_token);
        self.reload = false;

        if queued == 0 {
            if !was_complete {
                store.cursor.initial_scan_complete = true;
                self.awaiting_cooldown = false;
                ScanOutcome::AllPresentScanComplete
            } else {
                self.awaiting_cooldown = true;
                ScanOutcome::NothingNew
            }
        } else {
            self.awaiting_cooldown = false;
            ScanOutcome::QueuedNew { queued }
        }
    }

    /// The staleness backstop: if the last successful fetch is older than
    /// the threshold, force a reload on the next request. Firing before
    /// the initial scan completed is an inconsistency the caller logs.
    pub fn staleness_check(&mut self, initial_scan_complete: bool, now: u64) -> (r:
        StalenessOutcome)
        ensures
            final(self).backoff_secs == old(self).backoff_secs,
            final(self).last_refresh == old(self).last_refresh,
            final(self).awaiting_cooldown == old(self).awaiting_cooldown,
            ({
                let stale = spec_is_stale(old(self).last_refresh, now);
                &&& final(self).reload == (old(self).reload || stale)
                &&& match r {
                    StalenessOutcome::Fresh => !stale,
                    StalenessOutcome::ForcedReload => stale && initial_scan_complete,
                    StalenessOutcome::StaleBeforeFirstScan => stale && !initial_scan_complete,
                }
            }),
    {
        if now > self.last_refresh && now - self.last_refresh > STALE_AFTER_SECS {
            self.reload = true;
            if initial_scan_complete {
                StalenessOutcome::ForcedReload
            } else {
                StalenessOutcome::StaleBeforeFirstScan
            }
        } else {
            StalenessOutcome::Fresh
        }
    }
}

/// Scanning is idempotent with respect to the store: an item already
/// recorded as successfully downloaded is never part of what a page push
/// enqueues, no matter how often the same remote state is listed.
pub proof fn lemma_scan_skips_synced(items: Seq<MediaItem>, records: Seq<MediaItem>)
    ensures
        forall|i: int|
            0 <= i < spec_filter_new(items, records).len() ==> !spec_has_success(
                records,
                #[trigger] spec_filter_new(items, records)[i].id@,
            ),
{
    let pred = |it: MediaItem| !spec_has_success(records, it.id@);
    assert forall|i: int| 0 <= i < spec_filter_new(items, records).len() implies !spec_has_success(
        records,
        #[trigger] spec_filter_new(items, records)[i].id@,
    ) by {
        Seq::<MediaItem>::lemma_filter_pred(items, pred, i);
    }
}

/// Every item the dedup filter keeps is one of the page's items.
pub proof fn lemma_filter_new_members(items: Seq<MediaItem>, records: Seq<MediaItem>, j: int)
    requires
        0 <= j < spec_filter_new(items, records).len(),
    ensures
        exists|i: int| 0 <= i < items.len() && items[i] == spec_filter_new(items, records)[j],
    decreases items.len(),
{
    reveal(Seq::filter);
    let pred = |it: MediaItem| !spec_has_success(records, it.id@);
    let kept = items.filter(pred);
    if items.len() > 0 {
        let prefix = items.drop_last();
        let sub = prefix.filter(pred);
        if j < sub.len() {
            lemma_filter_new_members(prefix, records, j);
            let i = choose|i: int| 0 <= i < prefix.len() && prefix[i] == sub[j];
            assert(items[i] == kept[j]);
        } else {
            assert(kept[j] == items[items.len() - 1]);
        }
    }
}

/// Pushing a page keeps the queue's entries attemptable: if everything in
/// the queue and on the page is below the attempt cap and not yet marked
/// successful, the queue after the push is too.
pub proof fn lemma_on_page_preserves_queue_wf(
    queue: Seq<MediaItem>,
    items: Seq<MediaItem>,
    records: Seq<MediaItem>,
    max_attempts: u32,
)
    requires
        crate::fetcher::spec_queue_wf(queue, max_attempts),
        forall|i: int|
            0 <= i < items.len() ==> (#[trigger] items[i]).download_attempts < max_attempts
                && !items[i].download_success,
    ensures
        crate::fetcher::spec_queue_wf(queue + spec_filter_new(items, records), max_attempts),
{
    let kept = spec_filter_new(items, records);
    let post = queue + kept;
    assert forall|k: int| 0 <= k < post.len() implies (#[trigger] post[k]).download_attempts
        < max_attempts && !post[k].download_success by {
        if k < queue.len() {
            assert(post[k] == queue[k]);
        } else {
            let j = k - queue.len();
            assert(post[k] == kept[j]);
            lemma_filter_new_members(items, records, j);
            let i = choose|i: int| 0 <= i < items.len() && items[i] == kept[j];
            assert(items[i].download_attempts < max_attempts && !items[i].download_success);
        }
    }
}

/// Whether every listed item already has a record in the store, whatever
/// its download outcome.
pub fn all_present(items: &Vec<MediaItem>, store: &Store) -> (r: bool)
    ensures
        r == (forall|i: int| 0 <= i < items@.len() ==> spec_has_id(store@, #[trigger] items@[i].id@)),
{
    let n = items.len();
    let mut i: usize = 0;
    while i < n
        invariant
            0 <= i <= n,
            n == items@.len(),
            forall|k: int| 0 <= k < i ==> spec_has_id(store@, #[trigger] items@[k].id@),
        decreases n - i,
    {
        if !store.contains_id(&items[i].id) {
            return false;
        }
        i = i + 1;
    }
    true
}

/// A page's ids are all accounted for the moment it is processed: each is
/// either already recorded as successfully downloaded, or sits in the
/// queue the page push produced.
pub proof fn lemma_scan_tracks_every_id(
    queue: Seq<MediaItem>,
    items: Seq<MediaItem>,
    records: Seq<MediaItem>,
    i: int,
)
    requires
        0 <= i < items.len(),
    ensures
        spec_has_success(records, items[i].id@) || spec_in_queue(
            queue + spec_filter_new(items, records),
            items[i].id@,
        ),
{
    if !spec_has_success(records, items[i].id@) {
        lemma_page_queued_before_cursor_advance(queue, items, records, i);
        let post = queue + spec_filter_new(items, records);
        let j = choose|j: int| 0 <= j < post.len() && post[j] == items[i];
        assert(post[j].id@ == items[i].id@);
    }
}

/// The cursor checkpoint never outruns the queue: every page item that
/// still needs downloading is in the queue the moment the cursor advances
/// past that page, so replaying the saved cursor cannot skip an item.
pub proof fn lemma_page_queued_before_cursor_advance(
    queue: Seq<MediaItem>,
    items: Seq<MediaItem>,
    records: Seq<MediaItem>,
    i: int,
)
    requires
        0 <= i < items.len(),
        !spec_has_success(records, items[i].id@),
    ensures
        (queue + spec_filter_new(items, records)).contains(items[i]),
{
    let pred = |it: MediaItem| !spec_has_success(records, it.id@);
    Seq::<MediaItem>::lemma_filter_contains(items, pred, i);
    let kept = spec_filter_new(items, records);
    let j = choose|j: int| 0 <= j < kept.len() && kept[j] == items[i];
    assert((queue + kept)[queue.len() + j] == items[i]);
}

} // verus!
