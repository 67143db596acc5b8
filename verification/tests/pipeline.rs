use media_sync::fetcher::{complete_attempt, idle_sleep_secs, pop_candidate, AttemptOutcome};
use media_sync::items::{GetMediaItems, MediaItem};
use media_sync::queue::SyncQueue;
use media_sync::scanner::{ScanOutcome, Scanner, StalenessOutcome};
use media_sync::store::Store;

fn item(id: &str) -> MediaItem {
    MediaItem {
        id: id.to_string(),
        description: None,
        productUrl: format!("https://photos.example/{}", id),
        baseUrl: format!("https://media.example/{}", id),
        mimeType: Some("image/jpeg".to_string()),
        mediaMetadata: None,
        contributorInfo: None,
        filename: format!("{}.jpg", id),
        download_attempts: 0,
        download_success: false,
    }
}

fn page(ids: &[&str], next: Option<&str>) -> GetMediaItems {
    GetMediaItems {
        mediaItems: ids.iter().map(|id| item(id)).collect(),
        nextPageToken: next.map(|t| t.to_string()),
    }
}

/// One fetcher iteration: pop a candidate, "download" it with the given
/// outcome, and record the result.
fn fetch_once(queue: &mut SyncQueue, store: &mut Store, ok: bool) -> Option<AttemptOutcome> {
    match pop_candidate(queue, store, 4) {
        Some(it) => Some(complete_attempt(queue, store, it, ok, 4)),
        None => None,
    }
}

#[test]
fn three_items_download_retry_and_give_up() {
    // A page returns 3 new descriptors, none in the store: all 3 are
    // queued in listing order. Item 1 downloads at once, item 2 fails
    // twice then succeeds, item 3 fails four times.
    let mut scanner = Scanner::new(false, 1000);
    let mut store = Store::new();
    let mut queue = SyncQueue::new();

    let outcome = scanner.on_page(&mut store, &mut queue, page(&["a", "b", "c"], Some("t1")), 1000);
    assert!(matches!(outcome, ScanOutcome::QueuedNew { queued: 3 }));
    let order: Vec<String> = queue.entries.iter().map(|i| i.id.clone()).collect();
    assert_eq!(order, vec!["a".to_string(), "b".to_string(), "c".to_string()]);

    // item a: success on the first attempt
    assert!(matches!(fetch_once(&mut queue, &mut store, true), Some(AttemptOutcome::PersistedSuccess)));
    // item b: first failure requeues it behind c
    assert!(matches!(fetch_once(&mut queue, &mut store, false), Some(AttemptOutcome::Requeued)));
    // item c: four straight failures
    assert!(matches!(fetch_once(&mut queue, &mut store, false), Some(AttemptOutcome::Requeued)));
    // item b again: second failure
    assert!(matches!(fetch_once(&mut queue, &mut store, false), Some(AttemptOutcome::Requeued)));
    // item c: second failure
    assert!(matches!(fetch_once(&mut queue, &mut store, false), Some(AttemptOutcome::Requeued)));
    // item b: third attempt succeeds
    assert!(matches!(fetch_once(&mut queue, &mut store, true), Some(AttemptOutcome::PersistedSuccess)));
    // item c: third and fourth failures; the fourth persists it as failed
    assert!(matches!(fetch_once(&mut queue, &mut store, false), Some(AttemptOutcome::Requeued)));
    assert!(matches!(fetch_once(&mut queue, &mut store, false), Some(AttemptOutcome::PersistedFailure)));

    assert!(queue.is_empty());
    assert_eq!(store.records.len(), 3);
    let find = |id: &str| store.records.iter().find(|r| r.id == id).unwrap();
    assert!(find("a").download_success);
    assert_eq!(find("a").download_attempts, 1);
    assert!(find("b").download_success);
    assert_eq!(find("b").download_attempts, 3);
    assert!(!find("c").download_success);
    assert_eq!(find("c").download_attempts, 4);
}

#[test]
fn backoff_sequence_doubles_from_one_second() {
    // Three listing failures in a row: the observed sleeps are 1s, 2s, 4s;
    // the next success resets the backoff to its floor.
    let mut scanner = Scanner::new(false, 0);
    let mut store = Store::new();
    let mut queue = SyncQueue::new();

    assert_eq!(scanner.on_listing_failure(), 1);
    assert_eq!(scanner.on_listing_failure(), 2);
    assert_eq!(scanner.on_listing_failure(), 4);

    let outcome = scanner.on_page(&mut store, &mut queue, page(&["a"], None), 50);
    assert!(matches!(outcome, ScanOutcome::QueuedNew { queued: 1 }));
    assert_eq!(scanner.backoff_secs, 1);
    assert_eq!(scanner.on_listing_failure(), 1);
}

#[test]
fn backoff_is_capped() {
    let mut scanner = Scanner::new(false, 0);
    let mut sleeps = Vec::new();
    for _ in 0..15 {
        sleeps.push(scanner.on_listing_failure());
    }
    assert_eq!(sleeps[10], 1024);
    assert_eq!(sleeps[11], 1800);
    assert_eq!(sleeps[12], 1800);
    assert_eq!(scanner.backoff_secs, 1800);
}

#[test]
fn all_known_page_triggers_cooldown_after_initial_scan() {
    // Every item of the page is already synced and the initial scan was
    // already complete: the scanner signals a cooldown.
    let mut scanner = Scanner::new(true, 100);
    let mut store = Store::new();
    let mut queue = SyncQueue::new();

    let first = scanner.on_page(&mut store, &mut queue, page(&["a", "b"], None), 100);
    assert!(matches!(first, ScanOutcome::QueuedNew { queued: 2 }));
    assert!(matches!(fetch_once(&mut queue, &mut store, true), Some(AttemptOutcome::PersistedSuccess)));
    assert!(matches!(fetch_once(&mut queue, &mut store, true), Some(AttemptOutcome::PersistedSuccess)));
    assert!(store.cursor.initial_scan_complete);

    let again = scanner.on_page(&mut store, &mut queue, page(&["a", "b"], Some("t2")), 200);
    assert!(matches!(again, ScanOutcome::NothingNew));
    assert!(scanner.awaiting_cooldown);
    assert!(queue.is_empty());
    // the fetcher picks the long idle sleep while the cooldown lasts
    assert_eq!(idle_sleep_secs(scanner.awaiting_cooldown), 600);
    assert_eq!(idle_sleep_secs(false), 5);
}

#[test]
fn all_known_page_completes_initial_scan() {
    // Every item already present while the initial scan was still running
    // marks the scan complete instead of cooling down.
    let mut scanner = Scanner::new(false, 100);
    let mut store = Store::new();
    let mut queue = SyncQueue::new();

    scanner.on_page(&mut store, &mut queue, page(&["a"], Some("t1")), 100);
    fetch_once(&mut queue, &mut store, true);
    assert!(!store.cursor.initial_scan_complete);

    let outcome = scanner.on_page(&mut store, &mut queue, page(&["a"], Some("t2")), 150);
    assert!(matches!(outcome, ScanOutcome::AllPresentScanComplete));
    assert!(store.cursor.initial_scan_complete);
    assert!(!scanner.awaiting_cooldown);
}

#[test]
fn rescan_skips_synced_items_but_keeps_new_ones() {
    // Re-listing the same remote state never requeues an id already
    // marked successful; a genuinely new item still gets through.
    let mut scanner = Scanner::new(false, 0);
    let mut store = Store::new();
    let mut queue = SyncQueue::new();

    scanner.on_page(&mut store, &mut queue, page(&["a", "b"], Some("t1")), 10);
    fetch_once(&mut queue, &mut store, true);
    fetch_once(&mut queue, &mut store, true);

    let outcome = scanner.on_page(&mut store, &mut queue, page(&["a", "b", "d"], Some("t2")), 20);
    assert!(matches!(outcome, ScanOutcome::QueuedNew { queued: 1 }));
    assert_eq!(queue.len(), 1);
    let only = queue.pop_front().unwrap();
    assert_eq!(only.id, "d");
}

#[test]
fn cursor_advances_only_with_the_page() {
    // The continuation token is checkpointed together with the queued
    // page, and the token that produced the page is kept for a retry.
    let mut scanner = Scanner::new(false, 0);
    let mut store = Store::new();
    let mut queue = SyncQueue::new();

    scanner.on_page(&mut store, &mut queue, page(&["a"], Some("t1")), 10);
    assert_eq!(store.cursor.next_token.as_deref(), Some("t1"));
    assert_eq!(store.cursor.prev_token, None);

    scanner.on_page(&mut store, &mut queue, page(&["b"], Some("t2")), 20);
    assert_eq!(store.cursor.next_token.as_deref(), Some("t2"));
    assert_eq!(store.cursor.prev_token.as_deref(), Some("t1"));

    // a listing failure leaves the checkpoint alone
    scanner.on_listing_failure();
    assert_eq!(store.cursor.next_token.as_deref(), Some("t2"));
    assert_eq!(store.cursor.prev_token.as_deref(), Some("t1"));

    // the request token re-fetches the previous page on a reload
    assert_eq!(store.cursor.request_token(true).as_deref(), Some("t1"));
    assert_eq!(store.cursor.request_token(false).as_deref(), Some("t2"));
}

#[test]
fn empty_page_completes_scan_without_moving_cursor() {
    let mut scanner = Scanner::new(false, 0);
    let mut store = Store::new();
    let mut queue = SyncQueue::new();

    scanner.on_page(&mut store, &mut queue, page(&["a"], Some("t1")), 10);
    let outcome = scanner.on_page(&mut store, &mut queue, page(&[], None), 20);
    assert!(matches!(outcome, ScanOutcome::EmptyPage));
    assert!(store.cursor.initial_scan_complete);
    assert_eq!(store.cursor.next_token.as_deref(), Some("t1"));
}

#[test]
fn missing_continuation_token_completes_scan() {
    let mut scanner = Scanner::new(false, 0);
    let mut store = Store::new();
    let mut queue = SyncQueue::new();

    let outcome = scanner.on_page(&mut store, &mut queue, page(&["a"], None), 10);
    assert!(matches!(outcome, ScanOutcome::QueuedNew { queued: 1 }));
    assert!(store.cursor.initial_scan_complete);
}

#[test]
fn staleness_forces_reload() {
    let mut scanner = Scanner::new(true, 1000);
    let mut store = Store::new();
    let mut queue = SyncQueue::new();
    scanner.on_page(&mut store, &mut queue, page(&["a"], Some("t1")), 1000);
    assert!(!scanner.reload);

    // fresh enough: nothing changes
    assert!(matches!(scanner.staleness_check(true, 1000 + 3300), StalenessOutcome::Fresh));
    assert!(!scanner.reload);

    // past the threshold: the next fetch is forced to reload
    assert!(matches!(scanner.staleness_check(true, 1000 + 3301), StalenessOutcome::ForcedReload));
    assert!(scanner.reload);

    // before the initial scan completed this is an inconsistency
    let mut early = Scanner::new(false, 0);
    assert!(matches!(early.staleness_check(false, 4000), StalenessOutcome::StaleBeforeFirstScan));
    assert!(early.reload);
}

#[test]
fn should_fetch_only_when_idle() {
    let scanner = Scanner::new(false, 0);
    assert!(scanner.should_fetch(true, false));
    assert!(!scanner.should_fetch(false, false));
    assert!(!scanner.should_fetch(true, true));
    assert!(!scanner.should_fetch(false, true));
}

#[test]
fn pop_discards_item_already_successful_in_store() {
    // A duplicate push raced with a completed download: the fetcher drops
    // the queued copy instead of downloading it again.
    let mut store = Store::new();
    let mut queue = SyncQueue::new();
    let mut done = item("a");
    done.download_attempts = 1;
    done.download_success = true;
    store.upsert(done);

    queue.push(vec![item("a")]);
    assert!(pop_candidate(&mut queue, &store, 4).is_none());
    assert!(queue.is_empty());
    assert_eq!(store.records.len(), 1);
}

#[test]
fn queue_is_fifo_and_requeue_goes_to_the_back() {
    let mut queue = SyncQueue::new();
    queue.push(vec![item("a"), item("b")]);
    queue.push_back(item("c"));
    assert_eq!(queue.len(), 3);
    assert_eq!(queue.pop_front().unwrap().id, "a");
    assert_eq!(queue.pop_front().unwrap().id, "b");
    assert_eq!(queue.pop_front().unwrap().id, "c");
    assert!(queue.pop_front().is_none());
}

#[test]
fn no_id_is_ever_lost_by_the_pipeline() {
    // Whatever the download outcomes, every id a page ever returned stays
    // tracked: in the queue awaiting an attempt, or persisted.
    let mut scanner = Scanner::new(false, 0);
    let mut store = Store::new();
    let mut queue = SyncQueue::new();

    scanner.on_page(&mut store, &mut queue, page(&["a", "b", "c", "d"], Some("t1")), 5);
    let all_ids = ["a", "b", "c", "d"];
    let outcomes = [true, false, false, true, false, false, false, true, false, false];
    for ok in outcomes {
        fetch_once(&mut queue, &mut store, ok);
        for id in all_ids {
            let queued = queue.entries.iter().any(|i| i.id == id);
            let stored = store.contains_id(&id.to_string());
            assert!(queued || stored, "id {} was lost", id);
        }
    }
}

#[test]
fn store_upsert_replaces_by_id() {
    let mut store = Store::new();
    let first = store.upsert(item("a"));
    assert_eq!(first, "a");
    let mut updated = item("a");
    updated.download_attempts = 4;
    store.upsert(updated);
    store.upsert(item("b"));
    assert_eq!(store.records.len(), 2);
    assert_eq!(store.records[0].download_attempts, 4);
    assert!(store.contains_id(&"a".to_string()));
    assert!(store.contains_id(&"b".to_string()));
    assert!(!store.contains_id(&"z".to_string()));
    assert!(!store.has_success(&"a".to_string()));
}
