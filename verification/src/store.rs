//! The pipeline's durable state, modelled as plain values: the set of
//! persisted media records (keyed by remote id) and the pagination cursor
//! checkpoint. The surrounding process is responsible for writing this
//! state through to durable storage; every decision the pipeline makes is
//! verified against the model here.

use vstd::prelude::*;

use crate::items::MediaItem;

verus! {

/// Clones an optional string, preserving its value exactly.
pub fn clone_opt_string(o: &Option<String>) -> (r: Option<String>)
    ensures
        r == *o,
{
    match o {
        Some(s) => Some(s.clone()),
        None => None,
    }
}

/// Continuation state of the paginated listing: the token for the next
/// page, the token that produced the last completed page (kept so a failed
/// page can be retried without restarting the scan), and whether a full
/// initial pass over the listing has completed.
pub struct PaginationCursor {
    pub next_token: Option<String>,
    pub prev_token: Option<String>,
    pub initial_scan_complete: bool,
}

impl PaginationCursor {
    /// The cursor state before any page has been fetched.
    pub fn new() -> (r: PaginationCursor)
        ensures
            r.next_token is None,
            r.prev_token is None,
            !r.initial_scan_complete,
    {
        PaginationCursor { next_token: None, prev_token: None, initial_scan_complete: false }
    }

    /// The token to send with the next listing request: on a reload the
    /// previous page is fetched again, otherwise the listing continues.
    pub fn request_token(&self, reload: bool) -> (r: Option<String>)
        ensures
            r == if reload {
                self.prev_token
            } else {
                self.next_token
            },
    {
        if reload {
            clone_opt_string(&self.prev_token)
        } else {
            clone_opt_string(&self.next_token)
        }
    }

    /// Advances past a completed page: the token that produced it becomes
    /// the retry point, the page's continuation token becomes current, and
    /// an absent continuation token marks the initial scan complete.
    pub fn advance(&mut self, next: Option<String>)
        ensures
            final(self).prev_token == old(self).next_token,
            final(self).next_token == next,
            final(self).initial_scan_complete == (old(self).initial_scan_complete || next is None),
    {
        self.prev_token = clone_opt_string(&self.next_token);
        let end = match &next {
            Some(_) => false,
            None => true,
        };
        self.next_token = next;
        if end {
            self.initial_scan_complete = true;
        }
    }
}

/// True when some record in `records` carries `id`.
pub open spec fn spec_has_id(records: Seq<MediaItem>, id: Seq<char>) -> bool {
    exists|i: int| 0 <= i < records.len() && #[trigger] records[i].id@ == id
}

/// True when some record in `records` carries `id` and was downloaded
/// successfully.
pub open spec fn spec_has_success(records: Seq<MediaItem>, id: Seq<char>) -> bool {
    exists|i: int|
        0 <= i < records.len() && #[trigger] records[i].id@ == id && records[i].download_success
}

/// The index of the record carrying `id`.
pub open spec fn spec_index_of(records: Seq<MediaItem>, id: Seq<char>) -> int {
    choose|i: int| 0 <= i < records.len() && #[trigger] records[i].id@ == id
}

/// The record set after writing `item` under its id: an existing record
/// with the same id is replaced, otherwise the item is appended.
pub open spec fn spec_upsert(records: Seq<MediaItem>, item: MediaItem) -> Seq<MediaItem> {
    if spec_has_id(records, item.id@) {
        records.update(spec_index_of(records, item.id@), item)
    } else {
        records.push(item)
    }
}

/// Upserting changes no other key: afterwards an id is present exactly
/// when it was present before or is the id just written.
pub proof fn lemma_upsert_has_id(records: Seq<MediaItem>, item: MediaItem, id: Seq<char>)
    ensures
        spec_has_id(spec_upsert(records, item), id) <==> (spec_has_id(records, id) || id
            == item.id@),
{
    let post = spec_upsert(records, item);
    if spec_has_id(records, item.id@) {
        let j = spec_index_of(records, item.id@);
        assert(0 <= j < records.len() && records[j].id@ == item.id@);
        assert(post == records.update(j, item));
        if spec_has_id(records, id) {
            let i = choose|i: int| 0 <= i < records.len() && #[trigger] records[i].id@ == id;
            if i == j {
                assert(post[j].id@ == id);
            } else {
                assert(post[i].id@ == id);
            }
        }
        if id == item.id@ {
            assert(post[j].id@ == id);
        }
        if spec_has_id(post, id) {
            let i = choose|i: int| 0 <= i < post.len() && #[trigger] post[i].id@ == id;
            if i == j {
                assert(id == item.id@);
            } else {
                assert(records[i].id@ == id);
            }
        }
    } else {
        assert(post == records.push(item));
        if spec_has_id(records, id) {
            let i = choose|i: int| 0 <= i < records.len() && #[trigger] records[i].id@ == id;
            assert(post[i].id@ == id);
        }
        if id == item.id@ {
            assert(post[records.len() as int].id@ == id);
        }
        if spec_has_id(post, id) {
            let i = choose|i: int| 0 <= i < post.len() && #[trigger] post[i].id@ == id;
            if i == records.len() as int {
                assert(id == item.id@);
            } else {
                assert(records[i].id@ == id);
            }
        }
    }
}

/// The persistence store: every record ever upserted, keyed by remote id,
/// plus the checkpointed pagination cursor.
pub struct Store {
    pub records: Vec<MediaItem>,
    pub cursor: PaginationCursor,
}

impl View for Store {
    type V = Seq<MediaItem>;

    open spec fn view(&self) -> Seq<MediaItem> {
        self.records@
    }
}

impl Store {
    /// Record ids are unique: upsert keys by id, so no id appears twice.
    pub open spec fn wf(&self) -> bool {
        forall|i: int, j: int|
            #![trigger self@[i].id@, self@[j].id@]
            0 <= i < j < self@.len() ==> self@[i].id@ != self@[j].id@
    }

    /// An empty store with a fresh cursor.
    pub fn new() -> (r: Store)
        ensures
            r@ == Seq::<MediaItem>::empty(),
            r.wf(),
            r.cursor.next_token is None,
            r.cursor.prev_token is None,
            !r.cursor.initial_scan_complete,
    {
        Store { records: Vec::new(), cursor: PaginationCursor::new() }
    }

    /// Whether any record carries `id`, whatever its download outcome.
    pub fn contains_id(&self, id: &String) -> (r: bool)
        ensures
            r == spec_has_id(self@, id@),
    {
        let n = self.records.len();
        let mut i: usize = 0;
        while i < n
            invariant
                0 <= i <= n,
                n == self@.len(),
                forall|k: int| 0 <= k < i ==> #[trigger] self@[k].id@ != id@,
            decreases n - i,
        {
            if self.records[i].id == *id {
                return true;
            }
            i = i + 1;
        }
        false
    }

    /// Whether a record carrying `id` is marked as successfully downloaded.
    pub fn has_success(&self, id: &String) -> (r: bool)
        ensures
            r == spec_has_success(self@, id@),
    {
        let n = self.records.len();
        let mut i: usize = 0;
        while i < n
            invariant
                0 <= i <= n,
                n == self@.len(),
                forall|k: int|
                    0 <= k < i ==> !(#[trigger] self@[k].id@ == id@ && self@[k].download_success),
            decreases n - i,
        {
            if self.records[i].download_success && self.records[i].id == *id {
                return true;
            }
            i = i + 1;
        }
        false
    }

    /// Writes `item` under its id, replacing any previous record with that
    /// id, and returns the id it was stored under.
    pub fn upsert(&mut self, item: MediaItem) -> (r: String)
        requires
            old(self).wf(),
        ensures
            final(self)@ == spec_upsert(old(self)@, item),
            final(self).cursor == old(self).cursor,
            final(self).wf(),
            r@ == item.id@,
    {
        let id = item.id.clone();
        let n = self.records.len();
        let mut i: usize = 0;
        while i < n
            invariant
                0 <= i <= n,
                n == self@.len(),
                *self == *old(self),
                old(self).wf(),
                id@ == item.id@,
                forall|k: int| 0 <= k < i ==> #[trigger] self@[k].id@ != item.id@,
            decreases n - i,
        {
            if self.records[i].id == item.id {
                proof {
                    assert(old(self)@[i as int].id@ == item.id@);
                    assert(spec_has_id(old(self)@, item.id@));
                    let j = spec_index_of(old(self)@, item.id@);
                    assert(0 <= j < old(self)@.len() && old(self)@[j].id@ == item.id@);
                    assert(j == i as int) by {
                        if j < i as int {
                            assert(old(self)@[j].id@ != item.id@);
                        } else if j > i as int {
                            assert(old(self)@[i as int].id@ != old(self)@[j].id@);
                        }
                    }
                }
                self.records[i] = item;
                proof {
                    assert(self@ == old(self)@.update(i as int, item));
                    assert forall|a: int| 0 <= a < self@.len() implies #[trigger] self@[a].id@
                        == old(self)@[a].id@ by {
                        if a != i as int {
                            assert(self@[a] == old(self)@[a]);
                        }
                    }
                    assert forall|a: int, b: int| 0 <= a < b < self@.len() implies self@[a].id@
                        != self@[b].id@ by {
                        assert(old(self)@[a].id@ != old(self)@[b].id@);
                        assert(self@[a].id@ == old(self)@[a].id@);
                        assert(self@[b].id@ == old(self)@[b].id@);
                    }
                }
                return id;
            }
            i = i + 1;
        }
        self.records.push(item);
        id
    }

    /// The checkpointed cursor, as last saved.
    pub fn load_cursor(&self) -> (r: PaginationCursor)
        ensures
            r == self.cursor,
    {
        PaginationCursor {
            next_token: clone_opt_string(&self.cursor.next_token),
            prev_token: clone_opt_string(&self.cursor.prev_token),
            initial_scan_complete: self.cursor.initial_scan_complete,
        }
    }

    /// Checkpoints the cursor; the records are untouched.
    pub fn save_cursor(&mut self, cursor: PaginationCursor)
        ensures
            final(self).cursor == cursor,
            final(self)@ == old(self)@,
    {
        self.cursor = cursor;
    }
}

} // verus!
