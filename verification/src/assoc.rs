//! String-keyed association vectors with unique keys: the in-memory form
//! of the service's user, login-token and unclaimed-credential tables.

use vstd::prelude::*;

verus! {

/// True when some entry carries `key`.
pub open spec fn assoc_has<T>(m: Seq<(String, T)>, key: Seq<char>) -> bool {
    exists|i: int| 0 <= i < m.len() && #[trigger] m[i].0@ == key
}

/// The index of the entry carrying `key`.
pub open spec fn assoc_idx<T>(m: Seq<(String, T)>, key: Seq<char>) -> int {
    choose|i: int| 0 <= i < m.len() && #[trigger] m[i].0@ == key
}

/// The value stored under `key`.
pub open spec fn assoc_get<T>(m: Seq<(String, T)>, key: Seq<char>) -> T {
    m[assoc_idx(m, key)].1
}

/// Keys are unique.
pub open spec fn assoc_wf<T>(m: Seq<(String, T)>) -> bool {
    forall|i: int, j: int| #![trigger m[i].0@, m[j].0@] 0 <= i < j < m.len() ==> m[i].0@ != m[j].0@
}

/// The table after writing `value` under `key`: an entry with that key is
/// replaced, otherwise the pair is appended.
pub open spec fn assoc_upsert<T>(m: Seq<(String, T)>, key: String, value: T) -> Seq<(String, T)> {
    if assoc_has(m, key@) {
        m.update(assoc_idx(m, key@), (key, value))
    } else {
        m.push((key, value))
    }
}

/// The table after removing `key`: unchanged when the key is absent.
pub open spec fn assoc_removed<T>(m: Seq<(String, T)>, key: Seq<char>) -> Seq<(String, T)> {
    if assoc_has(m, key) {
        m.remove(assoc_idx(m, key))
    } else {
        m
    }
}

/// Removing an entry keeps the remaining keys unique and drops only the
/// removed key.
pub proof fn lemma_assoc_remove_wf<T>(m: Seq<(String, T)>, key: Seq<char>)
    requires
        assoc_wf(m),
    ensures
        assoc_wf(assoc_removed(m, key)),
        !assoc_has(assoc_removed(m, key), key),
        forall|k: Seq<char>|
            k != key ==> #[trigger] assoc_has(assoc_removed(m, key), k) == assoc_has(m, k),
{
    if assoc_has(m, key) {
        let at = assoc_idx(m, key);
        let post = m.remove(at);
        assert(0 <= at < m.len() && m[at].0@ == key);
        assert(forall|i: int| 0 <= i < at ==> post[i] == m[i]);
        assert(forall|i: int| at <= i < post.len() ==> post[i] == m[i + 1]);
        assert forall|i: int, j: int| #![trigger post[i].0@, post[j].0@] 0 <= i < j < post.len()
            implies post[i].0@ != post[j].0@ by {
            let oi = if i < at {
                i
            } else {
                i + 1
            };
            let oj = if j < at {
                j
            } else {
                j + 1
            };
            assert(m[oi].0@ != m[oj].0@);
        }
        assert forall|i: int| 0 <= i < post.len() implies #[trigger] post[i].0@ != key by {
            let oi = if i < at {
                i
            } else {
                i + 1
            };
            assert(post[i].0@ == m[oi].0@);
            if oi != at {
                assert(m[oi].0@ != m[at].0@);
            }
        }
        assert forall|k: Seq<char>| k != key implies #[trigger] assoc_has(post, k) == assoc_has(
            m,
            k,
        ) by {
            if assoc_has(m, k) {
                let i = choose|i: int| 0 <= i < m.len() && #[trigger] m[i].0@ == k;
                assert(i != at);
                if i < at {
                    assert(post[i].0@ == k);
                } else {
                    assert(post[i - 1].0@ == k);
                }
            }
            if assoc_has(post, k) {
                let i = choose|i: int| 0 <= i < post.len() && #[trigger] post[i].0@ == k;
                let oi = if i < at {
                    i
                } else {
                    i + 1
                };
                assert(m[oi].0@ == k);
            }
        }
    }
}

/// Upserting keeps keys unique, stores the value under the key, and
/// leaves every other key's presence alone.
pub proof fn lemma_assoc_upsert_wf<T>(m: Seq<(String, T)>, key: String, value: T)
    requires
        assoc_wf(m),
    ensures
        assoc_wf(assoc_upsert(m, key, value)),
        assoc_has(assoc_upsert(m, key, value), key@),
        assoc_get(assoc_upsert(m, key, value), key@) == value,
        forall|k: Seq<char>|
            k != key@ ==> #[trigger] assoc_has(assoc_upsert(m, key, value), k) == assoc_has(m, k),
        forall|k: Seq<char>|
            k != key@ && assoc_has(m, k) ==> #[trigger] assoc_get(assoc_upsert(m, key, value), k)
                == assoc_get(m, k),
{
    let post = assoc_upsert(m, key, value);
    if assoc_has(m, key@) {
        let at = assoc_idx(m, key@);
        assert(0 <= at < m.len() && m[at].0@ == key@);
        assert(post == m.update(at, (key, value)));
        assert(forall|i: int| 0 <= i < post.len() ==> #[trigger] post[i].0@ == m[i].0@);
        assert(post[at].0@ == key@);
        let widx = assoc_idx(post, key@);
        assert(0 <= widx < post.len() && post[widx].0@ == key@);
        assert(widx == at) by {
            if widx != at {
                assert(m[widx].0@ == key@);
                assert(m[widx].0@ != m[at].0@ || widx == at);
            }
        }
        assert(assoc_get(post, key@) == value);
    } else {
        assert(post == m.push((key, value)));
        let at = m.len() as int;
        assert(post[at].0@ == key@);
        assert(forall|i: int| 0 <= i < at ==> #[trigger] post[i].0@ == m[i].0@);
        assert forall|i: int, j: int| #![trigger post[i].0@, post[j].0@] 0 <= i < j < post.len()
            implies post[i].0@ != post[j].0@ by {
            if j == at {
                assert(post[i].0@ == m[i].0@);
            }
        }
        let widx = assoc_idx(post, key@);
        assert(0 <= widx < post.len() && post[widx].0@ == key@);
        assert(widx == at) by {
            if widx < at {
                assert(m[widx].0@ == key@);
            }
        }
        assert(assoc_get(post, key@) == value);
    }
    assert forall|k: Seq<char>| k != key@ implies #[trigger] assoc_has(post, k) == assoc_has(
        m,
        k,
    ) by {
        if assoc_has(m, k) {
            let i = choose|i: int| 0 <= i < m.len() && #[trigger] m[i].0@ == k;
            assert(post[i].0@ == k);
        }
        if assoc_has(post, k) {
            let i = choose|i: int| 0 <= i < post.len() && #[trigger] post[i].0@ == k;
            if i < m.len() {
                assert(m[i].0@ == k);
            }
        }
    }
    assert forall|k: Seq<char>| k != key@ && assoc_has(m, k) implies #[trigger] assoc_get(
        post,
        k,
    ) == assoc_get(m, k) by {
        let i = assoc_idx(m, k);
        assert(0 <= i < m.len() && m[i].0@ == k);
        assert(post[i] == m[i]);
        let j = assoc_idx(post, k);
        assert(0 <= j < post.len() && post[j].0@ == k);
        assert(j == i) by {
            if j != i {
                assert(post[i].0@ != post[j].0@);
            }
        }
    }
}

/// Finds the entry carrying `key`.
pub fn assoc_find<T>(m: &Vec<(String, T)>, key: &String) -> (r: Option<usize>)
    ensures
        match r {
            Some(i) => 0 <= i < m@.len() && m@[i as int].0@ == key@ && (forall|j: int|
                0 <= j < i ==> #[trigger] m@[j].0@ != key@),
            None => !assoc_has(m@, key@),
        },
{
    let n = m.len();
    let mut i: usize = 0;
    while i < n
        invariant
            0 <= i <= n,
            n == m@.len(),
            forall|j: int| 0 <= j < i ==> #[trigger] m@[j].0@ != key@,
        decreases n - i,
    {
        if m[i].0 == *key {
            return Some(i);
        }
        i = i + 1;
    }
    None
}

/// A shared reference to the value under `key`.
pub fn assoc_get_ref<'a, T>(m: &'a Vec<(String, T)>, key: &String) -> (r: Option<&'a T>)
    requires
        assoc_wf(m@),
    ensures
        match r {
            Some(v) => assoc_has(m@, key@) && *v == assoc_get(m@, key@),
            None => !assoc_has(m@, key@),
        },
{
    match assoc_find(m, key) {
        Some(i) => {
            proof {
                let at = assoc_idx(m@, key@);
                assert(0 <= at < m@.len() && m@[at].0@ == key@);
                assert(at == i) by {
                    if at < i {
                        assert(m@[at].0@ != key@);
                    } else if at > i {
                        assert(m@[i as int].0@ != m@[at].0@);
                    }
                }
            }
            Some(&m[i].1)
        },
        None => None,
    }
}

/// Writes `value` under `key`, replacing any entry with that key.
pub fn assoc_upsert_exec<T>(m: &mut Vec<(String, T)>, key: String, value: T)
    requires
        assoc_wf(old(m)@),
    ensures
        final(m)@ == assoc_upsert(old(m)@, key, value),
        assoc_wf(final(m)@),
        assoc_has(final(m)@, key@),
        assoc_get(final(m)@, key@) == value,
        forall|k: Seq<char>|
            k != key@ ==> #[trigger] assoc_has(final(m)@, k) == assoc_has(old(m)@, k),
        forall|k: Seq<char>|
            k != key@ && assoc_has(old(m)@, k) ==> #[trigger] assoc_get(final(m)@, k) == assoc_get(
                old(m)@,
                k,
            ),
{
    proof {
        lemma_assoc_upsert_wf(old(m)@, key, value);
    }
    match assoc_find(m, &key) {
        Some(i) => {
            proof {
                let at = assoc_idx(m@, key@);
                assert(0 <= at < m@.len() && m@[at].0@ == key@);
                assert(at == i) by {
                    if at < i {
                        assert(m@[at].0@ != key@);
                    } else if at > i {
                        assert(m@[i as int].0@ != m@[at].0@);
                    }
                }
            }
            m[i] = (key, value);
        },
        None => {
            m.push((key, value));
        },
    }
}

/// Removes and returns the value under `key`, if present.
pub fn assoc_remove_exec<T>(m: &mut Vec<(String, T)>, key: &String) -> (r: Option<T>)
    requires
        assoc_wf(old(m)@),
    ensures
        final(m)@ == assoc_removed(old(m)@, key@),
        assoc_wf(final(m)@),
        match r {
            Some(_) => assoc_has(old(m)@, key@),
            None => !assoc_has(old(m)@, key@) && final(m)@ == old(m)@,
        },
        r matches Some(v) ==> v == assoc_get(old(m)@, key@),
{
    proof {
        lemma_assoc_remove_wf(old(m)@, key@);
    }
    match assoc_find(m, key) {
        Some(i) => {
            proof {
                let at = assoc_idx(m@, key@);
                assert(0 <= at < m@.len() && m@[at].0@ == key@);
                assert(at == i) by {
                    if at < i {
                        assert(m@[at].0@ != key@);
                    } else if at > i {
                        assert(m@[i as int].0@ != m@[at].0@);
                    }
                }
            }
            let pair = m.remove(i);
            Some(pair.1)
        },
        None => None,
    }
}

} // verus!
