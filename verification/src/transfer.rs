//! Decisions around one streaming transfer: which download variant the
//! item's MIME type selects, the exact request locator, and the overall
//! deadline the transfer must finish within.

use vstd::prelude::*;

use crate::items::MediaItem;

verus! {

/// Deadline for a transfer whose length is unknown, in seconds.
pub const UNKNOWN_LENGTH_DEADLINE_SECS: u64 = 600;

/// True when `needle` occurs contiguously inside `hay`.
pub open spec fn spec_contains_seq(hay: Seq<char>, needle: Seq<char>) -> bool {
    exists|i: int|
        0 <= i && i + needle.len() <= hay.len() && #[trigger] hay.subrange(i, i + needle.len())
            == needle
}

/// Substring search by character comparison.
pub fn contains_str(hay: &str, needle: &str) -> (r: bool)
    ensures
        r == spec_contains_seq(hay@, needle@),
{
    let h = hay.unicode_len();
    let m = needle.unicode_len();
    if m > h {
        return false;
    }
    let mut i: usize = 0;
    while i <= h - m
        invariant
            0 <= i <= h - m + 1,
            m <= h,
            h == hay@.len(),
            m == needle@.len(),
            forall|x: int|
                0 <= x < i ==> #[trigger] hay@.subrange(x, x + needle@.len()) != needle@,
        decreases h - m + 1 - i,
    {
        let mut j: usize = 0;
        let mut mismatch = false;
        while j < m && !mismatch
            invariant
                0 <= j <= m,
                0 <= i <= h - m,
                h == hay@.len(),
                m == needle@.len(),
                !mismatch ==> forall|y: int| 0 <= y < j ==> hay@[i + y] == needle@[y],
                mismatch ==> m > 0 && hay@.subrange(i as int, i + needle@.len()) != needle@,
            decreases m - j,
        {
            let hc = hay.get_char(i + j);
            let nc = needle.get_char(j);
            if hc != nc {
                proof {
                    assert(hay@.subrange(i as int, i + needle@.len())[j as int] != needle@[j as int]);
                }
                mismatch = true;
            }
            j = j + 1;
        }
        if !mismatch {
            proof {
                assert(hay@.subrange(i as int, i + needle@.len()) =~= needle@);
            }
            return true;
        }
        i = i + 1;
    }
    proof {
        assert forall|x: int| 0 <= x && x + needle@.len() <= hay@.len() implies #[trigger] hay@.subrange(
            x,
            x + needle@.len(),
        ) != needle@ by {
            assert(x < i);
        }
    }
    false
}

/// Whether the item's MIME type marks it as a video.
pub fn is_video_mime(mime: &Option<String>) -> (r: bool)
    ensures
        r == match mime {
            Some(m) => spec_contains_seq(m@, "video"@),
            None => false,
        },
{
    match mime {
        Some(m) => contains_str(m.as_str(), "video"),
        None => false,
    }
}

/// The locator suffix selecting the download variant: the original bytes
/// for a photo, the processed stream for a video.
pub fn download_param(mime: &Option<String>) -> (r: &'static str)
    ensures
        r@ == if (match mime {
            Some(m) => spec_contains_seq(m@, "video"@),
            None => false,
        }) {
            "dv"@
        } else {
            "d"@
        },
{
    if is_video_mime(mime) {
        "dv"
    } else {
        "d"
    }
}

/// The full transport locator for one item: its short-lived base locator
/// plus the variant suffix.
pub fn download_url(item: &MediaItem) -> (r: String)
    ensures
        r@ == item.baseUrl@ + "="@ + (if (match item.mimeType {
            Some(m) => spec_contains_seq(m@, "video"@),
            None => false,
        }) {
            "dv"@
        } else {
            "d"@
        }),
{
    let param = download_param(&item.mimeType);
    item.baseUrl.clone().concat("=").concat(param)
}

/// The transfer deadline in seconds: scaled to the declared length at the
/// effective rate (at least 1 MB/s is assumed available), with a floor and
/// a constant allowance; a generous fixed ceiling when the response
/// declares no length.
pub open spec fn spec_deadline_secs(content_length: Option<u64>, ceiling: u64) -> int {
    match content_length {
        Some(len) => {
            let denom: int = if ceiling > 1000000 {
                ceiling as int
            } else {
                1000000
            };
            let scaled = (len as int / denom) * 2;
            (if scaled < 2 {
                2
            } else {
                scaled
            }) + 5
        },
        None => UNKNOWN_LENGTH_DEADLINE_SECS as int,
    }
}

/// Computes the deadline for one transfer.
pub fn transfer_deadline_secs(content_length: Option<u64>, ceiling: u64) -> (r: u64)
    ensures
        r == spec_deadline_secs(content_length, ceiling),
{
    match content_length {
        Some(len) => {
            let denom: u64 = if ceiling > 1000000 {
                ceiling
            } else {
                1000000
            };
            let q = len / denom;
            proof {
                vstd::arithmetic::div_mod::lemma_div_is_ordered_by_denominator(
                    len as int,
                    1000000,
                    denom as int,
                );
                assert(len as int / 1000000 <= u64::MAX / 1000000);
            }
            let scaled = q * 2;
            let floored = if scaled < 2 {
                2
            } else {
                scaled
            };
            floored + 5
        },
        None => UNKNOWN_LENGTH_DEADLINE_SECS,
    }
}

} // verus!
