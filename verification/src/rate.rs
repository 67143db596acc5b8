//! Byte-throughput throttling for the streaming download. Bytes are
//! counted against fixed 100 ms windows: when the count for the current
//! window passes a tenth of the configured ceiling, the transfer sleeps
//! for the remainder of the window and the counter resets. A ceiling of
//! zero means unlimited.

use vstd::prelude::*;

verus! {

/// Largest read chunk, in bytes.
pub const CHUNK_CAP_BYTES: u64 = 1024;

/// Measurement window length, in milliseconds.
pub const WINDOW_MILLIS: u64 = 100;

/// Bytes allowed per measurement window: a tenth of the per-second ceiling.
pub open spec fn spec_window_limit(ceiling: nat) -> nat {
    ceiling / 10
}

/// The read-buffer size for a given ceiling: up to a window's allowance,
/// capped at `CHUNK_CAP_BYTES`, at least one byte; unlimited transfers use
/// the full cap.
pub open spec fn spec_chunk_size(ceiling: nat) -> nat {
    if ceiling == 0 {
        CHUNK_CAP_BYTES as nat
    } else if spec_window_limit(ceiling) == 0 {
        1
    } else if spec_window_limit(ceiling) < CHUNK_CAP_BYTES as nat {
        spec_window_limit(ceiling)
    } else {
        CHUNK_CAP_BYTES as nat
    }
}

/// One accounting step: add a chunk to the window counter; crossing the
/// window allowance closes the window (sleep and reset). An unlimited
/// ceiling never closes a window.
pub open spec fn spec_note_step(ceiling: nat, window_bytes: nat, n: nat) -> (nat, bool) {
    if ceiling == 0 {
        (window_bytes, false)
    } else if window_bytes + n > spec_window_limit(ceiling) {
        (0, true)
    } else {
        (window_bytes + n, false)
    }
}

/// The rolling byte budget of the transfer in progress.
pub struct RateLimiter {
    /// Configured ceiling in bytes per second; 0 means unlimited.
    pub ceiling: u64,
    /// Bytes already counted against the current window.
    pub window_bytes: u64,
}

impl RateLimiter {
    /// The counter never exceeds the window allowance between steps.
    pub open spec fn wf(&self) -> bool {
        self.ceiling > 0 ==> self.window_bytes as nat <= spec_window_limit(self.ceiling as nat)
    }

    pub fn new(ceiling: u64) -> (r: RateLimiter)
        ensures
            r.ceiling == ceiling,
            r.window_bytes == 0,
            r.wf(),
    {
        RateLimiter { ceiling, window_bytes: 0 }
    }

    /// The read-buffer size for this transfer.
    pub fn chunk_size(&self) -> (r: usize)
        ensures
            r as nat == spec_chunk_size(self.ceiling as nat),
            1 <= r <= CHUNK_CAP_BYTES,
    {
        if self.ceiling == 0 {
            CHUNK_CAP_BYTES as usize
        } else {
            let limit = self.ceiling / 10;
            if limit == 0 {
                1
            } else if limit < CHUNK_CAP_BYTES {
                limit as usize
            } else {
                CHUNK_CAP_BYTES as usize
            }
        }
    }

    /// Counts `n` freshly written bytes. Returns true when the caller must
    /// sleep out the rest of the window before reading on; the counter has
    /// then been reset for the next window.
    pub fn note_bytes(&mut self, n: u64) -> (sleep: bool)
        requires
            old(self).wf(),
            n <= CHUNK_CAP_BYTES,
        ensures
            final(self).ceiling == old(self).ceiling,
            final(self).wf(),
            (final(self).window_bytes as nat, sleep) == spec_note_step(
                old(self).ceiling as nat,
                old(self).window_bytes as nat,
                n as nat,
            ),
    {
        if self.ceiling == 0 {
            return false;
        }
        let limit = self.ceiling / 10;
        let total = self.window_bytes + n;
        if total > limit {
            self.window_bytes = 0;
            true
        } else {
            self.window_bytes = total;
            false
        }
    }
}

/// The limiter run over a whole trace of chunk sizes: the counter left in
/// the open window, and the byte total of every window that was closed.
pub open spec fn spec_windows(ceiling: nat, chunks: Seq<nat>) -> (nat, Seq<nat>)
    decreases chunks.len(),
{
    if chunks.len() == 0 {
        (0, Seq::<nat>::empty())
    } else {
        let prev = spec_windows(ceiling, chunks.drop_last());
        let step = spec_note_step(ceiling, prev.0, chunks.last());
        if step.1 {
            (step.0, prev.1.push(prev.0 + chunks.last()))
        } else {
            (step.0, prev.1)
        }
    }
}

/// Sum of a sequence of byte counts.
pub open spec fn spec_sum(s: Seq<nat>) -> nat
    decreases s.len(),
{
    if s.len() == 0 {
        0
    } else {
        spec_sum(s.drop_last()) + s.last()
    }
}

/// Rate limiting, per window: however the stream delivers its chunks (each
/// at most `chunk_cap` bytes), no measurement window is charged more than
/// the window allowance plus a single chunk, and the still-open window
/// stays within the allowance.
pub proof fn lemma_rate_window_bound(ceiling: nat, chunks: Seq<nat>, chunk_cap: nat)
    requires
        ceiling > 0,
        forall|i: int| 0 <= i < chunks.len() ==> #[trigger] chunks[i] <= chunk_cap,
    ensures
        ({
            let (open_bytes, closed) = spec_windows(ceiling, chunks);
            &&& open_bytes <= spec_window_limit(ceiling)
            &&& forall|j: int|
                0 <= j < closed.len() ==> #[trigger] closed[j] <= spec_window_limit(ceiling)
                    + chunk_cap
        }),
    decreases chunks.len(),
{
    if chunks.len() > 0 {
        lemma_rate_window_bound(ceiling, chunks.drop_last(), chunk_cap);
        let prev = spec_windows(ceiling, chunks.drop_last());
        let n = chunks.last();
        assert(n <= chunk_cap);
        let step = spec_note_step(ceiling, prev.0, n);
        if step.1 {
            let closed = spec_windows(ceiling, chunks).1;
            assert(closed == prev.1.push(prev.0 + n));
            assert(forall|j: int|
                0 <= j < closed.len() - 1 ==> closed[j] == prev.1[j]);
            assert(closed[closed.len() - 1] == prev.0 + n);
        }
    }
}

/// Rate limiting, over a second: ten consecutive closed windows cover one
/// second, and their total cannot exceed the ceiling by more than ten
/// chunks. Stated for any span of `k` windows: the span's byte total is at
/// most `k` window allowances plus `k` chunks, so for `k == 10` at most
/// the per-second ceiling plus ten chunks.
pub proof fn lemma_rate_span_bound(ceiling: nat, chunks: Seq<nat>, chunk_cap: nat, a: int, b: int)
    requires
        ceiling > 0,
        forall|i: int| 0 <= i < chunks.len() ==> #[trigger] chunks[i] <= chunk_cap,
        0 <= a <= b <= spec_windows(ceiling, chunks).1.len(),
    ensures
        spec_sum(spec_windows(ceiling, chunks).1.subrange(a, b)) <= (b - a) * (spec_window_limit(
            ceiling,
        ) + chunk_cap),
    decreases b - a,
{
    let closed = spec_windows(ceiling, chunks).1;
    if a < b {
        lemma_rate_span_bound(ceiling, chunks, chunk_cap, a, b - 1);
        lemma_rate_window_bound(ceiling, chunks, chunk_cap);
        let span = closed.subrange(a, b);
        assert(span.drop_last() =~= closed.subrange(a, b - 1));
        assert(span.last() == closed[b - 1]);
        assert(closed[b - 1] <= spec_window_limit(ceiling) + chunk_cap);
        assert((b - a) * (spec_window_limit(ceiling) + chunk_cap) == (b - 1 - a) * (
        spec_window_limit(ceiling) + chunk_cap) + (spec_window_limit(ceiling) + chunk_cap))
            by (nonlinear_arith);
    } else {
        assert(closed.subrange(a, b) =~= Seq::<nat>::empty());
    }
}

/// Rate limiting, for one second exactly: the ten measurement windows
/// that make up a second receive at most the per-second ceiling plus ten
/// chunks in total, however the stream delivers its bytes.
pub proof fn lemma_rate_one_second_bound(
    ceiling: nat,
    chunks: Seq<nat>,
    chunk_cap: nat,
    a: int,
)
    requires
        ceiling > 0,
        forall|i: int| 0 <= i < chunks.len() ==> #[trigger] chunks[i] <= chunk_cap,
        0 <= a,
        a + 10 <= spec_windows(ceiling, chunks).1.len(),
    ensures
        spec_sum(spec_windows(ceiling, chunks).1.subrange(a, a + 10)) <= ceiling + 10 * chunk_cap,
{
    lemma_rate_span_bound(ceiling, chunks, chunk_cap, a, a + 10);
    assert(10 * (spec_window_limit(ceiling) + chunk_cap) == 10 * spec_window_limit(ceiling) + 10
        * chunk_cap) by (nonlinear_arith);
    assert(10 * spec_window_limit(ceiling) <= ceiling) by (nonlinear_arith)
        requires spec_window_limit(ceiling) == ceiling / 10 && ceiling > 0,
    ;
}

} // verus!
