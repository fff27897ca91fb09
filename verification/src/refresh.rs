//! The refresh scan: drain a source's candidate stream until the scan has
//! caught up with the high-water mark, hand accepted items out in chunks of
//! ten, and decide at the end whether the mark may advance.
//!
//! The stream itself is lazy and lives with the caller; this module is the
//! state machine the caller feeds one stream element at a time.  The mark
//! advances only after a clean scan, so an upstream error makes the next run
//! resume from the same point.
use vstd::prelude::*;

use crate::model::VideoInfo;
use crate::status::ErrorInfo;

verus! {

/// Accepted items are buffered and written in chunks of this many rows.
pub const CHUNK_SIZE: usize = 10;

/// How a source's listing is paginated, which decides when the scan stops.
#[derive(Clone, Copy, Debug)]
pub struct RefreshConfig {
    /// `Some(n)`: the upstream lists `n` items per request, newest first, and
    /// the scan stops at the first page that starts at or below the mark.
    /// `None`: the listing comes whole (a bangumi season) and is read to the
    /// end.
    pub page_size: Option<usize>,
}

impl RefreshConfig {
    pub open spec fn wf(&self) -> bool {
        self.page_size is Some ==> self.page_size->0 > 0
    }
}

/// The pagination-aware stop predicate: consumption ends at the first item of
/// a page that is not newer than the high-water mark.  Items in the middle of
/// a page are always taken, because upstream inserts can shift older items
/// across page boundaries mid-scan.
pub open spec fn spec_should_take(
    page_size: Option<usize>,
    idx: nat,
    release_at: i64,
    hwm: i64,
) -> bool {
    match page_size {
        Option::None => true,
        Option::Some(p) => !(idx % (p as nat) == 0 && release_at <= hwm),
    }
}

/// Whether an item that the scan reached is kept for ingestion.
pub open spec fn spec_kept(cfg: RefreshConfig, idx: nat, hwm: i64, item: VideoInfo) -> bool {
    spec_should_take(cfg.page_size, idx, item.spec_release_at(), hwm) && !item.spec_unfilled()
}

/// The largest release time observed, starting from the high-water mark.
pub open spec fn max_seen_after(hwm: i64, ts: Seq<i64>) -> i64
    decreases ts.len(),
{
    if ts.len() == 0 {
        hwm
    } else {
        let prev = max_seen_after(hwm, ts.drop_last());
        if ts.last() > prev {
            ts.last()
        } else {
            prev
        }
    }
}

/// High-water monotonicity: the value the scan tracks never falls below the
/// mark it started from, bounds every observed release time, and is either
/// the old mark or one of the observed times.
pub proof fn lemma_max_seen_bounds(hwm: i64, ts: Seq<i64>)
    ensures
        max_seen_after(hwm, ts) >= hwm,
        forall|i: int| 0 <= i < ts.len() ==> max_seen_after(hwm, ts) >= ts[i],
        max_seen_after(hwm, ts) == hwm || exists|i: int|
            0 <= i < ts.len() && max_seen_after(hwm, ts) == ts[i],
    decreases ts.len(),
{
    if ts.len() > 0 {
        lemma_max_seen_bounds(hwm, ts.drop_last());
        assert(forall|i: int| 0 <= i < ts.len() - 1 ==> ts.drop_last()[i] == ts[i]);
        assert(ts.last() == ts[ts.len() - 1]);
    }
}

/// Idempotence of the high-water mark: a second scan of the same release
/// times, started from the mark the first one produced, observes nothing
/// newer and so does not advance it again.
pub proof fn lemma_high_water_idempotent(hwm: i64, ts: Seq<i64>)
    ensures
        max_seen_after(max_seen_after(hwm, ts), ts) == max_seen_after(hwm, ts),
    decreases ts.len(),
{
    let m = max_seen_after(hwm, ts);
    lemma_max_seen_bounds(hwm, ts);
    lemma_max_seen_from_upper_bound(m, ts);
}

/// A scan started at or above every release time stays where it started.
proof fn lemma_max_seen_from_upper_bound(hwm: i64, ts: Seq<i64>)
    requires
        forall|i: int| 0 <= i < ts.len() ==> hwm >= ts[i],
    ensures
        max_seen_after(hwm, ts) == hwm,
    decreases ts.len(),
{
    if ts.len() > 0 {
        assert(forall|i: int| 0 <= i < ts.len() - 1 ==> ts.drop_last()[i] == ts[i]);
        lemma_max_seen_from_upper_bound(hwm, ts.drop_last());
    }
}

/// What a finished scan tells the caller to do.
#[derive(Debug)]
pub enum RefreshOutcome {
    /// The stream failed; nothing more may be read and the high-water mark
    /// must not move, so the next run resumes from the same point.
    Failed(ErrorInfo),
    /// The scan completed.  `new_latest_row_at` is the value to persist as
    /// the new high-water mark, or `None` when it did not move.
    Completed { new_latest_row_at: Option<i64>, count: usize },
}

/// The scan's state, advanced by one stream element at a time.
pub struct RefreshScan {
    pub cfg: RefreshConfig,
    /// The high-water mark at the start of the run; never changed by the scan.
    pub latest_row_at: i64,
    /// The largest release time observed so far (at least `latest_row_at`).
    pub max_seen: i64,
    /// Index of the next stream element.
    pub idx: usize,
    /// Set when consumption ended: caught up, or failed.
    pub stopped: bool,
    /// The error that ended the stream, if one did.
    pub failed: Option<ErrorInfo>,
    /// Accepted items not yet handed out as a chunk.
    pub buffer: Vec<VideoInfo>,
    /// Items handed out in chunks so far.
    pub count: usize,
    /// All release times observed, in stream order.
    pub seen: Ghost<Seq<i64>>,
    /// All items accepted, in stream order.
    pub accepted: Ghost<Seq<VideoInfo>>,
    /// The prefix of `accepted` already handed out in chunks.
    pub emitted: Ghost<Seq<VideoInfo>>,
}

impl RefreshScan {
    pub open spec fn wf(&self) -> bool {
        &&& self.cfg.wf()
        &&& self.idx == self.seen@.len()
        &&& self.max_seen == max_seen_after(self.latest_row_at, self.seen@)
        &&& self.accepted@ == self.emitted@ + self.buffer@
        &&& self.count == self.emitted@.len()
        &&& self.buffer@.len() < CHUNK_SIZE
        &&& (self.failed is Some ==> self.stopped)
    }

    /// Start a scan at the source's current high-water mark.
    pub fn begin(cfg: RefreshConfig, latest_row_at: i64) -> (s: Self)
        requires
            cfg.wf(),
        ensures
            s.wf(),
            s.cfg == cfg,
            s.latest_row_at == latest_row_at,
            s.max_seen == latest_row_at,
            !s.stopped,
            s.failed is None,
            s.seen@ == Seq::<i64>::empty(),
            s.accepted@ == Seq::<VideoInfo>::empty(),
            s.emitted@ == Seq::<VideoInfo>::empty(),
    {
        let s = RefreshScan {
            cfg,
            latest_row_at,
            max_seen: latest_row_at,
            idx: 0,
            stopped: false,
            failed: None,
            buffer: Vec::new(),
            count: 0,
            seen: Ghost(Seq::empty()),
            accepted: Ghost(Seq::empty()),
            emitted: Ghost(Seq::empty()),
        };
        proof {
            assert(s.accepted@ =~= s.emitted@ + s.buffer@);
        }
        s
    }

    /// Feed the next item of the stream.  Returns a full chunk of ten rows
    /// when the buffer fills.  After this sets `stopped`, the caller stops
    /// pulling the stream.
    pub fn on_item(&mut self, item: VideoInfo) -> (chunk: Option<Vec<VideoInfo>>)
        requires
            old(self).wf(),
            !old(self).stopped,
            old(self).failed is None,
            old(self).idx < usize::MAX,
            old(self).count <= usize::MAX - CHUNK_SIZE,
        ensures
            final(self).wf(),
            final(self).cfg == old(self).cfg,
            final(self).latest_row_at == old(self).latest_row_at,
            final(self).failed is None,
            final(self).seen@ == old(self).seen@.push(item.spec_release_at()),
            final(self).idx == old(self).idx + 1,
            final(self).stopped == !spec_should_take(
                old(self).cfg.page_size,
                old(self).idx as nat,
                item.spec_release_at(),
                old(self).latest_row_at,
            ),
            final(self).accepted@ == if spec_kept(
                old(self).cfg,
                old(self).idx as nat,
                old(self).latest_row_at,
                item,
            ) {
                old(self).accepted@.push(item)
            } else {
                old(self).accepted@
            },
            match chunk {
                Option::Some(c) => {
                    &&& c@.len() == CHUNK_SIZE
                    &&& final(self).emitted@ == old(self).emitted@ + c@
                    &&& final(self).accepted@ == final(self).emitted@
                },
                Option::None => final(self).emitted@ == old(self).emitted@,
            },
    {
        let t = item.release_at();
        proof {
            let ts = self.seen@.push(t);
            assert(ts.drop_last() =~= self.seen@);
        }
        self.seen = Ghost(self.seen@.push(t));
        if t > self.max_seen {
            self.max_seen = t;
        }
        let take = match self.cfg.page_size {
            Option::None => true,
            Option::Some(p) => !(self.idx % p == 0 && t <= self.latest_row_at),
        };
        self.idx = self.idx + 1;
        if !take {
            self.stopped = true;
            return None;
        }
        if item.is_unfilled() {
            return None;
        }
        self.accepted = Ghost(self.accepted@.push(item));
        self.buffer.push(item);
        if self.buffer.len() == CHUNK_SIZE {
            let mut full: Vec<VideoInfo> = Vec::new();
            core::mem::swap(&mut full, &mut self.buffer);
            self.emitted = Ghost(self.emitted@ + full@);
            self.count = self.count + CHUNK_SIZE;
            proof {
                assert(self.accepted@ =~= self.emitted@ + self.buffer@);
            }
            return Some(full);
        }
        None
    }

    /// Record that the stream itself failed.  Consumption ends here and the
    /// outcome will forbid advancing the high-water mark.
    pub fn on_error(&mut self, e: ErrorInfo)
        requires
            old(self).wf(),
            !old(self).stopped,
            old(self).failed is None,
        ensures
            final(self).wf(),
            *final(self) == (RefreshScan {
                stopped: true,
                failed: Some(e),
                ..*old(self)
            }),
    {
        self.stopped = true;
        self.failed = Some(e);
    }

    /// Hand out whatever accepted items are still buffered.  Called once,
    /// after consumption ended.
    pub fn finish(&mut self) -> (chunk: Option<Vec<VideoInfo>>)
        requires
            old(self).wf(),
            old(self).count <= usize::MAX - CHUNK_SIZE,
        ensures
            final(self).wf(),
            final(self).cfg == old(self).cfg,
            final(self).latest_row_at == old(self).latest_row_at,
            final(self).max_seen == old(self).max_seen,
            final(self).failed == old(self).failed,
            final(self).seen@ == old(self).seen@,
            final(self).accepted@ == old(self).accepted@,
            final(self).emitted@ == final(self).accepted@,
            final(self).count == final(self).accepted@.len(),
            match chunk {
                Option::Some(c) => c@ == old(self).buffer@ && c@.len() > 0,
                Option::None => old(self).buffer@.len() == 0,
            },
    {
        if self.buffer.len() == 0 {
            proof {
                assert(self.accepted@ =~= self.emitted@);
            }
            return None;
        }
        let mut full: Vec<VideoInfo> = Vec::new();
        core::mem::swap(&mut full, &mut self.buffer);
        self.emitted = Ghost(self.emitted@ + full@);
        self.count = self.count + full.len();
        proof {
            assert(self.accepted@ =~= self.emitted@ + self.buffer@);
            assert(self.accepted@ =~= self.emitted@);
        }
        Some(full)
    }

    /// What the run must do now that the scan is over: propagate the stream's
    /// error without touching the high-water mark, or report completion and
    /// the mark's new value — the largest release time observed — when it
    /// moved.
    pub fn outcome(self) -> (r: RefreshOutcome)
        requires
            self.wf(),
        ensures
            match r {
                RefreshOutcome::Failed(e) => self.failed == Some(e),
                RefreshOutcome::Completed { new_latest_row_at, count } => {
                    &&& self.failed is None
                    &&& count == self.count
                    &&& new_latest_row_at == if self.max_seen != self.latest_row_at {
                        Some(self.max_seen)
                    } else {
                        Option::<i64>::None
                    }
                    &&& (new_latest_row_at is Some ==> new_latest_row_at->0
                        == max_seen_after(self.latest_row_at, self.seen@))
                },
            },
    {
        match self.failed {
            Option::Some(e) => RefreshOutcome::Failed(e),
            Option::None => RefreshOutcome::Completed {
                new_latest_row_at: if self.max_seen != self.latest_row_at {
                    Some(self.max_seen)
                } else {
                    None
                },
                count: self.count,
            },
        }
    }
}

} // verus!
