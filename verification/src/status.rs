//! Status bitfield for the five subtasks of a video or a page.
//!
//! Each database row stores one `u32` whose five lowest 3-bit fields encode
//! the state of the five subtasks: `0` means not started, `1..=MAX_RETRY`
//! means failed that many times (retried on the next run), `MAX_RETRY + 1`
//! means permanently failed, and `7` means succeeded.
use vstd::prelude::*;

verus! {

/// Number of times a failed subtask is retried before it is given up.
pub const MAX_RETRY: u32 = 3;

/// Field value of a subtask that succeeded.
pub const STATUS_OK: u32 = 7;

/// Classification of an error, used by the scheduler to decide whether a
/// whole run must abort.
#[derive(Clone, Copy, Debug, PartialEq, Eq, Structural)]
pub enum ErrorKind {
    /// The site's rate-limit / ban subsystem fired; fatal to the run.
    RiskControl,
    /// The upstream answered that the resource is gone; invalidates the row.
    NotFound,
    /// Anything else; logged and retried on the next run.
    Recoverable,
}

/// An error as the scheduler sees it: a class and a human-readable message.
#[derive(Debug)]
pub struct ErrorInfo {
    pub kind: ErrorKind,
    pub message: String,
}

/// Outcome of one subtask execution.
#[derive(Debug)]
pub enum ExecutionStatus {
    /// The subtask did not need to run.
    Skipped,
    /// The subtask ran and succeeded.
    Succeeded,
    /// The subtask failed in a known, unrecoverable but expected way
    /// (for example: the page has no subtitles); recorded as success.
    Ignored(ErrorInfo),
    /// The subtask failed; the retry counter is bumped.
    Failed(ErrorInfo),
    /// The subtask's field is overwritten with the given value; used by the
    /// page aggregator to propagate the worst child state to the parent.
    Fixed(u32),
}

/// A subtask field is one of: not started, failed 1..=MAX_RETRY times,
/// permanently failed, or succeeded.
pub open spec fn field_valid(f: u32) -> bool {
    f <= MAX_RETRY + 1 || f == STATUS_OK
}

/// True iff a subtask with this field value is (re-)entered by a run.
pub open spec fn spec_should_run_field(f: u32) -> bool {
    f <= MAX_RETRY
}

/// The field value after one more failure: bumped, saturating at the
/// permanent-failure value.
pub open spec fn bumped(f: u32) -> u32 {
    if f < MAX_RETRY + 1 {
        (f + 1) as u32
    } else {
        (MAX_RETRY + 1) as u32
    }
}

/// The field value after a run whose subtask ended with `r`.
pub open spec fn updated_field(f: u32, r: &ExecutionStatus) -> u32 {
    match r {
        ExecutionStatus::Skipped => f,
        ExecutionStatus::Succeeded => STATUS_OK,
        ExecutionStatus::Ignored(_) => STATUS_OK,
        ExecutionStatus::Failed(_) => bumped(f),
        ExecutionStatus::Fixed(n) => *n,
    }
}

/// Field `i` of a packed status word: bits `3 * i .. 3 * i + 3`.
pub open spec fn field_of(v: u32, i: int) -> u32 {
    (v >> ((3 * i) as u32)) & 7
}

/// The five subtask fields of one row, unpacked.
///
/// The same shape serves both levels of the scheduler: for a video the five
/// subtasks are poster, video NFO, uploader avatar, uploader NFO and page
/// dispatch; for a page they are poster, video file, page NFO, danmaku and
/// subtitles.
#[derive(Clone, Copy, Debug)]
pub struct DownloadStatus {
    pub fields: [u32; 5],
}

impl DownloadStatus {
    /// Every field holds a value the codec can produce.
    pub open spec fn wf(&self) -> bool {
        forall|i: int| 0 <= i < 5 ==> field_valid(self.fields[i])
    }

    /// All five subtasks have succeeded.
    pub open spec fn spec_finished(&self) -> bool {
        forall|i: int| 0 <= i < 5 ==> self.fields[i] == STATUS_OK
    }

    /// The empty bitfield of a freshly ingested row: nothing started.
    pub fn new() -> (s: Self)
        ensures
            s.wf(),
            forall|i: int| 0 <= i < 5 ==> s.fields[i] == 0,
    {
        DownloadStatus { fields: [0, 0, 0, 0, 0] }
    }

    /// Unpack a status word read from a row.
    pub fn decode(v: u32) -> (s: Self)
        ensures
            s.wf2(),
            forall|i: int| 0 <= i < 5 ==> s.fields[i] == field_of(v, i),
    {
        let f0 = v & 7;
        let f1 = (v >> 3) & 7;
        let f2 = (v >> 6) & 7;
        let f3 = (v >> 9) & 7;
        let f4 = (v >> 12) & 7;
        proof {
            assert(f0 == field_of(v, 0) && f1 == field_of(v, 1) && f2 == field_of(v, 2)
                && f3 == field_of(v, 3) && f4 == field_of(v, 4) && f0 <= 7 && f1 <= 7 && f2 <= 7
                && f3 <= 7 && f4 <= 7) by (bit_vector)
                requires
                    f0 == v & 7,
                    f1 == (v >> 3) & 7,
                    f2 == (v >> 6) & 7,
                    f3 == (v >> 9) & 7,
                    f4 == (v >> 12) & 7,
            ;
        }
        DownloadStatus { fields: [f0, f1, f2, f3, f4] }
    }

    /// Every field fits in three bits.
    pub open spec fn wf2(&self) -> bool {
        forall|i: int| 0 <= i < 5 ==> self.fields[i] <= 7
    }

    /// Pack the five fields back into one status word.
    pub fn encode(&self) -> (v: u32)
        requires
            self.wf2(),
        ensures
            forall|i: int| 0 <= i < 5 ==> field_of(v, i) == self.fields[i],
    {
        let f0 = self.fields[0];
        let f1 = self.fields[1];
        let f2 = self.fields[2];
        let f3 = self.fields[3];
        let f4 = self.fields[4];
        let v = f0 | (f1 << 3) | (f2 << 6) | (f3 << 9) | (f4 << 12);
        proof {
            assert(field_of(v, 0) == f0 && field_of(v, 1) == f1 && field_of(v, 2) == f2
                && field_of(v, 3) == f3 && field_of(v, 4) == f4) by (bit_vector)
                requires
                    f0 <= 7 && f1 <= 7 && f2 <= 7 && f3 <= 7 && f4 <= 7,
                    v == f0 | (f1 << 3) | (f2 << 6) | (f3 << 9) | (f4 << 12),
            ;
        }
        v
    }

    /// Which of the five subtasks the current run must (re-)enter.
    pub fn should_run(&self) -> (r: [bool; 5])
        ensures
            forall|i: int| 0 <= i < 5 ==> r[i] == spec_should_run_field(self.fields[i]),
    {
        [
            self.fields[0] <= MAX_RETRY,
            self.fields[1] <= MAX_RETRY,
            self.fields[2] <= MAX_RETRY,
            self.fields[3] <= MAX_RETRY,
            self.fields[4] <= MAX_RETRY,
        ]
    }

    /// All five subtasks have succeeded.
    pub fn finished(&self) -> (r: bool)
        ensures
            r == self.spec_finished(),
    {
        self.fields[0] == STATUS_OK && self.fields[1] == STATUS_OK && self.fields[2] == STATUS_OK
            && self.fields[3] == STATUS_OK && self.fields[4] == STATUS_OK
    }

    /// Record the outcome of one run: every field is rewritten as
    /// `updated_field` says.
    pub fn update_status(&mut self, results: &[ExecutionStatus; 5])
        ensures
            forall|i: int|
                0 <= i < 5 ==> final(self).fields[i] == updated_field(
                    old(self).fields[i],
                    &results[i],
                ),
    {
        let f0 = update_field(self.fields[0], &results[0]);
        let f1 = update_field(self.fields[1], &results[1]);
        let f2 = update_field(self.fields[2], &results[2]);
        let f3 = update_field(self.fields[3], &results[3]);
        let f4 = update_field(self.fields[4], &results[4]);
        self.fields = [f0, f1, f2, f3, f4];
    }
}

/// One field's transition for one subtask outcome.
pub fn update_field(f: u32, r: &ExecutionStatus) -> (nf: u32)
    ensures
        nf == updated_field(f, r),
{
    match r {
        ExecutionStatus::Skipped => f,
        ExecutionStatus::Succeeded => STATUS_OK,
        ExecutionStatus::Ignored(_) => STATUS_OK,
        ExecutionStatus::Failed(_) => {
            if f < MAX_RETRY + 1 {
                f + 1
            } else {
                MAX_RETRY + 1
            }
        },
        ExecutionStatus::Fixed(n) => *n,
    }
}

/// Status monotonicity: for a field the scheduler may hand to a subtask, any
/// outcome other than the aggregator's `Fixed` moves the field upward, and a
/// permanently failed field stays permanently failed.  (The scheduler hands a
/// field out only when `spec_should_run_field` holds of it; otherwise it
/// records `Skipped`.)
pub proof fn lemma_status_monotonic(f: u32, r: &ExecutionStatus)
    requires
        !(r is Fixed),
        spec_should_run_field(f) || r is Skipped,
    ensures
        updated_field(f, r) >= f,
        f == MAX_RETRY + 1 ==> updated_field(f, r) == MAX_RETRY + 1,
{
}

/// The field after `k` runs that all fail, starting from `f`.
pub open spec fn field_after_failures(f: u32, k: nat) -> u32
    decreases k,
{
    if k == 0 {
        f
    } else {
        bumped(field_after_failures(f, (k - 1) as nat))
    }
}

/// Retry budget: a subtask that fails on every run reaches the
/// permanent-failure value after exactly `MAX_RETRY + 1` runs, counts its
/// failures until then, and is never entered again afterwards.
pub proof fn lemma_retry_budget(k: nat)
    ensures
        k <= MAX_RETRY + 1 ==> field_after_failures(0, k) == k,
        k >= MAX_RETRY + 1 ==> field_after_failures(0, k) == MAX_RETRY + 1,
        k >= MAX_RETRY + 1 ==> !spec_should_run_field(field_after_failures(0, k)),
    decreases k,
{
    if k > 0 {
        lemma_retry_budget((k - 1) as nat);
    }
}

} // verus!
