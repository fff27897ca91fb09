//! Decision logic of the two-level download scheduler: which subtasks a run
//! enters, how results fold back into a row's status word, how the page
//! aggregate propagates to the parent video, when a run aborts for risk
//! control, and the one-shot policy for uploader artifacts.
//!
//! The caller owns the concurrency (semaphores, joins) and the downloads;
//! every choice it acts on is made here.
use vstd::prelude::*;

use crate::model::{PageModel, VideoModel};
use crate::status::{
    field_of, updated_field, DownloadStatus, ErrorInfo, ErrorKind, ExecutionStatus, STATUS_OK,
};

verus! {

/// Which artifact classes the user asked to skip globally.
#[derive(Clone, Copy, Debug, Default)]
pub struct SkipOption {
    pub no_poster: bool,
    pub no_video_nfo: bool,
    pub no_upper: bool,
    pub no_danmaku: bool,
    pub no_subtitle: bool,
}

/// Gates for the five video-level subtasks: poster+fanart, video NFO,
/// uploader avatar, uploader NFO, page dispatch.  Poster and NFO only exist
/// for multi-page videos (a single page carries its own); uploader artifacts
/// run at most once per uploader per run.
pub fn video_subtask_gates(
    should_run: &[bool; 5],
    is_single_page: bool,
    should_download_upper: bool,
    skip: &SkipOption,
) -> (r: [bool; 5])
    ensures
        r[0] == (should_run[0] && !is_single_page && !skip.no_poster),
        r[1] == (should_run[1] && !is_single_page && !skip.no_video_nfo),
        r[2] == (should_run[2] && should_download_upper && !skip.no_upper),
        r[3] == (should_run[3] && should_download_upper && !skip.no_upper),
        r[4] == should_run[4],
{
    [
        should_run[0] && !is_single_page && !skip.no_poster,
        should_run[1] && !is_single_page && !skip.no_video_nfo,
        should_run[2] && should_download_upper && !skip.no_upper,
        should_run[3] && should_download_upper && !skip.no_upper,
        should_run[4],
    ]
}

/// Gates for the five page-level subtasks: poster, video file, page NFO,
/// danmaku, subtitles.
pub fn page_subtask_gates(should_run: &[bool; 5], skip: &SkipOption) -> (r: [bool; 5])
    ensures
        r[0] == (should_run[0] && !skip.no_poster),
        r[1] == should_run[1],
        r[2] == (should_run[2] && !skip.no_video_nfo),
        r[3] == (should_run[3] && !skip.no_danmaku),
        r[4] == (should_run[4] && !skip.no_subtitle),
{
    [
        should_run[0] && !skip.no_poster,
        should_run[1],
        should_run[2] && !skip.no_video_nfo,
        should_run[3] && !skip.no_danmaku,
        should_run[4] && !skip.no_subtitle,
    ]
}

/// Fold one run's five results into a row's packed status word.
pub fn finish_run(status_word: u32, results: &[ExecutionStatus; 5]) -> (new_word: u32)
    requires
        forall|i: int|
            0 <= i < 5 ==> (#[trigger] results[i] matches ExecutionStatus::Fixed(n) ==> n <= 7),
    ensures
        forall|i: int|
            0 <= i < 5 ==> field_of(new_word, i) == updated_field(
                field_of(status_word, i),
                &results[i],
            ),
{
    let mut status = DownloadStatus::decode(status_word);
    status.update_status(results);
    status.encode()
}

/// Status monotonicity over one whole run: for every subtask whose result is
/// not the page aggregator's `Fixed` overwrite, the field only moves upward,
/// and a permanently failed field stays permanently failed.  The scheduler
/// honors the premise: a field it does not hand out — including every
/// terminal one — comes back as `Skipped`.
pub proof fn lemma_run_status_monotonic(word: u32, results: [ExecutionStatus; 5])
    requires
        forall|i: int| 0 <= i < 5 ==> !(#[trigger] results[i] is Fixed),
        forall|i: int|
            0 <= i < 5 ==> crate::status::spec_should_run_field(field_of(word, i)) || (
            #[trigger] results[i] is Skipped),
    ensures
        forall|i: int|
            0 <= i < 5 ==> #[trigger] updated_field(field_of(word, i), &results[i]) >= field_of(
                word,
                i,
            ),
        forall|i: int|
            0 <= i < 5 && field_of(word, i) == crate::status::MAX_RETRY + 1 ==> #[trigger]
            updated_field(field_of(word, i), &results[i]) == crate::status::MAX_RETRY + 1,
{
    assert forall|i: int| 0 <= i < 5 implies #[trigger] updated_field(
        field_of(word, i),
        &results[i],
    ) >= field_of(word, i) && (field_of(word, i) == crate::status::MAX_RETRY + 1
        ==> updated_field(field_of(word, i), &results[i]) == crate::status::MAX_RETRY + 1) by {
        crate::status::lemma_status_monotonic(field_of(word, i), &results[i]);
    }
}

/// Whether this error must abort the whole source run.
pub fn is_risk_control(e: &ErrorInfo) -> (r: bool)
    ensures
        r == (e.kind == ErrorKind::RiskControl),
{
    match e.kind {
        ErrorKind::RiskControl => true,
        _ => false,
    }
}

/// Index of the first failure classified as risk control, if any; the run
/// aborts with that error, everything else is retried later.
pub fn find_risk_control(results: &[ExecutionStatus; 5]) -> (r: Option<usize>)
    ensures
        match r {
            Option::Some(i) => i < 5 && (results[i as int] matches ExecutionStatus::Failed(e)
                && e.kind == ErrorKind::RiskControl),
            Option::None => forall|i: int|
                0 <= i < 5 ==> !(#[trigger] results[i] matches ExecutionStatus::Failed(e)
                    && e.kind == ErrorKind::RiskControl),
        },
{
    let mut i: usize = 0;
    while i < 5
        invariant
            i <= 5,
            forall|j: int|
                0 <= j < i ==> !(#[trigger] results[j] matches ExecutionStatus::Failed(e)
                    && e.kind == ErrorKind::RiskControl),
        decreases 5 - i,
    {
        match &results[i] {
            ExecutionStatus::Failed(e) => {
                if is_risk_control(e) {
                    return Some(i);
                }
            },
            _ => {},
        }
        i += 1;
    }
    None
}

/// The minimum subtask field across a sequence of packed page status words,
/// starting from the success value.
pub open spec fn spec_aggregated(statuses: Seq<u32>) -> u32
    decreases statuses.len(),
{
    if statuses.len() == 0 {
        STATUS_OK
    } else {
        min_fields(spec_aggregated(statuses.drop_last()), statuses.last())
    }
}

/// `acc` folded with the five fields of one status word.
pub open spec fn min_fields(acc: u32, word: u32) -> u32 {
    min2(
        min2(min2(acc, field_of(word, 0)), min2(field_of(word, 1), field_of(word, 2))),
        min2(field_of(word, 3), field_of(word, 4)),
    )
}

pub open spec fn min2(a: u32, b: u32) -> u32 {
    if a < b {
        a
    } else {
        b
    }
}

/// The parent video's page-dispatch field: the minimum over every subtask
/// field of every page, so the parent counts as succeeded only when every
/// page fully succeeded.
pub fn aggregate_page_status(statuses: &Vec<u32>) -> (t: u32)
    ensures
        t == spec_aggregated(statuses@),
        t <= STATUS_OK,
{
    let mut t: u32 = STATUS_OK;
    let mut i: usize = 0;
    proof {
        assert(statuses@.subrange(0, 0) =~= Seq::<u32>::empty());
    }
    while i < statuses.len()
        invariant
            i <= statuses@.len(),
            t == spec_aggregated(statuses@.subrange(0, i as int)),
            t <= STATUS_OK,
        decreases statuses@.len() - i,
    {
        let w = statuses[i];
        let s = DownloadStatus::decode(w);
        let mut m: u32 = t;
        if s.fields[0] < m {
            m = s.fields[0];
        }
        if s.fields[1] < m {
            m = s.fields[1];
        }
        if s.fields[2] < m {
            m = s.fields[2];
        }
        if s.fields[3] < m {
            m = s.fields[3];
        }
        if s.fields[4] < m {
            m = s.fields[4];
        }
        proof {
            let pre = statuses@.subrange(0, i as int);
            let nxt = statuses@.subrange(0, i + 1);
            assert(nxt.drop_last() =~= pre);
            assert(nxt.last() == w);
            assert(m == min_fields(t, w));
        }
        t = m;
        i += 1;
    }
    proof {
        assert(statuses@.subrange(0, statuses@.len() as int) =~= statuses@);
    }
    t
}

/// Aggregation law: the aggregate is a lower bound on every subtask field of
/// every page, and is attained — it equals some page's field unless there
/// are no pages, when it is the success value.
pub proof fn lemma_aggregate_is_min(statuses: Seq<u32>)
    ensures
        forall|i: int, j: int|
            0 <= i < statuses.len() && 0 <= j < 5 ==> spec_aggregated(statuses) <= field_of(
                statuses[i],
                j,
            ),
        spec_aggregated(statuses) == STATUS_OK || exists|i: int, j: int|
            0 <= i < statuses.len() && 0 <= j < 5 && spec_aggregated(statuses) == field_of(
                statuses[i],
                j,
            ),
        statuses.len() == 0 ==> spec_aggregated(statuses) == STATUS_OK,
    decreases statuses.len(),
{
    if statuses.len() > 0 {
        lemma_aggregate_is_min(statuses.drop_last());
        let pre = statuses.drop_last();
        let w = statuses.last();
        let agg = spec_aggregated(statuses);
        assert(forall|i: int| 0 <= i < statuses.len() - 1 ==> statuses[i] == pre[i]);
        assert(w == statuses[statuses.len() - 1]);
        if agg != spec_aggregated(pre) {
            assert(agg == field_of(w, 0) || agg == field_of(w, 1) || agg == field_of(w, 2) || agg
                == field_of(w, 3) || agg == field_of(w, 4));
        }
    }
}

/// Pointwise monotonicity lifts to the aggregate: when every subtask field
/// of every page moved upward since the last run, the parent's page-dispatch
/// field — the aggregate minimum — cannot regress either.
pub proof fn lemma_aggregate_monotonic(old_words: Seq<u32>, new_words: Seq<u32>)
    requires
        old_words.len() == new_words.len(),
        forall|i: int, j: int|
            0 <= i < old_words.len() && 0 <= j < 5 ==> field_of(new_words[i], j) >= field_of(
                old_words[i],
                j,
            ),
    ensures
        spec_aggregated(new_words) >= spec_aggregated(old_words),
    decreases old_words.len(),
{
    if old_words.len() > 0 {
        assert(forall|i: int|
            0 <= i < old_words.len() - 1 ==> old_words.drop_last()[i] == old_words[i]
                && new_words.drop_last()[i] == new_words[i]);
        lemma_aggregate_monotonic(old_words.drop_last(), new_words.drop_last());
        assert(old_words.last() == old_words[old_words.len() - 1]);
        assert(new_words.last() == new_words[new_words.len() - 1]);
    }
}

/// Which shape the video-level NFO takes: the season's own metadata when the
/// row belongs to a followed season and that season row was found, else the
/// show shape filled from the video row.
#[derive(Clone, Copy, Debug, PartialEq, Eq, Structural)]
pub enum VideoNfoKind {
    Bangumi,
    TvShow,
}

pub fn video_nfo_kind(video: &VideoModel, bangumi_entity_found: bool) -> (r: VideoNfoKind)
    ensures
        r == (if video.bangumi_id is Some && bangumi_entity_found {
            VideoNfoKind::Bangumi
        } else {
            VideoNfoKind::TvShow
        }),
{
    if video.bangumi_id.is_some() && bangumi_entity_found {
        VideoNfoKind::Bangumi
    } else {
        VideoNfoKind::TvShow
    }
}

/// Which shape a page's NFO takes: the movie shape for a single-page video,
/// the episode shape for one part of many.
#[derive(Clone, Copy, Debug, PartialEq, Eq, Structural)]
pub enum PageNfoKind {
    Movie,
    Episode,
}

pub fn page_nfo_kind(single_page: bool) -> (r: PageNfoKind)
    ensures
        r == (if single_page {
            PageNfoKind::Movie
        } else {
            PageNfoKind::Episode
        }),
{
    if single_page {
        PageNfoKind::Movie
    } else {
        PageNfoKind::Episode
    }
}

/// The image a page's poster is fetched from: a single-page video uses the
/// video cover directly; a part of a multi-page video uses its own image,
/// with the video cover as fallback.
pub fn page_poster_source(video: &VideoModel, page: &PageModel) -> (r: String)
    requires
        video.single_page is Some,
    ensures
        r@ == (if video.single_page == Some(true) {
            video.cover@
        } else {
            match page.image {
                Option::Some(img) => img@,
                Option::None => video.cover@,
            }
        }),
{
    let single = match video.single_page {
        Option::Some(b) => b,
        Option::None => true,
    };
    if single {
        video.cover.clone()
    } else {
        match &page.image {
            Option::Some(img) => img.clone(),
            Option::None => video.cover.clone(),
        }
    }
}

/// The uploaders whose avatar and NFO were already written this run.  The
/// driver consults it once per video, so the uploader subtasks run at most
/// once per uploader per run.
#[derive(Debug)]
pub struct UpperSeen {
    pub ids: Vec<i64>,
}

impl UpperSeen {
    pub open spec fn wf(&self) -> bool {
        self.ids@.no_duplicates()
    }

    pub fn new() -> (s: Self)
        ensures
            s.wf(),
            s.ids@.len() == 0,
    {
        UpperSeen { ids: Vec::new() }
    }

    /// True exactly on the first call for this uploader id; later calls for
    /// the same id return false and leave the set unchanged.
    pub fn check_and_insert(&mut self, id: i64) -> (first: bool)
        requires
            old(self).wf(),
        ensures
            final(self).wf(),
            first == !old(self).ids@.contains(id),
            final(self).ids@ == if first {
                old(self).ids@.push(id)
            } else {
                old(self).ids@
            },
    {
        let n = self.ids.len();
        let mut i: usize = 0;
        while i < n
            invariant
                n == self.ids@.len(),
                i <= n,
                *self == *old(self),
                self.wf(),
                forall|j: int| 0 <= j < i ==> self.ids@[j] != id,
            decreases n - i,
        {
            if self.ids[i] == id {
                return false;
            }
            i += 1;
        }
        self.ids.push(id);
        true
    }
}

/// The upstream's best stream choice for one page, as plain url lists.
#[derive(Debug)]
pub enum BestStreamInfo {
    /// One muxed stream.
    Mixed { urls: Vec<String> },
    /// Separate video and, possibly, audio streams.
    VideoAudio { video_urls: Vec<String>, audio_urls: Option<Vec<String>> },
}

/// What the downloader collaborator is told to do for the page's video file.
#[derive(Debug)]
pub enum DownloadCommand {
    /// Fetch one stream from the given mirrors.
    MultiFetch { urls: Vec<String> },
    /// Fetch video and audio separately, then merge.
    FetchAndMerge { video_urls: Vec<String>, audio_urls: Vec<String> },
}

/// Map the chosen stream to a downloader command: a muxed stream or a video
/// stream without audio is fetched directly, separate audio is merged in.
pub fn plan_stream_download(best: BestStreamInfo) -> (cmd: DownloadCommand)
    ensures
        match best {
            BestStreamInfo::Mixed { urls } => cmd matches DownloadCommand::MultiFetch {
                urls: u,
            } && u == urls,
            BestStreamInfo::VideoAudio { video_urls, audio_urls: Option::None } => cmd
                matches DownloadCommand::MultiFetch { urls: u } && u == video_urls,
            BestStreamInfo::VideoAudio {
                video_urls,
                audio_urls: Option::Some(a),
            } => cmd matches DownloadCommand::FetchAndMerge { video_urls: v, audio_urls: au } && v
                == video_urls && au == a,
        },
{
    match best {
        BestStreamInfo::Mixed { urls } => DownloadCommand::MultiFetch { urls },
        BestStreamInfo::VideoAudio { video_urls, audio_urls: Option::None } => {
            DownloadCommand::MultiFetch { urls: video_urls }
        },
        BestStreamInfo::VideoAudio { video_urls, audio_urls: Option::Some(a) } => {
            DownloadCommand::FetchAndMerge { video_urls, audio_urls: a }
        },
    }
}

} // verus!
