//! Rows and candidate items of the pipeline.
//!
//! `VideoModel` and `PageModel` mirror the persisted rows the scheduler works
//! on; timestamps are seconds since the Unix epoch.  `VideoInfo` is one
//! candidate item of a refresh stream, and `SourceRef` is the back-reference
//! a source stamps into the rows it owns.
use vstd::prelude::*;

verus! {

/// A persisted video row.
#[derive(Debug)]
pub struct VideoModel {
    pub id: i64,
    pub bvid: String,
    pub collection_id: Option<i64>,
    pub favorite_id: Option<i64>,
    pub watch_later_id: Option<i64>,
    pub submission_id: Option<i64>,
    pub bangumi_id: Option<i64>,
    pub source_id: Option<i64>,
    pub source_type: Option<i32>,
    pub name: String,
    pub show_title: Option<String>,
    pub upper_id: i64,
    pub upper_name: String,
    pub upper_face: String,
    pub cover: String,
    pub pubtime: i64,
    pub favtime: i64,
    pub category: i32,
    pub tags: Option<String>,
    pub single_page: Option<bool>,
    pub valid: bool,
    pub should_download: bool,
    pub download_status: u32,
    pub path: String,
    pub season_id: Option<String>,
    pub ep_id: Option<String>,
    pub episode_number: Option<i32>,
    pub season_number: Option<i32>,
    pub section_title: Option<String>,
    pub share_copy: Option<String>,
    pub actors: Option<String>,
}

/// A persisted page row: one part of a video.
#[derive(Debug)]
pub struct PageModel {
    pub id: i64,
    pub video_id: i64,
    pub pid: i32,
    pub cid: i64,
    pub name: String,
    pub duration: u32,
    pub width: Option<i32>,
    pub height: Option<i32>,
    pub image: Option<String>,
    pub download_status: u32,
    pub path: Option<String>,
}

/// One candidate item yielded by a source's refresh stream.
#[derive(Debug)]
pub enum VideoInfo {
    /// An item of a favorite list.
    Favorite {
        title: String,
        bvid: String,
        upper_id: i64,
        upper_name: String,
        upper_face: String,
        cover: String,
        pubtime: i64,
        fav_time: i64,
        /// Upstream marks unavailable entries; they are filtered out.
        unfilled: bool,
    },
    /// An episode of a bangumi season.
    Bangumi {
        title: String,
        season_id: String,
        ep_id: String,
        bvid: String,
        cid: String,
        aid: String,
        cover: String,
        intro: String,
        pubtime: i64,
        show_title: Option<String>,
        section_title: Option<String>,
        season_number: Option<i32>,
        episode_number: Option<i32>,
        share_copy: Option<String>,
        show_season_type: Option<i32>,
        actors: Option<String>,
    },
}

impl VideoInfo {
    /// The timestamp the high-water mark tracks: enqueue time for favorite
    /// items, publication time for bangumi episodes.
    pub open spec fn spec_release_at(&self) -> i64 {
        match self {
            VideoInfo::Favorite { fav_time, .. } => *fav_time,
            VideoInfo::Bangumi { pubtime, .. } => *pubtime,
        }
    }

    pub fn release_at(&self) -> (t: i64)
        ensures
            t == self.spec_release_at(),
    {
        match self {
            VideoInfo::Favorite { fav_time, .. } => *fav_time,
            VideoInfo::Bangumi { pubtime, .. } => *pubtime,
        }
    }

    /// True for upstream sentinel entries that carry no usable video; the
    /// refresh scan drops them.
    pub open spec fn spec_unfilled(&self) -> bool {
        match self {
            VideoInfo::Favorite { unfilled, .. } => *unfilled,
            VideoInfo::Bangumi { .. } => false,
        }
    }

    pub fn is_unfilled(&self) -> (r: bool)
        ensures
            r == self.spec_unfilled(),
    {
        match self {
            VideoInfo::Favorite { unfilled, .. } => *unfilled,
            VideoInfo::Bangumi { .. } => false,
        }
    }

    pub open spec fn spec_bvid(&self) -> Seq<char> {
        match self {
            VideoInfo::Favorite { bvid, .. } => bvid@,
            VideoInfo::Bangumi { bvid, .. } => bvid@,
        }
    }
}

impl VideoModel {
    /// A row belongs to a bangumi season: either through the legacy
    /// per-variant back-reference or through the unified source table.
    pub open spec fn spec_is_bangumi(&self) -> bool {
        self.bangumi_id is Some || (self.source_id is Some && self.source_type == Some(1i32))
    }

    pub fn is_bangumi(&self) -> (r: bool)
        ensures
            r == self.spec_is_bangumi(),
    {
        self.bangumi_id.is_some() || (self.source_id.is_some() && match self.source_type {
            Option::Some(t) => t == 1,
            Option::None => false,
        })
    }

    /// The row carries a non-empty section title, which marks bangumi
    /// extra/bonus content; an empty title column counts as absent.
    pub open spec fn spec_has_section_title(&self) -> bool {
        match self.section_title {
            Option::Some(s) => s@.len() > 0,
            Option::None => false,
        }
    }

    pub fn has_section_title(&self) -> (r: bool)
        ensures
            r == self.spec_has_section_title(),
    {
        match &self.section_title {
            Option::Some(s) => !s.as_str().is_empty(),
            Option::None => false,
        }
    }

    /// The row has no usable episode number, which marks a PV, trailer or
    /// other extra.
    pub open spec fn spec_lacks_episode_number(&self) -> bool {
        self.episode_number is None || self.episode_number == Some(0i32)
    }

    pub fn lacks_episode_number(&self) -> (r: bool)
        ensures
            r == self.spec_lacks_episode_number(),
    {
        match self.episode_number {
            Option::Some(n) => n == 0,
            Option::None => true,
        }
    }

    /// Bangumi extra/bonus content: part of a season, but either filed under
    /// a section or without an episode number.  Extras are routed to
    /// single-page path shapes whatever their page count.
    pub open spec fn spec_is_bangumi_extra(&self) -> bool {
        self.spec_is_bangumi() && (self.spec_has_section_title()
            || self.spec_lacks_episode_number())
    }

    pub fn is_bangumi_extra(&self) -> (r: bool)
        ensures
            r == self.spec_is_bangumi_extra(),
    {
        self.is_bangumi() && (self.has_section_title() || self.lacks_episode_number())
    }
}

/// The back-reference a source stamps into its rows; exactly one shape per
/// source variant, plus the unified `(source_id, source_type)` pair.
#[derive(Debug)]
pub enum SourceRef {
    Collection(i64),
    Favorite(i64),
    WatchLater(i64),
    Submission(i64),
    Bangumi(i64),
    Unified { source_id: i64, source_type: i32 },
}

impl SourceRef {
    /// What `set_relation_id` writes into a row's back-reference columns.
    pub open spec fn spec_stamped(&self, old_v: VideoModel) -> VideoModel {
        match self {
            SourceRef::Collection(id) => VideoModel { collection_id: Some(*id), ..old_v },
            SourceRef::Favorite(id) => VideoModel { favorite_id: Some(*id), ..old_v },
            SourceRef::WatchLater(id) => VideoModel { watch_later_id: Some(*id), ..old_v },
            SourceRef::Submission(id) => VideoModel { submission_id: Some(*id), ..old_v },
            SourceRef::Bangumi(id) => VideoModel { bangumi_id: Some(*id), ..old_v },
            SourceRef::Unified { source_id, source_type } => VideoModel {
                source_id: Some(*source_id),
                source_type: Some(*source_type),
                ..old_v
            },
        }
    }

    /// Stamp this source's back-reference column into a row.
    pub fn set_relation_id(&self, video: &mut VideoModel)
        ensures
            *final(video) == self.spec_stamped(*old(video)),
    {
        match self {
            SourceRef::Collection(id) => {
                video.collection_id = Some(*id);
            },
            SourceRef::Favorite(id) => {
                video.favorite_id = Some(*id);
            },
            SourceRef::WatchLater(id) => {
                video.watch_later_id = Some(*id);
            },
            SourceRef::Submission(id) => {
                video.submission_id = Some(*id);
            },
            SourceRef::Bangumi(id) => {
                video.bangumi_id = Some(*id);
            },
            SourceRef::Unified { source_id, source_type } => {
                video.source_id = Some(*source_id);
                video.source_type = Some(*source_type);
            },
        }
    }
}

/// Turn an accepted candidate into the fresh row ingestion upserts: empty
/// status word, valid, no path, no back-reference yet (the source stamps its
/// own with `SourceRef::set_relation_id`), and the enrichment fields unset.
pub fn new_row(info: VideoInfo) -> (r: VideoModel)
    ensures
        r.id == 0,
        r.collection_id is None,
        r.favorite_id is None,
        r.watch_later_id is None,
        r.submission_id is None,
        r.bangumi_id is None,
        r.source_id is None,
        r.source_type is None,
        r.category == 0,
        r.tags is None,
        r.single_page is None,
        r.valid,
        r.should_download,
        r.download_status == 0,
        r.path@.len() == 0,
        match info {
            VideoInfo::Favorite {
                title,
                bvid,
                upper_id,
                upper_name,
                upper_face,
                cover,
                pubtime,
                fav_time,
                unfilled: _,
            } => {
                &&& r.bvid == bvid
                &&& r.name == title
                &&& r.show_title is None
                &&& r.upper_id == upper_id
                &&& r.upper_name == upper_name
                &&& r.upper_face == upper_face
                &&& r.cover == cover
                &&& r.pubtime == pubtime
                &&& r.favtime == fav_time
                &&& r.season_id is None
                &&& r.ep_id is None
                &&& r.episode_number is None
                &&& r.season_number is None
                &&& r.section_title is None
                &&& r.share_copy is None
                &&& r.actors is None
            },
            VideoInfo::Bangumi {
                title,
                season_id,
                ep_id,
                bvid,
                cid: _,
                aid: _,
                cover,
                intro: _,
                pubtime,
                show_title,
                section_title,
                season_number,
                episode_number,
                share_copy,
                show_season_type: _,
                actors,
            } => {
                &&& r.bvid == bvid
                &&& r.name == title
                &&& r.show_title == show_title
                &&& r.upper_id == 0
                &&& r.upper_name@.len() == 0
                &&& r.upper_face@.len() == 0
                &&& r.cover == cover
                &&& r.pubtime == pubtime
                &&& r.favtime == pubtime
                &&& r.season_id == Some(season_id)
                &&& r.ep_id == Some(ep_id)
                &&& r.episode_number == episode_number
                &&& r.season_number == season_number
                &&& r.section_title == section_title
                &&& r.share_copy == share_copy
                &&& r.actors == actors
            },
        },
{
    match info {
        VideoInfo::Favorite {
            title,
            bvid,
            upper_id,
            upper_name,
            upper_face,
            cover,
            pubtime,
            fav_time,
            unfilled: _,
        } => VideoModel {
            id: 0,
            bvid,
            collection_id: None,
            favorite_id: None,
            watch_later_id: None,
            submission_id: None,
            bangumi_id: None,
            source_id: None,
            source_type: None,
            name: title,
            show_title: None,
            upper_id,
            upper_name,
            upper_face,
            cover,
            pubtime,
            favtime: fav_time,
            category: 0,
            tags: None,
            single_page: None,
            valid: true,
            should_download: true,
            download_status: 0,
            path: String::new(),
            season_id: None,
            ep_id: None,
            episode_number: None,
            season_number: None,
            section_title: None,
            share_copy: None,
            actors: None,
        },
        VideoInfo::Bangumi {
            title,
            season_id,
            ep_id,
            bvid,
            cid: _,
            aid: _,
            cover,
            intro: _,
            pubtime,
            show_title,
            section_title,
            season_number,
            episode_number,
            share_copy,
            show_season_type: _,
            actors,
        } => VideoModel {
            id: 0,
            bvid,
            collection_id: None,
            favorite_id: None,
            watch_later_id: None,
            submission_id: None,
            bangumi_id: None,
            source_id: None,
            source_type: None,
            name: title,
            show_title,
            upper_id: 0,
            upper_name: String::new(),
            upper_face: String::new(),
            cover,
            pubtime,
            favtime: pubtime,
            category: 0,
            tags: None,
            single_page: None,
            valid: true,
            should_download: true,
            download_status: 0,
            path: String::new(),
            season_id: Some(season_id),
            ep_id: Some(ep_id),
            episode_number,
            season_number,
            section_title,
            share_copy,
            actors,
        },
    }
}

/// `ifnull(x, -1)`, as the composite unique index applies it to each
/// back-reference column.
pub open spec fn or_neg(x: Option<i64>) -> int {
    match x {
        Some(v) => v as int,
        None => -1,
    }
}

/// `ifnull(x, -1)` for the `source_type` column.
pub open spec fn or_neg32(x: Option<i32>) -> int {
    match x {
        Some(v) => v as int,
        None => -1,
    }
}

/// The composite unique key of a video row: every back-reference column with
/// nulls folded to `-1`, then the upstream id.  This is the deduplication key
/// of ingestion.
pub open spec fn video_key(v: VideoModel) -> (int, int, int, int, int, int, int, Seq<char>) {
    (
        or_neg(v.collection_id),
        or_neg(v.favorite_id),
        or_neg(v.watch_later_id),
        or_neg(v.submission_id),
        or_neg(v.bangumi_id),
        or_neg(v.source_id),
        or_neg32(v.source_type),
        v.bvid@,
    )
}

/// `ifnull(x, -1)` as executable code.  `Some(-1)` and `None` collide on
/// purpose: the database index cannot tell them apart either.
pub fn opt_or_neg(x: &Option<i64>) -> (r: i64)
    ensures
        r as int == or_neg(*x),
{
    match x {
        Some(v) => *v,
        None => -1,
    }
}

pub fn opt_or_neg32(x: &Option<i32>) -> (r: i64)
    ensures
        r as int == or_neg32(*x),
{
    match x {
        Some(v) => *v as i64,
        None => -1,
    }
}

/// Whether two rows collide on the composite unique key.
pub fn same_key(a: &VideoModel, b: &VideoModel) -> (r: bool)
    ensures
        r == (video_key(*a) == video_key(*b)),
{
    let r = opt_or_neg(&a.collection_id) == opt_or_neg(&b.collection_id)
        && opt_or_neg(&a.favorite_id) == opt_or_neg(&b.favorite_id)
        && opt_or_neg(&a.watch_later_id) == opt_or_neg(&b.watch_later_id)
        && opt_or_neg(&a.submission_id) == opt_or_neg(&b.submission_id)
        && opt_or_neg(&a.bangumi_id) == opt_or_neg(&b.bangumi_id)
        && opt_or_neg(&a.source_id) == opt_or_neg(&b.source_id)
        && opt_or_neg32(&a.source_type) == opt_or_neg32(&b.source_type) && a.bvid == b.bvid;
    proof {
        if r {
            assert(video_key(*a) == video_key(*b));
        }
    }
    r
}

} // verus!
