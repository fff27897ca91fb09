//! The detail-enrichment step: decide, from what the detail fetch returned,
//! whether a row is invalidated, skipped, or filled in with its pages.
use vstd::prelude::*;

use crate::model::{PageModel, VideoModel};
use crate::status::{ErrorInfo, ErrorKind};

verus! {

/// One part of a video as the detail endpoint reports it.
#[derive(Debug)]
pub struct PageInfo {
    pub pid: i32,
    pub cid: i64,
    pub name: String,
    pub duration: u32,
    pub width: Option<i32>,
    pub height: Option<i32>,
    pub image: Option<String>,
}

/// What the caller's detail fetch produced for one video.
#[derive(Debug)]
pub enum DetailFetchResult {
    /// Tags and view info could not be fetched.
    Failed(ErrorInfo),
    /// Both calls succeeded.
    Fetched { tags: String, pages: Vec<PageInfo> },
}

/// What the run does with the row.
#[derive(Debug)]
pub enum DetailPlan {
    /// The upstream says the video is gone: set `valid = false` and save;
    /// the status word stays untouched and no pages are created.
    MarkInvalid,
    /// A transient error: log it and leave the row for the next run.
    Skip(ErrorInfo),
    /// Write the pages and the updated video row in one transaction.  The
    /// caller still stamps the source's relation id and evaluates the
    /// user rule into `should_download`.
    Persist { pages: Vec<PageModel>, single_page: bool, tags: String },
}

/// The page row created for one reported part.  A bangumi extra takes the
/// video's display title as the page name, so files are not named after raw
/// upstream filenames.
pub open spec fn spec_page_row(video: VideoModel, info: PageInfo) -> PageModel {
    PageModel {
        id: 0,
        video_id: video.id,
        pid: info.pid,
        cid: info.cid,
        name: if video.spec_is_bangumi_extra() && video.show_title is Some {
            video.show_title->0
        } else {
            info.name
        },
        duration: info.duration,
        width: info.width,
        height: info.height,
        image: info.image,
        download_status: 0,
        path: None,
    }
}

/// Decide the row's fate from the detail fetch.  An upstream "gone" answer
/// invalidates the row; any other failure leaves it untouched for a retry;
/// success materializes the page rows and the one-part flag, where a bangumi
/// extra counts as single-page whatever its part count.
pub fn plan_detail(video: &VideoModel, fetch: DetailFetchResult) -> (r: DetailPlan)
    ensures
        match fetch {
            DetailFetchResult::Failed(e) => if e.kind == ErrorKind::NotFound {
                r matches DetailPlan::MarkInvalid
            } else {
                r matches DetailPlan::Skip(e2) && e2 == e
            },
            DetailFetchResult::Fetched { tags, pages } => r matches DetailPlan::Persist {
                pages: rows,
                single_page,
                tags: t,
            } && t == tags && rows@ == pages@.map_values(|p: PageInfo| spec_page_row(*video, p))
                && single_page == (pages@.len() == 1 || video.spec_is_bangumi_extra()),
        },
{
    match fetch {
        DetailFetchResult::Failed(e) => {
            match e.kind {
                ErrorKind::NotFound => DetailPlan::MarkInvalid,
                _ => DetailPlan::Skip(e),
            }
        },
        DetailFetchResult::Fetched { tags, pages } => {
            let ghost all = pages@;
            let n = pages.len();
            let single_page = n == 1 || video.is_bangumi_extra();
            let is_extra = video.is_bangumi_extra();
            let mut pages = pages;
            let mut rows: Vec<PageModel> = Vec::new();
            proof {
                assert(all.subrange(0, 0) =~= Seq::<PageInfo>::empty());
            }
            while pages.len() > 0
                invariant
                    is_extra == video.spec_is_bangumi_extra(),
                    all.len() == rows@.len() + pages@.len(),
                    all.subrange(rows@.len() as int, all.len() as int) =~= pages@,
                    rows@ == all.subrange(0, rows@.len() as int).map_values(
                        |p: PageInfo| spec_page_row(*video, p),
                    ),
                decreases pages@.len(),
            {
                let ghost done = rows@.len() as int;
                let info = pages.remove(0);
                proof {
                    assert(info == all[done]);
                }
                let name = if is_extra {
                    match &video.show_title {
                        Option::Some(t) => t.clone(),
                        Option::None => info.name,
                    }
                } else {
                    info.name
                };
                let row = PageModel {
                    id: 0,
                    video_id: video.id,
                    pid: info.pid,
                    cid: info.cid,
                    name,
                    duration: info.duration,
                    width: info.width,
                    height: info.height,
                    image: info.image,
                    download_status: 0,
                    path: None,
                };
                proof {
                    assert(row == spec_page_row(*video, all[done]));
                }
                rows.push(row);
                proof {
                    assert(all.subrange(0, done + 1).drop_last() =~= all.subrange(0, done));
                    assert(all.subrange(0, done + 1).map_values(
                        |p: PageInfo| spec_page_row(*video, p),
                    ) =~= all.subrange(0, done).map_values(|p: PageInfo| spec_page_row(*video, p))
                        + seq![spec_page_row(*video, all[done])]);
                    assert(all.subrange(done + 1, all.len() as int) =~= pages@);
                }
            }
            proof {
                assert(all.subrange(0, all.len() as int) =~= all);
            }
            DetailPlan::Persist { pages: rows, single_page, tags }
        },
    }
}

} // verus!
