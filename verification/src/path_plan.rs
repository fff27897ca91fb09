//! The path and filename planner.
//!
//! Paths are plain strings with `/` separators, exactly as the rows store
//! them.  Four shapes exist, chosen from the row: single-page, multi-page
//! (under `Season 1`), bangumi main (rendered by the caller from the bangumi
//! template) and bangumi extra (forced to the single-page shape under the
//! source root).  A path once recorded on a row is never moved: the planner
//! either reuses it verbatim or recovers the base and name it was built
//! from.
use vstd::prelude::*;
use vstd::string::*;

use crate::model::VideoModel;
use crate::status::{ErrorInfo, ErrorKind};
use crate::strutil::{
    concat_str, dec_digits, occurs_at, pad2, padded2, rfind_char, rfind_str,
    spec_strip_suffix_all, strip_suffix_all,
};

verus! {

/// `a` and `b` joined with a single separator.
pub open spec fn joined(a: Seq<char>, b: Seq<char>) -> Seq<char> {
    a + seq!['/'] + b
}

pub fn join_path(a: &str, b: &str) -> (r: String)
    ensures
        r@ == joined(a@, b@),
{
    proof {
        reveal_strlit("/");
    }
    let mut s = a.to_owned();
    s.append("/");
    s.append(b);
    proof {
        assert(s@ =~= joined(a@, b@));
    }
    s
}

/// Index of the last `/`, or `-1` when there is none.
pub open spec fn last_slash_at(s: Seq<char>) -> int
    decreases s.len(),
{
    if s.len() == 0 {
        -1
    } else if s.last() == '/' {
        s.len() - 1
    } else {
        last_slash_at(s.drop_last())
    }
}

/// Everything before the last `/`; empty when there is none.
pub open spec fn spec_parent(s: Seq<char>) -> Seq<char> {
    if last_slash_at(s) < 0 {
        Seq::empty()
    } else {
        s.subrange(0, last_slash_at(s))
    }
}

/// Everything after the last `/`; the whole string when there is none.
pub open spec fn spec_filename(s: Seq<char>) -> Seq<char> {
    s.subrange(last_slash_at(s) + 1, s.len() as int)
}

proof fn lemma_last_slash_bounds(s: Seq<char>)
    ensures
        -1 <= last_slash_at(s) < s.len(),
        last_slash_at(s) >= 0 ==> s[last_slash_at(s)] == '/',
        forall|j: int| last_slash_at(s) < j < s.len() ==> s[j] != '/',
    decreases s.len(),
{
    if s.len() > 0 && s.last() != '/' {
        lemma_last_slash_bounds(s.drop_last());
        assert(forall|j: int| 0 <= j < s.len() - 1 ==> s.drop_last()[j] == s[j]);
    }
}

proof fn lemma_last_slash_unique(s: Seq<char>, i: int)
    requires
        0 <= i < s.len(),
        s[i] == '/',
        forall|j: int| i < j < s.len() ==> s[j] != '/',
    ensures
        last_slash_at(s) == i,
    decreases s.len(),
{
    if s.len() - 1 > i {
        assert(s.last() != '/');
        assert(forall|j: int| 0 <= j < s.len() - 1 ==> s.drop_last()[j] == s[j]);
        lemma_last_slash_unique(s.drop_last(), i);
    }
}

proof fn lemma_no_slash(s: Seq<char>)
    requires
        forall|j: int| 0 <= j < s.len() ==> s[j] != '/',
    ensures
        last_slash_at(s) == -1,
    decreases s.len(),
{
    if s.len() > 0 {
        assert(forall|j: int| 0 <= j < s.len() - 1 ==> s.drop_last()[j] == s[j]);
        lemma_no_slash(s.drop_last());
    }
}

/// Split a path into the part before the last separator and the part after
/// it, as `Path::parent` and `Path::file_name` see it.
pub fn split_parent(path: &str) -> (r: (String, String))
    ensures
        r.0@ == spec_parent(path@),
        r.1@ == spec_filename(path@),
{
    match rfind_char(path, '/') {
        Option::Some(i) => {
            proof {
                lemma_last_slash_unique(path@, i as int);
            }
            let ls = path.unicode_len();
            let parent = path.substring_char(0, i).to_owned();
            let name = path.substring_char(i + 1, ls).to_owned();
            (parent, name)
        },
        Option::None => {
            proof {
                lemma_no_slash(path@);
                assert(spec_parent(path@) =~= Seq::<char>::empty());
                assert(spec_filename(path@) =~= path@);
            }
            let ls = path.unicode_len();
            (String::new(), path.substring_char(0, ls).to_owned())
        },
    }
}

/// Which named template the caller must render to finish a plan.
#[derive(Clone, Copy, Debug, PartialEq, Eq, Structural)]
pub enum TemplateKind {
    /// The single-video template, fed from the video row alone.
    Video,
    /// The per-page template, fed from the video and page rows.
    Page,
    /// The bangumi template, fed from the rows plus the season title.
    Bangumi,
}

/// Where a video's files go, decided before any rendering happens.
#[derive(Debug)]
pub enum BasePathPlan {
    /// The row already records a path: reuse it verbatim.
    Existing { path: String },
    /// A bangumi extra with a section title: files go under the source root,
    /// and no series directory is rendered into the video path.
    SourceRoot { path: String },
    /// Render the named template and join the result onto the source root.
    Render { template: TemplateKind, needs_season_title: bool },
}

/// Decide a video's base directory.  A non-empty recorded path wins
/// unconditionally; bangumi extras with a section title keep the source
/// root; everything else asks the caller to render the fitting template.
pub fn plan_video_base_path(video: &VideoModel, source_path: &str) -> (r: BasePathPlan)
    ensures
        video.path@.len() > 0 ==> (r matches BasePathPlan::Existing { path } && path@
            == video.path@),
        video.path@.len() == 0 && video.spec_is_bangumi() && video.spec_has_section_title() ==> (
        r matches BasePathPlan::SourceRoot { path } && path@ == source_path@),
        video.path@.len() == 0 && !(video.spec_is_bangumi() && video.spec_has_section_title())
            ==> (r matches BasePathPlan::Render { template, needs_season_title }
            && template == (if video.spec_is_bangumi() {
            TemplateKind::Bangumi
        } else {
            TemplateKind::Video
        }) && needs_season_title == (video.spec_is_bangumi() && video.season_id is Some)),
{
    if !video.path.as_str().is_empty() {
        BasePathPlan::Existing { path: video.path.clone() }
    } else if video.is_bangumi() && video.has_section_title() {
        BasePathPlan::SourceRoot { path: source_path.to_owned() }
    } else if video.is_bangumi() {
        BasePathPlan::Render {
            template: TemplateKind::Bangumi,
            needs_season_title: video.season_id.is_some(),
        }
    } else {
        BasePathPlan::Render { template: TemplateKind::Video, needs_season_title: false }
    }
}

/// A page's directory and the stem its files are named after.
#[derive(Debug)]
pub struct PageLocation {
    pub base_path: String,
    pub base_name: String,
}

/// Where a page's files go.  Either fully recovered from a recorded path, or
/// a directory plus a template the caller still has to render for the stem.
#[derive(Debug)]
pub enum PagePathPlan {
    Ready { loc: PageLocation },
    Render { base_path: String, template: TemplateKind, needs_season_title: bool },
}

fn invalid_path_error() -> (e: ErrorInfo)
    ensures
        e.kind == ErrorKind::Recoverable,
{
    proof {
        reveal_strlit("invalid page path format");
    }
    ErrorInfo { kind: ErrorKind::Recoverable, message: ("invalid page path format").to_owned() }
}

/// The directory a bangumi extra lives in: the source root, with the section
/// title as a subdirectory when one is present.
pub open spec fn spec_extra_base(video: VideoModel, source_path: Seq<char>) -> Seq<char> {
    if video.spec_has_section_title() {
        joined(source_path, video.section_title->0@)
    } else {
        source_path
    }
}

fn extra_base(video: &VideoModel, source_path: &str) -> (r: String)
    ensures
        r@ == spec_extra_base(*video, source_path@),
{
    if video.has_section_title() {
        match &video.section_title {
            Option::Some(st) => join_path(source_path, st.as_str()),
            Option::None => source_path.to_owned(),
        }
    } else {
        source_path.to_owned()
    }
}

/// The page row records a non-empty path.
pub open spec fn spec_existing(page_path: Option<String>) -> bool {
    match page_path {
        Option::Some(p) => p@.len() > 0,
        Option::None => false,
    }
}

/// The recorded page path, empty when there is none.
pub open spec fn spec_old_path(page_path: Option<String>) -> Seq<char> {
    match page_path {
        Option::Some(p) => p@,
        Option::None => Seq::empty(),
    }
}

/// The directory of a page planned afresh: the video's base, with a present
/// section title as a subdirectory.
pub open spec fn spec_new_page_base(video: VideoModel, video_base: Seq<char>) -> Seq<char> {
    if video.spec_has_section_title() {
        joined(video_base, video.section_title->0@)
    } else {
        video_base
    }
}

/// Which template names a page planned afresh: the bangumi template for a
/// bangumi main episode, the page template otherwise.
pub open spec fn spec_page_template(video: VideoModel) -> TemplateKind {
    if video.spec_is_bangumi() {
        TemplateKind::Bangumi
    } else {
        TemplateKind::Page
    }
}

/// Decide a page's location.
///
/// With a recorded page path the planner never moves a file: a single-page
/// video — and a bangumi extra, whose files always take the single-page
/// shape — recovers `(parent, stem)` by stripping the trailing `.mp4`; a
/// multi-page video recovers the directory above `Season 1` and the stem
/// before the ` - S01Exx` suffix.  The error is returned exactly when that
/// recovery finds no ` - ` separator or no filename.
///
/// Without a recorded path: a bangumi extra goes under the source root (plus
/// section title) with the page template, anything else under the video's
/// base directory, with the bangumi template for a bangumi main episode and
/// the page template otherwise.
pub fn plan_page_location(
    video: &VideoModel,
    page_path: &Option<String>,
    source_path: &str,
    video_base: &str,
) -> (r: Result<PagePathPlan, ErrorInfo>)
    requires
        video.single_page is Some,
    ensures
        !spec_existing(*page_path) && video.spec_is_bangumi_extra() ==> (r matches Ok(
            PagePathPlan::Render { base_path, template, needs_season_title },
        ) && base_path@ == spec_extra_base(*video, source_path@) && template == TemplateKind::Page
            && !needs_season_title),
        spec_existing(*page_path) && (video.single_page == Some(true)
            || video.spec_is_bangumi_extra()) ==> (match r {
            Result::Ok(p) => p matches PagePathPlan::Ready { loc } && loc.base_path@
                == spec_parent(spec_old_path(*page_path)) && loc.base_name@
                == spec_strip_suffix_all(spec_filename(spec_old_path(*page_path)), (".mp4")@)
                && spec_filename(spec_old_path(*page_path)).len() > 0,
            Result::Err(_) => spec_filename(spec_old_path(*page_path)).len() == 0,
        }),
        spec_existing(*page_path) && video.single_page == Some(false)
            && !video.spec_is_bangumi_extra() ==> (match r {
            Result::Ok(p) => p matches PagePathPlan::Ready { loc } && loc.base_path@
                == spec_parent(spec_parent(spec_old_path(*page_path))) && (exists|i: int|
                occurs_at(spec_filename(spec_old_path(*page_path)), i, (" - ")@) && (forall|
                    j: int,
                |
                    i < j ==> !occurs_at(spec_filename(spec_old_path(*page_path)), j, (" - ")@))
                    && loc.base_name@ == spec_filename(spec_old_path(*page_path)).subrange(0, i)),
            Result::Err(_) => !crate::strutil::contains_seq(
                spec_filename(spec_old_path(*page_path)),
                (" - ")@,
            ) || spec_filename(spec_old_path(*page_path)).len() == 0,
        }),
        !video.spec_is_bangumi_extra() && !spec_existing(*page_path) ==> (r matches Ok(
            PagePathPlan::Render { base_path, template, needs_season_title },
        ) && base_path@ == spec_new_page_base(*video, video_base@) && template
            == spec_page_template(*video) && needs_season_title == (video.spec_is_bangumi()
            && video.season_id is Some)),
{
    let is_extra = video.is_bangumi_extra();
    let existing: bool = match page_path {
        Option::Some(p) => !p.as_str().is_empty(),
        Option::None => false,
    };
    if !existing && is_extra {
        return Ok(
            PagePathPlan::Render {
                base_path: extra_base(video, source_path),
                template: TemplateKind::Page,
                needs_season_title: false,
            },
        );
    }
    if existing {
        let old_path: &str = match page_path {
            Option::Some(p) => p.as_str(),
            Option::None => "",
        };
        let single = match video.single_page {
            Option::Some(b) => b,
            Option::None => false,
        };
        let (parent, filename) = split_parent(old_path);
        if filename.as_str().is_empty() {
            return Err(invalid_path_error());
        }
        if single || is_extra {
            proof {
                reveal_strlit(".mp4");
            }
            let name = strip_suffix_all(filename.as_str(), ".mp4");
            return Ok(
                PagePathPlan::Ready { loc: PageLocation { base_path: parent, base_name: name } },
            );
        }
        proof {
            reveal_strlit(" - ");
        }
        match rfind_str(filename.as_str(), " - ") {
            Option::Some(i) => {
                let (grand, _season_dir) = split_parent(parent.as_str());
                let name = filename.as_str().substring_char(0, i).to_owned();
                proof {
                    let f = spec_filename(spec_old_path(*page_path));
                    assert(occurs_at(f, i as int, (" - ")@) && (forall|j: int|
                        i < j ==> !occurs_at(f, j, (" - ")@)) && name@ == f.subrange(0, i as int));
                }
                Ok(
                    PagePathPlan::Ready {
                        loc: PageLocation { base_path: grand, base_name: name },
                    },
                )
            },
            Option::None => Err(invalid_path_error()),
        }
    } else {
        let base_path = if video.has_section_title() {
            match &video.section_title {
                Option::Some(st) => join_path(video_base, st.as_str()),
                Option::None => video_base.to_owned(),
            }
        } else {
            video_base.to_owned()
        };
        if video.is_bangumi() {
            Ok(
                PagePathPlan::Render {
                    base_path,
                    template: TemplateKind::Bangumi,
                    needs_season_title: video.season_id.is_some(),
                },
            )
        } else {
            Ok(
                PagePathPlan::Render {
                    base_path,
                    template: TemplateKind::Page,
                    needs_season_title: false,
                },
            )
        }
    }
}

/// The directory of an uploader's artifacts: the configured uploader root,
/// then the first character of the uploader id, then the full id.  An id
/// always renders to at least one character, so the split never fails.
pub fn upper_artifact_dir(upper_path: &str, upper_id: i64) -> (r: String)
    ensures
        r@ == joined(
            joined(upper_path@, crate::strutil::signed_dec_digits(upper_id as int).subrange(0, 1)),
            crate::strutil::signed_dec_digits(upper_id as int),
        ),
{
    let id = crate::strutil::i64_to_string(upper_id);
    proof {
        assert(id@.len() >= 1);
    }
    let first = id.as_str().substring_char(0, 1);
    join_path(join_path(upper_path, first).as_str(), id.as_str())
}

/// The video-level artifact paths of a multi-page video: season poster,
/// season fanart and the show's NFO, directly under the base directory.
pub fn video_artifact_paths(base: &str) -> (r: (String, String, String))
    ensures
        r.0@ == joined(base@, ("poster.jpg")@),
        r.1@ == joined(base@, ("fanart.jpg")@),
        r.2@ == joined(base@, ("tvshow.nfo")@),
{
    (join_path(base, "poster.jpg"), join_path(base, "fanart.jpg"), join_path(base, "tvshow.nfo"))
}

/// The uploader's artifact paths: avatar and person NFO in the uploader's
/// directory.
pub fn upper_artifact_paths(dir: &str) -> (r: (String, String))
    ensures
        r.0@ == joined(dir@, ("folder.jpg")@),
        r.1@ == joined(dir@, ("person.nfo")@),
{
    (join_path(dir, "folder.jpg"), join_path(dir, "person.nfo"))
}

/// A file beside a single-page video: `<base>/<name><ext>`.
pub open spec fn simple_file(base: Seq<char>, name: Seq<char>, ext: Seq<char>) -> Seq<char> {
    base + seq!['/'] + name + ext
}

/// A file of one part of a multi-page video:
/// `<base>/Season 1/<name> - S01E<pid padded><ext>`.
pub open spec fn season_file(base: Seq<char>, name: Seq<char>, pid: nat, ext: Seq<char>) -> Seq<
    char,
> {
    base + seq!['/'] + ("Season 1")@ + seq!['/'] + name + (" - S01E")@ + padded2(pid) + ext
}

/// The five sibling artifact paths of one page.
#[derive(Debug)]
pub struct PageFilePaths {
    pub poster: String,
    pub video: String,
    pub nfo: String,
    pub danmaku: String,
    /// Only single-page videos and extras get a per-page fanart; for a
    /// multi-page video the season-level fanart already exists.
    pub fanart: Option<String>,
    pub subtitle: String,
}

/// The artifact paths of one page.  `simple` selects the single-page shape,
/// used for single-page videos and for bangumi extras; otherwise the files
/// go under `Season 1` with an episode suffix taken from the part index.
pub fn page_file_paths(base: &str, name: &str, pid: i32, simple: bool) -> (r: PageFilePaths)
    requires
        pid >= 0,
    ensures
        simple ==> {
            &&& r.poster@ == simple_file(base@, name@, ("-poster.jpg")@)
            &&& r.video@ == simple_file(base@, name@, (".mp4")@)
            &&& r.nfo@ == simple_file(base@, name@, (".nfo")@)
            &&& r.danmaku@ == simple_file(base@, name@, (".zh-CN.default.ass")@)
            &&& r.fanart matches Some(f) && f@ == simple_file(base@, name@, ("-fanart.jpg")@)
            &&& r.subtitle@ == simple_file(base@, name@, (".srt")@)
        },
        !simple ==> {
            &&& r.poster@ == season_file(base@, name@, pid as nat, ("-thumb.jpg")@)
            &&& r.video@ == season_file(base@, name@, pid as nat, (".mp4")@)
            &&& r.nfo@ == season_file(base@, name@, pid as nat, (".nfo")@)
            &&& r.danmaku@ == season_file(base@, name@, pid as nat, (".zh-CN.default.ass")@)
            &&& r.fanart is None
            &&& r.subtitle@ == season_file(base@, name@, pid as nat, (".srt")@)
        },
{
    if simple {
        let stem = join_path(base, name);
        let r = PageFilePaths {
            poster: concat_str(stem.as_str(), "-poster.jpg"),
            video: concat_str(stem.as_str(), ".mp4"),
            nfo: concat_str(stem.as_str(), ".nfo"),
            danmaku: concat_str(stem.as_str(), ".zh-CN.default.ass"),
            fanart: Some(concat_str(stem.as_str(), "-fanart.jpg")),
            subtitle: concat_str(stem.as_str(), ".srt"),
        };
        proof {
            assert(r.poster@ =~= simple_file(base@, name@, ("-poster.jpg")@));
            assert(r.video@ =~= simple_file(base@, name@, (".mp4")@));
            assert(r.nfo@ =~= simple_file(base@, name@, (".nfo")@));
            assert(r.danmaku@ =~= simple_file(base@, name@, (".zh-CN.default.ass")@));
            assert(r.fanart->0@ =~= simple_file(base@, name@, ("-fanart.jpg")@));
            assert(r.subtitle@ =~= simple_file(base@, name@, (".srt")@));
        }
        r
    } else {
        let dir = join_path(base, "Season 1");
        let mut stem = join_path(dir.as_str(), name);
        stem.append(" - S01E");
        let pad = pad2(pid as u64);
        stem.append(pad.as_str());
        let ghost stem_spec = base@ + seq!['/'] + ("Season 1")@ + seq!['/'] + name@ + (
        " - S01E")@ + padded2(pid as nat);
        proof {
            assert(stem@ =~= stem_spec);
        }
        let r = PageFilePaths {
            poster: concat_str(stem.as_str(), "-thumb.jpg"),
            video: concat_str(stem.as_str(), ".mp4"),
            nfo: concat_str(stem.as_str(), ".nfo"),
            danmaku: concat_str(stem.as_str(), ".zh-CN.default.ass"),
            fanart: None,
            subtitle: concat_str(stem.as_str(), ".srt"),
        };
        proof {
            assert(r.poster@ =~= season_file(base@, name@, pid as nat, ("-thumb.jpg")@));
            assert(r.video@ =~= season_file(base@, name@, pid as nat, (".mp4")@));
            assert(r.nfo@ =~= season_file(base@, name@, pid as nat, (".nfo")@));
            assert(r.danmaku@ =~= season_file(base@, name@, pid as nat, (".zh-CN.default.ass")@));
            assert(r.subtitle@ =~= season_file(base@, name@, pid as nat, (".srt")@));
        }
        r
    }
}

/// A subtitle track's path: the `.srt` planner path with the language tag
/// spliced in before the extension.
pub fn subtitle_path_for_lang(subtitle: &str, lang: &str) -> (r: String)
    requires
        subtitle@.len() >= 4,
        occurs_at(subtitle@, subtitle@.len() - 4, (".srt")@),
    ensures
        r@ == subtitle@.subrange(0, subtitle@.len() - 4) + seq!['.'] + lang@ + (".srt")@,
{
    proof {
        reveal_strlit(".");
        reveal_strlit(".srt");
    }
    let ls = subtitle.unicode_len();
    let mut s = subtitle.substring_char(0, ls - 4).to_owned();
    s.append(".");
    s.append(lang);
    s.append(".srt");
    proof {
        assert(s@ =~= subtitle@.subrange(0, subtitle@.len() - 4) + seq!['.'] + lang@ + (".srt")@);
    }
    s
}

/// Every character of a decimal rendering is a digit.
proof fn lemma_dec_digits_are_digits(n: nat)
    ensures
        forall|j: int|
            0 <= j < dec_digits(n).len() ==> crate::strutil::is_digit(#[trigger] dec_digits(n)[j]),
    decreases n,
{
    assert(crate::strutil::is_digit(crate::strutil::digit_char(n % 10)));
    if n >= 10 {
        lemma_dec_digits_are_digits(n / 10);
        let d = dec_digits(n);
        let pre = dec_digits(n / 10);
        assert forall|j: int| 0 <= j < d.len() implies crate::strutil::is_digit(
            #[trigger] d[j],
        ) by {
            if j < pre.len() {
                assert(d[j] == pre[j]);
            } else {
                assert(d[j] == crate::strutil::digit_char(n % 10));
            }
        }
    } else {
        assert(dec_digits(n)[0] == crate::strutil::digit_char(n));
    }
}

/// Every character of a padded part index is a digit.
proof fn lemma_padded2_digits(n: nat)
    ensures
        forall|j: int|
            0 <= j < padded2(n).len() ==> crate::strutil::is_digit(#[trigger] padded2(n)[j]),
{
    lemma_dec_digits_are_digits(n);
}

/// Path stability for single-page videos: the planner recovers exactly the
/// base and stem it once built the video file path from, so a later run
/// writes to the same files and nothing moves.  The stem must be free of
/// separators and must not itself end in `.mp4`, which holds of every
/// sanitized rendered name.
pub proof fn lemma_single_page_path_stable(base: Seq<char>, name: Seq<char>)
    requires
        name.len() > 0,
        forall|j: int| 0 <= j < name.len() ==> name[j] != '/',
        spec_strip_suffix_all(name, (".mp4")@) == name,
    ensures
        spec_parent(simple_file(base, name, (".mp4")@)) == base,
        spec_strip_suffix_all(spec_filename(simple_file(base, name, (".mp4")@)), (".mp4")@)
            == name,
{
    reveal_strlit(".mp4");
    let ext = (".mp4")@;
    let p = simple_file(base, name, ext);
    let b = base.len() as int;
    assert(p[b] == '/');
    assert forall|j: int| b < j < p.len() implies p[j] != '/' by {
        if j < b + 1 + name.len() {
            assert(p[j] == name[j - b - 1]);
        } else {
            assert(p[j] == ext[j - b - 1 - name.len()]);
        }
    }
    lemma_last_slash_unique(p, b);
    assert(spec_parent(p) =~= base);
    let f = spec_filename(p);
    assert(f =~= name + ext);
    assert(occurs_at(f, name.len() as int, ext));
    assert(f.subrange(0, name.len() as int) =~= name);
    lemma_last_occurrence_strip(f, name, ext);
}

proof fn lemma_last_occurrence_strip(f: Seq<char>, name: Seq<char>, ext: Seq<char>)
    requires
        ext.len() > 0,
        f == name + ext,
        spec_strip_suffix_all(name, ext) == name,
    ensures
        spec_strip_suffix_all(f, ext) == name,
{
    assert(occurs_at(f, f.len() - ext.len(), ext));
    assert(f.subrange(0, f.len() - ext.len()) =~= name);
}

/// Path stability for multi-page videos: from the video file path of any
/// part the planner recovers exactly the directory above `Season 1` and the
/// stem before the ` - S01Exx` suffix, so a later run writes to the same
/// files and nothing moves.
pub proof fn lemma_multi_page_path_stable(base: Seq<char>, name: Seq<char>, pid: nat)
    requires
        forall|j: int| 0 <= j < name.len() ==> name[j] != '/',
    ensures
        spec_parent(spec_parent(season_file(base, name, pid, (".mp4")@))) == base,
        occurs_at(spec_filename(season_file(base, name, pid, (".mp4")@)), name.len() as int, (
        " - ")@),
        forall|j: int|
            name.len() < j ==> !occurs_at(
                spec_filename(season_file(base, name, pid, (".mp4")@)),
                j,
                (" - ")@,
            ),
        spec_filename(season_file(base, name, pid, (".mp4")@)).subrange(0, name.len() as int)
            == name,
{
    reveal_strlit(".mp4");
    reveal_strlit(" - ");
    reveal_strlit(" - S01E");
    reveal_strlit("Season 1");
    let ext = (".mp4")@;
    let sep = (" - S01E")@;
    let season = ("Season 1")@;
    let pad = padded2(pid);
    lemma_padded2_digits(pid);
    let p = season_file(base, name, pid, ext);
    let b = base.len() as int;
    let s2 = b + 1 + season.len() as int;
    assert(p[s2] == '/');
    assert forall|j: int| s2 < j < p.len() implies p[j] != '/' by {
        let tail = name + sep + pad + ext;
        assert(p[j] == tail[j - s2 - 1]);
        let k = j - s2 - 1;
        if k < name.len() {
            assert(tail[k] == name[k]);
        } else if k < name.len() + sep.len() {
            assert(tail[k] == sep[k - name.len()]);
        } else if k < name.len() + sep.len() + pad.len() {
            assert(tail[k] == pad[k - name.len() - sep.len()]);
            assert(crate::strutil::is_digit(tail[k]));
        } else {
            assert(tail[k] == ext[k - name.len() - sep.len() - pad.len()]);
        }
    }
    lemma_last_slash_unique(p, s2);
    let q = spec_parent(p);
    assert(q =~= base + seq!['/'] + season);
    assert(q[b] == '/');
    assert forall|j: int| b < j < q.len() implies q[j] != '/' by {
        assert(q[j] == season[j - b - 1]);
    }
    lemma_last_slash_unique(q, b);
    assert(spec_parent(q) =~= base);
    let f = spec_filename(p);
    assert(f =~= name + sep + pad + ext);
    assert(occurs_at(f, name.len() as int, (" - ")@));
    assert forall|j: int| name.len() < j implies !occurs_at(f, j, (" - ")@) by {
        if occurs_at(f, j, (" - ")@) {
            assert(f[j] == (" - ")@[0]);
            assert(f[j] == ' ');
            let k = j - name.len();
            assert(k >= 1);
            if k < sep.len() {
                if k != 2 {
                    assert(sep[k] != ' ');
                    assert(f[j] == sep[k]);
                } else {
                    assert(f[j + 1] == sep[3]);
                    assert(f[j + 1] == (" - ")@[1]);
                }
            } else if k < sep.len() + pad.len() {
                assert(f[j] == pad[k - sep.len()]);
                assert(crate::strutil::is_digit(f[j]));
            } else if k < sep.len() + pad.len() + ext.len() {
                assert(f[j] == ext[k - sep.len() - pad.len()]);
            }
        }
    }
    assert(f.subrange(0, name.len() as int) =~= name);
}

} // verus!
