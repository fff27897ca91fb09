//! The bangumi source: a season's episode listing, the selection of main
//! episodes and chosen extra sections, and the adapter capabilities of a
//! bangumi row.  The season endpoint itself is called by the caller; every
//! choice made on its data is verified here.
use vstd::prelude::*;
use vstd::string::*;

use crate::model::{SourceRef, VideoInfo, VideoModel};
use crate::status::{ErrorInfo, ErrorKind};
use crate::strutil::{contains_char, has_char, i64_to_string, parse_i32, signed_dec_digits,
    spec_parsed_i32};
use crate::timefmt::{spec_timestamp_in_range, timestamp_in_range};

verus! {

/// One episode of a season, main or sectioned, as the endpoint reports it.
#[derive(Debug)]
pub struct Episode {
    pub id: i64,
    pub aid: i64,
    pub bvid: String,
    pub cid: i64,
    pub title: String,
    pub long_title: String,
    pub badge: String,
    pub section_type: i32,
    pub pub_time: i64,
    pub cover: String,
    pub from: String,
    pub link: String,
}

/// One extra section (PV, bonus, …) of a season.
#[derive(Debug)]
pub struct SectionData {
    pub id: i64,
    pub title: String,
    pub section_type: i32,
    pub episodes: Vec<Episode>,
    pub attr: i32,
    pub episode_id: i64,
    pub episode_ids: Vec<i64>,
}

/// An episode paired with the title of the section it came from, if any.
#[derive(Debug)]
pub struct EpisodeWithSection {
    pub episode: Episode,
    pub section_title: Option<String>,
}

/// A section, summarized for display and selection.
#[derive(Debug)]
pub struct SectionInfo {
    pub id: i64,
    pub title: String,
    pub section_type: i32,
    pub episode_count: usize,
}

/// A season's header data, with every envelope fallback already applied.
#[derive(Debug)]
pub struct BangumiListInfo {
    pub season_id: i64,
    pub media_id: i64,
    pub title: String,
    pub cover: String,
    pub evaluate: String,
    pub total: u16,
    pub is_finish: bool,
    pub season_type: u16,
}

/// A season listing request: which season, and which extra sections to
/// include besides the main episodes.
#[derive(Debug)]
pub struct BangumiList {
    pub season_id: i64,
    /// `Some`: main episodes plus every episode of the listed sections.
    /// `None`: main episodes only.
    pub selected_section_ids: Option<Vec<i64>>,
}

impl BangumiList {
    pub fn new(season_id: i64) -> (r: Self)
        ensures
            r.season_id == season_id,
            r.selected_section_ids is None,
    {
        BangumiList { season_id, selected_section_ids: None }
    }

    /// Restrict the extra sections to the given ids.
    pub fn with_selected_sections(self, section_ids: Vec<i64>) -> (r: Self)
        ensures
            r.season_id == self.season_id,
            r.selected_section_ids == Some(section_ids),
    {
        BangumiList { selected_section_ids: Some(section_ids), ..self }
    }
}

/// Summarize the reported sections for selection.
pub fn sections_info(sections: Vec<SectionData>) -> (r: Vec<SectionInfo>)
    ensures
        r@ == sections@.map_values(
            |s: SectionData|
                SectionInfo {
                    id: s.id,
                    title: s.title,
                    section_type: s.section_type,
                    episode_count: s.episodes@.len() as usize,
                },
        ),
{
    let ghost all = sections@;
    let mut sections = sections;
    let mut out: Vec<SectionInfo> = Vec::new();
    proof {
        assert(all.subrange(0, 0) =~= Seq::<SectionData>::empty());
    }
    while sections.len() > 0
        invariant
            all.len() == out@.len() + sections@.len(),
            all.subrange(out@.len() as int, all.len() as int) =~= sections@,
            out@ == all.subrange(0, out@.len() as int).map_values(
                |s: SectionData|
                    SectionInfo {
                        id: s.id,
                        title: s.title,
                        section_type: s.section_type,
                        episode_count: s.episodes@.len() as usize,
                    },
            ),
        decreases sections@.len(),
    {
        let ghost done = out@.len() as int;
        let s = sections.remove(0);
        proof {
            assert(s == all[done]);
        }
        let count = s.episodes.len();
        out.push(
            SectionInfo { id: s.id, title: s.title, section_type: s.section_type, episode_count: count },
        );
        proof {
            let f = |s: SectionData|
                SectionInfo {
                    id: s.id,
                    title: s.title,
                    section_type: s.section_type,
                    episode_count: s.episodes@.len() as usize,
                };
            assert(all.subrange(0, done + 1).drop_last() =~= all.subrange(0, done));
            assert(all.subrange(0, done + 1).map_values(f) =~= all.subrange(0, done).map_values(f)
                + seq![f(all[done])]);
            assert(all.subrange(done + 1, all.len() as int) =~= sections@);
        }
    }
    proof {
        assert(all.subrange(0, all.len() as int) =~= all);
    }
    out
}

/// The main episodes of a season, in order: exactly those whose
/// `section_type` is zero, none tagged with a section title.
pub open spec fn spec_mains(eps: Seq<Episode>) -> Seq<EpisodeWithSection>
    decreases eps.len(),
{
    if eps.len() == 0 {
        Seq::empty()
    } else {
        (if eps[0].section_type == 0 {
            seq![EpisodeWithSection { episode: eps[0], section_title: None }]
        } else {
            Seq::<EpisodeWithSection>::empty()
        }) + spec_mains(eps.drop_first())
    }
}

/// One selected section's contribution: its episodes in order, each tagged
/// with the section's title — except trailers, which are dropped
/// unconditionally.
pub open spec fn spec_section_episodes(eps: Seq<Episode>, title: String) -> Seq<
    EpisodeWithSection,
>
    decreases eps.len(),
{
    if eps.len() == 0 {
        Seq::empty()
    } else {
        (if eps[0].section_type != 1 {
            seq![EpisodeWithSection { episode: eps[0], section_title: Some(title) }]
        } else {
            Seq::<EpisodeWithSection>::empty()
        }) + spec_section_episodes(eps.drop_first(), title)
    }
}

/// The episodes of the selected sections, in section order.
pub open spec fn spec_selected(sections: Seq<SectionData>, ids: Seq<i64>) -> Seq<
    EpisodeWithSection,
>
    decreases sections.len(),
{
    if sections.len() == 0 {
        Seq::empty()
    } else {
        (if ids.contains(sections[0].id) {
            spec_section_episodes(sections[0].episodes@, sections[0].title)
        } else {
            Seq::<EpisodeWithSection>::empty()
        }) + spec_selected(sections.drop_first(), ids)
    }
}

/// What a refresh of this listing yields, before per-episode mapping: all
/// main episodes, then — only when sections were selected — the non-trailer
/// episodes of the selected sections, tagged with their section title.
pub open spec fn spec_episode_selection(
    list: BangumiList,
    eps: Seq<Episode>,
    sections: Seq<SectionData>,
) -> Seq<EpisodeWithSection> {
    match list.selected_section_ids {
        Option::Some(ids) => spec_mains(eps) + spec_selected(sections, ids@),
        Option::None => spec_mains(eps),
    }
}

fn vec_contains_i64(v: &Vec<i64>, x: i64) -> (r: bool)
    ensures
        r == v@.contains(x),
{
    let mut i: usize = 0;
    while i < v.len()
        invariant
            i <= v@.len(),
            forall|j: int| 0 <= j < i ==> v@[j] != x,
        decreases v@.len() - i,
    {
        if v[i] == x {
            proof {
                assert(v@[i as int] == x);
            }
            return true;
        }
        i += 1;
    }
    false
}

fn take_mains(eps: Vec<Episode>) -> (r: Vec<EpisodeWithSection>)
    ensures
        r@ == spec_mains(eps@),
{
    let ghost all = eps@;
    let mut eps = eps;
    let mut out: Vec<EpisodeWithSection> = Vec::new();
    while eps.len() > 0
        invariant
            spec_mains(all) == out@ + spec_mains(eps@),
        decreases eps@.len(),
    {
        let ghost before = eps@;
        let e = eps.remove(0);
        proof {
            assert(before.drop_first() =~= eps@);
            assert(before[0] == e);
        }
        if e.section_type == 0 {
            out.push(EpisodeWithSection { episode: e, section_title: None });
        }
    }
    proof {
        assert(out@ =~= spec_mains(all));
    }
    out
}

fn append_selected(
    out: &mut Vec<EpisodeWithSection>,
    sections: Vec<SectionData>,
    ids: &Vec<i64>,
)
    ensures
        final(out)@ == old(out)@ + spec_selected(sections@, ids@),
{
    let ghost all = sections@;
    let ghost base = out@;
    let mut sections = sections;
    while sections.len() > 0
        invariant
            base + spec_selected(all, ids@) == out@ + spec_selected(sections@, ids@),
        decreases sections@.len(),
    {
        let ghost before = sections@;
        let s = sections.remove(0);
        proof {
            assert(before.drop_first() =~= sections@);
            assert(before[0] == s);
        }
        if vec_contains_i64(ids, s.id) {
            let ghost sec = s;
            let ghost inner_base = out@;
            let title = s.title;
            let mut eps = s.episodes;
            let ghost eps_all = eps@;
            while eps.len() > 0
                invariant
                    title == sec.title,
                    inner_base + spec_section_episodes(eps_all, sec.title) == out@
                        + spec_section_episodes(eps@, sec.title),
                decreases eps@.len(),
            {
                let ghost inner_before = eps@;
                let e = eps.remove(0);
                proof {
                    assert(inner_before.drop_first() =~= eps@);
                    assert(inner_before[0] == e);
                }
                if e.section_type != 1 {
                    out.push(
                        EpisodeWithSection { episode: e, section_title: Some(title.clone()) },
                    );
                }
            }
            proof {
                assert(out@ =~= inner_base + spec_section_episodes(eps_all, sec.title));
            }
        }
    }
    proof {
        assert(spec_selected(Seq::<SectionData>::empty(), ids@) =~= Seq::<
            EpisodeWithSection,
        >::empty());
        assert(out@ =~= base + spec_selected(all, ids@));
    }
}

/// The display title of one episode: the subtitle when there is one, else
/// the title unless it looks like a raw filename (contains a dot), else the
/// badge ("PV", …), else the title after all.
pub open spec fn spec_episode_title(ep: Episode) -> Seq<char> {
    if ep.long_title@.len() > 0 {
        ep.long_title@
    } else if ep.title@.len() > 0 && !contains_char(ep.title@, '.') {
        ep.title@
    } else if ep.badge@.len() > 0 {
        ep.badge@
    } else {
        ep.title@
    }
}

fn episode_title(ep: &Episode) -> (r: String)
    ensures
        r@ == spec_episode_title(*ep),
{
    if !ep.long_title.as_str().is_empty() {
        ep.long_title.clone()
    } else if !ep.title.as_str().is_empty() && !has_char(ep.title.as_str(), '.') {
        ep.title.clone()
    } else if !ep.badge.as_str().is_empty() {
        ep.badge.clone()
    } else {
        ep.title.clone()
    }
}

/// Turn one selected episode into a refresh candidate.
///
/// The candidate's name is the season title joined to the episode title
/// with an underscore; the episode number is the episode title parsed as an
/// integer, when it is one; a sectioned episode shows its episode title, a
/// main episode its raw title; a publication time chrono cannot represent
/// falls back to `now`.
pub fn episode_video_info(
    ep: Episode,
    section_title: Option<String>,
    info: &BangumiListInfo,
    season_id: i64,
    now: i64,
) -> (v: VideoInfo)
    ensures
        v matches VideoInfo::Bangumi {
            title,
            season_id: sid,
            ep_id,
            bvid,
            cid,
            aid,
            cover,
            intro,
            pubtime,
            show_title,
            section_title: st,
            season_number,
            episode_number,
            share_copy,
            show_season_type,
            actors,
        } && {
            &&& title@ == info.title@ + seq!['_'] + spec_episode_title(ep)
            &&& sid@ == signed_dec_digits(season_id as int)
            &&& ep_id@ == signed_dec_digits(ep.id as int)
            &&& bvid == ep.bvid
            &&& cid@ == signed_dec_digits(ep.cid as int)
            &&& aid@ == signed_dec_digits(ep.aid as int)
            &&& cover == info.cover
            &&& intro@.len() == 0
            &&& pubtime == if spec_timestamp_in_range(ep.pub_time) {
                ep.pub_time
            } else {
                now
            }
            &&& show_title matches Some(t) && t@ == (if section_title is Some {
                spec_episode_title(ep)
            } else {
                ep.title@
            })
            &&& st == section_title
            &&& season_number is None
            &&& episode_number == spec_parsed_i32(ep.title@)
            &&& share_copy is None
            &&& show_season_type == Some(info.season_type as i32)
            &&& actors is None
        },
{
    proof {
        reveal_strlit("_");
    }
    let et = episode_title(&ep);
    let mut full_title = info.title.clone();
    full_title.append("_");
    full_title.append(et.as_str());
    proof {
        assert(full_title@ =~= info.title@ + seq!['_'] + spec_episode_title(ep));
    }
    let show_title = if section_title.is_some() {
        et
    } else {
        ep.title.clone()
    };
    let pubtime = if timestamp_in_range(ep.pub_time) {
        ep.pub_time
    } else {
        now
    };
    let episode_number = parse_i32(ep.title.as_str());
    VideoInfo::Bangumi {
        title: full_title,
        season_id: i64_to_string(season_id),
        ep_id: i64_to_string(ep.id),
        bvid: ep.bvid,
        cid: i64_to_string(ep.cid),
        aid: i64_to_string(ep.aid),
        cover: info.cover.clone(),
        intro: String::new(),
        pubtime,
        show_title: Some(show_title),
        section_title,
        season_number: None,
        episode_number,
        share_copy: None,
        show_season_type: Some(info.season_type as i32),
        actors: None,
    }
}

/// A season whose selection came back empty cannot be refreshed; the run
/// fails so the source is retried later.
pub fn check_episodes_nonempty(episodes: &Vec<EpisodeWithSection>) -> (r: Result<(), ErrorInfo>)
    ensures
        r is Ok <==> episodes@.len() > 0,
        r matches Err(e) ==> e.kind == ErrorKind::Recoverable,
{
    if episodes.len() == 0 {
        proof {
            reveal_strlit("no episodes found in bangumi season");
        }
        Err(
            ErrorInfo {
                kind: ErrorKind::Recoverable,
                message: ("no episodes found in bangumi season").to_owned(),
            },
        )
    } else {
        Ok(())
    }
}

/// Select this listing's episodes from the season's reported data: the main
/// episodes, plus — when sections are selected — the episodes of the
/// selected sections, tagged with their section title.  Trailers are dropped
/// unconditionally: from the main list because only main entries pass, and
/// from selected sections by their own kind.
pub fn select_episodes(
    list: &BangumiList,
    episodes: Vec<Episode>,
    sections: Vec<SectionData>,
) -> (r: Vec<EpisodeWithSection>)
    ensures
        r@ == spec_episode_selection(*list, episodes@, sections@),
{
    let mut out = take_mains(episodes);
    match &list.selected_section_ids {
        Option::Some(ids) => {
            append_selected(&mut out, sections, ids);
        },
        Option::None => {},
    }
    out
}

/// The season-id field of the envelope, as the caller found it.
#[derive(Clone, Copy, Debug, PartialEq, Eq, Structural)]
pub enum JsonIntField {
    /// The key is absent.
    Missing,
    /// The key holds JSON null.
    Null,
    /// The key holds this integer.
    Int(i64),
    /// The key holds something that is not an integer.
    WrongType,
}

/// The season header fields as the caller dug them out of the response
/// envelope, each already reduced to a plain value or absence.
#[derive(Debug)]
pub struct RawSeasonFields {
    pub season_id: JsonIntField,
    pub media_id: Option<i64>,
    pub title: Option<String>,
    pub cover: Option<String>,
    /// The rating score, already rendered to text by the caller.
    pub evaluate: Option<String>,
    pub total: Option<u64>,
    pub is_finish: Option<u64>,
    pub season_type: Option<u64>,
}

/// Resolve a season header defensively, as the upstream demands: a missing
/// or null season id falls back to the requested one and only a mistyped one
/// is an error; a missing media id falls back to the season id; text fields
/// fall back to empty; the counters truncate to sixteen bits; `is_finish`
/// means exactly the value one.
pub fn resolve_bangumi_info(requested_season_id: i64, f: RawSeasonFields) -> (r: Result<
    BangumiListInfo,
    ErrorInfo,
>)
    ensures
        f.season_id is WrongType <==> r is Err,
        r matches Err(e) ==> e.kind == ErrorKind::Recoverable,
        r matches Ok(info) ==> {
            &&& info.season_id == (match f.season_id {
                JsonIntField::Int(v) => v,
                _ => requested_season_id,
            })
            &&& info.media_id == (match f.media_id {
                Option::Some(m) => m,
                Option::None => info.season_id,
            })
            &&& info.title@ == (match f.title {
                Option::Some(t) => t@,
                Option::None => Seq::<char>::empty(),
            })
            &&& info.cover@ == (match f.cover {
                Option::Some(c) => c@,
                Option::None => Seq::<char>::empty(),
            })
            &&& info.evaluate@ == (match f.evaluate {
                Option::Some(e) => e@,
                Option::None => Seq::<char>::empty(),
            })
            &&& info.total == (match f.total {
                Option::Some(t) => t as u16,
                Option::None => 0u16,
            })
            &&& info.is_finish == (f.is_finish == Some(1u64))
            &&& info.season_type == (match f.season_type {
                Option::Some(t) => t as u16,
                Option::None => 0u16,
            })
        },
{
    let season_id = match f.season_id {
        JsonIntField::Int(v) => v,
        JsonIntField::Missing => requested_season_id,
        JsonIntField::Null => requested_season_id,
        JsonIntField::WrongType => {
            proof {
                reveal_strlit("invalid season_id type: expected integer");
            }
            return Err(
                ErrorInfo {
                    kind: ErrorKind::Recoverable,
                    message: ("invalid season_id type: expected integer").to_owned(),
                },
            );
        },
    };
    let media_id = match f.media_id {
        Option::Some(m) => m,
        Option::None => season_id,
    };
    let title = match f.title {
        Option::Some(t) => t,
        Option::None => String::new(),
    };
    let cover = match f.cover {
        Option::Some(c) => c,
        Option::None => String::new(),
    };
    let evaluate = match f.evaluate {
        Option::Some(e) => e,
        Option::None => String::new(),
    };
    let total: u16 = match f.total {
        Option::Some(t) => (t % 0x1_0000) as u16,
        Option::None => 0,
    };
    let is_finish = match f.is_finish {
        Option::Some(v) => v == 1,
        Option::None => false,
    };
    let season_type: u16 = match f.season_type {
        Option::Some(t) => (t % 0x1_0000) as u16,
        Option::None => 0,
    };
    proof {
        if f.total is Some {
            let t = f.total->0;
            assert((t % 0x1_0000) as u16 == t as u16) by (bit_vector);
        }
        if f.season_type is Some {
            let t = f.season_type->0;
            assert((t % 0x1_0000) as u16 == t as u16) by (bit_vector);
        }
    }
    Ok(
        BangumiListInfo {
            season_id,
            media_id,
            title,
            cover,
            evaluate,
            total,
            is_finish,
            season_type,
        },
    )
}

/// The ids parsed from a JSON array of integers, or nothing when the text
/// is not one.
pub uninterp spec fn json_id_list_of(s: Seq<char>) -> Option<Seq<i64>>;

/// Relies on serde_json::from_str::<Vec<i64>>: whether a string parses as a
/// JSON array of 64-bit integers, and which ids it holds, depend on the
/// string alone.
#[verifier::external_body]
fn parse_json_id_list(s: &str) -> (r: Option<Vec<i64>>)
    ensures
        match r {
            Option::Some(v) => json_id_list_of(s@) == Some(v@),
            Option::None => json_id_list_of(s@) is None,
        },
{
    serde_json::from_str::<Vec<i64>>(s).ok()
}

/// A bangumi source row: one followed season.
#[derive(Debug)]
pub struct BangumiSource {
    pub id: i64,
    pub season_id: i64,
    pub title: String,
    /// Destination root of this source's files.
    pub path: String,
    /// High-water mark: the newest publication time known fully persisted.
    pub latest_row_at: i64,
    /// JSON-encoded list of extra-section ids to include; empty for none.
    pub selected_section_ids: String,
    /// The user rule tree, kept as text for the rule-evaluator collaborator.
    pub rule: Option<String>,
}

/// The patch that advances a source's high-water mark.
#[derive(Clone, Copy, Debug, PartialEq, Eq, Structural)]
pub struct LatestRowAtUpdate {
    pub id: i64,
    pub latest_row_at: i64,
}

impl BangumiSource {
    /// Stable label for logs.
    pub fn display_name(&self) -> (r: String)
        ensures
            r@ == ("\u{756a}\u{5267}\u{300c}")@ + self.title@ + ("\u{300d}")@,
    {
        let mut s = ("\u{756a}\u{5267}\u{300c}").to_owned();
        s.append(self.title.as_str());
        s.append("\u{300d}");
        proof {
            assert(s@ =~= ("\u{756a}\u{5267}\u{300c}")@ + self.title@ + ("\u{300d}")@);
        }
        s
    }

    /// Whether a video row belongs to this source; the meaning of the
    /// filter the persistence layer applies for it.
    pub fn owns_video(&self, video: &VideoModel) -> (r: bool)
        ensures
            r == (video.bangumi_id == Some(self.id)),
    {
        match video.bangumi_id {
            Option::Some(b) => b == self.id,
            Option::None => false,
        }
    }

    /// The back-reference this source stamps into its rows.
    pub fn source_ref(&self) -> (r: SourceRef)
        ensures
            r == SourceRef::Bangumi(self.id),
    {
        SourceRef::Bangumi(self.id)
    }

    pub fn get_latest_row_at(&self) -> (t: i64)
        ensures
            t == self.latest_row_at,
    {
        self.latest_row_at
    }

    /// The patch that persists a new high-water mark for this source.
    pub fn update_latest_row_at(&self, t: i64) -> (u: LatestRowAtUpdate)
        ensures
            u.id == self.id,
            u.latest_row_at == t,
    {
        LatestRowAtUpdate { id: self.id, latest_row_at: t }
    }

    /// The listing request a refresh starts from: this season, restricted to
    /// the stored extra-section selection exactly when that selection is a
    /// non-empty JSON list of ids in a non-empty column.
    pub fn listing_request(&self) -> (r: BangumiList)
        ensures
            r.season_id == self.season_id,
            self.selected_section_ids@.len() > 0 && (json_id_list_of(self.selected_section_ids@)
                matches Some(ids) && ids.len() > 0) ==> (r.selected_section_ids matches Some(v)
                && v@ == json_id_list_of(self.selected_section_ids@)->0),
            !(self.selected_section_ids@.len() > 0 && (json_id_list_of(self.selected_section_ids@)
                matches Some(ids) && ids.len() > 0)) ==> r.selected_section_ids is None,
    {
        let list = BangumiList::new(self.season_id);
        if !self.selected_section_ids.as_str().is_empty() {
            match parse_json_id_list(self.selected_section_ids.as_str()) {
                Option::Some(ids) => {
                    if ids.len() > 0 {
                        return list.with_selected_sections(ids);
                    }
                },
                Option::None => {},
            }
        }
        list
    }

    /// Accept the fetched season header: the reported season must be the one
    /// requested, and the stored title is refreshed from it.
    pub fn accept_refresh_info(self, info: &BangumiListInfo) -> (r: Result<
        BangumiSource,
        ErrorInfo,
    >)
        ensures
            info.season_id == self.season_id <==> r is Ok,
            r matches Ok(s) ==> s == (BangumiSource { title: info.title, ..self }),
            r matches Err(e) ==> e.kind == ErrorKind::Recoverable,
    {
        if info.season_id == self.season_id {
            Ok(BangumiSource { title: info.title.clone(), ..self })
        } else {
            proof {
                reveal_strlit("bangumi season_id mismatch");
            }
            Err(
                ErrorInfo {
                    kind: ErrorKind::Recoverable,
                    message: ("bangumi season_id mismatch").to_owned(),
                },
            )
        }
    }
}


} // verus!
