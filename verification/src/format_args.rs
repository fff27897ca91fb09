//! The dictionaries handed to the template engine, and the title heuristics
//! they are built from: season-number extraction, version extraction, and
//! the series title a bangumi directory is named after.
use vstd::prelude::*;
use vstd::string::*;

use crate::model::{PageModel, VideoModel};
use crate::strutil::{
    contains_char, find_char, find_str, has_char, i64_to_string, is_digit, pad2, padded2,
    parse_i32, signed_dec_digits, spec_parsed_i32, spec_trimmed, str_eq, trim,
};
use crate::textnorm::{first_seq_at, spec_normalized_title};
use crate::timefmt::{
    format_timestamp, formatted_time, spec_timestamp_in_range, timestamp_in_range, timestamp_year,
    year_of,
};

verus! {

/// First index of `c` in `s`, or `-1`.
pub open spec fn first_char_at(s: Seq<char>, c: char) -> int
    decreases s.len(),
{
    if s.len() == 0 {
        -1
    } else if s[0] == c {
        0
    } else {
        let r = first_char_at(s.drop_first(), c);
        if r < 0 {
            -1
        } else {
            r + 1
        }
    }
}

proof fn lemma_first_char_at_some(s: Seq<char>, c: char, i: int)
    requires
        0 <= i < s.len(),
        s[i] == c,
        forall|j: int| 0 <= j < i ==> s[j] != c,
    ensures
        first_char_at(s, c) == i,
    decreases s.len(),
{
    if i > 0 {
        lemma_first_char_at_some(s.drop_first(), c, i - 1);
    }
}

proof fn lemma_first_char_at_none(s: Seq<char>, c: char)
    requires
        forall|j: int| 0 <= j < s.len() ==> s[j] != c,
    ensures
        first_char_at(s, c) == -1,
    decreases s.len(),
{
    if s.len() > 0 {
        lemma_first_char_at_none(s.drop_first(), c);
    }
}

/// `s` with one leading underscore removed.
pub open spec fn spec_strip_underscore(s: Seq<char>) -> Seq<char> {
    if s.len() > 0 && s[0] == '_' {
        s.drop_first()
    } else {
        s
    }
}

/// The length of the run of ASCII digits `s` starts with.
pub open spec fn digit_run_len(s: Seq<char>) -> int
    decreases s.len(),
{
    if s.len() == 0 || !is_digit(s[0]) {
        0
    } else {
        1 + digit_run_len(s.drop_first())
    }
}

proof fn lemma_digit_run_len(s: Seq<char>, e: int)
    requires
        0 <= e <= s.len(),
        forall|j: int| 0 <= j < e ==> is_digit(s[j]),
        e == s.len() || !is_digit(s[e]),
    ensures
        digit_run_len(s) == e,
    decreases e,
{
    if e > 0 {
        lemma_digit_run_len(s.drop_first(), e - 1);
    }
}

/// A season number written between `\u{7b2c}` and `\u{5b63}`: the Chinese
/// numerals one to ten, or one to fifty in digits.
pub open spec fn spec_cn_season(num: Seq<char>) -> Option<i32> {
    if num =~= seq!['\u{4e00}'] {
        Some(1i32)
    } else if num =~= seq!['\u{4e8c}'] {
        Some(2i32)
    } else if num =~= seq!['\u{4e09}'] {
        Some(3i32)
    } else if num =~= seq!['\u{56db}'] {
        Some(4i32)
    } else if num =~= seq!['\u{4e94}'] {
        Some(5i32)
    } else if num =~= seq!['\u{516d}'] {
        Some(6i32)
    } else if num =~= seq!['\u{4e03}'] {
        Some(7i32)
    } else if num =~= seq!['\u{516b}'] {
        Some(8i32)
    } else if num =~= seq!['\u{4e5d}'] {
        Some(9i32)
    } else if num =~= seq!['\u{5341}'] {
        Some(10i32)
    } else {
        match spec_parsed_i32(num) {
            Option::Some(n) => if 0 < n <= 50 {
                Some(n)
            } else {
                None
            },
            Option::None => None,
        }
    }
}

/// A season number taken from the text between the season markers, if both
/// markers stand in `t` and the text between them is a recognized numeral.
pub open spec fn spec_marker_season(t: Seq<char>) -> Option<i32> {
    let p = first_char_at(t, '\u{7b2c}');
    if p < 0 {
        None
    } else {
        let after = t.subrange(p + 1, t.len() as int);
        let q = first_char_at(after, '\u{5b63}');
        if q < 0 {
            None
        } else {
            spec_cn_season(after.subrange(0, q))
        }
    }
}

/// A season number written as `pat` followed by digits, one to fifty.
pub open spec fn spec_pattern_season(t: Seq<char>, pat: Seq<char>) -> Option<i32> {
    let i = first_seq_at(t, pat);
    if i < 0 {
        None
    } else {
        let after = t.subrange(i + pat.len(), t.len() as int);
        let ds = after.subrange(0, digit_run_len(after));
        match spec_parsed_i32(ds) {
            Option::Some(n) => if 0 < n <= 50 {
                Some(n)
            } else {
                None
            },
            Option::None => None,
        }
    }
}

/// The season number read from an episode title: the marker form first, then
/// `Season N` and `season N`, and one when nothing matches.
pub open spec fn spec_season_number(title: Seq<char>) -> i32 {
    let t = spec_strip_underscore(spec_trimmed(title));
    match spec_marker_season(t) {
        Option::Some(n) => n,
        Option::None => match spec_pattern_season(t, ("Season ")@) {
            Option::Some(n) => n,
            Option::None => match spec_pattern_season(t, ("season ")@) {
                Option::Some(n) => n,
                Option::None => 1i32,
            },
        },
    }
}

fn cn_season(num: &str) -> (r: Option<i32>)
    ensures
        r == spec_cn_season(num@),
{
    proof {
        reveal_strlit("\u{4e00}");
        reveal_strlit("\u{4e8c}");
        reveal_strlit("\u{4e09}");
        reveal_strlit("\u{56db}");
        reveal_strlit("\u{4e94}");
        reveal_strlit("\u{516d}");
        reveal_strlit("\u{4e03}");
        reveal_strlit("\u{516b}");
        reveal_strlit("\u{4e5d}");
        reveal_strlit("\u{5341}");
        assert(("\u{4e00}")@ =~= seq!['\u{4e00}']);
        assert(("\u{4e8c}")@ =~= seq!['\u{4e8c}']);
        assert(("\u{4e09}")@ =~= seq!['\u{4e09}']);
        assert(("\u{56db}")@ =~= seq!['\u{56db}']);
        assert(("\u{4e94}")@ =~= seq!['\u{4e94}']);
        assert(("\u{516d}")@ =~= seq!['\u{516d}']);
        assert(("\u{4e03}")@ =~= seq!['\u{4e03}']);
        assert(("\u{516b}")@ =~= seq!['\u{516b}']);
        assert(("\u{4e5d}")@ =~= seq!['\u{4e5d}']);
        assert(("\u{5341}")@ =~= seq!['\u{5341}']);
    }
    if str_eq(num, "\u{4e00}") {
        Some(1)
    } else if str_eq(num, "\u{4e8c}") {
        Some(2)
    } else if str_eq(num, "\u{4e09}") {
        Some(3)
    } else if str_eq(num, "\u{56db}") {
        Some(4)
    } else if str_eq(num, "\u{4e94}") {
        Some(5)
    } else if str_eq(num, "\u{516d}") {
        Some(6)
    } else if str_eq(num, "\u{4e03}") {
        Some(7)
    } else if str_eq(num, "\u{516b}") {
        Some(8)
    } else if str_eq(num, "\u{4e5d}") {
        Some(9)
    } else if str_eq(num, "\u{5341}") {
        Some(10)
    } else {
        match parse_i32(num) {
            Option::Some(n) => {
                if 0 < n && n <= 50 {
                    Some(n)
                } else {
                    None
                }
            },
            Option::None => None,
        }
    }
}

fn pattern_season(t: &str, pat: &str) -> (r: Option<i32>)
    requires
        pat@.len() > 0,
    ensures
        r == spec_pattern_season(t@, pat@),
{
    match find_str(t, pat) {
        Option::None => {
            proof {
                crate::textnorm::lemma_first_seq_at_none(t@, pat@);
            }
            None
        },
        Option::Some(i) => {
            proof {
                crate::textnorm::lemma_first_seq_at_some(t@, pat@, i as int);
            }
            let lt = t.unicode_len();
            let start = i + pat.unicode_len();
            let after = t.substring_char(start, lt);
            let la = after.unicode_len();
            let mut e: usize = 0;
            while e < la && after.get_char(e) >= '0' && after.get_char(e) <= '9'
                invariant
                    la == after@.len(),
                    e <= la,
                    forall|j: int| 0 <= j < e ==> is_digit(after@[j]),
                decreases la - e,
            {
                e += 1;
            }
            proof {
                lemma_digit_run_len(after@, e as int);
            }
            let ds = after.substring_char(0, e);
            match parse_i32(ds) {
                Option::Some(n) => {
                    if 0 < n && n <= 50 {
                        Some(n)
                    } else {
                        None
                    }
                },
                Option::None => None,
            }
        },
    }
}

/// Extract the season number from an episode or video title, defaulting to
/// one.  The result is always between one and fifty.
pub fn extract_season_number(title: &str) -> (n: i32)
    ensures
        n == spec_season_number(title@),
        1 <= n <= 50,
{
    proof {
        reveal_strlit("Season ");
        reveal_strlit("season ");
    }
    let t0 = trim(title);
    let lt0 = t0.unicode_len();
    let t: &str = if lt0 > 0 && t0.get_char(0) == '_' {
        t0.substring_char(1, lt0)
    } else {
        t0
    };
    proof {
        if lt0 > 0 && t0@[0] == '_' {
            assert(t@ =~= spec_strip_underscore(t0@));
        }
    }
    let lt = t.unicode_len();
    match find_char(t, '\u{7b2c}') {
        Option::Some(p) => {
            proof {
                lemma_first_char_at_some(t@, '\u{7b2c}', p as int);
            }
            let after = t.substring_char(p + 1, lt);
            match find_char(after, '\u{5b63}') {
                Option::Some(q) => {
                    proof {
                        lemma_first_char_at_some(after@, '\u{5b63}', q as int);
                    }
                    let num = after.substring_char(0, q);
                    match cn_season(num) {
                        Option::Some(n) => {
                            return n;
                        },
                        Option::None => {},
                    }
                },
                Option::None => {
                    proof {
                        lemma_first_char_at_none(after@, '\u{5b63}');
                    }
                },
            }
        },
        Option::None => {
            proof {
                lemma_first_char_at_none(t@, '\u{7b2c}');
            }
        },
    }
    match pattern_season(t, "Season ") {
        Option::Some(n) => {
            return n;
        },
        Option::None => {},
    }
    match pattern_season(t, "season ") {
        Option::Some(n) => {
            return n;
        },
        Option::None => {},
    }
    1
}

/// Where the version heuristic reads from: the trimmed title when it starts
/// with an underscore (which is then dropped), else the title as given.
pub open spec fn spec_version_source(title: Seq<char>) -> Seq<char> {
    let t = spec_trimmed(title);
    if t.len() > 0 && t[0] == '_' {
        t.drop_first()
    } else {
        title
    }
}

/// The version tag of a title: the whole source text when it is short (six
/// bytes at most) and free of the episode markers, else empty.
pub open spec fn spec_version_info(title: Seq<char>) -> Seq<char> {
    let t = spec_version_source(title);
    if vstd::utf8::encode_utf8(t).len() <= 6 && !contains_char(t, '\u{7b2c}') && !contains_char(
        t,
        '\u{8bdd}',
    ) && !contains_char(t, '\u{96c6}') {
        t
    } else {
        Seq::empty()
    }
}

/// A character takes between one and four bytes.
proof fn lemma_encode_len_bounds(chars: Seq<char>)
    ensures
        chars.len() <= vstd::utf8::encode_utf8(chars).len() <= 4 * chars.len(),
    decreases chars.len(),
{
    if chars.len() > 0 {
        lemma_encode_len_bounds(chars.drop_first());
        let c = chars[0] as u32;
        assert(1 <= vstd::utf8::encode_scalar(c).len() <= 4);
    }
}

/// Extract the version tag ("OVA", a cut label, …) from a video title.
pub fn extract_version_info(title: &str) -> (r: String)
    ensures
        r@ == spec_version_info(title@),
{
    let t0 = trim(title);
    let lt0 = t0.unicode_len();
    let t: &str = if lt0 > 0 && t0.get_char(0) == '_' {
        t0.substring_char(1, lt0)
    } else {
        title
    };
    proof {
        if lt0 > 0 && t0@[0] == '_' {
            assert(t@ =~= spec_version_source(title@));
        }
        assert(t.spec_bytes() == vstd::utf8::encode_utf8(t@));
        lemma_encode_len_bounds(t@);
    }
    let lc = t.unicode_len();
    if lc > 6 {
        return String::new();
    }
    if t.len() <= 6 && !has_char(t, '\u{7b2c}') && !has_char(t, '\u{8bdd}') && !has_char(
        t,
        '\u{96c6}',
    ) {
        t.to_owned()
    } else {
        String::new()
    }
}

/// The series title guessed from a stored video name: everything before the
/// first space, else before the first underscore, else the whole name, each
/// trimmed.
pub open spec fn spec_fallback_series_title(name: Seq<char>) -> Seq<char> {
    let n = spec_trimmed(name);
    let sp = first_char_at(n, ' ');
    if sp >= 0 {
        spec_trimmed(n.subrange(0, sp))
    } else {
        let us = first_char_at(n, '_');
        if us >= 0 {
            spec_trimmed(n.subrange(0, us))
        } else {
            n
        }
    }
}

/// The series title a bangumi directory is named after: the normalized title
/// the season endpoint reported when one is available, else the guess from
/// the stored name.
pub open spec fn spec_series_title(name: Seq<char>, api_title: Option<Seq<char>>) -> Seq<char> {
    match api_title {
        Option::Some(t) => spec_normalized_title(t),
        Option::None => spec_fallback_series_title(name),
    }
}

pub fn extract_series_title(name: &str, api_title: Option<&str>) -> (r: String)
    ensures
        r@ == spec_series_title(
            name@,
            match api_title {
                Option::Some(t) => Some(t@),
                Option::None => None,
            },
        ),
{
    match api_title {
        Option::Some(t) => crate::textnorm::normalize_title(t),
        Option::None => {
            let n = trim(name);
            match find_char(n, ' ') {
                Option::Some(p) => {
                    proof {
                        lemma_first_char_at_some(n@, ' ', p as int);
                    }
                    trim(n.substring_char(0, p)).to_owned()
                },
                Option::None => {
                    proof {
                        lemma_first_char_at_none(n@, ' ');
                    }
                    match find_char(n, '_') {
                        Option::Some(p) => {
                            proof {
                                lemma_first_char_at_some(n@, '_', p as int);
                            }
                            trim(n.substring_char(0, p)).to_owned()
                        },
                        Option::None => {
                            proof {
                                lemma_first_char_at_none(n@, '_');
                            }
                            n.to_owned()
                        },
                    }
                },
            }
        },
    }
}

/// `n` rendered as `{:02}` renders it: zero-padded to two digits, with a
/// plain signed rendering for negatives.
pub open spec fn padded2_signed(n: int) -> Seq<char> {
    if n < 0 {
        signed_dec_digits(n)
    } else {
        padded2(n as nat)
    }
}

pub fn pad2_i32(n: i32) -> (r: String)
    ensures
        r@ == padded2_signed(n as int),
{
    if n < 0 {
        i64_to_string(n as i64)
    } else {
        pad2(n as u64)
    }
}

/// The dictionary the single-video template is rendered from.
#[derive(Debug)]
pub struct VideoFormatArgs {
    pub bvid: String,
    pub title: String,
    pub upper_name: String,
    pub upper_mid: i64,
    pub pubtime: String,
    pub fav_time: String,
}

/// Whether both row timestamps render under this format: the condition for
/// any of the dictionaries to exist.
pub open spec fn spec_times_render(video: VideoModel, fmt: Seq<char>) -> bool {
    &&& spec_timestamp_in_range(video.pubtime)
    &&& spec_timestamp_in_range(video.favtime)
    &&& formatted_time(video.pubtime as int, fmt) is Some
    &&& formatted_time(video.favtime as int, fmt) is Some
}

/// Build the single-video dictionary, or nothing when a timestamp cannot be
/// rendered under the configured format.
pub fn video_format_args(video: &VideoModel, time_format: &str) -> (r: Option<VideoFormatArgs>)
    ensures
        r is Some <==> spec_times_render(*video, time_format@),
        r matches Some(a) ==> {
            &&& a.bvid == video.bvid
            &&& a.title == video.name
            &&& a.upper_name == video.upper_name
            &&& a.upper_mid == video.upper_id
            &&& Some(a.pubtime@) == formatted_time(video.pubtime as int, time_format@)
            &&& Some(a.fav_time@) == formatted_time(video.favtime as int, time_format@)
        },
{
    if !timestamp_in_range(video.pubtime) || !timestamp_in_range(video.favtime) {
        return None;
    }
    let pubtime = match format_timestamp(video.pubtime, time_format) {
        Option::Some(s) => s,
        Option::None => {
            return None;
        },
    };
    let fav_time = match format_timestamp(video.favtime, time_format) {
        Option::Some(s) => s,
        Option::None => {
            return None;
        },
    };
    Some(
        VideoFormatArgs {
            bvid: video.bvid.clone(),
            title: video.name.clone(),
            upper_name: video.upper_name.clone(),
            upper_mid: video.upper_id,
            pubtime,
            fav_time,
        },
    )
}

/// The dictionary the per-page template is rendered from.
#[derive(Debug)]
pub struct PageFormatArgs {
    pub bvid: String,
    pub title: String,
    pub name: String,
    pub upper_name: String,
    pub upper_mid: i64,
    pub ptitle: String,
    pub pid: i32,
    pub pubtime: String,
    pub fav_time: String,
}

/// Build the per-page dictionary: the display title prefers the row's show
/// title over its name.
pub fn page_format_args(video: &VideoModel, page: &PageModel, time_format: &str) -> (r: Option<
    PageFormatArgs,
>)
    ensures
        r is Some <==> spec_times_render(*video, time_format@),
        r matches Some(a) ==> {
            &&& a.bvid == video.bvid
            &&& a.title@ == (match video.show_title {
                Option::Some(t) => t@,
                Option::None => video.name@,
            })
            &&& a.name == video.name
            &&& a.upper_name == video.upper_name
            &&& a.upper_mid == video.upper_id
            &&& a.ptitle == page.name
            &&& a.pid == page.pid
            &&& Some(a.pubtime@) == formatted_time(video.pubtime as int, time_format@)
            &&& Some(a.fav_time@) == formatted_time(video.favtime as int, time_format@)
        },
{
    if !timestamp_in_range(video.pubtime) || !timestamp_in_range(video.favtime) {
        return None;
    }
    let pubtime = match format_timestamp(video.pubtime, time_format) {
        Option::Some(s) => s,
        Option::None => {
            return None;
        },
    };
    let fav_time = match format_timestamp(video.favtime, time_format) {
        Option::Some(s) => s,
        Option::None => {
            return None;
        },
    };
    let title = match &video.show_title {
        Option::Some(t) => t.clone(),
        Option::None => video.name.clone(),
    };
    Some(
        PageFormatArgs {
            bvid: video.bvid.clone(),
            title,
            name: video.name.clone(),
            upper_name: video.upper_name.clone(),
            upper_mid: video.upper_id,
            ptitle: page.name.clone(),
            pid: page.pid,
            pubtime,
            fav_time,
        },
    )
}

/// The dictionary the bangumi template is rendered from.
#[derive(Debug)]
pub struct BangumiFormatArgs {
    pub bvid: String,
    pub title: String,
    pub upper_name: String,
    pub upper_mid: i64,
    pub ptitle: String,
    pub pid: i32,
    pub pid_pad: String,
    pub season: i32,
    pub season_pad: String,
    pub year: i32,
    pub studio: String,
    pub actors: String,
    pub share_copy: String,
    pub category: i32,
    pub resolution: String,
    pub content_type: String,
    pub status: String,
    pub ep_id: String,
    pub season_id: String,
    pub pubtime: String,
    pub fav_time: String,
    pub show_title: String,
    pub series_title: String,
    pub version: String,
}

/// The episode number the bangumi template shows: the stored one, with the
/// part index as fallback.
pub open spec fn spec_bangumi_episode_number(video: VideoModel, page: PageModel) -> i32 {
    match video.episode_number {
        Option::Some(n) => n,
        Option::None => page.pid,
    }
}

/// The season number the bangumi template shows: the one extracted from the
/// stored name, unless that extraction only produced the default, in which
/// case the stored season number (or one) wins.
pub open spec fn spec_bangumi_season(video: VideoModel) -> i32 {
    if spec_season_number(video.name@) == 1 {
        match video.season_number {
            Option::Some(s) => s,
            Option::None => 1i32,
        }
    } else {
        spec_season_number(video.name@)
    }
}

/// The page's resolution label: `<width>x<height>`, or `Unknown` when either
/// side is missing.
pub open spec fn spec_resolution(page: PageModel) -> Seq<char> {
    match (page.width, page.height) {
        (Option::Some(w), Option::Some(h)) => signed_dec_digits(w as int) + seq!['x']
            + signed_dec_digits(h as int),
        _ => ("Unknown")@,
    }
}

/// The content-type label of a category code.
pub open spec fn spec_content_type(category: i32) -> Seq<char> {
    if category == 1 {
        ("\u{52a8}\u{753b}")@
    } else if category == 177 {
        ("\u{7eaa}\u{5f55}\u{7247}")@
    } else if category == 155 {
        ("\u{65f6}\u{5c1a}")@
    } else {
        ("\u{756a}\u{5267}")@
    }
}

/// The version tag after deduplication: cleared when the page name is
/// exactly the extracted version, so the tag is not repeated.
pub open spec fn spec_final_version(video: VideoModel, page: PageModel) -> Seq<char> {
    let v = spec_version_info(video.name@);
    if v.len() > 0 && spec_trimmed(page.name@) == v {
        Seq::empty()
    } else {
        v
    }
}

/// Build the bangumi dictionary, or nothing when a timestamp cannot be
/// rendered under the configured format.
pub fn bangumi_page_format_args(
    video: &VideoModel,
    page: &PageModel,
    time_format: &str,
    api_title: Option<&str>,
) -> (r: Option<BangumiFormatArgs>)
    ensures
        r is Some <==> spec_times_render(*video, time_format@),
        r matches Some(a) ==> {
            &&& a.bvid == video.bvid
            &&& a.title == video.name
            &&& a.upper_name == video.upper_name
            &&& a.upper_mid == video.upper_id
            &&& a.ptitle == page.name
            &&& a.pid == spec_bangumi_episode_number(*video, *page)
            &&& a.pid_pad@ == padded2_signed(spec_bangumi_episode_number(*video, *page) as int)
            &&& a.season == spec_bangumi_season(*video)
            &&& a.season_pad@ == padded2_signed(spec_bangumi_season(*video) as int)
            &&& a.year as int == year_of(video.pubtime as int)
            &&& a.studio == video.upper_name
            &&& a.actors@ == (match video.actors {
                Option::Some(s) => s@,
                Option::None => Seq::<char>::empty(),
            })
            &&& a.share_copy@ == (match video.share_copy {
                Option::Some(s) => s@,
                Option::None => Seq::<char>::empty(),
            })
            &&& a.category == video.category
            &&& a.resolution@ == spec_resolution(*page)
            &&& a.content_type@ == spec_content_type(video.category)
            &&& a.status@ == (if video.season_id is Some {
                ("\u{8fde}\u{8f7d}\u{4e2d}")@
            } else {
                ("\u{5df2}\u{5b8c}\u{7ed3}")@
            })
            &&& a.ep_id@ == (match video.ep_id {
                Option::Some(s) => s@,
                Option::None => Seq::<char>::empty(),
            })
            &&& a.season_id@ == (match video.season_id {
                Option::Some(s) => s@,
                Option::None => Seq::<char>::empty(),
            })
            &&& Some(a.pubtime@) == formatted_time(video.pubtime as int, time_format@)
            &&& Some(a.fav_time@) == formatted_time(video.favtime as int, time_format@)
            &&& a.show_title == video.name
            &&& a.series_title@ == spec_series_title(
                video.name@,
                match api_title {
                    Option::Some(t) => Some(t@),
                    Option::None => None,
                },
            )
            &&& a.version@ == spec_final_version(*video, *page)
        },
{
    if !timestamp_in_range(video.pubtime) || !timestamp_in_range(video.favtime) {
        return None;
    }
    let pubtime = match format_timestamp(video.pubtime, time_format) {
        Option::Some(s) => s,
        Option::None => {
            return None;
        },
    };
    let fav_time = match format_timestamp(video.favtime, time_format) {
        Option::Some(s) => s,
        Option::None => {
            return None;
        },
    };
    let episode_number = match video.episode_number {
        Option::Some(n) => n,
        Option::None => page.pid,
    };
    let extracted = extract_season_number(video.name.as_str());
    let season = if extracted == 1 {
        match video.season_number {
            Option::Some(s) => s,
            Option::None => 1,
        }
    } else {
        extracted
    };
    let year = timestamp_year(video.pubtime);
    let series_title = extract_series_title(video.name.as_str(), api_title);
    let version_info = extract_version_info(video.name.as_str());
    let version = if !version_info.as_str().is_empty() && str_eq(
        trim(page.name.as_str()),
        version_info.as_str(),
    ) {
        String::new()
    } else {
        version_info
    };
    let resolution = match (&page.width, &page.height) {
        (Option::Some(w), Option::Some(h)) => {
            proof {
                reveal_strlit("x");
            }
            let mut s = i64_to_string(*w as i64);
            s.append("x");
            s.append(i64_to_string(*h as i64).as_str());
            proof {
                assert(s@ =~= spec_resolution(*page));
            }
            s
        },
        _ => {
            proof {
                reveal_strlit("Unknown");
            }
            ("Unknown").to_owned()
        },
    };
    let content_type = if video.category == 1 {
        ("\u{52a8}\u{753b}").to_owned()
    } else if video.category == 177 {
        ("\u{7eaa}\u{5f55}\u{7247}").to_owned()
    } else if video.category == 155 {
        ("\u{65f6}\u{5c1a}").to_owned()
    } else {
        ("\u{756a}\u{5267}").to_owned()
    };
    let status = if video.season_id.is_some() {
        ("\u{8fde}\u{8f7d}\u{4e2d}").to_owned()
    } else {
        ("\u{5df2}\u{5b8c}\u{7ed3}").to_owned()
    };
    let actors = match &video.actors {
        Option::Some(s) => s.clone(),
        Option::None => String::new(),
    };
    let share_copy = match &video.share_copy {
        Option::Some(s) => s.clone(),
        Option::None => String::new(),
    };
    let ep_id = match &video.ep_id {
        Option::Some(s) => s.clone(),
        Option::None => String::new(),
    };
    let season_id = match &video.season_id {
        Option::Some(s) => s.clone(),
        Option::None => String::new(),
    };
    Some(
        BangumiFormatArgs {
            bvid: video.bvid.clone(),
            title: video.name.clone(),
            upper_name: video.upper_name.clone(),
            upper_mid: video.upper_id,
            ptitle: page.name.clone(),
            pid: episode_number,
            pid_pad: pad2_i32(episode_number),
            season,
            season_pad: pad2_i32(season),
            year,
            studio: video.upper_name.clone(),
            actors,
            share_copy,
            category: video.category,
            resolution,
            content_type,
            status,
            ep_id,
            season_id,
            pubtime,
            fav_time,
            show_title: video.name.clone(),
            series_title,
            version,
        },
    )
}

} // verus!
