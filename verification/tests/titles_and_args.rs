use bili_sync::format_args::{
    bangumi_page_format_args, extract_season_number, extract_series_title, extract_version_info,
    pad2_i32, page_format_args, video_format_args,
};
use bili_sync::me::{
    bangumi_type_code, bool_from_int, default_total, default_total_count, followings_endpoint,
    BangumiType, FollowingsEndpoint, Me,
};
use bili_sync::model::{new_row, PageModel, SourceRef, VideoInfo, VideoModel};
use bili_sync::season_cache::{accept_season_title, SeasonTitleCache};
use bili_sync::strutil::{i64_to_string, pad2, parse_i32, u64_to_string};
use bili_sync::textnorm::normalize_title;

fn page(pid: i32, name: &str) -> PageModel {
    PageModel {
        id: 0,
        video_id: 0,
        pid,
        cid: 1,
        name: String::from(name),
        duration: 60,
        width: Some(1920),
        height: Some(1080),
        image: None,
        download_status: 0,
        path: None,
    }
}

fn bangumi_row(name: &str) -> VideoModel {
    let mut row = new_row(VideoInfo::Bangumi {
        title: String::from(name),
        season_id: String::from("777"),
        ep_id: String::from("21"),
        bvid: String::from("BVb"),
        cid: String::from("1"),
        aid: String::from("1"),
        cover: String::new(),
        intro: String::new(),
        // 2021-01-01 00:00:00 UTC.
        pubtime: 1_609_459_200,
        show_title: Some(String::from("show")),
        section_title: None,
        season_number: None,
        episode_number: Some(7),
        share_copy: Some(String::from("share text")),
        show_season_type: Some(1),
        actors: Some(String::from("a, b")),
    });
    SourceRef::Bangumi(3).set_relation_id(&mut row);
    row.upper_name = String::from("studio name");
    row.upper_id = 12;
    row.category = 1;
    row
}

#[test]
fn season_number_extraction() {
    assert_eq!(extract_season_number("\u{7b2c}\u{4e8c}\u{5b63}"), 2);
    assert_eq!(extract_season_number("Show \u{7b2c}3\u{5b63}"), 3);
    assert_eq!(extract_season_number("\u{7b2c}\u{5341}\u{5b63}"), 10);
    assert_eq!(extract_season_number("Show Season 4"), 4);
    assert_eq!(extract_season_number("show season 12 rest"), 12);
    assert_eq!(extract_season_number("_\u{7b2c}\u{4e5d}\u{5b63}"), 9);
    assert_eq!(extract_season_number("plain title"), 1);
    assert_eq!(extract_season_number("\u{7b2c}52\u{5b63}"), 1, "out of range falls back");
    assert_eq!(extract_season_number("Season 0"), 1, "zero is no season");
    assert_eq!(extract_season_number("\u{7b2c}\u{5b63}"), 1, "no numeral between markers");
}

#[test]
fn version_extraction() {
    assert_eq!(extract_version_info("OVA"), "OVA");
    // The fallback reads the whole untrimmed title, so padding disqualifies.
    assert_eq!(extract_version_info("  OVA  "), "");
    assert_eq!(extract_version_info("_OV"), "OV");
    assert_eq!(extract_version_info("a very long title"), "");
    assert_eq!(extract_version_info("\u{7b2c}1"), "", "episode markers disqualify");
    assert_eq!(extract_version_info("x\u{8bdd}"), "");
    assert_eq!(extract_version_info("x\u{96c6}"), "");
}

#[test]
fn series_title_prefers_the_normalized_api_title() {
    assert_eq!(
        extract_series_title("whatever", Some("My  Show   (TV)")),
        "My Show(TV)",
        "whitespace collapses and the space before a parenthesis goes"
    );
    assert_eq!(
        extract_series_title("whatever", Some("A \u{ff08}B\u{ff09}")),
        "A\u{ff08}B\u{ff09}"
    );
    assert_eq!(extract_series_title("\u{7075}\u{7b3c} \u{7b2c}\u{4e00}\u{5b63}", None), "\u{7075}\u{7b3c}");
    assert_eq!(extract_series_title("Name_\u{7b2c}001\u{8bdd}", None), "Name");
    assert_eq!(extract_series_title("  OnlyName  ", None), "OnlyName");
}

#[test]
fn title_normalization() {
    assert_eq!(normalize_title("  a   b  "), "a b");
    assert_eq!(normalize_title("t (x)"), "t(x)");
    assert_eq!(normalize_title("t\u{3000}\u{ff08}x\u{ff09}"), "t\u{ff08}x\u{ff09}");
    assert_eq!(normalize_title(""), "");
    // Exotic Unicode blanks trim and collapse like ASCII ones.
    assert_eq!(normalize_title("\u{2003}a\u{2003}\u{2003}b\u{2028}"), "a b");
    assert_eq!(normalize_title("\u{85}x\u{205f}y\u{202f}"), "x y");
}

#[test]
fn decimal_rendering() {
    assert_eq!(u64_to_string(0), "0");
    assert_eq!(u64_to_string(90210), "90210");
    assert_eq!(i64_to_string(-42), "-42");
    assert_eq!(i64_to_string(i64::MIN), "-9223372036854775808");
    assert_eq!(pad2(7), "07");
    assert_eq!(pad2(42), "42");
    assert_eq!(pad2(123), "123");
    assert_eq!(pad2_i32(-5), "-5");
}

#[test]
fn integer_parsing_matches_std() {
    for s in ["7", "+7", "-7", "0", "2147483647", "-2147483648", "2147483648", "12a", "", "+", "-", "１２"] {
        assert_eq!(parse_i32(s), s.parse::<i32>().ok(), "mismatch on {:?}", s);
    }
}

#[test]
fn video_args_render_the_row_timestamps() {
    let mut video = bangumi_row("Show_07");
    video.favtime = 1_609_545_600;
    let args = video_format_args(&video, "%Y-%m-%d").expect("valid format");
    assert_eq!(args.bvid, "BVb");
    assert_eq!(args.title, "Show_07");
    assert_eq!(args.upper_mid, 12);
    assert_eq!(args.pubtime, "2021-01-01");
    assert_eq!(args.fav_time, "2021-01-02");
    // An unterminated strftime specifier renders nothing.
    assert!(video_format_args(&video, "%Y %").is_none());
}

#[test]
fn page_args_prefer_the_show_title() {
    let video = bangumi_row("Show_07");
    let page = page(2, "part two");
    let args = page_format_args(&video, &page, "%Y").expect("valid format");
    assert_eq!(args.title, "show");
    assert_eq!(args.name, "Show_07");
    assert_eq!(args.ptitle, "part two");
    assert_eq!(args.pid, 2);
    assert_eq!(args.pubtime, "2021");
}

#[test]
fn bangumi_args_full_dictionary() {
    let video = bangumi_row("Show \u{7b2c}\u{4e8c}\u{5b63}");
    let third = page(3, "part three");
    let args =
        bangumi_page_format_args(&video, &third, "%Y-%m-%d", Some("Show  Title")).expect("valid");
    assert_eq!(args.pid, 7, "the stored episode number wins over the part index");
    assert_eq!(args.pid_pad, "07");
    assert_eq!(args.season, 2, "extracted from the stored name");
    assert_eq!(args.season_pad, "02");
    assert_eq!(args.year, 2021);
    assert_eq!(args.studio, "studio name");
    assert_eq!(args.actors, "a, b");
    assert_eq!(args.share_copy, "share text");
    assert_eq!(args.category, 1);
    assert_eq!(args.resolution, "1920x1080");
    assert_eq!(args.content_type, "\u{52a8}\u{753b}");
    assert_eq!(args.status, "\u{8fde}\u{8f7d}\u{4e2d}", "a season id means airing");
    assert_eq!(args.ep_id, "21");
    assert_eq!(args.season_id, "777");
    assert_eq!(args.series_title, "Show Title");
    assert_eq!(args.version, "");

    // Without an episode number the part index is the episode.
    let mut fallback = bangumi_row("Show_07");
    fallback.episode_number = None;
    fallback.season_number = Some(3);
    fallback.season_id = None;
    fallback.category = 177;
    let mut p = page(4, "p");
    p.width = None;
    let args = bangumi_page_format_args(&fallback, &p, "%Y", None).expect("valid");
    assert_eq!(args.pid, 4);
    assert_eq!(args.season, 3, "the stored season number backs the default");
    assert_eq!(args.resolution, "Unknown");
    assert_eq!(args.content_type, "\u{7eaa}\u{5f55}\u{7247}");
    assert_eq!(args.status, "\u{5df2}\u{5b8c}\u{7ed3}");
    assert_eq!(args.series_title, "Show_07".split('_').next().unwrap());
}

#[test]
fn version_tag_is_not_repeated() {
    let mut video = bangumi_row("OVA");
    video.episode_number = Some(1);
    let dup = page(1, " OVA ");
    let args = bangumi_page_format_args(&video, &dup, "%Y", None).expect("valid");
    assert_eq!(args.version, "", "a page named after the version drops the tag");
    let other = page(1, "part");
    let args = bangumi_page_format_args(&video, &other, "%Y", None).expect("valid");
    assert_eq!(args.version, "OVA");
}

#[test]
fn season_cache_memoizes_and_shadows() {
    let mut cache = SeasonTitleCache::new();
    assert!(cache.get("777").is_none());
    cache.insert(String::from("777"), String::from("t1"));
    cache.insert(String::from("778"), String::from("t2"));
    assert_eq!(cache.get("777").as_deref(), Some("t1"));
    assert_eq!(cache.get("778").as_deref(), Some("t2"));
    cache.insert(String::from("777"), String::from("t3"));
    assert_eq!(cache.get("777").as_deref(), Some("t3"), "the latest insertion wins");
    assert!(cache.get("779").is_none());
}

#[test]
fn fetched_season_titles_are_accepted_only_on_a_clean_envelope() {
    assert_eq!(
        accept_season_title(Some(0), Some(String::from("My  Show"))).as_deref(),
        Some("My Show")
    );
    assert!(accept_season_title(Some(-404), Some(String::from("t"))).is_none());
    assert!(accept_season_title(None, Some(String::from("t"))).is_none());
    assert!(accept_season_title(Some(0), None).is_none());
}

#[test]
fn me_requires_a_user_id() {
    let me = Me::new(String::from("12345"));
    assert_eq!(me.mid(), "12345");
    assert!(me.require_mid().is_ok());
    let anon = Me::new(String::new());
    assert!(anon.require_mid().is_err());
}

#[test]
fn listing_decisions() {
    assert_eq!(followings_endpoint(true), FollowingsEndpoint::Search);
    assert_eq!(followings_endpoint(false), FollowingsEndpoint::Plain);
    assert_eq!(bangumi_type_code(BangumiType::Anime), 1);
    assert_eq!(bangumi_type_code(BangumiType::Drama), 2);
    assert_eq!(default_total(), 0);
    assert_eq!(default_total_count(), 0);
    assert!(matches!(bool_from_int(0), Ok(false)));
    assert!(matches!(bool_from_int(1), Ok(true)));
    assert!(bool_from_int(2).is_err());
    assert!(bool_from_int(-1).is_err());
}
