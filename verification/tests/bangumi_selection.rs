use bili_sync::bangumi::{
    check_episodes_nonempty, episode_video_info, resolve_bangumi_info, sections_info,
    select_episodes, BangumiList, BangumiListInfo, BangumiSource, Episode, JsonIntField,
    RawSeasonFields, SectionData,
};
use bili_sync::model::VideoInfo;
use bili_sync::status::ErrorKind;

fn episode(id: i64, title: &str, long_title: &str, section_type: i32, pub_time: i64) -> Episode {
    Episode {
        id,
        aid: 10 * id,
        bvid: format!("BVep{}", id),
        cid: 100 * id,
        title: String::from(title),
        long_title: String::from(long_title),
        badge: String::new(),
        section_type,
        pub_time,
        cover: String::new(),
        from: String::new(),
        link: String::new(),
    }
}

fn season_info(title: &str) -> BangumiListInfo {
    BangumiListInfo {
        season_id: 777,
        media_id: 777,
        title: String::from(title),
        cover: String::from("https://img.example/season.jpg"),
        evaluate: String::from("9.7"),
        total: 12,
        is_finish: false,
        season_type: 1,
    }
}

/// Twelve main episodes, one trailer section (dropped because only main
/// entries of the episode list pass), one bonus section selected by id.
#[test]
fn selected_sections_join_main_episodes() {
    let mut episodes: Vec<Episode> = (1..=12)
        .map(|n| episode(n, &n.to_string(), &format!("ep {}", n), 0, 1000 + n))
        .collect();
    // A trailer that sits in the main list with a non-zero section type.
    episodes.push(episode(90, "PV", "", 1, 2000));
    let sections = vec![
        SectionData {
            id: 98,
            title: String::from("PV"),
            section_type: 1,
            episodes: vec![episode(91, "PV1", "", 1, 2001)],
            attr: 0,
            episode_id: 0,
            episode_ids: vec![],
        },
        SectionData {
            id: 99,
            title: String::from("bonus"),
            section_type: 2,
            episodes: vec![
                episode(95, "sp1", "", 2, 2002),
                episode(97, "PV2", "", 1, 2004),
                episode(96, "sp2", "", 2, 2003),
            ],
            attr: 0,
            episode_id: 0,
            episode_ids: vec![],
        },
    ];
    let list = BangumiList::new(777).with_selected_sections(vec![99]);
    let picked = select_episodes(&list, episodes, sections);
    assert_eq!(
        picked.len(),
        14,
        "twelve mains plus the two bonus episodes; trailers drop everywhere"
    );
    for ews in picked.iter().take(12) {
        assert!(ews.section_title.is_none());
        assert_eq!(ews.episode.section_type, 0);
    }
    for ews in picked.iter().skip(12) {
        assert_eq!(ews.section_title.as_deref(), Some("bonus"));
        assert_ne!(ews.episode.section_type, 1, "no trailer passes a selected section");
    }
    assert!(check_episodes_nonempty(&picked).is_ok());
}

#[test]
fn without_selection_only_mains_pass() {
    let episodes = vec![
        episode(1, "1", "first", 0, 10),
        episode(2, "PV", "", 1, 11),
        episode(3, "2", "second", 0, 12),
    ];
    let sections = vec![SectionData {
        id: 99,
        title: String::from("bonus"),
        section_type: 2,
        episodes: vec![episode(95, "sp1", "", 2, 13)],
        attr: 0,
        episode_id: 0,
        episode_ids: vec![],
    }];
    let list = BangumiList::new(777);
    let picked = select_episodes(&list, episodes, sections);
    assert_eq!(picked.len(), 2);
    assert!(check_episodes_nonempty(&picked).is_ok());
    let none: Vec<_> = Vec::new();
    assert!(check_episodes_nonempty(&none).is_err());
}

/// The stored JSON selection drives the listing request; an empty or invalid
/// column selects nothing.
#[test]
fn listing_request_parses_stored_selection() {
    let source = BangumiSource {
        id: 3,
        season_id: 777,
        title: String::from("old title"),
        path: String::from("/library/show"),
        latest_row_at: 0,
        selected_section_ids: String::from("[99, 98]"),
        rule: None,
    };
    let list = source.listing_request();
    assert_eq!(list.season_id, 777);
    assert_eq!(list.selected_section_ids, Some(vec![99, 98]));

    let empty = BangumiSource { selected_section_ids: String::new(), ..source };
    assert_eq!(empty.listing_request().selected_section_ids, None);

    let invalid = BangumiSource { selected_section_ids: String::from("oops"), ..empty };
    assert_eq!(invalid.listing_request().selected_section_ids, None);

    let empty_list = BangumiSource { selected_section_ids: String::from("[]"), ..invalid };
    assert_eq!(empty_list.listing_request().selected_section_ids, None);
}

#[test]
fn refresh_info_must_match_the_requested_season() {
    let source = BangumiSource {
        id: 3,
        season_id: 777,
        title: String::from("old title"),
        path: String::from("/library/show"),
        latest_row_at: 0,
        selected_section_ids: String::new(),
        rule: None,
    };
    let updated = source.accept_refresh_info(&season_info("fresh title")).unwrap();
    assert_eq!(updated.title, "fresh title");
    assert_eq!(updated.id, 3);

    let mut other = season_info("elsewhere");
    other.season_id = 778;
    assert!(updated.accept_refresh_info(&other).is_err());
}

#[test]
fn episode_mapping_prefers_the_subtitle_and_parses_the_number() {
    let info = season_info("My Show");
    let ep = episode(21, "7", "the seventh", 0, 1_600_000_000);
    match episode_video_info(ep, None, &info, 777, 42) {
        VideoInfo::Bangumi {
            title,
            season_id,
            ep_id,
            bvid,
            cid,
            aid,
            pubtime,
            show_title,
            section_title,
            episode_number,
            show_season_type,
            ..
        } => {
            assert_eq!(title, "My Show_the seventh");
            assert_eq!(season_id, "777");
            assert_eq!(ep_id, "21");
            assert_eq!(bvid, "BVep21");
            assert_eq!(cid, "2100");
            assert_eq!(aid, "210");
            assert_eq!(pubtime, 1_600_000_000);
            assert_eq!(show_title.as_deref(), Some("7"), "a main episode shows its raw title");
            assert_eq!(section_title, None);
            assert_eq!(episode_number, Some(7));
            assert_eq!(show_season_type, Some(1));
        },
        VideoInfo::Favorite { .. } => panic!("a season episode maps to the bangumi shape"),
    }
}

#[test]
fn episode_mapping_falls_back_for_extras() {
    let info = season_info("My Show");
    // A filename-looking title with no subtitle: the badge wins.
    let mut ep = episode(22, "sp01.mp4", "", 2, i64::MAX);
    ep.badge = String::from("PV");
    match episode_video_info(ep, Some(String::from("bonus")), &info, 777, 424242) {
        VideoInfo::Bangumi { title, pubtime, show_title, section_title, episode_number, .. } => {
            assert_eq!(title, "My Show_PV");
            assert_eq!(
                pubtime, 424242,
                "a publication time out of range falls back to the given clock"
            );
            assert_eq!(
                show_title.as_deref(),
                Some("PV"),
                "a sectioned episode shows its display title"
            );
            assert_eq!(section_title.as_deref(), Some("bonus"));
            assert_eq!(episode_number, None);
        },
        VideoInfo::Favorite { .. } => panic!("a season episode maps to the bangumi shape"),
    }
}

#[test]
fn season_header_fallbacks() {
    let fields = RawSeasonFields {
        season_id: JsonIntField::Missing,
        media_id: None,
        title: None,
        cover: None,
        evaluate: None,
        total: Some(70000),
        is_finish: Some(1),
        season_type: None,
    };
    let info = resolve_bangumi_info(777, fields).unwrap();
    assert_eq!(info.season_id, 777, "a missing season id falls back to the requested one");
    assert_eq!(info.media_id, 777, "a missing media id falls back to the season id");
    assert_eq!(info.title, "");
    assert_eq!(info.total, 4464, "the counter truncates to sixteen bits");
    assert!(info.is_finish);
    assert_eq!(info.season_type, 0);

    let null = RawSeasonFields {
        season_id: JsonIntField::Null,
        media_id: None,
        title: None,
        cover: None,
        evaluate: None,
        total: None,
        is_finish: None,
        season_type: None,
    };
    let info = resolve_bangumi_info(777, null).unwrap();
    assert_eq!(info.season_id, 777, "a null season id falls back to the requested one");
    assert_eq!(info.media_id, 777);

    let wrong = RawSeasonFields {
        season_id: JsonIntField::WrongType,
        media_id: Some(55),
        title: Some(String::from("t")),
        cover: Some(String::from("c")),
        evaluate: Some(String::from("9.1")),
        total: Some(12),
        is_finish: Some(0),
        season_type: Some(4),
    };
    assert!(resolve_bangumi_info(777, wrong).is_err());

    let full = RawSeasonFields {
        season_id: JsonIntField::Int(888),
        media_id: Some(55),
        title: Some(String::from("t")),
        cover: Some(String::from("c")),
        evaluate: Some(String::from("9.1")),
        total: Some(12),
        is_finish: Some(0),
        season_type: Some(4),
    };
    let info = resolve_bangumi_info(777, full).unwrap();
    assert_eq!(info.season_id, 888);
    assert_eq!(info.media_id, 55);
    assert_eq!(info.evaluate, "9.1");
    assert_eq!(info.total, 12);
    assert!(!info.is_finish);
    assert_eq!(info.season_type, 4);
}

#[test]
fn sections_are_summarized_with_their_episode_counts() {
    let sections = vec![SectionData {
        id: 99,
        title: String::from("bonus"),
        section_type: 2,
        episodes: vec![episode(95, "sp1", "", 2, 13), episode(96, "sp2", "", 2, 14)],
        attr: 0,
        episode_id: 0,
        episode_ids: vec![],
    }];
    let infos = sections_info(sections);
    assert_eq!(infos.len(), 1);
    assert_eq!(infos[0].id, 99);
    assert_eq!(infos[0].title, "bonus");
    assert_eq!(infos[0].section_type, 2);
    assert_eq!(infos[0].episode_count, 2);
}

#[test]
fn source_capabilities() {
    let source = BangumiSource {
        id: 3,
        season_id: 777,
        title: String::from("Show"),
        path: String::from("/library/show"),
        latest_row_at: 55,
        selected_section_ids: String::new(),
        rule: None,
    };
    assert_eq!(source.display_name(), "\u{756a}\u{5267}\u{300c}Show\u{300d}");
    assert_eq!(source.get_latest_row_at(), 55);
    let patch = source.update_latest_row_at(99);
    assert_eq!(patch.id, 3);
    assert_eq!(patch.latest_row_at, 99);
    let mut row = bili_sync::model::new_row(VideoInfo::Bangumi {
        title: String::from("Show_1"),
        season_id: String::from("777"),
        ep_id: String::from("1"),
        bvid: String::from("BV1"),
        cid: String::from("1"),
        aid: String::from("1"),
        cover: String::new(),
        intro: String::new(),
        pubtime: 5,
        show_title: None,
        section_title: None,
        season_number: None,
        episode_number: Some(1),
        share_copy: None,
        show_season_type: None,
        actors: None,
    });
    assert!(!source.owns_video(&row));
    source.source_ref().set_relation_id(&mut row);
    assert!(source.owns_video(&row));
}
