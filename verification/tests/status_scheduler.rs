use bili_sync::scheduler::{
    aggregate_page_status, find_risk_control, finish_run, is_risk_control, page_nfo_kind,
    page_poster_source, page_subtask_gates, plan_stream_download, video_nfo_kind,
    video_subtask_gates, BestStreamInfo, DownloadCommand, PageNfoKind, SkipOption, UpperSeen,
    VideoNfoKind,
};
use bili_sync::status::{
    update_field, DownloadStatus, ErrorInfo, ErrorKind, ExecutionStatus, MAX_RETRY, STATUS_OK,
};

fn err(kind: ErrorKind) -> ErrorInfo {
    ErrorInfo { kind, message: String::from("boom") }
}

#[test]
fn encode_decode_roundtrip() {
    let s = DownloadStatus { fields: [7, 0, 4, 1, 3] };
    let word = s.encode();
    let back = DownloadStatus::decode(word);
    assert_eq!(back.fields, [7, 0, 4, 1, 3]);
}

#[test]
fn fresh_status_runs_everything() {
    let s = DownloadStatus::new();
    assert_eq!(s.should_run(), [true; 5]);
    assert!(!s.finished());
}

#[test]
fn should_run_only_below_permanent_failure() {
    let s = DownloadStatus { fields: [0, MAX_RETRY, MAX_RETRY + 1, STATUS_OK, 2] };
    assert_eq!(s.should_run(), [true, true, false, false, true]);
}

#[test]
fn update_status_applies_each_result_kind() {
    let mut s = DownloadStatus { fields: [0, 2, 1, MAX_RETRY, 2] };
    let results = [
        ExecutionStatus::Skipped,
        ExecutionStatus::Succeeded,
        ExecutionStatus::Ignored(err(ErrorKind::Recoverable)),
        ExecutionStatus::Failed(err(ErrorKind::Recoverable)),
        ExecutionStatus::Fixed(5),
    ];
    s.update_status(&results);
    assert_eq!(s.fields, [0, STATUS_OK, STATUS_OK, MAX_RETRY + 1, 5]);
}

#[test]
fn retry_budget_saturates_after_max_retry_plus_one_runs() {
    let mut field = 0u32;
    for run in 1..=(MAX_RETRY + 1) {
        field = update_field(field, &ExecutionStatus::Failed(err(ErrorKind::Recoverable)));
        assert_eq!(field, run);
    }
    assert_eq!(field, MAX_RETRY + 1);
    // Further failing runs never move it again, and it is no longer entered.
    field = update_field(field, &ExecutionStatus::Failed(err(ErrorKind::Recoverable)));
    assert_eq!(field, MAX_RETRY + 1);
    let s = DownloadStatus { fields: [field, 7, 7, 7, 7] };
    assert_eq!(s.should_run()[0], false);
}

#[test]
fn status_never_regresses_without_fixed() {
    for old in [0, 1, 2, 3, 4] {
        for r in [
            ExecutionStatus::Skipped,
            ExecutionStatus::Succeeded,
            ExecutionStatus::Ignored(err(ErrorKind::Recoverable)),
            ExecutionStatus::Failed(err(ErrorKind::Recoverable)),
        ] {
            let gated = if old <= MAX_RETRY { r } else { ExecutionStatus::Skipped };
            let new = update_field(old, &gated);
            assert!(new >= old);
        }
    }
}

#[test]
fn finish_run_folds_into_packed_word() {
    let word = DownloadStatus { fields: [7, 0, 3, 1, 0] }.encode();
    let results = [
        ExecutionStatus::Skipped,
        ExecutionStatus::Succeeded,
        ExecutionStatus::Failed(err(ErrorKind::Recoverable)),
        ExecutionStatus::Ignored(err(ErrorKind::Recoverable)),
        ExecutionStatus::Fixed(2),
    ];
    let new_word = finish_run(word, &results);
    let s = DownloadStatus::decode(new_word);
    assert_eq!(s.fields, [7, 7, 4, 7, 2]);
}

#[test]
fn video_gates_respect_single_page_and_upper_policy() {
    let skip = SkipOption::default();
    let gates = video_subtask_gates(&[true; 5], true, false, &skip);
    assert_eq!(gates, [false, false, false, false, true]);
    let gates = video_subtask_gates(&[true; 5], false, true, &skip);
    assert_eq!(gates, [true, true, true, true, true]);
    let skip_upper = SkipOption { no_upper: true, ..SkipOption::default() };
    let gates = video_subtask_gates(&[true; 5], false, true, &skip_upper);
    assert_eq!(gates, [true, true, false, false, true]);
}

#[test]
fn page_gates_respect_skip_options() {
    let skip = SkipOption {
        no_poster: true,
        no_video_nfo: false,
        no_upper: false,
        no_danmaku: true,
        no_subtitle: false,
    };
    let gates = page_subtask_gates(&[true; 5], &skip);
    assert_eq!(gates, [false, true, true, false, true]);
}

#[test]
fn risk_control_is_detected_and_classified() {
    assert!(is_risk_control(&err(ErrorKind::RiskControl)));
    assert!(!is_risk_control(&err(ErrorKind::Recoverable)));
    let results = [
        ExecutionStatus::Succeeded,
        ExecutionStatus::Failed(err(ErrorKind::Recoverable)),
        ExecutionStatus::Failed(err(ErrorKind::RiskControl)),
        ExecutionStatus::Skipped,
        ExecutionStatus::Skipped,
    ];
    assert_eq!(find_risk_control(&results), Some(2));
    let calm = [
        ExecutionStatus::Succeeded,
        ExecutionStatus::Failed(err(ErrorKind::Recoverable)),
        ExecutionStatus::Skipped,
        ExecutionStatus::Skipped,
        ExecutionStatus::Skipped,
    ];
    assert_eq!(find_risk_control(&calm), None);
}

#[test]
fn aggregate_is_min_over_all_page_fields() {
    // Aggregation law on concrete values: the parent's page-dispatch field is
    // the minimum over every subtask field of every page.
    let full = DownloadStatus { fields: [7, 7, 7, 7, 7] }.encode();
    let part = DownloadStatus { fields: [7, 3, 7, 7, 7] }.encode();
    assert_eq!(aggregate_page_status(&vec![full, full]), 7);
    assert_eq!(aggregate_page_status(&vec![full, part]), 3);
    assert_eq!(aggregate_page_status(&vec![]), 7);
    let fresh = DownloadStatus::new().encode();
    assert_eq!(aggregate_page_status(&vec![full, fresh]), 0);
}

#[test]
fn upper_artifacts_run_once_per_uploader() {
    // Two videos of one uploader: only the first run of the pair downloads
    // the uploader's avatar and NFO.
    let mut seen = UpperSeen::new();
    assert!(seen.check_and_insert(42));
    assert!(!seen.check_and_insert(42));
    assert!(seen.check_and_insert(7));
    assert!(!seen.check_and_insert(7));
    assert!(!seen.check_and_insert(42));
}

#[test]
fn stream_choice_maps_to_download_command() {
    let urls = vec![String::from("u1"), String::from("u2")];
    match plan_stream_download(BestStreamInfo::Mixed { urls: urls.clone() }) {
        DownloadCommand::MultiFetch { urls: u } => assert_eq!(u, urls),
        _ => panic!("expected a direct fetch"),
    }
    match plan_stream_download(BestStreamInfo::VideoAudio {
        video_urls: urls.clone(),
        audio_urls: None,
    }) {
        DownloadCommand::MultiFetch { urls: u } => assert_eq!(u, urls),
        _ => panic!("expected a direct fetch"),
    }
    match plan_stream_download(BestStreamInfo::VideoAudio {
        video_urls: urls.clone(),
        audio_urls: Some(vec![String::from("a")]),
    }) {
        DownloadCommand::FetchAndMerge { video_urls, audio_urls } => {
            assert_eq!(video_urls, urls);
            assert_eq!(audio_urls, vec![String::from("a")]);
        },
        _ => panic!("expected fetch and merge"),
    }
}

#[test]
fn nfo_shapes_follow_the_row() {
    assert_eq!(page_nfo_kind(true), PageNfoKind::Movie);
    assert_eq!(page_nfo_kind(false), PageNfoKind::Episode);

    let mut video = bili_sync::model::new_row(bili_sync::model::VideoInfo::Favorite {
        title: String::from("v"),
        bvid: String::from("BVx"),
        upper_id: 1,
        upper_name: String::new(),
        upper_face: String::new(),
        cover: String::from("https://img.example/cover.jpg"),
        pubtime: 0,
        fav_time: 0,
        unfilled: false,
    });
    assert_eq!(video_nfo_kind(&video, true), VideoNfoKind::TvShow, "no season row reference");
    video.bangumi_id = Some(3);
    assert_eq!(video_nfo_kind(&video, true), VideoNfoKind::Bangumi);
    assert_eq!(video_nfo_kind(&video, false), VideoNfoKind::TvShow, "season row not found");
}

#[test]
fn page_poster_comes_from_the_right_image() {
    let mut video = bili_sync::model::new_row(bili_sync::model::VideoInfo::Favorite {
        title: String::from("v"),
        bvid: String::from("BVx"),
        upper_id: 1,
        upper_name: String::new(),
        upper_face: String::new(),
        cover: String::from("https://img.example/cover.jpg"),
        pubtime: 0,
        fav_time: 0,
        unfilled: false,
    });
    let mut page = bili_sync::model::PageModel {
        id: 0,
        video_id: 0,
        pid: 1,
        cid: 1,
        name: String::new(),
        duration: 0,
        width: None,
        height: None,
        image: Some(String::from("https://img.example/page.jpg")),
        download_status: 0,
        path: None,
    };
    video.single_page = Some(true);
    assert_eq!(page_poster_source(&video, &page), "https://img.example/cover.jpg");
    video.single_page = Some(false);
    assert_eq!(page_poster_source(&video, &page), "https://img.example/page.jpg");
    page.image = None;
    assert_eq!(page_poster_source(&video, &page), "https://img.example/cover.jpg");
}
