use bili_sync::model::{new_row, SourceRef, VideoInfo, VideoModel};
use bili_sync::refresh::{RefreshConfig, RefreshOutcome, RefreshScan};
use bili_sync::status::{ErrorInfo, ErrorKind};
use bili_sync::table::VideoTable;

fn fav_item(n: i64, fav_time: i64) -> VideoInfo {
    VideoInfo::Favorite {
        title: format!("video {}", n),
        bvid: format!("BV{}", n),
        upper_id: 1000 + n,
        upper_name: String::from("creator"),
        upper_face: String::from("https://img.example/face.jpg"),
        cover: String::from("https://img.example/cover.jpg"),
        pubtime: fav_time - 100,
        fav_time,
        unfilled: false,
    }
}

fn ingest_chunk(table: &mut VideoTable, chunk: Vec<VideoInfo>, source: &SourceRef) {
    let rows: Vec<VideoModel> = chunk
        .into_iter()
        .map(|info| {
            let mut row = new_row(info);
            source.set_relation_id(&mut row);
            row
        })
        .collect();
    table.insert_chunk(rows);
}

/// A favorite source over an empty table; the upstream lists two pages
/// of ten videos, all newer than the epoch mark.
#[test]
fn first_run_ingests_two_pages_of_ten() {
    let source = SourceRef::Favorite(5);
    let mut table = VideoTable::new();
    let cfg = RefreshConfig { page_size: Some(10) };
    let mut scan = RefreshScan::begin(cfg, 0);
    let mut chunks = 0;
    // Newest first: fav_time 2000, 1999, ...
    for n in 0..20 {
        if let Some(chunk) = scan.on_item(fav_item(n, 2000 - n)) {
            assert_eq!(chunk.len(), 10);
            chunks += 1;
            ingest_chunk(&mut table, chunk, &source);
        }
    }
    assert!(!scan.stopped);
    assert!(scan.finish().is_none());
    assert_eq!(chunks, 2, "twenty accepted items arrive as two batches of ten");
    assert_eq!(table.row_count(), 20);
    match scan.outcome() {
        RefreshOutcome::Completed { new_latest_row_at, count } => {
            assert_eq!(new_latest_row_at, Some(2000), "the mark advances to the newest fav time");
            assert_eq!(count, 20);
        },
        RefreshOutcome::Failed(_) => panic!("the scan saw no error"),
    }
}

/// The same source on its second run; the upstream added three newer
/// videos at the head and nothing else.  Consumption stops at the first item
/// of the second page, and only three new rows appear.
#[test]
fn second_run_stops_on_stale_page() {
    let source = SourceRef::Favorite(5);
    let mut table = VideoTable::new();

    // First run over the empty table.
    let cfg = RefreshConfig { page_size: Some(10) };
    let mut scan = RefreshScan::begin(cfg, 0);
    for n in 0..20 {
        if let Some(chunk) = scan.on_item(fav_item(n, 2000 - n)) {
            ingest_chunk(&mut table, chunk, &source);
        }
    }
    if let Some(chunk) = scan.finish() {
        ingest_chunk(&mut table, chunk, &source);
    }
    let hwm = match scan.outcome() {
        RefreshOutcome::Completed { new_latest_row_at, .. } => new_latest_row_at.unwrap(),
        RefreshOutcome::Failed(_) => panic!("clean first run"),
    };
    assert_eq!(table.row_count(), 20);

    // Second run: three new items (fav 2003..2001), then the old head ones.
    let mut scan = RefreshScan::begin(cfg, hwm);
    let mut accepted = 0;
    let first_page: Vec<VideoInfo> = (0..3)
        .map(|n| fav_item(100 + n, 2003 - n))
        .chain((0..7).map(|n| fav_item(n, 2000 - n)))
        .collect();
    for item in first_page {
        if let Some(chunk) = scan.on_item(item) {
            accepted += chunk.len();
            ingest_chunk(&mut table, chunk, &source);
        }
    }
    assert!(!scan.stopped, "mid-page items older than the mark are still taken");
    assert_eq!(accepted, 10, "the whole first page fills one batch");
    // First item of page two: index 10, not newer than the mark: stop.
    assert!(scan.on_item(fav_item(3, 1997)).is_none());
    assert!(scan.stopped, "a page that starts at or below the mark ends the scan");
    assert!(scan.finish().is_none());
    assert_eq!(table.row_count(), 23, "only the three new videos insert rows");
    match scan.outcome() {
        RefreshOutcome::Completed { new_latest_row_at, .. } => {
            assert_eq!(new_latest_row_at, Some(2003));
        },
        RefreshOutcome::Failed(_) => panic!("clean second run"),
    }
}

/// Idempotence of refresh: replaying an unchanged upstream inserts nothing
/// and leaves the high-water mark alone.
#[test]
fn refresh_twice_changes_nothing() {
    let source = SourceRef::Favorite(9);
    let cfg = RefreshConfig { page_size: Some(10) };
    let items = || (0..5).map(|n| fav_item(n, 500 - n));

    let mut table = VideoTable::new();
    let mut scan = RefreshScan::begin(cfg, 0);
    for item in items() {
        assert!(scan.on_item(item).is_none());
    }
    if let Some(chunk) = scan.finish() {
        ingest_chunk(&mut table, chunk, &source);
    }
    let hwm = match scan.outcome() {
        RefreshOutcome::Completed { new_latest_row_at, .. } => new_latest_row_at.unwrap(),
        RefreshOutcome::Failed(_) => panic!("clean run"),
    };
    assert_eq!(table.row_count(), 5);
    assert_eq!(hwm, 500);

    // Second run against the same listing, from the advanced mark.
    let mut scan = RefreshScan::begin(cfg, hwm);
    // Page starts at fav 500 == mark: not newer, so the scan stops at once.
    assert!(scan.on_item(fav_item(0, 500)).is_none());
    assert!(scan.stopped);
    assert!(scan.finish().is_none());
    match scan.outcome() {
        RefreshOutcome::Completed { new_latest_row_at, count } => {
            assert_eq!(new_latest_row_at, None, "the mark does not move");
            assert_eq!(count, 0);
        },
        RefreshOutcome::Failed(_) => panic!("clean run"),
    }
    assert_eq!(table.row_count(), 5);
}

/// High-water monotonicity: a stream error ends the scan without advancing
/// the mark, so the next run resumes from the same point.
#[test]
fn stream_error_keeps_the_mark() {
    let cfg = RefreshConfig { page_size: Some(10) };
    let mut scan = RefreshScan::begin(cfg, 300);
    assert!(scan.on_item(fav_item(1, 900)).is_none());
    assert!(scan.on_item(fav_item(2, 800)).is_none());
    scan.on_error(ErrorInfo {
        kind: ErrorKind::Recoverable,
        message: String::from("connection reset"),
    });
    assert!(scan.stopped);
    let _ = scan.finish();
    match scan.outcome() {
        RefreshOutcome::Failed(e) => {
            assert_eq!(e.message, "connection reset");
        },
        RefreshOutcome::Completed { .. } => {
            panic!("an errored scan must not report completion")
        },
    }
}

/// Unfilled sentinel entries are dropped, not ingested.
#[test]
fn unfilled_items_are_filtered() {
    let source = SourceRef::Favorite(2);
    let cfg = RefreshConfig { page_size: Some(10) };
    let mut table = VideoTable::new();
    let mut scan = RefreshScan::begin(cfg, 0);
    let mut sentinel = fav_item(1, 700);
    if let VideoInfo::Favorite { ref mut unfilled, .. } = sentinel {
        *unfilled = true;
    }
    assert!(scan.on_item(sentinel).is_none());
    assert!(scan.on_item(fav_item(2, 699)).is_none());
    if let Some(chunk) = scan.finish() {
        assert_eq!(chunk.len(), 1);
        ingest_chunk(&mut table, chunk, &source);
    }
    assert_eq!(table.row_count(), 1);
    match scan.outcome() {
        RefreshOutcome::Completed { new_latest_row_at, .. } => {
            assert_eq!(new_latest_row_at, Some(700), "a dropped item still moves the mark");
        },
        RefreshOutcome::Failed(_) => panic!("clean run"),
    }
}

/// Uniqueness: over any sequence of ingests the row count equals the number
/// of distinct composite keys, never the number of upserts.
#[test]
fn row_count_is_distinct_key_count() {
    let source = SourceRef::Favorite(1);
    let mut table = VideoTable::new();
    // Nine upserts over three distinct keys.
    for _ in 0..3 {
        let chunk: Vec<VideoInfo> = (0..3).map(|n| fav_item(n, 100 + n)).collect();
        ingest_chunk(&mut table, chunk, &source);
    }
    assert_eq!(table.row_count(), 3);
    // The same id under another source variant is a different composite key.
    let mut row = new_row(fav_item(0, 100));
    SourceRef::Collection(5).set_relation_id(&mut row);
    table.insert_chunk(vec![row]);
    assert_eq!(table.row_count(), 4);
    // Upsert of an existing key reports no insertion.
    let mut row = new_row(fav_item(0, 100));
    source.set_relation_id(&mut row);
    assert!(!table.upsert(row));
}

/// A bangumi listing is unpaginated: the scan never stops early.
#[test]
fn unpaginated_listing_is_read_whole() {
    let cfg = RefreshConfig { page_size: None };
    let mut scan = RefreshScan::begin(cfg, 1000);
    // Items at and below the mark are still taken.
    assert!(scan.on_item(fav_item(1, 1000)).is_none());
    assert!(scan.on_item(fav_item(2, 1)).is_none());
    assert!(!scan.stopped);
    let chunk = scan.finish().expect("both items were accepted");
    assert_eq!(chunk.len(), 2);
}
