use cap_tray::cache::{load_all_previous_items, PreviousItemsCache, MAX_PREVIOUS_ITEMS};
use cap_tray::item::{
    is_screenshot, load_single_item, thumbnail_source, CachedPreviousItem, ItemProbe,
    PreviousItemType, ProjectMeta, RecordingKind,
};
use std::io::Cursor;

const SHOTS: &str = "/data/exports/screenshot";

fn record(path: &str, created_at: u64) -> CachedPreviousItem {
    CachedPreviousItem {
        path: path.to_string(),
        pretty_name: format!("name of {path}"),
        thumbnail: None,
        thumbnail_width: 0,
        thumbnail_height: 0,
        item_type: PreviousItemType::StudioRecording,
        created_at,
    }
}

fn probe(path: &str, created_at: u64, meta_ok: bool) -> ItemProbe {
    ItemProbe {
        path: path.to_string(),
        is_dir: true,
        extension: Some("cap".to_string()),
        parent: Some("/data/recordings".to_string()),
        meta: if meta_ok {
            Some(ProjectMeta { pretty_name: format!("Recording {created_at}"), kind: RecordingKind::Studio })
        } else {
            None
        },
        created_at,
        first_png: None,
        display_jpg: None,
        thumbnail_data: None,
    }
}

fn png_bytes(w: u32, h: u32) -> Vec<u8> {
    let img = image::RgbaImage::from_pixel(w, h, image::Rgba([200, 10, 10, 255]));
    let mut out: Vec<u8> = Vec::new();
    img.write_to(&mut Cursor::new(&mut out), image::ImageFormat::Png).unwrap();
    out
}

fn paths(c: &PreviousItemsCache) -> Vec<String> {
    c.items().iter().map(|i| i.path.clone()).collect()
}

#[test]
fn upserts_never_exceed_capacity_and_stay_newest_first() {
    let mut c = PreviousItemsCache::new(Vec::new());
    for k in 0..20u64 {
        c.upsert_front(record(&format!("/r/{}", k % 9), 100 + k));
        assert!(c.len() <= MAX_PREVIOUS_ITEMS);
        let times: Vec<u64> = c.items().iter().map(|i| i.created_at).collect();
        assert!(times.windows(2).all(|w| w[0] >= w[1]));
    }
    assert_eq!(c.len(), MAX_PREVIOUS_ITEMS);
}

#[test]
fn second_upsert_at_same_location_wins() {
    let mut c = PreviousItemsCache::new(vec![record("/r/a", 5), record("/r/b", 4)]);
    c.upsert_front(record("/r/x", 10));
    let mut newer = record("/r/x", 11);
    newer.pretty_name = "second".to_string();
    c.upsert_front(newer);
    assert_eq!(paths(&c), vec!["/r/x", "/r/a", "/r/b"]);
    assert_eq!(c.items()[0].pretty_name, "second");
    assert_eq!(c.items()[0].created_at, 11);
}

#[test]
fn upsert_of_existing_record_moves_it_to_front() {
    let mut c = PreviousItemsCache::new(vec![record("/r/a", 3), record("/r/b", 2), record("/r/c", 1)]);
    c.upsert_front(record("/r/c", 9));
    assert_eq!(paths(&c), vec!["/r/c", "/r/a", "/r/b"]);
}

#[test]
fn full_cache_drops_its_oldest_record() {
    let items: Vec<CachedPreviousItem> = (0..6u64).map(|k| record(&format!("/r/{k}"), 60 - k)).collect();
    let mut c = PreviousItemsCache::new(items);
    c.upsert_front(record("/r/new", 100));
    assert_eq!(paths(&c), vec!["/r/new", "/r/0", "/r/1", "/r/2", "/r/3", "/r/4"]);
}

#[test]
fn new_cache_keeps_only_the_bound() {
    let items: Vec<CachedPreviousItem> = (0..9u64).map(|k| record(&format!("/r/{k}"), k)).collect();
    assert_eq!(PreviousItemsCache::new(items).len(), MAX_PREVIOUS_ITEMS);
}

#[test]
fn thumbnail_update_of_absent_location_is_a_no_op() {
    let mut c = PreviousItemsCache::new(vec![record("/r/a", 3), record("/r/b", 2)]);
    c.update_thumbnail("/r/gone", Some(vec![1, 2, 3, 4]), 1, 1);
    assert_eq!(paths(&c), vec!["/r/a", "/r/b"]);
    assert!(c.items().iter().all(|i| i.thumbnail.is_none()));
}

#[test]
fn thumbnail_update_keeps_position() {
    let mut c = PreviousItemsCache::new(vec![record("/r/a", 3), record("/r/b", 2), record("/r/c", 1)]);
    c.update_thumbnail("/r/b", Some(vec![7; 16]), 2, 2);
    assert_eq!(paths(&c), vec!["/r/a", "/r/b", "/r/c"]);
    assert_eq!(c.items()[1].thumbnail, Some(vec![7; 16]));
    assert_eq!((c.items()[1].thumbnail_width, c.items()[1].thumbnail_height), (2, 2));
    assert!(c.items()[0].thumbnail.is_none());
}

#[test]
fn loading_skips_entries_with_broken_metadata() {
    let mut recordings: Vec<ItemProbe> = Vec::new();
    for k in 0..8u64 {
        recordings.push(probe(&format!("/data/recordings/{k}.cap"), [50, 20, 70, 10, 30, 80, 60, 40][k as usize], k != 2 && k != 5));
    }
    let items = load_all_previous_items(recordings, Vec::new(), SHOTS, false);
    let times: Vec<u64> = items.iter().map(|i| i.created_at).collect();
    assert_eq!(times, vec![60, 50, 40, 30, 20, 10]);
    let got: Vec<&str> = items.iter().map(|i| i.path.as_str()).collect();
    assert_eq!(
        got,
        vec![
            "/data/recordings/6.cap",
            "/data/recordings/0.cap",
            "/data/recordings/7.cap",
            "/data/recordings/4.cap",
            "/data/recordings/1.cap",
            "/data/recordings/3.cap",
        ]
    );
}

#[test]
fn loading_sorts_newest_first_and_keeps_six() {
    let recordings: Vec<ItemProbe> = (0..5u64).map(|k| probe(&format!("/data/recordings/{k}"), k * 10, true)).collect();
    let mut shot = probe(&format!("{SHOTS}/s.cap"), 25, true);
    shot.parent = Some(SHOTS.to_string());
    let mut not_container = probe(&format!("{SHOTS}/s.txt"), 99, true);
    not_container.extension = Some("txt".to_string());
    not_container.parent = Some(SHOTS.to_string());
    let mut file = probe("/data/recordings/file", 100, true);
    file.is_dir = false;
    let mut recordings = recordings;
    recordings.push(file);
    let items = load_all_previous_items(recordings, vec![shot, not_container], SHOTS, false);
    let got: Vec<(String, u64)> = items.iter().map(|i| (i.path.clone(), i.created_at)).collect();
    assert_eq!(
        got,
        vec![
            ("/data/recordings/4".to_string(), 40),
            ("/data/recordings/3".to_string(), 30),
            (format!("{SHOTS}/s.cap"), 25),
            ("/data/recordings/2".to_string(), 20),
            ("/data/recordings/1".to_string(), 10),
            ("/data/recordings/0".to_string(), 0),
        ]
    );
    assert_eq!(items[2].item_type, PreviousItemType::Screenshot);
}

#[test]
fn equal_times_keep_scan_order() {
    let recordings: Vec<ItemProbe> = (0..3u64).map(|k| probe(&format!("/data/recordings/{k}"), 5, true)).collect();
    let items = load_all_previous_items(recordings, Vec::new(), SHOTS, false);
    let got: Vec<String> = items.iter().map(|i| i.path.clone()).collect();
    assert_eq!(got, vec!["/data/recordings/0", "/data/recordings/1", "/data/recordings/2"]);
}

#[test]
fn loader_classifies_and_defers_thumbnails() {
    let mut p = probe("/data/recordings/inst", 7, true);
    p.meta = Some(ProjectMeta { pretty_name: "Quick".to_string(), kind: RecordingKind::Instant });
    p.thumbnail_data = Some(png_bytes(64, 48));
    let without = load_single_item(p, SHOTS, false).unwrap();
    assert_eq!(without.item_type, PreviousItemType::InstantRecording);
    assert_eq!(without.pretty_name, "Quick");
    assert!(without.thumbnail.is_none());
    assert_eq!((without.thumbnail_width, without.thumbnail_height), (0, 0));

    let mut p = probe("/data/recordings/inst", 7, true);
    p.thumbnail_data = Some(png_bytes(64, 48));
    let with = load_single_item(p, SHOTS, true).unwrap();
    assert_eq!(with.thumbnail.as_ref().map(|t| t.len()), Some(32 * 32 * 4));
    assert_eq!((with.thumbnail_width, with.thumbnail_height), (32, 32));
}

#[test]
fn loader_rejects_files_and_bad_metadata() {
    let mut p = probe("/data/recordings/f", 1, true);
    p.is_dir = false;
    assert!(load_single_item(p, SHOTS, true).is_none());
    assert!(load_single_item(probe("/data/recordings/g", 1, false), SHOTS, true).is_none());
}

#[test]
fn thumbnail_source_depends_on_kind() {
    let mut p = probe(&format!("{SHOTS}/a.cap"), 1, true);
    p.parent = Some(SHOTS.to_string());
    p.first_png = Some(format!("{SHOTS}/a.cap/a.png"));
    p.display_jpg = Some(format!("{SHOTS}/a.cap/screenshots/display.jpg"));
    assert!(is_screenshot(&p, SHOTS));
    assert_eq!(thumbnail_source(&p, SHOTS), Some(format!("{SHOTS}/a.cap/a.png")));
    p.parent = Some("/elsewhere".to_string());
    assert!(!is_screenshot(&p, SHOTS));
    assert_eq!(thumbnail_source(&p, SHOTS), Some(format!("{SHOTS}/a.cap/screenshots/display.jpg")));
}

#[test]
fn new_cache_keeps_the_first_record_at_each_location() {
    let c = PreviousItemsCache::new(vec![record("/r/a", 3), record("/r/b", 2), record("/r/a", 1)]);
    assert_eq!(paths(&c), vec!["/r/a", "/r/b"]);
    assert_eq!(c.items()[0].created_at, 3);
}
