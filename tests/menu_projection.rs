use cap_tray::cache::PreviousItemsCache;
use cap_tray::item::{CachedPreviousItem, PreviousItemType};
use cap_tray::menu::{build_tray_menu, create_mode_submenu, MenuEntry, RecordingMode, TrayItem, TrayMenu};

fn record(path: &str, name: &str, kind: PreviousItemType, thumb: bool) -> CachedPreviousItem {
    CachedPreviousItem {
        path: path.to_string(),
        pretty_name: name.to_string(),
        thumbnail: if thumb { Some(vec![1; 32 * 32 * 4]) } else { None },
        thumbnail_width: if thumb { 32 } else { 0 },
        thumbnail_height: if thumb { 32 } else { 0 },
        item_type: kind,
        created_at: 1,
    }
}

fn sample_cache() -> PreviousItemsCache {
    PreviousItemsCache::new(vec![
        record("/r/one", "First recording", PreviousItemType::StudioRecording, true),
        record("/r/two", "A very long recording title that goes on and on", PreviousItemType::InstantRecording, false),
        record("/s/three.cap", "Shot", PreviousItemType::Screenshot, false),
    ])
}

/// Flattens a menu into (id, label, enabled) triples; separators read "-".
fn flat(m: &TrayMenu) -> Vec<(String, String, bool)> {
    let mut out = Vec::new();
    for e in &m.entries {
        match e {
            MenuEntry::Item(r) => out.push((r.id.clone(), r.label.clone(), r.enabled)),
            MenuEntry::Separator => out.push(("-".to_string(), String::new(), false)),
            MenuEntry::Submenu(s) => {
                out.push((s.id.clone(), s.label.clone(), s.enabled));
                for r in &s.rows {
                    out.push((format!("  {}", r.id), r.label.clone(), r.enabled));
                }
            }
        }
    }
    out
}

fn ids(m: &TrayMenu) -> Vec<String> {
    flat(m).into_iter().map(|(id, _, _)| id).collect()
}

#[test]
fn chinese_screenshot_mode_with_empty_cache() {
    let m = build_tray_menu("zh-CN", "1.0.0", RecordingMode::Screenshot, false, &PreviousItemsCache::new(Vec::new()));
    let f = flat(&m);
    assert_eq!(f[1], ("record_display".to_string(), "显示器截图".to_string(), true));
    assert_eq!(f[2], ("record_window".to_string(), "窗口截图".to_string(), true));
    assert_eq!(f[3], ("record_area".to_string(), "区域截图".to_string(), true));
    assert!(!ids(&m).contains(&"take_screenshot".to_string()));
    let prev = m.entries.iter().find_map(|e| match e {
        MenuEntry::Submenu(s) if s.id == "previous" => Some(s),
        _ => None,
    }).unwrap();
    assert!(!prev.enabled);
    assert_eq!(prev.label, "最近");
    assert_eq!(prev.rows.len(), 1);
    assert_eq!(prev.rows[0].label, "无最近项目");
    assert!(!prev.rows[0].enabled);
}

#[test]
fn full_menu_order_in_studio_mode() {
    let m = build_tray_menu("en", "2.3.4", RecordingMode::Studio, false, &sample_cache());
    assert_eq!(
        ids(&m),
        vec![
            "open_cap", "record_display", "record_window", "record_area", "take_screenshot",
            "import_video", "-", "select_mode", "  mode_studio", "  mode_instant",
            "  mode_screenshot", "previous", "  previous_item_/r/one", "  previous_item_/r/two",
            "  previous_item_/s/three.cap", "-", "view_all_recordings", "view_all_screenshots",
            "open_settings", "-", "version", "quit",
        ]
    );
    let f = flat(&m);
    assert_eq!(f[1].1, "Record Display");
    assert_eq!(f[20], ("version".to_string(), "Cap v2.3.4".to_string(), false));
}

#[test]
fn unknown_locale_reads_english_everywhere() {
    for mode in [RecordingMode::Studio, RecordingMode::Instant, RecordingMode::Screenshot] {
        for setup in [false, true] {
            let a = build_tray_menu("xx-unknown", "1", mode, setup, &sample_cache());
            let b = build_tray_menu("en", "1", mode, setup, &sample_cache());
            assert_eq!(flat(&a), flat(&b));
        }
    }
    let m = build_tray_menu("xx-unknown", "1", RecordingMode::Studio, false, &sample_cache());
    assert_eq!(flat(&m)[0].1, "Open Main Window");
}

#[test]
fn setup_menu_ignores_mode_and_cache() {
    let expected = vec![
        ("request_permissions".to_string(), "Request Permissions".to_string(), true),
        ("-".to_string(), String::new(), false),
        ("version".to_string(), "Cap v9".to_string(), false),
        ("quit".to_string(), "Quit Cap".to_string(), true),
    ];
    for mode in [RecordingMode::Studio, RecordingMode::Instant, RecordingMode::Screenshot] {
        for cache in [PreviousItemsCache::new(Vec::new()), sample_cache()] {
            assert_eq!(flat(&build_tray_menu("en", "9", mode, true, &cache)), expected);
        }
    }
}

#[test]
fn previous_rows_carry_glyph_title_and_icon() {
    let m = build_tray_menu("en", "1", RecordingMode::Studio, false, &sample_cache());
    let prev = m.entries.iter().find_map(|e| match e {
        MenuEntry::Submenu(s) if s.id == "previous" => Some(s),
        _ => None,
    }).unwrap();
    assert!(prev.enabled);
    assert_eq!(prev.rows[0].label, "🎬 First recording");
    assert_eq!(prev.rows[1].label, "⚡ A very long recording title t…");
    assert_eq!(prev.rows[2].label, "📷 Shot");
    assert_eq!(prev.rows[0].icon.as_ref().map(|(px, w, h)| (px.len(), *w, *h)), Some((4096, 32, 32)));
    assert!(prev.rows[1].icon.is_none());
}

#[test]
fn mode_submenu_marks_the_current_mode() {
    let s = create_mode_submenu("en", RecordingMode::Instant);
    let labels: Vec<&str> = s.rows.iter().map(|r| r.label.as_str()).collect();
    assert_eq!(labels, vec!["   Studio", "✓ Instant", "   Screenshot"]);
    assert_eq!(s.label, "Select Mode");
}

#[test]
fn menu_ids_round_trip() {
    let items = vec![
        TrayItem::OpenCap, TrayItem::RecordDisplay, TrayItem::RecordWindow, TrayItem::RecordArea,
        TrayItem::TakeScreenshot, TrayItem::ImportVideo, TrayItem::ViewAllRecordings,
        TrayItem::ViewAllScreenshots, TrayItem::OpenSettings, TrayItem::Quit,
        TrayItem::PreviousItem("/a/b c".to_string()), TrayItem::ModeStudio, TrayItem::ModeInstant,
        TrayItem::ModeScreenshot, TrayItem::RequestPermissions,
    ];
    for item in items {
        let id = item.menu_id();
        let back = TrayItem::try_from(&id).unwrap();
        assert_eq!(back.menu_id(), id);
    }
    assert_eq!(TrayItem::PreviousItem("/x".to_string()).menu_id(), "previous_item_/x");
}

#[test]
fn unknown_menu_id_is_an_error() {
    match TrayItem::try_from("version") {
        Err(e) => assert_eq!(e, "Invalid tray item id version"),
        Ok(_) => panic!("accepted an unknown id"),
    }
    assert!(TrayItem::try_from("previous_empty").is_err());
}
