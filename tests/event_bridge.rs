use cap_tray::bridge::{
    get_mode_icon, get_tray_icon, language_or_default, menu_command, paths_needing_thumbnails,
    previous_item_action, screenshot_item_path, MenuCommand, PreviousItemAction, TargetMode,
    TrayEffect, TrayEvent, TrayIcon, TrayState,
};
use cap_tray::cache::PreviousItemsCache;
use cap_tray::item::{CachedPreviousItem, PreviousItemType, RecordingKind};
use cap_tray::menu::{RecordingMode, TrayItem};

fn record(path: &str, created_at: u64, thumb: bool) -> CachedPreviousItem {
    CachedPreviousItem {
        path: path.to_string(),
        pretty_name: path.to_string(),
        thumbnail: if thumb { Some(vec![0; 4]) } else { None },
        thumbnail_width: if thumb { 1 } else { 0 },
        thumbnail_height: if thumb { 1 } else { 0 },
        item_type: PreviousItemType::Screenshot,
        created_at,
    }
}

fn state(single_icon: bool) -> TrayState {
    TrayState::new(RecordingMode::Instant, single_icon, PreviousItemsCache::new(vec![record("/a", 2, false), record("/b", 1, true)]))
}

#[test]
fn recording_start_and_stop_swap_icons() {
    let mut s = state(false);
    assert_eq!(s.handle_event(TrayEvent::RecordingStarted), vec![TrayEffect::SetIcon(TrayIcon::Stop)]);
    assert!(s.is_recording());
    assert_eq!(s.handle_event(TrayEvent::RecordingStopped), vec![TrayEffect::SetIcon(TrayIcon::Instant)]);
    assert!(!s.is_recording());
}

#[test]
fn single_icon_platform_never_swaps() {
    let mut s = state(true);
    assert!(s.handle_event(TrayEvent::RecordingStarted).is_empty());
    assert!(s.is_recording());
    assert_eq!(
        s.handle_event(TrayEvent::ModeChanged(RecordingMode::Studio)),
        vec![TrayEffect::PersistMode(RecordingMode::Studio), TrayEffect::RebuildMenu]
    );
}

#[test]
fn click_stops_a_running_recording() {
    let mut s = state(false);
    assert_eq!(s.handle_event(TrayEvent::TrayClicked), vec![TrayEffect::ShowTray]);
    s.handle_event(TrayEvent::RecordingStarted);
    assert_eq!(s.handle_event(TrayEvent::TrayClicked), vec![TrayEffect::StopRecording]);
}

#[test]
fn new_item_goes_in_front_and_rebuilds() {
    let mut s = state(false);
    assert_eq!(s.handle_event(TrayEvent::NewItemAdded(Some(record("/c", 3, false)))), vec![TrayEffect::RebuildMenu]);
    let paths: Vec<String> = s.cache().items().iter().map(|i| i.path.clone()).collect();
    assert_eq!(paths, vec!["/c", "/a", "/b"]);
    assert_eq!(s.handle_event(TrayEvent::NewItemAdded(None)), vec![TrayEffect::RebuildMenu]);
    assert_eq!(s.cache().len(), 3);
}

#[test]
fn mode_change_persists_swaps_and_rebuilds() {
    let mut s = state(false);
    assert_eq!(
        s.handle_event(TrayEvent::ModeChanged(RecordingMode::Screenshot)),
        vec![
            TrayEffect::PersistMode(RecordingMode::Screenshot),
            TrayEffect::SetIcon(TrayIcon::Screenshot),
            TrayEffect::RebuildMenu,
        ]
    );
    assert_eq!(s.mode(), RecordingMode::Screenshot);
    assert_eq!(s.handle_event(TrayEvent::LanguageChanged), vec![TrayEffect::RebuildMenu]);
}

#[test]
fn backfill_patches_then_rebuilds_once() {
    let mut s = state(false);
    let todo = paths_needing_thumbnails(s.cache());
    assert_eq!(todo, vec!["/a".to_string()]);
    let fx = s.handle_event(TrayEvent::ThumbnailLoaded { path: "/a".to_string(), thumbnail: Some(vec![5; 4]), width: 1, height: 1 });
    assert!(fx.is_empty());
    assert_eq!(s.cache().items()[0].thumbnail, Some(vec![5; 4]));
    let fx = s.handle_event(TrayEvent::ThumbnailLoaded { path: "/gone".to_string(), thumbnail: Some(vec![5; 4]), width: 1, height: 1 });
    assert!(fx.is_empty());
    assert_eq!(s.cache().len(), 2);
    assert_eq!(s.handle_event(TrayEvent::BackfillDone), vec![TrayEffect::RebuildMenu]);
    assert!(paths_needing_thumbnails(s.cache()).is_empty());
}

#[test]
fn icons_per_mode() {
    assert_eq!(get_tray_icon(), TrayIcon::Default);
    assert_eq!(get_mode_icon(RecordingMode::Studio, false), TrayIcon::Studio);
    assert_eq!(get_mode_icon(RecordingMode::Screenshot, true), TrayIcon::Default);
    assert_eq!(TrayIcon::Stop.file_name(), "tray-stop-icon.png");
}

#[test]
fn menu_clicks_dispatch() {
    assert!(matches!(menu_command(TrayItem::RecordWindow), MenuCommand::OpenTargetPicker(TargetMode::Window)));
    assert!(matches!(menu_command(TrayItem::ViewAllScreenshots), MenuCommand::ShowLibrary));
    assert!(matches!(menu_command(TrayItem::ModeInstant), MenuCommand::SelectMode(RecordingMode::Instant)));
    match menu_command(TrayItem::PreviousItem("/p".to_string())) {
        MenuCommand::OpenPreviousItem(p) => assert_eq!(p, "/p"),
        _ => panic!("wrong command"),
    }
}

#[test]
fn previous_item_opens_by_kind() {
    let cap = Some("cap".to_string());
    let shots = Some("/s".to_string());
    assert_eq!(previous_item_action(&cap, &shots, "/s", None, false), PreviousItemAction::ScreenshotEditor);
    assert_eq!(previous_item_action(&cap, &Some("/r".to_string()), "/s", Some(RecordingKind::Studio), false), PreviousItemAction::Editor);
    assert_eq!(previous_item_action(&None, &None, "/s", Some(RecordingKind::Instant), true), PreviousItemAction::PlayVideo);
    assert_eq!(previous_item_action(&None, &None, "/s", Some(RecordingKind::Instant), false), PreviousItemAction::Nothing);
    assert_eq!(previous_item_action(&None, &None, "/s", None, true), PreviousItemAction::Nothing);
}

#[test]
fn screenshot_event_names_its_container() {
    assert_eq!(
        screenshot_item_path("/s/a.cap/a.png".to_string(), &Some("png".to_string()), Some("/s/a.cap".to_string())),
        Some("/s/a.cap".to_string())
    );
    assert_eq!(screenshot_item_path("/s/a.cap".to_string(), &Some("cap".to_string()), Some("/s".to_string())), Some("/s/a.cap".to_string()));
    assert_eq!(screenshot_item_path("/a.png".to_string(), &Some("png".to_string()), None), None);
}

#[test]
fn language_defaults_to_english() {
    assert_eq!(language_or_default(None), "en");
    assert_eq!(language_or_default(Some("ja".to_string())), "ja");
}
