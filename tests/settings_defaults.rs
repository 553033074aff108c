use cap_tray::settings::{
    default_enable_native_camera_preview, default_excluded_windows, default_instant_mode_max_resolution,
    default_max_fps, default_server_url, default_true, get_default_excluded_windows, no, AppTheme,
    EditorPreviewQuality, MainWindowRecordingStartBehaviour, PostDeletionBehaviour,
    PostStudioRecordingBehaviour, RecordingQuality,
};

#[test]
fn excluded_windows_are_the_app_windows() {
    let titles: Vec<Option<String>> = default_excluded_windows().into_iter().map(|w| w.window_title).collect();
    assert_eq!(
        titles,
        vec![
            Some("Cap".to_string()),
            Some("Cap Settings".to_string()),
            Some("Cap Recording Controls".to_string()),
            Some("Cap Camera".to_string()),
        ]
    );
    assert!(get_default_excluded_windows().iter().all(|w| w.bundle_identifier.is_none() && w.owner_name.is_none()));
}

#[test]
fn default_values() {
    assert!(default_true());
    assert!(!no(&true));
    assert_eq!(default_max_fps(), 60);
    assert_eq!(default_instant_mode_max_resolution(), 1920);
    assert!(default_enable_native_camera_preview(true, true));
    assert!(!default_enable_native_camera_preview(false, true));
    assert_eq!(default_server_url(None), "https://cap.so");
    assert_eq!(default_server_url(Some("http://localhost:3000")), "http://localhost:3000");
}

#[test]
fn enum_defaults() {
    assert_eq!(PostStudioRecordingBehaviour::default(), PostStudioRecordingBehaviour::OpenEditor);
    assert_eq!(MainWindowRecordingStartBehaviour::default(), MainWindowRecordingStartBehaviour::Close);
    assert_eq!(PostDeletionBehaviour::default(), PostDeletionBehaviour::DoNothing);
    assert_eq!(EditorPreviewQuality::default(), EditorPreviewQuality::Half);
    assert_eq!(RecordingQuality::default(), RecordingQuality::Standard);
    assert_eq!(AppTheme::default(), AppTheme::System);
}
