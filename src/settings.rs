//! Settings values that the tray and its host read.

use vstd::prelude::*;

verus! {

/// What follows the end of a studio recording.
#[derive(Clone, Copy, Debug, PartialEq, Eq, Structural)]
pub enum PostStudioRecordingBehaviour {
    OpenEditor,
    ShowOverlay,
}

impl Default for PostStudioRecordingBehaviour {
    fn default() -> (r: PostStudioRecordingBehaviour)
        ensures
            r == PostStudioRecordingBehaviour::OpenEditor,
    {
        PostStudioRecordingBehaviour::OpenEditor
    }
}

/// What the main window does when a recording starts.
#[derive(Clone, Copy, Debug, PartialEq, Eq, Structural)]
pub enum MainWindowRecordingStartBehaviour {
    Close,
    Minimise,
}

impl Default for MainWindowRecordingStartBehaviour {
    fn default() -> (r: MainWindowRecordingStartBehaviour)
        ensures
            r == MainWindowRecordingStartBehaviour::Close,
    {
        MainWindowRecordingStartBehaviour::Close
    }
}

/// What follows the deletion of a recording.
#[derive(Clone, Copy, Debug, PartialEq, Eq, Structural)]
pub enum PostDeletionBehaviour {
    DoNothing,
    ReopenRecordingWindow,
}

impl Default for PostDeletionBehaviour {
    fn default() -> (r: PostDeletionBehaviour)
        ensures
            r == PostDeletionBehaviour::DoNothing,
    {
        PostDeletionBehaviour::DoNothing
    }
}

/// The resolution of the editor's preview.
#[derive(Clone, Copy, Debug, PartialEq, Eq, Structural)]
pub enum EditorPreviewQuality {
    Quarter,
    Half,
    Full,
}

impl Default for EditorPreviewQuality {
    fn default() -> (r: EditorPreviewQuality)
        ensures
            r == EditorPreviewQuality::Half,
    {
        EditorPreviewQuality::Half
    }
}

/// The encoding quality of recordings.
#[derive(Clone, Copy, Debug, PartialEq, Eq, Structural)]
pub enum RecordingQuality {
    High,
    Standard,
    Low,
}

impl Default for RecordingQuality {
    fn default() -> (r: RecordingQuality)
        ensures
            r == RecordingQuality::Standard,
    {
        RecordingQuality::Standard
    }
}

/// The colour theme of the application.
#[derive(Clone, Copy, Debug, PartialEq, Eq, Structural)]
pub enum AppTheme {
    System,
    Light,
    Dark,
}

impl Default for AppTheme {
    fn default() -> (r: AppTheme)
        ensures
            r == AppTheme::System,
    {
        AppTheme::System
    }
}

/// What happens to the main window.
#[derive(Clone, Copy, Debug, PartialEq, Eq, Structural)]
pub enum WindowAction {
    Hide,
    Minimize,
}

impl MainWindowRecordingStartBehaviour {
    /// The window action that this behaviour asks for.
    pub fn perform(&self) -> (r: WindowAction)
        ensures
            r == match self {
                MainWindowRecordingStartBehaviour::Close => WindowAction::Hide,
                MainWindowRecordingStartBehaviour::Minimise => WindowAction::Minimize,
            },
    {
        match self {
            MainWindowRecordingStartBehaviour::Close => WindowAction::Hide,
            MainWindowRecordingStartBehaviour::Minimise => WindowAction::Minimize,
        }
    }
}

/// A rule that keeps matching windows out of recordings.
pub struct WindowExclusion {
    pub bundle_identifier: Option<String>,
    pub owner_name: Option<String>,
    pub window_title: Option<String>,
}

/// The titles of the application's own windows, excluded by default.
pub open spec fn default_excluded_titles() -> Seq<Seq<char>> {
    seq!["Cap"@, "Cap Settings"@, "Cap Recording Controls"@, "Cap Camera"@]
}

/// Whether `e` matches windows by the title `title` alone.
pub open spec fn matches_title_only(e: WindowExclusion, title: Seq<char>) -> bool {
    &&& e.bundle_identifier is None
    &&& e.owner_name is None
    &&& e.window_title matches Some(t) && t@ == title
}

/// An exclusion that matches windows by title alone.
fn title_exclusion(title: &str) -> (r: WindowExclusion)
    ensures
        matches_title_only(r, title@),
{
    WindowExclusion {
        bundle_identifier: None,
        owner_name: None,
        window_title: Some(String::from_str(title)),
    }
}

/// The exclusions of the application's own windows, by title.
pub fn default_excluded_windows() -> (r: Vec<WindowExclusion>)
    ensures
        r@.len() == default_excluded_titles().len(),
        forall|i: int|
            0 <= i < r@.len() ==> matches_title_only(#[trigger] r@[i], default_excluded_titles()[i]),
{
    let mut r: Vec<WindowExclusion> = Vec::new();
    r.push(title_exclusion("Cap"));
    r.push(title_exclusion("Cap Settings"));
    r.push(title_exclusion("Cap Recording Controls"));
    r.push(title_exclusion("Cap Camera"));
    r
}

/// The exclusions offered as defaults to the settings screen.
pub fn get_default_excluded_windows() -> (r: Vec<WindowExclusion>)
    ensures
        r@.len() == default_excluded_titles().len(),
        forall|i: int|
            0 <= i < r@.len() ==> matches_title_only(#[trigger] r@[i], default_excluded_titles()[i]),
{
    default_excluded_windows()
}

/// Whether the native camera preview starts enabled: only in debug builds
/// for macOS.
pub fn default_enable_native_camera_preview(debug_build: bool, macos: bool) -> (r: bool)
    ensures
        r == (debug_build && macos),
{
    debug_build && macos
}

/// Never skips a value; the flag it is given does not matter.
pub fn no(_flag: &bool) -> (r: bool)
    ensures
        !r,
{
    false
}

/// A setting that defaults to on.
pub fn default_true() -> (r: bool)
    ensures
        r,
{
    true
}

/// The default cap on the height of instant recordings, in pixels.
pub fn default_instant_mode_max_resolution() -> (r: u32)
    ensures
        r == 1920,
{
    1920
}

/// The default frame rate cap.
pub fn default_max_fps() -> (r: u32)
    ensures
        r == 60,
{
    60
}

/// The server to talk to: the one fixed at build time, else the public one.
pub fn default_server_url(build_time: Option<&str>) -> (r: String)
    ensures
        r@ == match build_time {
            Some(u) => u@,
            None => "https://cap.so"@,
        },
{
    match build_time {
        Some(u) => String::from_str(u),
        None => String::from_str("https://cap.so"),
    }
}

} // verus!
