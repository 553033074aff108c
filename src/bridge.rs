//! The tray's reactions to lifecycle events and menu clicks, as decisions
//! from state and event to the next state and the effects to perform.

use vstd::prelude::*;
use crate::cache::{paths_unique, thumbnail_patched, upserted, PreviousItemsCache};
use crate::item::{bytes_view, holds, CachedPreviousItem, ItemView, RecordingKind};
use crate::menu::{RecordingMode, TrayItem};
use crate::text::str_eq;

verus! {

/// The icons the tray shows.
#[derive(Clone, Copy, Debug, PartialEq, Eq, Structural)]
pub enum TrayIcon {
    Default,
    Studio,
    Instant,
    Screenshot,
    Stop,
}

/// The file name of an icon's image.
pub open spec fn icon_file(icon: TrayIcon) -> Seq<char> {
    match icon {
        TrayIcon::Default => "tray-default-icon.png"@,
        TrayIcon::Studio => "tray-default-icon-studio.png"@,
        TrayIcon::Instant => "tray-default-icon-instant.png"@,
        TrayIcon::Screenshot => "tray-default-icon-screenshot.png"@,
        TrayIcon::Stop => "tray-stop-icon.png"@,
    }
}

impl TrayIcon {
    /// The file name of the icon's image.
    pub fn file_name(&self) -> (r: &'static str)
        ensures
            r@ == icon_file(*self),
    {
        match self {
            TrayIcon::Default => "tray-default-icon.png",
            TrayIcon::Studio => "tray-default-icon-studio.png",
            TrayIcon::Instant => "tray-default-icon-instant.png",
            TrayIcon::Screenshot => "tray-default-icon-screenshot.png",
            TrayIcon::Stop => "tray-stop-icon.png",
        }
    }
}

/// The plain tray icon.
pub fn get_tray_icon() -> (r: TrayIcon)
    ensures
        r == TrayIcon::Default,
{
    TrayIcon::Default
}

/// The icon that stands for a mode; the plain one where the platform keeps
/// a single tray icon.
pub open spec fn mode_icon(mode: RecordingMode, single_icon: bool) -> TrayIcon {
    if single_icon {
        TrayIcon::Default
    } else {
        match mode {
            RecordingMode::Studio => TrayIcon::Studio,
            RecordingMode::Instant => TrayIcon::Instant,
            RecordingMode::Screenshot => TrayIcon::Screenshot,
        }
    }
}

/// Picks the icon for a mode.
pub fn get_mode_icon(mode: RecordingMode, single_icon: bool) -> (r: TrayIcon)
    ensures
        r == mode_icon(mode, single_icon),
{
    if single_icon {
        return get_tray_icon();
    }
    match mode {
        RecordingMode::Studio => TrayIcon::Studio,
        RecordingMode::Instant => TrayIcon::Instant,
        RecordingMode::Screenshot => TrayIcon::Screenshot,
    }
}

/// The language tag in use: the configured one, else English.
pub fn language_or_default(configured: Option<String>) -> (r: String)
    ensures
        r@ == match configured {
            Some(l) => l@,
            None => "en"@,
        },
{
    match configured {
        Some(l) => l,
        None => String::from_str("en"),
    }
}

/// Something that happens to the tray.
pub enum TrayEvent {
    RecordingStarted,
    RecordingStopped,
    /// A new artifact was produced; its record, where it could be loaded.
    NewItemAdded(Option<CachedPreviousItem>),
    /// The user picked a mode.
    ModeChanged(RecordingMode),
    LanguageChanged,
    /// The backfill computed a thumbnail for the record at `path`.
    ThumbnailLoaded { path: String, thumbnail: Option<Vec<u8>>, width: u32, height: u32 },
    /// The backfill went through every record it took on.
    BackfillDone,
    /// The tray icon was clicked.
    TrayClicked,
}

/// What the tray asks its host to do.
#[derive(Clone, Copy, Debug, PartialEq, Eq, Structural)]
pub enum TrayEffect {
    SetIcon(TrayIcon),
    RebuildMenu,
    PersistMode(RecordingMode),
    StopRecording,
    ShowTray,
}

/// The tray's state: whether a recording runs, the mode, whether the
/// platform keeps a single icon, and the cache.
pub struct TrayState {
    is_recording: bool,
    mode: RecordingMode,
    single_icon: bool,
    cache: PreviousItemsCache,
}

/// `[SetIcon(icon)]`, or nothing where the platform keeps a single icon.
pub open spec fn icon_change(single_icon: bool, icon: TrayIcon) -> Seq<TrayEffect> {
    if single_icon {
        Seq::empty()
    } else {
        seq![TrayEffect::SetIcon(icon)]
    }
}

/// The mathematical content of the tray's state.
pub ghost struct TrayStateView {
    pub recording: bool,
    pub mode: RecordingMode,
    pub single_icon: bool,
    pub cache: Seq<ItemView>,
}

impl View for TrayState {
    type V = TrayStateView;

    closed spec fn view(&self) -> TrayStateView {
        TrayStateView {
            recording: self.is_recording,
            mode: self.mode,
            single_icon: self.single_icon,
            cache: self.cache@,
        }
    }
}

/// The state after an event other than a loaded thumbnail.
pub open spec fn next_state(s: TrayStateView, event: &TrayEvent) -> TrayStateView {
    match event {
        TrayEvent::RecordingStarted => TrayStateView { recording: true, ..s },
        TrayEvent::RecordingStopped => TrayStateView { recording: false, ..s },
        TrayEvent::NewItemAdded(Some(it)) => TrayStateView { cache: upserted(s.cache, it@), ..s },
        TrayEvent::ModeChanged(m) => TrayStateView { mode: *m, ..s },
        _ => s,
    }
}

/// The effects of an event, in order.
pub open spec fn effects_of(s: TrayStateView, event: &TrayEvent) -> Seq<TrayEffect> {
    match event {
        TrayEvent::RecordingStarted => icon_change(s.single_icon, TrayIcon::Stop),
        TrayEvent::RecordingStopped => icon_change(s.single_icon, mode_icon(s.mode, false)),
        TrayEvent::NewItemAdded(_) => seq![TrayEffect::RebuildMenu],
        TrayEvent::ModeChanged(m) => seq![TrayEffect::PersistMode(*m)] + icon_change(
            s.single_icon,
            mode_icon(*m, false),
        ) + seq![TrayEffect::RebuildMenu],
        TrayEvent::LanguageChanged => seq![TrayEffect::RebuildMenu],
        TrayEvent::ThumbnailLoaded { .. } => Seq::empty(),
        TrayEvent::BackfillDone => seq![TrayEffect::RebuildMenu],
        TrayEvent::TrayClicked => if s.recording {
            seq![TrayEffect::StopRecording]
        } else {
            seq![TrayEffect::ShowTray]
        },
    }
}

impl TrayState {
    /// The cache holds no more records than its bound, at distinct
    /// locations.
    pub open spec fn wf(&self) -> bool {
        &&& self@.cache.len() <= crate::cache::MAX_PREVIOUS_ITEMS
        &&& paths_unique(self@.cache)
    }

    /// A tray in `mode`, not recording, over `cache`.
    pub fn new(mode: RecordingMode, single_icon: bool, cache: PreviousItemsCache) -> (r: TrayState)
        requires
            cache.wf(),
        ensures
            r.wf(),
            r@ == (TrayStateView { recording: false, mode, single_icon, cache: cache@ }),
    {
        TrayState { is_recording: false, mode, single_icon, cache }
    }

    /// Whether a recording runs.
    pub fn is_recording(&self) -> (r: bool)
        ensures
            r == self@.recording,
    {
        self.is_recording
    }

    /// The current mode.
    pub fn mode(&self) -> (r: RecordingMode)
        ensures
            r == self@.mode,
    {
        self.mode
    }

    /// The cache.
    pub fn cache(&self) -> (r: &PreviousItemsCache)
        ensures
            r@ == self@.cache,
    {
        &self.cache
    }

    /// Applies an event: updates the state and returns the effects to
    /// perform, in order. A loaded thumbnail patches the cache in place.
    #[verifier::rlimit(40)]
    pub fn handle_event(&mut self, event: TrayEvent) -> (r: Vec<TrayEffect>)
        requires
            old(self).wf(),
        ensures
            final(self).wf(),
            r@ == effects_of(old(self)@, &event),
            match event {
                TrayEvent::ThumbnailLoaded { path, thumbnail, width, height } => {
                    &&& final(self)@.recording == old(self)@.recording
                    &&& final(self)@.mode == old(self)@.mode
                    &&& final(self)@.single_icon == old(self)@.single_icon
                    &&& thumbnail_patched(
                        old(self)@.cache,
                        final(self)@.cache,
                        path@,
                        bytes_view(thumbnail),
                        width,
                        height,
                    )
                },
                _ => final(self)@ == next_state(old(self)@, &event),
            },
    {
        let mut effects: Vec<TrayEffect> = Vec::new();
        match event {
            TrayEvent::RecordingStarted => {
                self.is_recording = true;
                if !self.single_icon {
                    effects.push(TrayEffect::SetIcon(TrayIcon::Stop));
                }
            },
            TrayEvent::RecordingStopped => {
                self.is_recording = false;
                if !self.single_icon {
                    effects.push(TrayEffect::SetIcon(get_mode_icon(self.mode, false)));
                }
            },
            TrayEvent::NewItemAdded(item) => {
                if let Some(it) = item {
                    self.cache.upsert_front(it);
                }
                effects.push(TrayEffect::RebuildMenu);
            },
            TrayEvent::ModeChanged(m) => {
                self.mode = m;
                effects.push(TrayEffect::PersistMode(m));
                if !self.single_icon {
                    effects.push(TrayEffect::SetIcon(get_mode_icon(m, false)));
                }
                effects.push(TrayEffect::RebuildMenu);
            },
            TrayEvent::LanguageChanged => {
                effects.push(TrayEffect::RebuildMenu);
            },
            TrayEvent::ThumbnailLoaded { path, thumbnail, width, height } => {
                self.cache.update_thumbnail(path.as_str(), thumbnail, width, height);
            },
            TrayEvent::BackfillDone => {
                effects.push(TrayEffect::RebuildMenu);
            },
            TrayEvent::TrayClicked => {
                if self.is_recording {
                    effects.push(TrayEffect::StopRecording);
                } else {
                    effects.push(TrayEffect::ShowTray);
                }
            },
        }
        assert(effects@ =~= effects_of(old(self)@, &event));
        effects
    }
}

/// Which capture target picker to open.
#[derive(Clone, Copy, Debug, PartialEq, Eq, Structural)]
pub enum TargetMode {
    Display,
    Window,
    Area,
}

/// What a click on a menu row asks for.
pub enum MenuCommand {
    ShowMain,
    OpenTargetPicker(TargetMode),
    TakeScreenshot,
    ImportVideo,
    ShowLibrary,
    ShowSettings,
    Quit,
    OpenPreviousItem(String),
    SelectMode(RecordingMode),
    ShowSetup,
}

/// The command of a menu action; the path of a previous item is handed on.
pub open spec fn command_of(item: &TrayItem, c: &MenuCommand) -> bool {
    match item {
        TrayItem::OpenCap => c is ShowMain,
        TrayItem::RecordDisplay => c == &MenuCommand::OpenTargetPicker(TargetMode::Display),
        TrayItem::RecordWindow => c == &MenuCommand::OpenTargetPicker(TargetMode::Window),
        TrayItem::RecordArea => c == &MenuCommand::OpenTargetPicker(TargetMode::Area),
        TrayItem::TakeScreenshot => c is TakeScreenshot,
        TrayItem::ImportVideo => c is ImportVideo,
        TrayItem::ViewAllRecordings => c is ShowLibrary,
        TrayItem::ViewAllScreenshots => c is ShowLibrary,
        TrayItem::OpenSettings => c is ShowSettings,
        TrayItem::Quit => c is Quit,
        TrayItem::PreviousItem(p) => match c {
            MenuCommand::OpenPreviousItem(q) => q@ == p@,
            _ => false,
        },
        TrayItem::ModeStudio => c == &MenuCommand::SelectMode(RecordingMode::Studio),
        TrayItem::ModeInstant => c == &MenuCommand::SelectMode(RecordingMode::Instant),
        TrayItem::ModeScreenshot => c == &MenuCommand::SelectMode(RecordingMode::Screenshot),
        TrayItem::RequestPermissions => c is ShowSetup,
    }
}

/// Dispatches a clicked menu action to its command.
pub fn menu_command(item: TrayItem) -> (r: MenuCommand)
    ensures
        command_of(&item, &r),
{
    match item {
        TrayItem::OpenCap => MenuCommand::ShowMain,
        TrayItem::RecordDisplay => MenuCommand::OpenTargetPicker(TargetMode::Display),
        TrayItem::RecordWindow => MenuCommand::OpenTargetPicker(TargetMode::Window),
        TrayItem::RecordArea => MenuCommand::OpenTargetPicker(TargetMode::Area),
        TrayItem::TakeScreenshot => MenuCommand::TakeScreenshot,
        TrayItem::ImportVideo => MenuCommand::ImportVideo,
        TrayItem::ViewAllRecordings => MenuCommand::ShowLibrary,
        TrayItem::ViewAllScreenshots => MenuCommand::ShowLibrary,
        TrayItem::OpenSettings => MenuCommand::ShowSettings,
        TrayItem::Quit => MenuCommand::Quit,
        TrayItem::PreviousItem(p) => MenuCommand::OpenPreviousItem(p),
        TrayItem::ModeStudio => MenuCommand::SelectMode(RecordingMode::Studio),
        TrayItem::ModeInstant => MenuCommand::SelectMode(RecordingMode::Instant),
        TrayItem::ModeScreenshot => MenuCommand::SelectMode(RecordingMode::Screenshot),
        TrayItem::RequestPermissions => MenuCommand::ShowSetup,
    }
}

/// How a previous item opens.
#[derive(Clone, Copy, Debug, PartialEq, Eq, Structural)]
pub enum PreviousItemAction {
    /// In the screenshot editor.
    ScreenshotEditor,
    /// In the project editor.
    Editor,
    /// The rendered video in the system's player.
    PlayVideo,
    /// Not at all: its metadata is unreadable, or its video is missing.
    Nothing,
}

/// How the item clicked at a path opens: a screenshot container in the
/// screenshot editor; else by its metadata, a studio project in the editor
/// and an instant recording's video, where it exists, in a player.
pub open spec fn previous_item_action_of(
    extension: Option<String>,
    parent: Option<String>,
    screenshots_dir: Seq<char>,
    kind: Option<RecordingKind>,
    video_exists: bool,
) -> PreviousItemAction {
    if holds(extension, "cap"@) && holds(parent, screenshots_dir) {
        PreviousItemAction::ScreenshotEditor
    } else {
        match kind {
            None => PreviousItemAction::Nothing,
            Some(RecordingKind::Studio) => PreviousItemAction::Editor,
            Some(RecordingKind::Instant) => if video_exists {
                PreviousItemAction::PlayVideo
            } else {
                PreviousItemAction::Nothing
            },
        }
    }
}

/// Decides how a clicked previous item opens.
pub fn previous_item_action(
    extension: &Option<String>,
    parent: &Option<String>,
    screenshots_dir: &str,
    kind: Option<RecordingKind>,
    video_exists: bool,
) -> (r: PreviousItemAction)
    ensures
        r == previous_item_action_of(*extension, *parent, screenshots_dir@, kind, video_exists),
{
    let ext_cap = match extension {
        Some(e) => str_eq(e.as_str(), "cap"),
        None => false,
    };
    let in_dir = match parent {
        Some(p) => str_eq(p.as_str(), screenshots_dir),
        None => false,
    };
    if ext_cap && in_dir {
        return PreviousItemAction::ScreenshotEditor;
    }
    match kind {
        None => PreviousItemAction::Nothing,
        Some(RecordingKind::Studio) => PreviousItemAction::Editor,
        Some(RecordingKind::Instant) => if video_exists {
            PreviousItemAction::PlayVideo
        } else {
            PreviousItemAction::Nothing
        },
    }
}

/// The artifact that a new-screenshot event names: the directory that
/// holds a reported PNG file, else the reported path itself.
pub fn screenshot_item_path(path: String, extension: &Option<String>, parent: Option<String>) -> (r:
    Option<String>)
    ensures
        r == if holds(*extension, "png"@) {
            parent
        } else {
            Some(path)
        },
{
    let is_png = match extension {
        Some(e) => str_eq(e.as_str(), "png"),
        None => false,
    };
    if is_png {
        parent
    } else {
        Some(path)
    }
}

/// The locations of the records without a thumbnail, in cache order.
pub open spec fn missing_thumbnails(s: Seq<ItemView>) -> Seq<Seq<char>>
    decreases s.len(),
{
    if s.len() == 0 {
        Seq::empty()
    } else {
        let rest = missing_thumbnails(s.drop_last());
        if s.last().thumbnail is None {
            rest.push(s.last().path)
        } else {
            rest
        }
    }
}

/// Lists the records that the backfill should give a thumbnail.
pub fn paths_needing_thumbnails(cache: &PreviousItemsCache) -> (r: Vec<String>)
    ensures
        r@.map_values(|p: String| p@) == missing_thumbnails(cache@),
{
    let items = cache.items();
    let n = items.len();
    let mut out: Vec<String> = Vec::new();
    let mut i: usize = 0;
    while i < n
        invariant
            n == items@.len(),
            crate::cache::views(items@) == cache@,
            i <= n,
            out@.map_values(|p: String| p@) == missing_thumbnails(cache@.take(i as int)),
        decreases n - i,
    {
        assert(cache@[i as int] == items@[i as int]@);
        assert(cache@.take(i + 1).drop_last() =~= cache@.take(i as int));
        if items[i].thumbnail.is_none() {
            let ghost before = out@;
            out.push(items[i].path.clone());
            assert(out@.map_values(|p: String| p@) =~= before.map_values(|p: String| p@).push(
                cache@[i as int].path,
            ));
        }
        i = i + 1;
    }
    assert(cache@.take(n as int) =~= cache@);
    out
}

} // verus!
