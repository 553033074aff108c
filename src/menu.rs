//! Menu identifiers and the projection of the cache into a menu tree.

use vstd::prelude::*;
use crate::cache::PreviousItemsCache;
use crate::i18n::{label, label_str, locale_of, parse_locale, LabelKey, Locale};
use crate::item::{CachedPreviousItem, ItemView, PreviousItemType};
use crate::text::{concat, str_eq, strip_prefix, truncate_title, truncated};

verus! {

/// Prefix of the identifiers of rows that open a previous item.
pub const PREVIOUS_ITEM_PREFIX: &'static str = "previous_item_";

/// The capture mode the application is in.
#[derive(Clone, Copy, Debug, PartialEq, Eq, Structural)]
pub enum RecordingMode {
    Studio,
    Instant,
    Screenshot,
}

/// The actions that rows of the tray menu trigger.
#[derive(Debug)]
pub enum TrayItem {
    OpenCap,
    RecordDisplay,
    RecordWindow,
    RecordArea,
    TakeScreenshot,
    ImportVideo,
    ViewAllRecordings,
    ViewAllScreenshots,
    OpenSettings,
    Quit,
    PreviousItem(String),
    ModeStudio,
    ModeInstant,
    ModeScreenshot,
    RequestPermissions,
}

/// The menu identifier of a tray action.
pub open spec fn tray_item_id(item: &TrayItem) -> Seq<char> {
    match item {
        TrayItem::OpenCap => "open_cap"@,
        TrayItem::RecordDisplay => "record_display"@,
        TrayItem::RecordWindow => "record_window"@,
        TrayItem::RecordArea => "record_area"@,
        TrayItem::TakeScreenshot => "take_screenshot"@,
        TrayItem::ImportVideo => "import_video"@,
        TrayItem::ViewAllRecordings => "view_all_recordings"@,
        TrayItem::ViewAllScreenshots => "view_all_screenshots"@,
        TrayItem::OpenSettings => "open_settings"@,
        TrayItem::Quit => "quit"@,
        TrayItem::ModeStudio => "mode_studio"@,
        TrayItem::ModeInstant => "mode_instant"@,
        TrayItem::ModeScreenshot => "mode_screenshot"@,
        TrayItem::RequestPermissions => "request_permissions"@,
        TrayItem::PreviousItem(path) => PREVIOUS_ITEM_PREFIX@ + path@,
    }
}

impl TrayItem {
    /// The menu identifier of this action.
    pub fn menu_id(&self) -> (r: String)
        ensures
            r@ == tray_item_id(self),
    {
        match self {
            TrayItem::OpenCap => String::from_str("open_cap"),
            TrayItem::RecordDisplay => String::from_str("record_display"),
            TrayItem::RecordWindow => String::from_str("record_window"),
            TrayItem::RecordArea => String::from_str("record_area"),
            TrayItem::TakeScreenshot => String::from_str("take_screenshot"),
            TrayItem::ImportVideo => String::from_str("import_video"),
            TrayItem::ViewAllRecordings => String::from_str("view_all_recordings"),
            TrayItem::ViewAllScreenshots => String::from_str("view_all_screenshots"),
            TrayItem::OpenSettings => String::from_str("open_settings"),
            TrayItem::Quit => String::from_str("quit"),
            TrayItem::ModeStudio => String::from_str("mode_studio"),
            TrayItem::ModeInstant => String::from_str("mode_instant"),
            TrayItem::ModeScreenshot => String::from_str("mode_screenshot"),
            TrayItem::RequestPermissions => String::from_str("request_permissions"),
            TrayItem::PreviousItem(path) => concat(PREVIOUS_ITEM_PREFIX, path.as_str()),
        }
    }

    /// The action that a menu identifier names.
    pub fn try_from(value: &str) -> (r: Result<TrayItem, String>)
        ensures
            match r {
                Ok(item) => tray_item_id(&item) == value@,
                Err(e) => e@ == "Invalid tray item id "@ + value@ && forall|item: TrayItem|
                    #[trigger] tray_item_id(&item) != value@,
            },
    {
        if let Some(path) = strip_prefix(value, PREVIOUS_ITEM_PREFIX) {
            return Ok(TrayItem::PreviousItem(path));
        }
        if str_eq(value, "open_cap") {
            return Ok(TrayItem::OpenCap);
        }
        if str_eq(value, "record_display") {
            return Ok(TrayItem::RecordDisplay);
        }
        if str_eq(value, "record_window") {
            return Ok(TrayItem::RecordWindow);
        }
        if str_eq(value, "record_area") {
            return Ok(TrayItem::RecordArea);
        }
        if str_eq(value, "take_screenshot") {
            return Ok(TrayItem::TakeScreenshot);
        }
        if str_eq(value, "import_video") {
            return Ok(TrayItem::ImportVideo);
        }
        if str_eq(value, "view_all_recordings") {
            return Ok(TrayItem::ViewAllRecordings);
        }
        if str_eq(value, "view_all_screenshots") {
            return Ok(TrayItem::ViewAllScreenshots);
        }
        if str_eq(value, "open_settings") {
            return Ok(TrayItem::OpenSettings);
        }
        if str_eq(value, "quit") {
            return Ok(TrayItem::Quit);
        }
        if str_eq(value, "mode_studio") {
            return Ok(TrayItem::ModeStudio);
        }
        if str_eq(value, "mode_instant") {
            return Ok(TrayItem::ModeInstant);
        }
        if str_eq(value, "mode_screenshot") {
            return Ok(TrayItem::ModeScreenshot);
        }
        if str_eq(value, "request_permissions") {
            return Ok(TrayItem::RequestPermissions);
        }
        proof {
            assert forall|item: TrayItem| #[trigger] tray_item_id(&item) != value@ by {
                if let TrayItem::PreviousItem(path) = item {
                    assert((PREVIOUS_ITEM_PREFIX@ + path@).subrange(0, PREVIOUS_ITEM_PREFIX@.len() as int)
                        =~= PREVIOUS_ITEM_PREFIX@);
                }
            }
        }
        Err(concat("Invalid tray item id ", value))
    }
}

/// A row of the menu or of a submenu. An icon is RGBA pixels with their
/// width and height.
pub struct MenuRow {
    pub id: String,
    pub label: String,
    pub enabled: bool,
    pub icon: Option<(Vec<u8>, u32, u32)>,
}

/// A submenu: a labelled list of rows.
pub struct Submenu {
    pub id: String,
    pub label: String,
    pub enabled: bool,
    pub rows: Vec<MenuRow>,
}

/// An entry of the top-level menu.
pub enum MenuEntry {
    Item(MenuRow),
    Separator,
    Submenu(Submenu),
}

/// A whole tray menu, top to bottom.
pub struct TrayMenu {
    pub entries: Vec<MenuEntry>,
}

/// The content of a row.
pub ghost struct RowView {
    pub id: Seq<char>,
    pub label: Seq<char>,
    pub enabled: bool,
    pub icon: Option<(Seq<u8>, u32, u32)>,
}

/// The content of a submenu.
pub ghost struct SubmenuView {
    pub id: Seq<char>,
    pub label: Seq<char>,
    pub enabled: bool,
    pub rows: Seq<RowView>,
}

/// The content of a menu entry.
pub ghost enum EntryView {
    Item(RowView),
    Separator,
    Submenu(SubmenuView),
}

impl View for MenuRow {
    type V = RowView;

    open spec fn view(&self) -> RowView {
        RowView {
            id: self.id@,
            label: self.label@,
            enabled: self.enabled,
            icon: match self.icon {
                Some((px, w, h)) => Some((px@, w, h)),
                None => None,
            },
        }
    }
}

/// The views of a sequence of rows.
pub open spec fn row_views(rows: Seq<MenuRow>) -> Seq<RowView> {
    rows.map_values(|r: MenuRow| r@)
}

impl View for Submenu {
    type V = SubmenuView;

    open spec fn view(&self) -> SubmenuView {
        SubmenuView { id: self.id@, label: self.label@, enabled: self.enabled, rows: row_views(self.rows@) }
    }
}

impl View for MenuEntry {
    type V = EntryView;

    open spec fn view(&self) -> EntryView {
        match self {
            MenuEntry::Item(r) => EntryView::Item(r@),
            MenuEntry::Separator => EntryView::Separator,
            MenuEntry::Submenu(m) => EntryView::Submenu(m@),
        }
    }
}

impl View for TrayMenu {
    type V = Seq<EntryView>;

    open spec fn view(&self) -> Seq<EntryView> {
        self.entries@.map_values(|e: MenuEntry| e@)
    }
}

/// An enabled row without icon that triggers `item`, labelled by `k`.
pub open spec fn action_row(item: TrayItem, k: LabelKey, loc: Locale) -> RowView {
    RowView { id: tray_item_id(&item), label: label(loc, k), enabled: true, icon: None }
}

/// The disabled row that shows the version.
pub open spec fn version_row(version: Seq<char>) -> RowView {
    RowView { id: "version"@, label: "Cap v"@ + version, enabled: false, icon: None }
}

/// The glyph in front of a previous item's title.
pub open spec fn kind_glyph(t: PreviousItemType) -> Seq<char> {
    match t {
        PreviousItemType::StudioRecording => "\u{1F3AC} "@,
        PreviousItemType::InstantRecording => "\u{26A1} "@,
        PreviousItemType::Screenshot => "\u{1F4F7} "@,
    }
}

/// The row that opens a cached record.
pub open spec fn previous_row(e: ItemView) -> RowView {
    RowView {
        id: PREVIOUS_ITEM_PREFIX@ + e.path,
        label: kind_glyph(e.item_type) + truncated(e.pretty_name),
        enabled: true,
        icon: match e.thumbnail {
            Some(px) => Some((px, e.thumbnail_width, e.thumbnail_height)),
            None => None,
        },
    }
}

/// The submenu of previous items: one row per record in cache order, or a
/// single disabled row where the cache is empty.
pub open spec fn previous_submenu_of(loc: Locale, cache: Seq<ItemView>) -> SubmenuView {
    if cache.len() == 0 {
        SubmenuView {
            id: "previous"@,
            label: label(loc, LabelKey::Previous),
            enabled: false,
            rows: seq![
                RowView {
                    id: "previous_empty"@,
                    label: label(loc, LabelKey::NoRecent),
                    enabled: false,
                    icon: None,
                },
            ],
        }
    } else {
        SubmenuView {
            id: "previous"@,
            label: label(loc, LabelKey::Previous),
            enabled: true,
            rows: cache.map_values(|e: ItemView| previous_row(e)),
        }
    }
}

/// A row of the mode submenu: the selected mode is marked, the others are
/// padded to the same width.
pub open spec fn mode_row(item: TrayItem, k: LabelKey, loc: Locale, selected: bool) -> RowView {
    RowView {
        id: tray_item_id(&item),
        label: if selected {
            "\u{2713} "@ + label(loc, k)
        } else {
            "   "@ + label(loc, k)
        },
        enabled: true,
        icon: None,
    }
}

/// The submenu that selects the mode.
pub open spec fn mode_submenu_of(loc: Locale, mode: RecordingMode) -> SubmenuView {
    SubmenuView {
        id: "select_mode"@,
        label: label(loc, LabelKey::SelectMode),
        enabled: true,
        rows: seq![
            mode_row(TrayItem::ModeStudio, LabelKey::ModeStudio, loc, mode == RecordingMode::Studio),
            mode_row(TrayItem::ModeInstant, LabelKey::ModeInstant, loc, mode == RecordingMode::Instant),
            mode_row(
                TrayItem::ModeScreenshot,
                LabelKey::ModeScreenshot,
                loc,
                mode == RecordingMode::Screenshot,
            ),
        ],
    }
}

/// The menu shown while the setup window is open.
pub open spec fn setup_menu_of(loc: Locale, version: Seq<char>) -> Seq<EntryView> {
    seq![
        EntryView::Item(action_row(TrayItem::RequestPermissions, LabelKey::RequestPermissions, loc)),
        EntryView::Separator,
        EntryView::Item(version_row(version)),
        EntryView::Item(action_row(TrayItem::Quit, LabelKey::Quit, loc)),
    ]
}

/// The capture actions: three screenshot actions in screenshot mode, else
/// three recording actions and one screenshot action.
pub open spec fn capture_rows_of(loc: Locale, mode: RecordingMode) -> Seq<EntryView> {
    if mode == RecordingMode::Screenshot {
        seq![
            EntryView::Item(action_row(TrayItem::RecordDisplay, LabelKey::ScreenshotDisplay, loc)),
            EntryView::Item(action_row(TrayItem::RecordWindow, LabelKey::ScreenshotWindow, loc)),
            EntryView::Item(action_row(TrayItem::RecordArea, LabelKey::ScreenshotArea, loc)),
        ]
    } else {
        seq![
            EntryView::Item(action_row(TrayItem::RecordDisplay, LabelKey::RecordDisplay, loc)),
            EntryView::Item(action_row(TrayItem::RecordWindow, LabelKey::RecordWindow, loc)),
            EntryView::Item(action_row(TrayItem::RecordArea, LabelKey::RecordArea, loc)),
            EntryView::Item(action_row(TrayItem::TakeScreenshot, LabelKey::TakeScreenshot, loc)),
        ]
    }
}

/// The tray menu for a language, a mode, whether the setup window is open,
/// the application version and the cache contents.
pub open spec fn menu_of(
    lang: Seq<char>,
    version: Seq<char>,
    mode: RecordingMode,
    setup_open: bool,
    cache: Seq<ItemView>,
) -> Seq<EntryView> {
    let loc = locale_of(lang);
    if setup_open {
        setup_menu_of(loc, version)
    } else {
        seq![EntryView::Item(action_row(TrayItem::OpenCap, LabelKey::OpenCap, loc))] + capture_rows_of(
            loc,
            mode,
        ) + seq![
            EntryView::Item(action_row(TrayItem::ImportVideo, LabelKey::ImportVideo, loc)),
            EntryView::Separator,
            EntryView::Submenu(mode_submenu_of(loc, mode)),
            EntryView::Submenu(previous_submenu_of(loc, cache)),
            EntryView::Separator,
            EntryView::Item(action_row(TrayItem::ViewAllRecordings, LabelKey::ViewAllRecordings, loc)),
            EntryView::Item(action_row(TrayItem::ViewAllScreenshots, LabelKey::ViewAllScreenshots, loc)),
            EntryView::Item(action_row(TrayItem::OpenSettings, LabelKey::Settings, loc)),
            EntryView::Separator,
            EntryView::Item(version_row(version)),
            EntryView::Item(action_row(TrayItem::Quit, LabelKey::Quit, loc)),
        ]
    }
}

/// An enabled row without icon.
fn row(id: String, label: String, enabled: bool) -> (r: MenuRow)
    ensures
        r@ == (RowView { id: id@, label: label@, enabled, icon: None }),
{
    MenuRow { id, label, enabled, icon: None }
}

/// The row that triggers `item`, labelled by `k`.
fn action(item: TrayItem, k: LabelKey, loc: Locale) -> (r: MenuEntry)
    ensures
        r@ == EntryView::Item(action_row(item, k, loc)),
{
    MenuEntry::Item(row(item.menu_id(), String::from_str(label_str(k, loc)), true))
}

/// The row that shows the version.
fn version_entry(version: &str) -> (r: MenuEntry)
    ensures
        r@ == EntryView::Item(version_row(version@)),
{
    MenuEntry::Item(row(String::from_str("version"), concat("Cap v", version), false))
}

/// The glyph in front of a previous item's title.
fn glyph(t: PreviousItemType) -> (r: &'static str)
    ensures
        r@ == kind_glyph(t),
{
    match t {
        PreviousItemType::StudioRecording => "\u{1F3AC} ",
        PreviousItemType::InstantRecording => "\u{26A1} ",
        PreviousItemType::Screenshot => "\u{1F4F7} ",
    }
}

/// The row that opens a cached record.
fn previous_item_row(e: &CachedPreviousItem) -> (r: MenuRow)
    ensures
        r@ == previous_row(e@),
{
    let id = TrayItem::PreviousItem(e.path.clone()).menu_id();
    let title = truncate_title(e.pretty_name.as_str());
    let label = concat(glyph(e.item_type), title.as_str());
    let icon = match &e.thumbnail {
        Some(px) => {
            let copy = px.clone();
            assert(copy@ =~= px@);
            Some((copy, e.thumbnail_width, e.thumbnail_height))
        },
        None => None,
    };
    MenuRow { id, label, enabled: true, icon }
}

/// Builds the submenu of previous items.
pub fn create_previous_submenu(lang: &str, cache: &PreviousItemsCache) -> (r: Submenu)
    ensures
        r@ == previous_submenu_of(locale_of(lang@), cache@),
{
    let loc = parse_locale(lang);
    let items = cache.items();
    let n = items.len();
    if n == 0 {
        let mut rows: Vec<MenuRow> = Vec::new();
        rows.push(
            row(
                String::from_str("previous_empty"),
                String::from_str(label_str(LabelKey::NoRecent, loc)),
                false,
            ),
        );
        let r = Submenu {
            id: String::from_str("previous"),
            label: String::from_str(label_str(LabelKey::Previous, loc)),
            enabled: false,
            rows,
        };
        assert(r@.rows =~= previous_submenu_of(loc, cache@).rows);
        return r;
    }
    let mut rows: Vec<MenuRow> = Vec::new();
    let mut i: usize = 0;
    while i < n
        invariant
            n == items@.len(),
            crate::cache::views(items@) == cache@,
            i <= n,
            row_views(rows@) == cache@.take(i as int).map_values(|e: ItemView| previous_row(e)),
        decreases n - i,
    {
        assert(cache@[i as int] == items@[i as int]@);
        let ghost before = rows@;
        let r = previous_item_row(&items[i]);
        rows.push(r);
        assert(row_views(rows@) =~= row_views(before).push(previous_row(cache@[i as int])));
        assert(cache@.take(i + 1).map_values(|e: ItemView| previous_row(e)) =~= cache@.take(
            i as int,
        ).map_values(|e: ItemView| previous_row(e)).push(previous_row(cache@[i as int])));
        i = i + 1;
    }
    assert(cache@.take(n as int) =~= cache@);
    Submenu {
        id: String::from_str("previous"),
        label: String::from_str(label_str(LabelKey::Previous, loc)),
        enabled: true,
        rows,
    }
}

/// A row of the mode submenu.
fn mode_entry(item: TrayItem, k: LabelKey, loc: Locale, selected: bool) -> (r: MenuRow)
    ensures
        r@ == mode_row(item, k, loc, selected),
{
    let mark = if selected {
        "\u{2713} "
    } else {
        "   "
    };
    row(item.menu_id(), concat(mark, label_str(k, loc)), true)
}

/// Builds the submenu that selects the mode, marking `mode`.
pub fn create_mode_submenu(lang: &str, mode: RecordingMode) -> (r: Submenu)
    ensures
        r@ == mode_submenu_of(locale_of(lang@), mode),
{
    let loc = parse_locale(lang);
    let mut rows: Vec<MenuRow> = Vec::new();
    rows.push(mode_entry(TrayItem::ModeStudio, LabelKey::ModeStudio, loc, mode == RecordingMode::Studio));
    rows.push(mode_entry(TrayItem::ModeInstant, LabelKey::ModeInstant, loc, mode == RecordingMode::Instant));
    rows.push(
        mode_entry(
            TrayItem::ModeScreenshot,
            LabelKey::ModeScreenshot,
            loc,
            mode == RecordingMode::Screenshot,
        ),
    );
    let r = Submenu {
        id: String::from_str("select_mode"),
        label: String::from_str(label_str(LabelKey::SelectMode, loc)),
        enabled: true,
        rows,
    };
    assert(r@.rows =~= mode_submenu_of(loc, mode).rows);
    r
}

/// Builds the tray menu: the minimal one while the setup window is open,
/// else the full one over the cache's records.
pub fn build_tray_menu(
    lang: &str,
    version: &str,
    mode: RecordingMode,
    setup_open: bool,
    cache: &PreviousItemsCache,
) -> (r: TrayMenu)
    ensures
        r@ == menu_of(lang@, version@, mode, setup_open, cache@),
{
    let loc = parse_locale(lang);
    let mut entries: Vec<MenuEntry> = Vec::new();
    if setup_open {
        entries.push(action(TrayItem::RequestPermissions, LabelKey::RequestPermissions, loc));
        entries.push(MenuEntry::Separator);
        entries.push(version_entry(version));
        entries.push(action(TrayItem::Quit, LabelKey::Quit, loc));
        let r = TrayMenu { entries };
        assert(r@ =~= menu_of(lang@, version@, mode, setup_open, cache@));
        return r;
    }
    let previous = create_previous_submenu(lang, cache);
    let modes = create_mode_submenu(lang, mode);
    entries.push(action(TrayItem::OpenCap, LabelKey::OpenCap, loc));
    if mode == RecordingMode::Screenshot {
        entries.push(action(TrayItem::RecordDisplay, LabelKey::ScreenshotDisplay, loc));
        entries.push(action(TrayItem::RecordWindow, LabelKey::ScreenshotWindow, loc));
        entries.push(action(TrayItem::RecordArea, LabelKey::ScreenshotArea, loc));
    } else {
        entries.push(action(TrayItem::RecordDisplay, LabelKey::RecordDisplay, loc));
        entries.push(action(TrayItem::RecordWindow, LabelKey::RecordWindow, loc));
        entries.push(action(TrayItem::RecordArea, LabelKey::RecordArea, loc));
        entries.push(action(TrayItem::TakeScreenshot, LabelKey::TakeScreenshot, loc));
    }
    entries.push(action(TrayItem::ImportVideo, LabelKey::ImportVideo, loc));
    entries.push(MenuEntry::Separator);
    entries.push(MenuEntry::Submenu(modes));
    entries.push(MenuEntry::Submenu(previous));
    entries.push(MenuEntry::Separator);
    entries.push(action(TrayItem::ViewAllRecordings, LabelKey::ViewAllRecordings, loc));
    entries.push(action(TrayItem::ViewAllScreenshots, LabelKey::ViewAllScreenshots, loc));
    entries.push(action(TrayItem::OpenSettings, LabelKey::Settings, loc));
    entries.push(MenuEntry::Separator);
    entries.push(version_entry(version));
    entries.push(action(TrayItem::Quit, LabelKey::Quit, loc));
    let r = TrayMenu { entries };
    assert(r@ =~= menu_of(lang@, version@, mode, setup_open, cache@));
    r
}

/// While the setup window is open the menu is the same whatever the mode
/// and the cache.
pub proof fn lemma_setup_menu_ignores_state(
    lang: Seq<char>,
    version: Seq<char>,
    m1: RecordingMode,
    m2: RecordingMode,
    c1: Seq<ItemView>,
    c2: Seq<ItemView>,
)
    ensures
        menu_of(lang, version, m1, true, c1) == menu_of(lang, version, m2, true, c2),
        menu_of(lang, version, m1, true, c1) == setup_menu_of(locale_of(lang), version),
{
}

/// Every label of the menu for a language without its own labels is the
/// English one.
pub proof fn lemma_unknown_language_reads_english(
    lang: Seq<char>,
    version: Seq<char>,
    mode: RecordingMode,
    setup_open: bool,
    cache: Seq<ItemView>,
)
    requires
        lang != "zh-CN"@,
        lang != "ja"@,
        lang != "ko"@,
    ensures
        menu_of(lang, version, mode, setup_open, cache) == menu_of(
            "en"@,
            version,
            mode,
            setup_open,
            cache,
        ),
{
    reveal_strlit("en");
    reveal_strlit("zh-CN");
    reveal_strlit("ja");
    reveal_strlit("ko");
    assert("en"@.len() != "zh-CN"@.len());
    assert("en"@[0] != "ja"@[0]);
    assert("en"@[0] != "ko"@[0]);
    assert(locale_of("en"@) == Locale::English);
}

} // verus!
