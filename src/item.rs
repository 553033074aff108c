//! Item records and the loader that turns a probed directory entry into one.

use vstd::prelude::*;
use crate::text::str_eq;
use crate::thumbnail::{generate_thumbnail, thumbnail_of, THUMBNAIL_SIZE};

verus! {

/// What kind of artifact an item is.
#[derive(Clone, Copy, Debug, PartialEq, Eq, Structural)]
pub enum PreviousItemType {
    StudioRecording,
    InstantRecording,
    Screenshot,
}

/// The recording type that a project's metadata declares.
#[derive(Clone, Copy, Debug, PartialEq, Eq, Structural)]
pub enum RecordingKind {
    Studio,
    Instant,
}

/// What a project's metadata file says about it.
pub struct ProjectMeta {
    pub pretty_name: String,
    pub kind: RecordingKind,
}

/// What the file system shows of one candidate entry.
pub struct ItemProbe {
    /// The entry's path.
    pub path: String,
    /// Whether the entry is a directory.
    pub is_dir: bool,
    /// The entry's extension, if it has one.
    pub extension: Option<String>,
    /// The directory that holds the entry, if any.
    pub parent: Option<String>,
    /// The project metadata, or `None` where it could not be loaded.
    pub meta: Option<ProjectMeta>,
    /// Creation time in nanoseconds since the Unix epoch; the time of the
    /// probe where the file system does not record one.
    pub created_at: u64,
    /// The first PNG file found inside the entry, in listing order.
    pub first_png: Option<String>,
    /// The entry's `screenshots/display.jpg`, where it exists.
    pub display_jpg: Option<String>,
    /// The bytes of the entry's thumbnail source, where they were read.
    pub thumbnail_data: Option<Vec<u8>>,
}

/// One previously produced artifact.
pub struct CachedPreviousItem {
    pub path: String,
    pub pretty_name: String,
    pub thumbnail: Option<Vec<u8>>,
    pub thumbnail_width: u32,
    pub thumbnail_height: u32,
    pub item_type: PreviousItemType,
    pub created_at: u64,
}

/// The mathematical content of an item record.
pub ghost struct ItemView {
    pub path: Seq<char>,
    pub pretty_name: Seq<char>,
    pub thumbnail: Option<Seq<u8>>,
    pub thumbnail_width: u32,
    pub thumbnail_height: u32,
    pub item_type: PreviousItemType,
    pub created_at: u64,
}

/// The view of an optional byte buffer.
pub open spec fn bytes_view(b: Option<Vec<u8>>) -> Option<Seq<u8>> {
    match b {
        Some(v) => Some(v@),
        None => None,
    }
}

impl View for CachedPreviousItem {
    type V = ItemView;

    open spec fn view(&self) -> ItemView {
        ItemView {
            path: self.path@,
            pretty_name: self.pretty_name@,
            thumbnail: bytes_view(self.thumbnail),
            thumbnail_width: self.thumbnail_width,
            thumbnail_height: self.thumbnail_height,
            item_type: self.item_type,
            created_at: self.created_at,
        }
    }
}

/// Whether an optional string holds exactly `s`.
pub open spec fn holds(o: Option<String>, s: Seq<char>) -> bool {
    match o {
        Some(v) => v@ == s,
        None => false,
    }
}

/// Whether the entry is a screenshot container: a `.cap` entry directly
/// inside the screenshots directory.
pub open spec fn is_screenshot_entry(probe: &ItemProbe, screenshots_dir: Seq<char>) -> bool {
    holds(probe.extension, "cap"@) && holds(probe.parent, screenshots_dir)
}

/// Whether `o` holds exactly `s`.
fn option_is(o: &Option<String>, s: &str) -> (r: bool)
    ensures
        r == holds(*o, s@),
{
    match o {
        Some(v) => str_eq(v.as_str(), s),
        None => false,
    }
}

/// Decides whether an entry is a screenshot container.
pub fn is_screenshot(probe: &ItemProbe, screenshots_dir: &str) -> (r: bool)
    ensures
        r == is_screenshot_entry(probe, screenshots_dir@),
{
    option_is(&probe.extension, "cap") && option_is(&probe.parent, screenshots_dir)
}

/// The file that holds an entry's thumbnail source.
pub open spec fn thumbnail_source_of(probe: &ItemProbe, screenshots_dir: Seq<char>) -> Option<
    String,
> {
    if is_screenshot_entry(probe, screenshots_dir) {
        probe.first_png
    } else {
        probe.display_jpg
    }
}

/// Names the file to read for an entry's thumbnail: the first PNG inside a
/// screenshot container, `screenshots/display.jpg` inside a recording.
pub fn thumbnail_source(probe: &ItemProbe, screenshots_dir: &str) -> (r: Option<String>)
    ensures
        r == thumbnail_source_of(probe, screenshots_dir@),
{
    if is_screenshot(probe, screenshots_dir) {
        probe.first_png.clone()
    } else {
        probe.display_jpg.clone()
    }
}

/// The kind of an entry whose metadata declares `kind`.
pub open spec fn item_type_of(screenshot: bool, kind: RecordingKind) -> PreviousItemType {
    if screenshot {
        PreviousItemType::Screenshot
    } else {
        match kind {
            RecordingKind::Studio => PreviousItemType::StudioRecording,
            RecordingKind::Instant => PreviousItemType::InstantRecording,
        }
    }
}

/// The thumbnail an entry gets: none unless asked for and decodable.
pub open spec fn loaded_thumbnail(data: Option<Vec<u8>>, load_thumbnail: bool) -> Option<Seq<u8>> {
    if !load_thumbnail {
        None
    } else {
        match data {
            Some(d) => thumbnail_of(d@, THUMBNAIL_SIZE),
            None => None,
        }
    }
}

/// The record that an entry yields, or `None` where the entry is no
/// artifact: not a directory, or without loadable metadata.
pub open spec fn item_of(probe: &ItemProbe, screenshots_dir: Seq<char>, load_thumbnail: bool) -> Option<
    ItemView,
> {
    if !probe.is_dir {
        None
    } else {
        match probe.meta {
            None => None,
            Some(meta) => {
                let thumb = loaded_thumbnail(probe.thumbnail_data, load_thumbnail);
                let side: u32 = if thumb is Some {
                    THUMBNAIL_SIZE
                } else {
                    0
                };
                Some(
                    ItemView {
                        path: probe.path@,
                        pretty_name: meta.pretty_name@,
                        thumbnail: thumb,
                        thumbnail_width: side,
                        thumbnail_height: side,
                        item_type: item_type_of(
                            is_screenshot_entry(probe, screenshots_dir),
                            meta.kind,
                        ),
                        created_at: probe.created_at,
                    },
                )
            },
        }
    }
}

/// Turns a probed entry into an item record. The thumbnail is generated
/// from `probe.thumbnail_data` only when `load_thumbnail` is set.
pub fn load_single_item(probe: ItemProbe, screenshots_dir: &str, load_thumbnail: bool) -> (r:
    Option<CachedPreviousItem>)
    ensures
        match r {
            Some(item) => item_of(&probe, screenshots_dir@, load_thumbnail) == Some(item@),
            None => item_of(&probe, screenshots_dir@, load_thumbnail) is None,
        },
{
    if !probe.is_dir {
        return None;
    }
    let screenshot = is_screenshot(&probe, screenshots_dir);
    let ItemProbe { path, meta, created_at, thumbnail_data, .. } = probe;
    let meta = match meta {
        Some(m) => m,
        None => return None,
    };
    let item_type = if screenshot {
        PreviousItemType::Screenshot
    } else {
        match meta.kind {
            RecordingKind::Studio => PreviousItemType::StudioRecording,
            RecordingKind::Instant => PreviousItemType::InstantRecording,
        }
    };
    let thumb = if load_thumbnail {
        match thumbnail_data {
            Some(d) => generate_thumbnail(&d, THUMBNAIL_SIZE),
            None => None,
        }
    } else {
        None
    };
    let (thumbnail, w, h) = match thumb {
        Some(t) => (Some(t.rgba), t.width, t.height),
        None => (None, 0, 0),
    };
    Some(
        CachedPreviousItem {
            path,
            pretty_name: meta.pretty_name,
            thumbnail,
            thumbnail_width: w,
            thumbnail_height: h,
            item_type,
            created_at,
        },
    )
}

} // verus!
