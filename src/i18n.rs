//! Menu labels in the supported languages, with English as the fallback.

use vstd::prelude::*;
use crate::text::str_eq;

verus! {

/// A language that has its own labels; every other tag reads English.
#[derive(Clone, Copy, Debug, PartialEq, Eq, Structural)]
pub enum Locale {
    ZhCn,
    Ja,
    Ko,
    English,
}

/// The label keys that have text in every supported language.
#[derive(Clone, Copy, Debug, PartialEq, Eq, Structural)]
pub enum LabelKey {
    OpenCap,
    RecordDisplay,
    RecordWindow,
    RecordArea,
    TakeScreenshot,
    ImportVideo,
    SelectMode,
    ModeStudio,
    ModeInstant,
    ModeScreenshot,
    Previous,
    NoRecent,
    ViewAllRecordings,
    ViewAllScreenshots,
    ViewLibrary,
    Settings,
    Quit,
    RequestPermissions,
    ScreenshotDisplay,
    ScreenshotWindow,
    ScreenshotArea,
}

/// The locale that a language tag selects.
pub open spec fn locale_of(lang: Seq<char>) -> Locale {
    if lang == "zh-CN"@ {
        Locale::ZhCn
    } else if lang == "ja"@ {
        Locale::Ja
    } else if lang == "ko"@ {
        Locale::Ko
    } else {
        Locale::English
    }
}

/// Reads a language tag; an unknown tag selects English.
pub fn parse_locale(lang: &str) -> (r: Locale)
    ensures
        r == locale_of(lang@),
{
    if str_eq(lang, "zh-CN") {
        Locale::ZhCn
    } else if str_eq(lang, "ja") {
        Locale::Ja
    } else if str_eq(lang, "ko") {
        Locale::Ko
    } else {
        Locale::English
    }
}

/// The label key that a key string names, if any.
pub open spec fn key_of(key: Seq<char>) -> Option<LabelKey> {
    if key == "open_cap"@ {
        Some(LabelKey::OpenCap)
    } else if key == "record_display"@ {
        Some(LabelKey::RecordDisplay)
    } else if key == "record_window"@ {
        Some(LabelKey::RecordWindow)
    } else if key == "record_area"@ {
        Some(LabelKey::RecordArea)
    } else if key == "take_screenshot"@ {
        Some(LabelKey::TakeScreenshot)
    } else if key == "import_video"@ {
        Some(LabelKey::ImportVideo)
    } else if key == "select_mode"@ {
        Some(LabelKey::SelectMode)
    } else if key == "mode_studio"@ {
        Some(LabelKey::ModeStudio)
    } else if key == "mode_instant"@ {
        Some(LabelKey::ModeInstant)
    } else if key == "mode_screenshot"@ {
        Some(LabelKey::ModeScreenshot)
    } else if key == "previous"@ {
        Some(LabelKey::Previous)
    } else if key == "no_recent"@ {
        Some(LabelKey::NoRecent)
    } else if key == "view_all_recordings"@ {
        Some(LabelKey::ViewAllRecordings)
    } else if key == "view_all_screenshots"@ {
        Some(LabelKey::ViewAllScreenshots)
    } else if key == "view_library"@ {
        Some(LabelKey::ViewLibrary)
    } else if key == "settings"@ {
        Some(LabelKey::Settings)
    } else if key == "quit"@ {
        Some(LabelKey::Quit)
    } else if key == "request_permissions"@ {
        Some(LabelKey::RequestPermissions)
    } else if key == "screenshot_display"@ {
        Some(LabelKey::ScreenshotDisplay)
    } else if key == "screenshot_window"@ {
        Some(LabelKey::ScreenshotWindow)
    } else if key == "screenshot_area"@ {
        Some(LabelKey::ScreenshotArea)
    } else {
        None
    }
}

impl LabelKey {
    /// Reads a key string.
    pub fn parse(key: &str) -> (r: Option<LabelKey>)
        ensures
            r == key_of(key@),
    {
        if str_eq(key, "open_cap") {
            Some(LabelKey::OpenCap)
        } else if str_eq(key, "record_display") {
            Some(LabelKey::RecordDisplay)
        } else if str_eq(key, "record_window") {
            Some(LabelKey::RecordWindow)
        } else if str_eq(key, "record_area") {
            Some(LabelKey::RecordArea)
        } else if str_eq(key, "take_screenshot") {
            Some(LabelKey::TakeScreenshot)
        } else if str_eq(key, "import_video") {
            Some(LabelKey::ImportVideo)
        } else if str_eq(key, "select_mode") {
            Some(LabelKey::SelectMode)
        } else if str_eq(key, "mode_studio") {
            Some(LabelKey::ModeStudio)
        } else if str_eq(key, "mode_instant") {
            Some(LabelKey::ModeInstant)
        } else if str_eq(key, "mode_screenshot") {
            Some(LabelKey::ModeScreenshot)
        } else if str_eq(key, "previous") {
            Some(LabelKey::Previous)
        } else if str_eq(key, "no_recent") {
            Some(LabelKey::NoRecent)
        } else if str_eq(key, "view_all_recordings") {
            Some(LabelKey::ViewAllRecordings)
        } else if str_eq(key, "view_all_screenshots") {
            Some(LabelKey::ViewAllScreenshots)
        } else if str_eq(key, "view_library") {
            Some(LabelKey::ViewLibrary)
        } else if str_eq(key, "settings") {
            Some(LabelKey::Settings)
        } else if str_eq(key, "quit") {
            Some(LabelKey::Quit)
        } else if str_eq(key, "request_permissions") {
            Some(LabelKey::RequestPermissions)
        } else if str_eq(key, "screenshot_display") {
            Some(LabelKey::ScreenshotDisplay)
        } else if str_eq(key, "screenshot_window") {
            Some(LabelKey::ScreenshotWindow)
        } else if str_eq(key, "screenshot_area") {
            Some(LabelKey::ScreenshotArea)
        } else {
            None
        }
    }
}

/// The text of a label in a locale.
pub open spec fn label(loc: Locale, k: LabelKey) -> Seq<char> {
    match loc {
        Locale::ZhCn => match k {
            LabelKey::OpenCap => "打开主窗口"@,
            LabelKey::RecordDisplay => "录制显示器"@,
            LabelKey::RecordWindow => "录制窗口"@,
            LabelKey::RecordArea => "录制区域"@,
            LabelKey::TakeScreenshot => "截图"@,
            LabelKey::ImportVideo => "导入视频..."@,
            LabelKey::SelectMode => "选择模式"@,
            LabelKey::ModeStudio => "工作室"@,
            LabelKey::ModeInstant => "快速录制"@,
            LabelKey::ModeScreenshot => "截图"@,
            LabelKey::Previous => "最近"@,
            LabelKey::NoRecent => "无最近项目"@,
            LabelKey::ViewAllRecordings => "查看所有录制"@,
            LabelKey::ViewAllScreenshots => "查看所有截图"@,
            LabelKey::ViewLibrary => "打开资源库"@,
            LabelKey::Settings => "设置"@,
            LabelKey::Quit => "退出 Cap"@,
            LabelKey::RequestPermissions => "请求权限"@,
            LabelKey::ScreenshotDisplay => "显示器截图"@,
            LabelKey::ScreenshotWindow => "窗口截图"@,
            LabelKey::ScreenshotArea => "区域截图"@,
        },
        Locale::Ja => match k {
            LabelKey::OpenCap => "メインウィンドウを開く"@,
            LabelKey::RecordDisplay => "ディスプレイを録画"@,
            LabelKey::RecordWindow => "ウィンドウを録画"@,
            LabelKey::RecordArea => "エリアを録画"@,
            LabelKey::TakeScreenshot => "スクリーンショットを撮影"@,
            LabelKey::ImportVideo => "ビデオをインポート..."@,
            LabelKey::SelectMode => "モードを選択"@,
            LabelKey::ModeStudio => "スタジオ"@,
            LabelKey::ModeInstant => "インスタント録画"@,
            LabelKey::ModeScreenshot => "スクリーンショット"@,
            LabelKey::Previous => "最近"@,
            LabelKey::NoRecent => "最近のアイテムはありません"@,
            LabelKey::ViewAllRecordings => "すべての録画を表示"@,
            LabelKey::ViewAllScreenshots => "すべてのスクリーンショットを表示"@,
            LabelKey::ViewLibrary => "ライブラリを開く"@,
            LabelKey::Settings => "設定"@,
            LabelKey::Quit => "Cap を終了"@,
            LabelKey::RequestPermissions => "権限をリクエスト"@,
            LabelKey::ScreenshotDisplay => "ディスプレイのスクリーンショット"@,
            LabelKey::ScreenshotWindow => "ウィンドウのスクリーンショット"@,
            LabelKey::ScreenshotArea => "エリアのスクリーンショット"@,
        },
        Locale::Ko => match k {
            LabelKey::OpenCap => "메인 창 열기"@,
            LabelKey::RecordDisplay => "디스플레이 녹화"@,
            LabelKey::RecordWindow => "창 녹화"@,
            LabelKey::RecordArea => "영역 녹화"@,
            LabelKey::TakeScreenshot => "스크린샷 찍기"@,
            LabelKey::ImportVideo => "비디오 가져오기..."@,
            LabelKey::SelectMode => "모드 선택"@,
            LabelKey::ModeStudio => "스튜디오"@,
            LabelKey::ModeInstant => "인스턴트 녹화"@,
            LabelKey::ModeScreenshot => "스크린샷"@,
            LabelKey::Previous => "최근"@,
            LabelKey::NoRecent => "최근 항목 없음"@,
            LabelKey::ViewAllRecordings => "모든 녹화 보기"@,
            LabelKey::ViewAllScreenshots => "모든 스크린샷 보기"@,
            LabelKey::ViewLibrary => "라이브러리 열기"@,
            LabelKey::Settings => "설정"@,
            LabelKey::Quit => "Cap 종료"@,
            LabelKey::RequestPermissions => "권한 요청"@,
            LabelKey::ScreenshotDisplay => "디스플레이 스크린샷"@,
            LabelKey::ScreenshotWindow => "창 스크린샷"@,
            LabelKey::ScreenshotArea => "영역 스크린샷"@,
        },
        Locale::English => match k {
            LabelKey::OpenCap => "Open Main Window"@,
            LabelKey::RecordDisplay => "Record Display"@,
            LabelKey::RecordWindow => "Record Window"@,
            LabelKey::RecordArea => "Record Area"@,
            LabelKey::TakeScreenshot => "Take a Screenshot"@,
            LabelKey::ImportVideo => "Import Video..."@,
            LabelKey::SelectMode => "Select Mode"@,
            LabelKey::ModeStudio => "Studio"@,
            LabelKey::ModeInstant => "Instant"@,
            LabelKey::ModeScreenshot => "Screenshot"@,
            LabelKey::Previous => "Previous"@,
            LabelKey::NoRecent => "No recent items"@,
            LabelKey::ViewAllRecordings => "View All Recordings"@,
            LabelKey::ViewAllScreenshots => "View All Screenshots"@,
            LabelKey::ViewLibrary => "Open Library"@,
            LabelKey::Settings => "Settings"@,
            LabelKey::Quit => "Quit Cap"@,
            LabelKey::RequestPermissions => "Request Permissions"@,
            LabelKey::ScreenshotDisplay => "Screenshot Display"@,
            LabelKey::ScreenshotWindow => "Screenshot Window"@,
            LabelKey::ScreenshotArea => "Screenshot Area"@,
        },
    }
}

/// The label of `k` in `loc`.
pub fn label_str(k: LabelKey, loc: Locale) -> (r: &'static str)
    ensures
        r@ == label(loc, k),
{
    match loc {
        Locale::ZhCn => match k {
            LabelKey::OpenCap => "打开主窗口",
            LabelKey::RecordDisplay => "录制显示器",
            LabelKey::RecordWindow => "录制窗口",
            LabelKey::RecordArea => "录制区域",
            LabelKey::TakeScreenshot => "截图",
            LabelKey::ImportVideo => "导入视频...",
            LabelKey::SelectMode => "选择模式",
            LabelKey::ModeStudio => "工作室",
            LabelKey::ModeInstant => "快速录制",
            LabelKey::ModeScreenshot => "截图",
            LabelKey::Previous => "最近",
            LabelKey::NoRecent => "无最近项目",
            LabelKey::ViewAllRecordings => "查看所有录制",
            LabelKey::ViewAllScreenshots => "查看所有截图",
            LabelKey::ViewLibrary => "打开资源库",
            LabelKey::Settings => "设置",
            LabelKey::Quit => "退出 Cap",
            LabelKey::RequestPermissions => "请求权限",
            LabelKey::ScreenshotDisplay => "显示器截图",
            LabelKey::ScreenshotWindow => "窗口截图",
            LabelKey::ScreenshotArea => "区域截图",
        },
        Locale::Ja => match k {
            LabelKey::OpenCap => "メインウィンドウを開く",
            LabelKey::RecordDisplay => "ディスプレイを録画",
            LabelKey::RecordWindow => "ウィンドウを録画",
            LabelKey::RecordArea => "エリアを録画",
            LabelKey::TakeScreenshot => "スクリーンショットを撮影",
            LabelKey::ImportVideo => "ビデオをインポート...",
            LabelKey::SelectMode => "モードを選択",
            LabelKey::ModeStudio => "スタジオ",
            LabelKey::ModeInstant => "インスタント録画",
            LabelKey::ModeScreenshot => "スクリーンショット",
            LabelKey::Previous => "最近",
            LabelKey::NoRecent => "最近のアイテムはありません",
            LabelKey::ViewAllRecordings => "すべての録画を表示",
            LabelKey::ViewAllScreenshots => "すべてのスクリーンショットを表示",
            LabelKey::ViewLibrary => "ライブラリを開く",
            LabelKey::Settings => "設定",
            LabelKey::Quit => "Cap を終了",
            LabelKey::RequestPermissions => "権限をリクエスト",
            LabelKey::ScreenshotDisplay => "ディスプレイのスクリーンショット",
            LabelKey::ScreenshotWindow => "ウィンドウのスクリーンショット",
            LabelKey::ScreenshotArea => "エリアのスクリーンショット",
        },
        Locale::Ko => match k {
            LabelKey::OpenCap => "메인 창 열기",
            LabelKey::RecordDisplay => "디스플레이 녹화",
            LabelKey::RecordWindow => "창 녹화",
            LabelKey::RecordArea => "영역 녹화",
            LabelKey::TakeScreenshot => "스크린샷 찍기",
            LabelKey::ImportVideo => "비디오 가져오기...",
            LabelKey::SelectMode => "모드 선택",
            LabelKey::ModeStudio => "스튜디오",
            LabelKey::ModeInstant => "인스턴트 녹화",
            LabelKey::ModeScreenshot => "스크린샷",
            LabelKey::Previous => "최근",
            LabelKey::NoRecent => "최근 항목 없음",
            LabelKey::ViewAllRecordings => "모든 녹화 보기",
            LabelKey::ViewAllScreenshots => "모든 스크린샷 보기",
            LabelKey::ViewLibrary => "라이브러리 열기",
            LabelKey::Settings => "설정",
            LabelKey::Quit => "Cap 종료",
            LabelKey::RequestPermissions => "권한 요청",
            LabelKey::ScreenshotDisplay => "디스플레이 스크린샷",
            LabelKey::ScreenshotWindow => "창 스크린샷",
            LabelKey::ScreenshotArea => "영역 스크린샷",
        },
        Locale::English => match k {
            LabelKey::OpenCap => "Open Main Window",
            LabelKey::RecordDisplay => "Record Display",
            LabelKey::RecordWindow => "Record Window",
            LabelKey::RecordArea => "Record Area",
            LabelKey::TakeScreenshot => "Take a Screenshot",
            LabelKey::ImportVideo => "Import Video...",
            LabelKey::SelectMode => "Select Mode",
            LabelKey::ModeStudio => "Studio",
            LabelKey::ModeInstant => "Instant",
            LabelKey::ModeScreenshot => "Screenshot",
            LabelKey::Previous => "Previous",
            LabelKey::NoRecent => "No recent items",
            LabelKey::ViewAllRecordings => "View All Recordings",
            LabelKey::ViewAllScreenshots => "View All Screenshots",
            LabelKey::ViewLibrary => "Open Library",
            LabelKey::Settings => "Settings",
            LabelKey::Quit => "Quit Cap",
            LabelKey::RequestPermissions => "Request Permissions",
            LabelKey::ScreenshotDisplay => "Screenshot Display",
            LabelKey::ScreenshotWindow => "Screenshot Window",
            LabelKey::ScreenshotArea => "Screenshot Area",
        },
    }
}

/// What the label lookup shows for a key string and a language tag: the
/// label of a known key in the tag's locale (English for an unknown tag), or
/// the key itself.
pub open spec fn looked_up_label(key: Seq<char>, lang: Seq<char>) -> Seq<char> {
    match key_of(key) {
        Some(k) => label(locale_of(lang), k),
        None => key,
    }
}

/// Looks up the label for `key` in the language `lang`.
pub fn t(key: &str, lang: &str) -> (r: String)
    ensures
        r@ == looked_up_label(key@, lang@),
{
    match LabelKey::parse(key) {
        Some(k) => String::from_str(label_str(k, parse_locale(lang))),
        None => String::from_str(key),
    }
}

} // verus!
