use cap_tray::i18n::{label_str, parse_locale, t, LabelKey, Locale};
use cap_tray::text::{strip_prefix, truncate_title, MAX_TITLE_LENGTH};

#[test]
fn title_of_max_length_is_unchanged() {
    let title: String = "a".repeat(MAX_TITLE_LENGTH);
    assert_eq!(truncate_title(&title), title);
}

#[test]
fn title_one_longer_is_shortened_with_ellipsis() {
    let title: String = "b".repeat(MAX_TITLE_LENGTH + 1);
    let r = truncate_title(&title);
    assert_eq!(r.chars().count(), MAX_TITLE_LENGTH);
    assert_eq!(r, format!("{}\u{2026}", "b".repeat(MAX_TITLE_LENGTH - 1)));
}

#[test]
fn truncation_counts_characters_not_bytes() {
    let title: String = "\u{5f55}".repeat(40);
    let r = truncate_title(&title);
    assert_eq!(r.chars().count(), MAX_TITLE_LENGTH);
    assert_eq!(r, format!("{}\u{2026}", "\u{5f55}".repeat(MAX_TITLE_LENGTH - 1)));
    let short: String = "\u{1F3AC}".repeat(MAX_TITLE_LENGTH);
    assert_eq!(truncate_title(&short), short);
}

#[test]
fn empty_title_stays_empty() {
    assert_eq!(truncate_title(""), "");
}

#[test]
fn labels_in_chinese() {
    assert_eq!(t("no_recent", "zh-CN"), "\u{65e0}\u{6700}\u{8fd1}\u{9879}\u{76ee}");
    assert_eq!(t("screenshot_display", "zh-CN"), "\u{663e}\u{793a}\u{5668}\u{622a}\u{56fe}");
}

#[test]
fn labels_in_japanese_and_korean() {
    assert_eq!(t("settings", "ja"), "\u{8a2d}\u{5b9a}");
    assert_eq!(t("settings", "ko"), "\u{c124}\u{c815}");
}

#[test]
fn unknown_language_falls_back_to_english() {
    assert_eq!(t("open_cap", "xx-unknown"), "Open Main Window");
    assert_eq!(t("quit", "en"), "Quit Cap");
    assert_eq!(t("quit", "xx-unknown"), t("quit", "en"));
}

#[test]
fn unknown_key_echoes_itself() {
    assert_eq!(t("no_such_key", "zh-CN"), "no_such_key");
    assert_eq!(t("", "en"), "");
}

#[test]
fn locale_parsing() {
    assert_eq!(parse_locale("zh-CN"), Locale::ZhCn);
    assert_eq!(parse_locale("ja"), Locale::Ja);
    assert_eq!(parse_locale("ko"), Locale::Ko);
    assert_eq!(parse_locale("zh"), Locale::English);
    assert_eq!(LabelKey::parse("view_library"), Some(LabelKey::ViewLibrary));
    assert_eq!(label_str(LabelKey::ViewLibrary, Locale::English), "Open Library");
}

#[test]
fn prefix_is_stripped() {
    assert_eq!(strip_prefix("previous_item_/a/b", "previous_item_"), Some("/a/b".to_string()));
    assert_eq!(strip_prefix("previous", "previous_item_"), None);
    assert_eq!(strip_prefix("x", ""), Some("x".to_string()));
}
