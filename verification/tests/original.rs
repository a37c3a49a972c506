use stand_awhile::button::{rect_from_origin, ControlButton};
use stand_awhile::config::Config;
use stand_awhile::i18n::{detect_language_from_lang_id, resolve_language, Language};
use stand_awhile::theme::{resolve_theme, Theme};
use stand_awhile::toast::escape_xml;

const ENGLISH_SYSTEM: u16 = 0x0409;
const CHINESE_SYSTEM: u16 = 0x0804;

#[test]
fn config_default_values_are_stable() {
    let config = Config::default();
    assert_eq!(config.period, 20 * 60);
    assert!(!config.tray_when_close);
}

#[test]
fn detects_chinese_as_chinese() {
    assert_eq!(detect_language_from_lang_id(0x0804), Language::Chinese);
    assert_eq!(detect_language_from_lang_id(0x0404), Language::Chinese);
}

#[test]
fn falls_back_to_english_for_non_chinese_languages() {
    assert_eq!(detect_language_from_lang_id(0x0409), Language::English);
    assert_eq!(detect_language_from_lang_id(0x0411), Language::English);
}

#[test]
fn resolves_configured_chinese_language() {
    assert_eq!(resolve_language("zh", ENGLISH_SYSTEM), Language::Chinese);
    assert_eq!(resolve_language("zh-CN", ENGLISH_SYSTEM), Language::Chinese);
}

#[test]
fn resolves_configured_non_chinese_language_to_english() {
    assert_eq!(resolve_language("en", CHINESE_SYSTEM), Language::English);
    assert_eq!(resolve_language("ja-JP", CHINESE_SYSTEM), Language::English);
}

#[test]
fn escapes_xml_special_characters() {
    assert_eq!(escape_xml("<a&\"b'>"), "&lt;a&amp;&quot;b&apos;&gt;");
}

#[test]
fn builds_rect_from_origin() {
    let rect = rect_from_origin(10, 20, 30, 40);
    assert_eq!(rect.left, 10);
    assert_eq!(rect.top, 20);
    assert_eq!(rect.right, 40);
    assert_eq!(rect.bottom, 60);
}

#[test]
fn control_button_equality_is_stable() {
    assert_eq!(ControlButton::Play, ControlButton::Play);
    assert_ne!(ControlButton::Pause, ControlButton::Reset);
}

#[test]
fn resolves_configured_themes() {
    assert_eq!(resolve_theme("light"), Theme::Light);
    assert_eq!(resolve_theme("dark"), Theme::Dark);
    assert_eq!(resolve_theme("system"), Theme::System);
}

#[test]
fn resolves_unknown_theme_to_system() {
    assert_eq!(resolve_theme(""), Theme::System);
    assert_eq!(resolve_theme("unknown"), Theme::System);
}
