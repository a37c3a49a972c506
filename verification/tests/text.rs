use stand_awhile::about::{about_body_text, about_window_title};
use stand_awhile::config::{
    config_directory, config_file_path, hresult_from_win32, io_error_code, join_path, Config, ConfigFile, E_FAIL,
};
use stand_awhile::countdown::format_remaining_time;
use stand_awhile::i18n::{
    language_from_name, main_window_title, reminder_notification_message, reminder_notification_title,
    resolve_language, tray_check_box_text, tray_menu_texts, Language,
};
use stand_awhile::theme::{
    current_background_color, current_text_color, dark_mode_from_setting, fixed_dark_mode, is_dark_theme_active,
    resolve_theme, rgb, theme_from_name, Theme, ThemeState, DARK_BACKGROUND, DARK_TEXT, LIGHT_BACKGROUND, LIGHT_TEXT,
};
use stand_awhile::toast::{build_toast_xml, escape_xml, shortcut_path};
use stand_awhile::text::{is_white_space_char, trim};
use stand_awhile::tray_icon::loword;
use stand_awhile::wide::{copy_wide_text, wide_null, wide_text};

#[test]
fn countdown_text_uses_two_digit_fields() {
    assert_eq!(format_remaining_time(0), "00:00");
    assert_eq!(format_remaining_time(59), "00:59");
    assert_eq!(format_remaining_time(1200), "20:00");
    assert_eq!(format_remaining_time(3599), "59:59");
    assert_eq!(format_remaining_time(3600), "01:00:00");
    assert_eq!(format_remaining_time(3 * 3600 + 5 * 60 + 7), "03:05:07");
    assert_eq!(format_remaining_time(100 * 3600 + 61), "100:01:01");
    assert_eq!(format_remaining_time(u32::MAX), "1193046:28:15");
}

#[test]
fn automatic_language_follows_the_system() {
    assert_eq!(resolve_language("", 0x0804), Language::Chinese);
    assert_eq!(resolve_language("  AUTO ", 0x0804), Language::Chinese);
    assert_eq!(resolve_language("auto", 0x0409), Language::English);
    assert_eq!(resolve_language(" ZH-tw ", 0x0409), Language::Chinese);
    assert_eq!(resolve_language("zhx", 0x0804), Language::English);
    assert_eq!(language_from_name("auto"), None);
    assert_eq!(language_from_name("zh-hk"), Some(Language::Chinese));
}

#[test]
fn texts_follow_the_language() {
    assert_eq!(main_window_title(Language::English), "Stand Awhile");
    assert_eq!(main_window_title(Language::Chinese), "站一站");
    assert_eq!(reminder_notification_title(Language::English), "Time is up");
    assert_eq!(reminder_notification_message(Language::English), "Time to stand up and move around.");
    assert_eq!(reminder_notification_message(Language::Chinese), "起来活动一下吧。");
    assert_eq!(about_window_title(Language::English), "About Stand Awhile");
    assert!(about_body_text(Language::English).starts_with("A lightweight Windows desktop reminder"));
}

#[test]
fn themes_ignore_case_and_spaces() {
    assert_eq!(resolve_theme("  Dark\n"), Theme::Dark);
    assert_eq!(resolve_theme("LIGHT"), Theme::Light);
    assert_eq!(theme_from_name("Dark"), Theme::System);
    assert_eq!(fixed_dark_mode(Theme::Dark), Some(true));
    assert_eq!(fixed_dark_mode(Theme::Light), Some(false));
    assert_eq!(fixed_dark_mode(Theme::System), None);
    assert!(dark_mode_from_setting(0));
    assert!(!dark_mode_from_setting(1));
}

#[test]
fn theme_state_selects_the_colours() {
    let mut state = ThemeState::new();
    assert!(!is_dark_theme_active(&state));
    assert_eq!(current_background_color(&state), LIGHT_BACKGROUND);
    assert_eq!(state.apply(true), 1);
    assert!(is_dark_theme_active(&state));
    assert_eq!(current_background_color(&state), DARK_BACKGROUND);
    assert_eq!(current_text_color(&state), DARK_TEXT);
    assert_eq!(state.apply(false), 0);
    assert_eq!(current_text_color(&state), LIGHT_TEXT);
    assert_eq!(DARK_BACKGROUND, rgb(32, 32, 32));
    assert_eq!(LIGHT_BACKGROUND, rgb(240, 240, 240));
    assert_eq!(rgb(1, 2, 3), 0x030201);
}

#[test]
fn xml_escaping_keeps_plain_text() {
    assert_eq!(escape_xml("Time is up"), "Time is up");
    assert_eq!(escape_xml(""), "");
    assert_eq!(escape_xml("时间 & 空间"), "时间 &amp; 空间");
}

#[test]
fn toast_document_holds_escaped_texts() {
    assert_eq!(
        build_toast_xml("A<B", "x&y"),
        "<toast><visual><binding template=\"ToastGeneric\"><text>A&lt;B</text><text>x&amp;y</text></binding></visual></toast>"
    );
}

#[test]
fn wide_text_is_utf16() {
    assert_eq!(wide_text("Ab"), vec![0x41, 0x62]);
    assert_eq!(wide_null("站"), vec![0x7AD9, 0]);
    assert_eq!(wide_text("😀"), vec![0xD83D, 0xDE00]);
    assert_eq!(wide_null(""), vec![0]);
}

#[test]
fn wide_copies_are_cut_to_fit() {
    let mut buffer = [7u16; 4];
    copy_wide_text("abcdef", &mut buffer);
    assert_eq!(buffer, [0x61, 0x62, 0x63, 0]);
    let mut buffer = [7u16; 6];
    copy_wide_text("ab", &mut buffer);
    assert_eq!(buffer, [0x61, 0x62, 0, 7, 7, 7]);
    let mut buffer = [7u16; 1];
    copy_wide_text("ab", &mut buffer);
    assert_eq!(buffer, [0]);
}

#[test]
fn low_word_keeps_sixteen_bits() {
    assert_eq!(loword(0x1234_5678), 0x5678);
    assert_eq!(loword(0x0203), 0x0203);
}

#[test]
fn config_file_fields_fall_back_to_defaults() {
    let empty = ConfigFile { period: None, tray_when_close: None };
    assert_eq!(Config::from_file(&empty), Config::default());
    let full = ConfigFile { period: Some(30), tray_when_close: Some(true) };
    assert_eq!(Config::from_file(&full), Config { period: 30, tray_when_close: true });
    let partial = ConfigFile { period: None, tray_when_close: Some(true) };
    assert_eq!(Config::from_file(&partial).period, 1200);
}

#[test]
fn win32_errors_become_hresults() {
    assert_eq!(hresult_from_win32(0), 0);
    assert_eq!(hresult_from_win32(2) as u32, 0x8007_0002);
    assert_eq!(hresult_from_win32(0x1_0005) as u32, 0x8007_0005);
    assert_eq!(hresult_from_win32(0x8000_4005) as u32, 0x8000_4005);
    assert_eq!(io_error_code(Some(5)) as u32, 0x8007_0005);
    assert_eq!(io_error_code(None), E_FAIL);
    assert_eq!(E_FAIL as u32, 0x8000_4005);
}

#[test]
fn config_paths_are_joined() {
    assert_eq!(join_path("C:\\Users\\me", "x"), "C:\\Users\\me\\x");
    assert_eq!(join_path("C:\\", "x"), "C:\\x");
    assert_eq!(join_path("", "x"), "x");
    assert_eq!(join_path("C:", "x"), "C:x");
    assert_eq!(join_path("C:/", "x"), "C:/x");
    assert_eq!(join_path("1:", "x"), "1:\\x");
    assert_eq!(shortcut_path("C:\\Programs"), "C:\\Programs\\Stand Awhile.lnk");
    let directory = config_directory("C:\\Users\\me\\AppData\\Roaming");
    assert_eq!(directory, "C:\\Users\\me\\AppData\\Roaming\\yhb\\stand-awhile");
    assert_eq!(config_file_path(&directory), "C:\\Users\\me\\AppData\\Roaming\\yhb\\stand-awhile\\config.json");
}

/// Reads XML text back, one entity at a time from the left.
fn unescape_for_test(text: &str) -> String {
    let mut out = String::new();
    let mut rest = text;
    while !rest.is_empty() {
        let mut matched = false;
        for (entity, ch) in [("&amp;", '&'), ("&lt;", '<'), ("&gt;", '>'), ("&quot;", '"'), ("&apos;", '\'')] {
            if rest.starts_with(entity) {
                out.push(ch);
                rest = &rest[entity.len()..];
                matched = true;
                break;
            }
        }
        if !matched {
            let ch = rest.chars().next().unwrap();
            out.push(ch);
            rest = &rest[ch.len_utf8()..];
        }
    }
    out
}

#[test]
fn escaped_xml_reads_back_unchanged() {
    for text in ["", "plain", "<a&\"b'>", "&amp;", "&lt;&gt;", "a & b < c", "时间 & 空间 '引号'"] {
        assert_eq!(unescape_for_test(&escape_xml(text)), text);
    }
    assert_eq!(escape_xml("&amp;"), "&amp;amp;");
}

#[test]
fn tray_texts_follow_language() {
    let chinese = tray_menu_texts(Language::Chinese);
    assert_eq!((chinese.show, chinese.open_config, chinese.about, chinese.exit), ("显示", "打开配置目录", "关于", "退出"));
    let english = tray_menu_texts(Language::English);
    assert_eq!(
        (english.show, english.open_config, english.about, english.exit),
        ("Show", "Open configuration folder", "About", "Exit")
    );
    assert_eq!(tray_check_box_text(Language::Chinese), "关闭时最小化到托盘");
    assert_eq!(tray_check_box_text(Language::English), "Minimize to tray on close");
}

#[test]
fn trim_matches_str_trim() {
    for text in ["", "   ", "light", "  dark\t\n", "\u{3000}zh-CN\u{00A0}", "\u{85}a b\u{2028}", "\u{200B}x\u{200B}", " \u{1680}\u{205F}"] {
        assert_eq!(trim(text), text.trim());
    }
}

#[test]
fn white_space_matches_char_is_whitespace() {
    for code in 0u32..0x3100 {
        if let Some(c) = char::from_u32(code) {
            assert_eq!(is_white_space_char(c), c.is_whitespace(), "U+{code:04X}");
        }
    }
}
