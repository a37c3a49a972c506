use vstd::prelude::*;

use crate::text::{ascii_lowercase, has_prefix, starts_with, str_eq, to_ascii_lowercase, trim, trimmed};

verus! {

/// The languages the user interface can be shown in.
#[derive(Clone, Copy, Debug, PartialEq, Eq, Structural)]
pub enum Language {
    Chinese,
    English,
}

/// The primary language identifier of Chinese in a Windows language id.
pub const LANG_CHINESE_PRIMARY_ID: u16 = 0x04;

/// The primary language of a Windows language id: its low ten bits.
pub open spec fn primary_language(lang_id: u16) -> int {
    (lang_id % 1024) as int
}

/// The interface language of a Windows language id.
pub open spec fn language_of_lang_id(lang_id: u16) -> Language {
    if primary_language(lang_id) == LANG_CHINESE_PRIMARY_ID as int {
        Language::Chinese
    } else {
        Language::English
    }
}

/// The interface language for a Windows language id: Chinese exactly when its
/// primary language is Chinese, English otherwise.
pub fn detect_language_from_lang_id(lang_id: u16) -> (language: Language)
    ensures
        language == language_of_lang_id(lang_id),
{
    let primary: u16 = lang_id & 0x03ff;
    assert(primary == lang_id % 1024) by (bit_vector)
        requires primary == lang_id & 0x03ff;
    if primary == LANG_CHINESE_PRIMARY_ID {
        Language::Chinese
    } else {
        Language::English
    }
}

/// The language a lower-case, trimmed setting names: `None` for an empty
/// setting or "auto", which follow the system; Chinese for "zh" and for any
/// "zh-" region; English for anything else.
pub open spec fn language_named(name: Seq<char>) -> Option<Language> {
    if name.len() == 0 || name == "auto"@ {
        None
    } else if name == "zh"@ || has_prefix(name, "zh-"@) {
        Some(Language::Chinese)
    } else {
        Some(Language::English)
    }
}

/// The language that a normalised setting names, or `None` where it asks to
/// follow the system.
pub fn language_from_name(name: &str) -> (language: Option<Language>)
    ensures
        language == language_named(name@),
{
    if name.is_empty() || str_eq(name, "auto") {
        None
    } else if str_eq(name, "zh") || starts_with(name, "zh-") {
        Some(Language::Chinese)
    } else {
        Some(Language::English)
    }
}

/// The interface language for a configured setting, ignoring surrounding
/// white space and ASCII case. An empty setting or "auto" follows the
/// system, whose language id is `system_lang_id`.
pub fn resolve_language(configured_language: &str, system_lang_id: u16) -> (language: Language)
    ensures
        language == (match language_named(ascii_lowercase(trimmed(configured_language@))) {
            Some(named) => named,
            None => language_of_lang_id(system_lang_id),
        }),
{
    let trimmed_language = trim(configured_language);
    let lowered = to_ascii_lowercase(trimmed_language);
    match language_from_name(lowered.as_str()) {
        Some(named) => named,
        None => detect_language_from_lang_id(system_lang_id),
    }
}

/// The title of the main window.
pub fn main_window_title(language: Language) -> (title: &'static str)
    ensures
        title@ == (match language {
            Language::Chinese => "站一站"@,
            Language::English => "Stand Awhile"@,
        }),
{
    match language {
        Language::Chinese => "站一站",
        Language::English => "Stand Awhile",
    }
}

/// The title of the notification shown when the time is up.
pub fn reminder_notification_title(language: Language) -> (title: &'static str)
    ensures
        title@ == (match language {
            Language::Chinese => "时间到了"@,
            Language::English => "Time is up"@,
        }),
{
    match language {
        Language::Chinese => "时间到了",
        Language::English => "Time is up",
    }
}

/// The message of the notification shown when the time is up.
pub fn reminder_notification_message(language: Language) -> (message: &'static str)
    ensures
        message@ == (match language {
            Language::Chinese => "起来活动一下吧。"@,
            Language::English => "Time to stand up and move around."@,
        }),
{
    match language {
        Language::Chinese => "起来活动一下吧。",
        Language::English => "Time to stand up and move around.",
    }
}

/// The items of the tray icon's menu.
#[derive(Clone, Copy, Debug)]
pub struct TrayMenuTexts {
    /// Shows the main window again.
    pub show: &'static str,
    /// Opens the configuration directory.
    pub open_config: &'static str,
    /// Shows the About window.
    pub about: &'static str,
    /// Quits the program.
    pub exit: &'static str,
}

/// The items of the tray icon's menu in a language.
pub fn tray_menu_texts(language: Language) -> (texts: TrayMenuTexts)
    ensures
        texts.show@ == (match language {
            Language::Chinese => "显示"@,
            Language::English => "Show"@,
        }),
        texts.open_config@ == (match language {
            Language::Chinese => "打开配置目录"@,
            Language::English => "Open configuration folder"@,
        }),
        texts.about@ == (match language {
            Language::Chinese => "关于"@,
            Language::English => "About"@,
        }),
        texts.exit@ == (match language {
            Language::Chinese => "退出"@,
            Language::English => "Exit"@,
        }),
{
    match language {
        Language::Chinese => TrayMenuTexts {
            show: "显示",
            open_config: "打开配置目录",
            about: "关于",
            exit: "退出",
        },
        Language::English => TrayMenuTexts {
            show: "Show",
            open_config: "Open configuration folder",
            about: "About",
            exit: "Exit",
        },
    }
}

/// The label of the check box that makes closing the main window hide it to
/// the tray.
pub fn tray_check_box_text(language: Language) -> (text: &'static str)
    ensures
        text@ == (match language {
            Language::Chinese => "关闭时最小化到托盘"@,
            Language::English => "Minimize to tray on close"@,
        }),
{
    match language {
        Language::Chinese => "关闭时最小化到托盘",
        Language::English => "Minimize to tray on close",
    }
}

} // verus!
