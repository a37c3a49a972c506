use vstd::prelude::*;
use vstd::string::*;

use crate::text::{has_prefix, push_char};

verus! {

broadcast use vstd::string::group_string_axioms;

/// The directory, under the user's roaming application data, of the author's programs.
pub const APP_DIRECTORY_NAME: &'static str = "yhb";
/// The directory of this program under `APP_DIRECTORY_NAME`.
pub const APP_SUBDIRECTORY_NAME: &'static str = "stand-awhile";
/// The name of the configuration file.
pub const CONFIG_FILE_NAME: &'static str = "config.json";
/// What a newly created configuration file holds: an empty JSON object.
pub const DEFAULT_CONFIG_CONTENTS: &'static str = "{}\n";
/// The reminder period, in seconds, when the configuration gives none.
pub const DEFAULT_PERIOD_SECONDS: u32 = 20 * 60;
/// Whether closing the window hides it in the tray, when the configuration
/// does not say.
pub const DEFAULT_TRAY_WHEN_CLOSE: bool = false;
/// The unspecified-failure `HRESULT`, `0x80004005`.
pub const E_FAIL: i32 = -2147467259i32;

/// The settings of the program.
#[derive(Clone, Copy, Debug, PartialEq, Eq, Structural)]
pub struct Config {
    /// The reminder period, in seconds.
    pub period: u32,
    /// Whether closing the window hides it in the tray.
    pub tray_when_close: bool,
}

/// What the configuration file holds; a missing field is `None`.
#[derive(Clone, Copy, Debug, PartialEq, Eq, Structural)]
pub struct ConfigFile {
    pub period: Option<u32>,
    pub tray_when_close: Option<bool>,
}

/// The settings used where the configuration says nothing.
pub open spec fn default_config() -> Config {
    Config { period: DEFAULT_PERIOD_SECONDS, tray_when_close: DEFAULT_TRAY_WHEN_CLOSE }
}

/// The settings a configuration file gives: each field given is taken, each
/// missing one takes its default.
pub open spec fn config_of_file(file: ConfigFile) -> Config {
    Config {
        period: match file.period {
            Some(p) => p,
            None => DEFAULT_PERIOD_SECONDS,
        },
        tray_when_close: match file.tray_when_close {
            Some(t) => t,
            None => DEFAULT_TRAY_WHEN_CLOSE,
        },
    }
}

impl Default for Config {
    fn default() -> (config: Self)
        ensures
            config == default_config(),
    {
        Config { period: DEFAULT_PERIOD_SECONDS, tray_when_close: DEFAULT_TRAY_WHEN_CLOSE }
    }
}

impl Config {
    /// The settings a configuration file gives, each missing field taking its
    /// default.
    pub fn from_file(file: &ConfigFile) -> (config: Self)
        ensures
            config == config_of_file(*file),
    {
        let period = match file.period {
            Some(period) => period,
            None => DEFAULT_PERIOD_SECONDS,
        };
        let tray_when_close = match file.tray_when_close {
            Some(tray_when_close) => tray_when_close,
            None => DEFAULT_TRAY_WHEN_CLOSE,
        };
        Config { period, tray_when_close }
    }
}

/// An empty configuration file, such as the one written on first start,
/// gives the default settings; a file that gives every field gives exactly
/// those.
pub proof fn lemma_config_file_defaults(period: u32, tray_when_close: bool)
    ensures
        config_of_file(ConfigFile { period: None, tray_when_close: None }) == default_config(),
        config_of_file(ConfigFile { period: Some(period), tray_when_close: Some(tray_when_close) }) == (
        Config { period, tray_when_close }),
{
}

/// Each setting comes from its own entry of the file alone: a period that is
/// given is taken as it is and a missing one is 20 minutes, whatever the file
/// says of closing to the tray; the tray setting is given or `false`, whatever
/// the file says of the period.
pub proof fn lemma_config_fields_are_independent(file: ConfigFile, other: ConfigFile)
    ensures
        file.period matches Some(p) ==> config_of_file(file).period == p,
        file.period is None ==> config_of_file(file).period == 1200,
        file.tray_when_close matches Some(t) ==> config_of_file(file).tray_when_close == t,
        file.tray_when_close is None ==> !config_of_file(file).tray_when_close,
        file.period == other.period ==> config_of_file(file).period == config_of_file(other).period,
        file.tray_when_close == other.tray_when_close ==> config_of_file(file).tray_when_close
            == config_of_file(other).tray_when_close,
{
}

/// The `HRESULT` of a Win32 error code: a code that is 0 or negative as an
/// `i32` stands as it is; any other keeps its low 16 bits under the Win32
/// facility, marked as a failure.
pub open spec fn hresult_of_win32(error: u32) -> int {
    if error == 0 || error >= 0x8000_0000 {
        error as i32 as int
    } else {
        (error % 65536) + 0x0007_0000 - 0x8000_0000
    }
}

/// The `HRESULT` of a Win32 error code.
pub fn hresult_from_win32(error: u32) -> (code: i32)
    ensures
        code == hresult_of_win32(error),
{
    if error == 0 || error >= 0x8000_0000 {
        error as i32
    } else {
        let bits: u32 = (error & 0x0000_FFFF) | (7u32 << 16u32) | 0x8000_0000u32;
        assert(bits == (error % 65536) + 0x0007_0000 + 0x8000_0000) by (bit_vector)
            requires
                bits == (error & 0x0000_FFFF) | (7u32 << 16u32) | 0x8000_0000u32,
        ;
        let code: i32 = bits as i32;
        assert(code == bits - 0x1_0000_0000) by (bit_vector)
            requires
                code == bits as i32,
                bits >= 0x8000_0000,
        ;
        code
    }
}

/// The `HRESULT` reported for a failed file operation: the one of the
/// operating system's error code where there is one, and `E_FAIL` otherwise.
pub fn io_error_code(raw_os_error: Option<i32>) -> (code: i32)
    ensures
        code == (match raw_os_error {
            Some(c) => hresult_of_win32(c as u32),
            None => E_FAIL as int,
        }),
{
    match raw_os_error {
        Some(code) => hresult_from_win32(code as u32),
        None => E_FAIL,
    }
}

/// Whether a character separates the components of a Windows path.
pub open spec fn is_separator(c: char) -> bool {
    c == '\\' || c == '/'
}

/// Whether a character is an ASCII letter.
pub open spec fn is_ascii_letter(c: char) -> bool {
    ('a' <= c && c <= 'z') || ('A' <= c && c <= 'Z')
}

/// Whether a path is a bare drive, such as `C:`: a letter and a colon.
pub open spec fn is_bare_drive(path: Seq<char>) -> bool {
    path.len() == 2 && is_ascii_letter(path[0]) && path[1] == ':'
}

/// Whether a path component is relative: it starts with no separator and
/// with no drive.
pub open spec fn is_relative_component(component: Seq<char>) -> bool {
    &&& !(component.len() > 0 && is_separator(component[0]))
    &&& !(component.len() >= 2 && is_ascii_letter(component[0]) && component[1] == ':')
}

/// A path with a relative component appended, as Windows joins paths: a
/// separator `\` comes between them unless the path is empty, already ends
/// with a separator, or is a bare drive, which the component then follows
/// directly (`C:` and `x` give `C:x`).
pub open spec fn joined_path(base: Seq<char>, component: Seq<char>) -> Seq<char> {
    if base.len() == 0 || is_separator(base.last()) || is_bare_drive(base) {
        base + component
    } else {
        base.push('\\') + component
    }
}

/// Appends a relative component to a Windows path.
pub fn join_path(base: &str, component: &str) -> (path: String)
    requires
        is_relative_component(component@),
    ensures
        path@ == joined_path(base@, component@),
{
    let mut path = String::from_str(base);
    let n = base.unicode_len();
    if n > 0 {
        let last = base.get_char(n - 1);
        let bare_drive = n == 2 && is_ascii_letter_char(base.get_char(0)) && last == ':';
        if last != '\\' && last != '/' && !bare_drive {
            push_char(&mut path, '\\');
        }
    }
    path.append(component);
    path
}

/// Whether a character is an ASCII letter.
pub fn is_ascii_letter_char(c: char) -> (letter: bool)
    ensures
        letter == is_ascii_letter(c),
{
    ('a' <= c && c <= 'z') || ('A' <= c && c <= 'Z')
}

/// The name components the configuration paths are built from are relative.
proof fn lemma_config_names_are_relative()
    ensures
        is_relative_component(APP_DIRECTORY_NAME@),
        is_relative_component(APP_SUBDIRECTORY_NAME@),
        is_relative_component(CONFIG_FILE_NAME@),
{
    reveal_strlit("yhb");
    reveal_strlit("stand-awhile");
    reveal_strlit("config.json");
}

/// The configuration directory under the user's roaming application data.
pub fn config_directory(appdata: &str) -> (directory: String)
    ensures
        directory@ == joined_path(joined_path(appdata@, APP_DIRECTORY_NAME@), APP_SUBDIRECTORY_NAME@),
{
    proof {
        lemma_config_names_are_relative();
    }
    let app_directory = join_path(appdata, APP_DIRECTORY_NAME);
    join_path(app_directory.as_str(), APP_SUBDIRECTORY_NAME)
}

/// The configuration file in the configuration directory.
pub fn config_file_path(config_dir: &str) -> (path: String)
    ensures
        path@ == joined_path(config_dir@, CONFIG_FILE_NAME@),
{
    proof {
        lemma_config_names_are_relative();
    }
    join_path(config_dir, CONFIG_FILE_NAME)
}

/// A joined path starts with the path it was joined to and ends with the
/// component.
pub proof fn lemma_joined_path_keeps_parts(base: Seq<char>, component: Seq<char>)
    ensures
        has_prefix(joined_path(base, component), base),
        joined_path(base, component).subrange(
            joined_path(base, component).len() - component.len(),
            joined_path(base, component).len() as int,
        ) == component,
{
    let p = joined_path(base, component);
    if base.len() == 0 || is_separator(base.last()) || is_bare_drive(base) {
        assert(p.subrange(0, base.len() as int) =~= base);
        assert(p.subrange(p.len() - component.len(), p.len() as int) =~= component);
    } else {
        assert(p.subrange(0, base.len() as int) =~= base);
        assert(p.subrange(p.len() - component.len(), p.len() as int) =~= component);
    }
}

} // verus!
