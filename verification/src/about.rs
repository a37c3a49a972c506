use vstd::prelude::*;

use crate::geometry::{fits_i32, fits_i32_wide, tdiv, tdiv_wide, Rect};
use crate::i18n::Language;
use crate::window_proc::{
    WM_CLOSE, WM_CREATE, WM_DESTROY, WM_ERASEBKGND, WM_NCDESTROY, WM_PAINT, WM_SETTINGCHANGE,
    WM_SIZE, WM_THEMECHANGED,
};

verus! {

/// The client width of the About window.
pub const ABOUT_WINDOW_WIDTH: i32 = 460;
/// The client height of the About window.
pub const ABOUT_WINDOW_HEIGHT: i32 = 250;
/// The left margin of the content.
pub const CONTENT_LEFT: i32 = 28;
/// The top margin of the content.
pub const CONTENT_TOP: i32 = 24;
/// The right margin of the content.
pub const CONTENT_RIGHT: i32 = 28;
/// The top of the "GitHub:" label.
pub const GITHUB_LABEL_TOP: i32 = 164;
/// The gap between the label and the link.
pub const GITHUB_LABEL_GAP: i32 = 6;
/// The project page the link opens.
pub const GITHUB_URL: &'static str = "https://github.com/yin-hai-bo/stand-awhile";
/// The heading of the About window.
pub const ABOUT_HEADING: &'static str = "Stand Awhile";
/// The label in front of the link.
pub const GITHUB_LABEL: &'static str = "GitHub:";
/// The point size of the heading.
pub const ABOUT_TITLE_POINT_SIZE: i32 = 18;
/// The point size of the body text and the label.
pub const ABOUT_BODY_POINT_SIZE: i32 = 11;

/// Where the texts of the About window are drawn.
#[derive(Clone, Copy, Debug, PartialEq, Eq, Structural)]
pub struct AboutLayout {
    pub title: Rect,
    pub body: Rect,
    pub github_label: Rect,
}

/// The title of the About window.
pub fn about_window_title(language: Language) -> (title: &'static str)
    ensures
        title@ == (match language {
            Language::Chinese => "关于 站一站"@,
            Language::English => "About Stand Awhile"@,
        }),
{
    match language {
        Language::Chinese => "关于 站一站",
        Language::English => "About Stand Awhile",
    }
}

/// The description of the program in the About window.
pub fn about_body_text(language: Language) -> (text: &'static str)
    ensures
        text@ == (match language {
            Language::Chinese => "一个轻量的 Windows 桌面提醒工具，帮助你定时站起来、伸展身体，减少久坐带来的负担。"@,
            Language::English => "A lightweight Windows desktop reminder that helps you stand up, stretch, and move regularly during long work sessions."@,
        }),
{
    match language {
        Language::Chinese => "一个轻量的 Windows 桌面提醒工具，帮助你定时站起来、伸展身体，减少久坐带来的负担。",
        Language::English => "A lightweight Windows desktop reminder that helps you stand up, stretch, and move regularly during long work sessions.",
    }
}

/// The rectangles of the heading, the body and the label, between the margins.
pub fn about_layout() -> (layout: AboutLayout)
    ensures
        layout.title == (Rect { left: 28, top: 24, right: 432, bottom: 58 }),
        layout.body == (Rect { left: 28, top: 72, right: 432, bottom: 154 }),
        layout.github_label == (Rect { left: 28, top: 164, right: 432, bottom: 188 }),
{
    AboutLayout {
        title: Rect {
            left: CONTENT_LEFT,
            top: CONTENT_TOP,
            right: ABOUT_WINDOW_WIDTH - CONTENT_RIGHT,
            bottom: CONTENT_TOP + 34,
        },
        body: Rect {
            left: CONTENT_LEFT,
            top: CONTENT_TOP + 48,
            right: ABOUT_WINDOW_WIDTH - CONTENT_RIGHT,
            bottom: GITHUB_LABEL_TOP - 10,
        },
        github_label: Rect {
            left: CONTENT_LEFT,
            top: GITHUB_LABEL_TOP,
            right: ABOUT_WINDOW_WIDTH - CONTENT_RIGHT,
            bottom: GITHUB_LABEL_TOP + 24,
        },
    }
}

/// Whether the link rectangle can be computed in `i32`.
pub open spec fn github_link_fits(label_width: int, link_width: int, link_height: int) -> bool {
    &&& fits_i32(CONTENT_LEFT + label_width)
    &&& fits_i32(CONTENT_LEFT + label_width + GITHUB_LABEL_GAP)
    &&& fits_i32(CONTENT_LEFT + label_width + GITHUB_LABEL_GAP + link_width)
    &&& fits_i32(GITHUB_LABEL_TOP - 5 + link_height)
}

/// Where the link goes: right after the label and the gap, 5 above the
/// label's top, at the link's own size.
pub fn github_link_rect(label_width: i32, link_width: i32, link_height: i32) -> (rect: Rect)
    requires
        github_link_fits(label_width as int, link_width as int, link_height as int),
    ensures
        ({
            let left = CONTENT_LEFT + label_width + GITHUB_LABEL_GAP;
            rect == (Rect {
                left: left as i32,
                top: 159,
                right: (left + link_width) as i32,
                bottom: (159 + link_height) as i32,
            })
        }),
{
    let left = CONTENT_LEFT + label_width + GITHUB_LABEL_GAP;
    let top = GITHUB_LABEL_TOP - 5;
    Rect { left, top, right: left + link_width, bottom: top + link_height }
}

/// Whether a window can be centred on its owner in `i32`.
pub open spec fn centered_fits(owner: Rect, window: Rect) -> bool {
    let width = window.right - window.left;
    let height = window.bottom - window.top;
    &&& fits_i32(width)
    &&& fits_i32(height)
    &&& fits_i32(owner.right - owner.left)
    &&& fits_i32(owner.bottom - owner.top)
    &&& fits_i32(owner.right - owner.left - width)
    &&& fits_i32(owner.bottom - owner.top - height)
    &&& fits_i32(owner.left + tdiv(owner.right - owner.left - width, 2))
    &&& fits_i32(owner.top + tdiv(owner.bottom - owner.top - height, 2))
}

/// The position and size of a window of the outer size `window` centred on
/// its owner's rectangle: `(x, y, width, height)`.
pub fn centered_window_rect(owner_rect: Rect, window_rect: Rect) -> (placement: (i32, i32, i32, i32))
    requires
        centered_fits(owner_rect, window_rect),
    ensures
        ({
            let width = window_rect.right - window_rect.left;
            let height = window_rect.bottom - window_rect.top;
            &&& placement.0 == owner_rect.left + tdiv(owner_rect.right - owner_rect.left - width, 2)
            &&& placement.1 == owner_rect.top + tdiv(owner_rect.bottom - owner_rect.top - height, 2)
            &&& placement.2 == width
            &&& placement.3 == height
        }),
{
    let width = window_rect.right - window_rect.left;
    let height = window_rect.bottom - window_rect.top;
    let x = owner_rect.left + (owner_rect.right - owner_rect.left - width) / 2;
    let y = owner_rect.top + (owner_rect.bottom - owner_rect.top - height) / 2;
    (x, y, width, height)
}

/// Whether `github_link_rect` can be called for the measured sizes.
pub fn github_link_fits_exec(label_width: i32, link_width: i32, link_height: i32) -> (fits: bool)
    ensures
        fits == github_link_fits(label_width as int, link_width as int, link_height as int),
{
    let after_label = 28 + label_width as i128;
    fits_i32_wide(after_label) && fits_i32_wide(after_label + 6) && fits_i32_wide(
        after_label + 6 + link_width as i128,
    ) && fits_i32_wide(159 + link_height as i128)
}

/// Whether `centered_window_rect` can be called for an owner and a window.
pub fn centered_fits_exec(owner_rect: Rect, window_rect: Rect) -> (fits: bool)
    ensures
        fits == centered_fits(owner_rect, window_rect),
{
    let width = window_rect.right as i128 - window_rect.left as i128;
    let height = window_rect.bottom as i128 - window_rect.top as i128;
    let owner_width = owner_rect.right as i128 - owner_rect.left as i128;
    let owner_height = owner_rect.bottom as i128 - owner_rect.top as i128;
    fits_i32_wide(width) && fits_i32_wide(height) && fits_i32_wide(owner_width) && fits_i32_wide(
        owner_height,
    ) && fits_i32_wide(owner_width - width) && fits_i32_wide(owner_height - height) && fits_i32_wide(
        owner_rect.left as i128 + tdiv_wide(owner_width - width, 2),
    ) && fits_i32_wide(owner_rect.top as i128 + tdiv_wide(owner_height - height, 2))
}

/// What the About window does with a message.
#[derive(Clone, Copy, Debug, PartialEq, Eq, Structural)]
pub enum AboutAction {
    /// Nothing is done; the message is answered with 0.
    ReturnZero,
    /// The background and the texts are painted; answered with 0.
    Paint,
    /// Erasing the background is skipped, as painting covers it; answered with 1.
    SkipErase,
    /// The link is laid out again; answered with 0.
    Layout,
    /// The window takes the current theme and the link is redrawn; answered with 0.
    RefreshTheme,
    /// The window is destroyed; answered with 0.
    DestroyWindow,
    /// The window's state is released, then the default window procedure answers.
    ReleaseState,
    /// The default window procedure answers.
    Default,
}

/// What the About window does with message `msg`, where `has_state` tells
/// whether its state is still attached. A settings or theme change is only
/// acted on while the state is there.
pub open spec fn about_action_of(msg: u32, has_state: bool) -> AboutAction {
    if msg == WM_CREATE || msg == WM_DESTROY {
        AboutAction::ReturnZero
    } else if msg == WM_PAINT {
        AboutAction::Paint
    } else if msg == WM_ERASEBKGND {
        AboutAction::SkipErase
    } else if msg == WM_SIZE {
        AboutAction::Layout
    } else if msg == WM_SETTINGCHANGE || msg == WM_THEMECHANGED {
        if has_state {
            AboutAction::RefreshTheme
        } else {
            AboutAction::ReturnZero
        }
    } else if msg == WM_CLOSE {
        AboutAction::DestroyWindow
    } else if msg == WM_NCDESTROY {
        AboutAction::ReleaseState
    } else {
        AboutAction::Default
    }
}

/// Decides what the About window does with a message.
pub fn about_message_action(msg: u32, has_state: bool) -> (action: AboutAction)
    ensures
        action == about_action_of(msg, has_state),
{
    if msg == WM_CREATE || msg == WM_DESTROY {
        AboutAction::ReturnZero
    } else if msg == WM_PAINT {
        AboutAction::Paint
    } else if msg == WM_ERASEBKGND {
        AboutAction::SkipErase
    } else if msg == WM_SIZE {
        AboutAction::Layout
    } else if msg == WM_SETTINGCHANGE || msg == WM_THEMECHANGED {
        if has_state {
            AboutAction::RefreshTheme
        } else {
            AboutAction::ReturnZero
        }
    } else if msg == WM_CLOSE {
        AboutAction::DestroyWindow
    } else if msg == WM_NCDESTROY {
        AboutAction::ReleaseState
    } else {
        AboutAction::Default
    }
}

} // verus!
