use vstd::prelude::*;

use crate::geometry::{fits_i32, fits_i32_wide, tdiv, Rect};

verus! {

/// The client width of the main window.
pub const WINDOW_WIDTH: i32 = 800;
/// The client height of the main window.
pub const WINDOW_HEIGHT: i32 = 533;
/// The resource id of the program's icon.
pub const APP_ICON_RESOURCE_ID: usize = 1;
/// The window class of the main window.
pub const MAIN_WINDOW_CLASS_NAME: &'static str = "YHB-StandAwhileWindowClass";

/// The client rectangle the main window asks for, before Windows adds its frame.
pub fn main_window_client_rect() -> (rect: Rect)
    ensures
        rect == (Rect { left: 0, top: 0, right: WINDOW_WIDTH, bottom: WINDOW_HEIGHT }),
{
    Rect { left: 0, top: 0, right: WINDOW_WIDTH, bottom: WINDOW_HEIGHT }
}

/// Whether the centred position can be computed in `i32`.
pub open spec fn screen_center_fits(window: Rect, screen_width: int, screen_height: int) -> bool {
    &&& fits_i32(window.right - window.left)
    &&& fits_i32(window.bottom - window.top)
    &&& fits_i32(screen_width - (window.right - window.left))
    &&& fits_i32(screen_height - (window.bottom - window.top))
}

/// The top-left corner that centres a window with the outer rectangle
/// `window_rect` on a screen of the given size.
pub fn centered_window_position(window_rect: Rect, screen_width: i32, screen_height: i32) -> (position: (i32, i32))
    requires
        screen_center_fits(window_rect, screen_width as int, screen_height as int),
    ensures
        position.0 == tdiv(screen_width - (window_rect.right - window_rect.left), 2),
        position.1 == tdiv(screen_height - (window_rect.bottom - window_rect.top), 2),
{
    let window_width = window_rect.right - window_rect.left;
    let window_height = window_rect.bottom - window_rect.top;
    let x = (screen_width - window_width) / 2;
    let y = (screen_height - window_height) / 2;
    (x, y)
}

/// Whether `centered_window_position` can be called for a window and a screen.
pub fn screen_center_fits_exec(window_rect: Rect, screen_width: i32, screen_height: i32) -> (fits: bool)
    ensures
        fits == screen_center_fits(window_rect, screen_width as int, screen_height as int),
{
    let width = window_rect.right as i128 - window_rect.left as i128;
    let height = window_rect.bottom as i128 - window_rect.top as i128;
    fits_i32_wide(width) && fits_i32_wide(height) && fits_i32_wide(screen_width as i128 - width)
        && fits_i32_wide(screen_height as i128 - height)
}

} // verus!
