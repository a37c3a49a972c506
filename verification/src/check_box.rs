use vstd::prelude::*;

use crate::font_cache::{fonts_accounted, FontCache, FontCacheEvent};
use crate::geometry::{fits_i32, fits_i32_wide, max_i32, max_int, tdiv, tdiv_wide, Point, Rect};
use crate::hover::{after_mouse_leave, after_mouse_move, mouse_move_effects, HoverTracker, MouseMoveEffects};

verus! {

/// The side of the square box.
pub const CHECK_BOX_INDICATOR_SIZE: i32 = 16;
/// The gap between the box and the text.
pub const CHECK_BOX_TEXT_GAP: i32 = 10;
/// The horizontal padding around the control.
pub const CHECK_BOX_PADDING_X: i32 = 2;
/// The vertical padding around the control.
pub const CHECK_BOX_PADDING_Y: i32 = 4;
/// The point size of the check box's font.
pub const CHECK_BOX_FONT_POINT_SIZE: i32 = 11;

/// The state of a check box: its text, whether it is checked, and the mouse
/// over it.
pub struct CheckBoxState {
    pub text: String,
    pub checked: bool,
    pub hover: HoverTracker,
}

impl CheckBoxState {
    /// A check box with a text, checked or not, without the mouse over it.
    pub fn new(text: &str, checked: bool) -> (state: Self)
        ensures
            state.text@ == text@,
            state.checked == checked,
            state.hover == (HoverTracker { hovered: false, tracking_mouse: false }),
    {
        CheckBoxState { text: text.to_owned(), checked, hover: HoverTracker::new() }
    }

    /// Whether the box is checked.
    pub fn is_checked(&self) -> (checked: bool)
        ensures
            checked == self.checked,
    {
        self.checked
    }

    /// The mouse moved over the check box.
    pub fn on_mouse_move(&mut self) -> (effects: MouseMoveEffects)
        ensures
            final(self).hover == after_mouse_move(old(self).hover),
            effects == mouse_move_effects(old(self).hover),
            final(self).checked == old(self).checked,
            final(self).text == old(self).text,
    {
        self.hover.on_mouse_move()
    }

    /// The mouse left the check box; the result says whether to redraw it.
    pub fn on_mouse_leave(&mut self) -> (invalidate: bool)
        ensures
            final(self).hover == after_mouse_leave(old(self).hover),
            invalidate == old(self).hover.hovered,
            final(self).checked == old(self).checked,
            final(self).text == old(self).text,
    {
        self.hover.on_mouse_leave()
    }

    /// The left button was released over the check box: it flips between
    /// checked and unchecked, and is redrawn.
    pub fn on_click(&mut self) -> (invalidate: bool)
        ensures
            final(self).checked == !old(self).checked,
            final(self).hover == old(self).hover,
            final(self).text == old(self).text,
            invalidate,
    {
        self.checked = !self.checked;
        true
    }
}

/// Whether the size of a check box can be computed in `i32`.
pub open spec fn check_box_size_fits(text: Rect) -> bool {
    &&& fits_i32(text.right - text.left)
    &&& fits_i32(text.bottom - text.top)
    &&& fits_i32(2 * CHECK_BOX_PADDING_X + CHECK_BOX_INDICATOR_SIZE + CHECK_BOX_TEXT_GAP + (text.right
        - text.left))
    &&& fits_i32(2 * CHECK_BOX_PADDING_Y + max_int(CHECK_BOX_INDICATOR_SIZE as int, text.bottom - text.top))
}

/// The size of a check box whose text measures `text`: the box, the gap and
/// the text side by side, as high as the taller of box and text, with padding.
pub fn check_box_window_size(text_rect: Rect) -> (size: (i32, i32))
    requires
        check_box_size_fits(text_rect),
    ensures
        size.0 == 2 * CHECK_BOX_PADDING_X + CHECK_BOX_INDICATOR_SIZE + CHECK_BOX_TEXT_GAP + (
        text_rect.right - text_rect.left),
        size.1 == 2 * CHECK_BOX_PADDING_Y + max_int(
            CHECK_BOX_INDICATOR_SIZE as int,
            text_rect.bottom - text_rect.top,
        ),
{
    let text_width = text_rect.right - text_rect.left;
    let text_height = text_rect.bottom - text_rect.top;
    let width = CHECK_BOX_PADDING_X * 2 + CHECK_BOX_INDICATOR_SIZE + CHECK_BOX_TEXT_GAP + text_width;
    let height = CHECK_BOX_PADDING_Y * 2 + max_i32(CHECK_BOX_INDICATOR_SIZE, text_height);
    (width, height)
}

/// Whether the box of a check box can be placed in `i32` within its client area.
pub open spec fn indicator_fits(client: Rect) -> bool {
    let top = client.top + tdiv(client.bottom - client.top - CHECK_BOX_INDICATOR_SIZE, 2);
    &&& fits_i32(client.bottom - client.top)
    &&& fits_i32(client.bottom - client.top - CHECK_BOX_INDICATOR_SIZE)
    &&& fits_i32(top)
    &&& fits_i32(top + CHECK_BOX_INDICATOR_SIZE)
    &&& fits_i32(client.left + CHECK_BOX_PADDING_X + CHECK_BOX_INDICATOR_SIZE)
}

/// The square box of a check box: at the left, after the padding, centred
/// vertically.
pub fn check_box_indicator_rect(client_rect: Rect) -> (rect: Rect)
    requires
        indicator_fits(client_rect),
    ensures
        ({
            let top = client_rect.top + tdiv(
                client_rect.bottom - client_rect.top - CHECK_BOX_INDICATOR_SIZE,
                2,
            );
            rect == (Rect {
                left: (client_rect.left + CHECK_BOX_PADDING_X) as i32,
                top: top as i32,
                right: (client_rect.left + CHECK_BOX_PADDING_X + CHECK_BOX_INDICATOR_SIZE) as i32,
                bottom: (top + CHECK_BOX_INDICATOR_SIZE) as i32,
            })
        }),
{
    let indicator_top = client_rect.top + (client_rect.bottom - client_rect.top - CHECK_BOX_INDICATOR_SIZE)
        / 2;
    Rect {
        left: client_rect.left + CHECK_BOX_PADDING_X,
        top: indicator_top,
        right: client_rect.left + CHECK_BOX_PADDING_X + CHECK_BOX_INDICATOR_SIZE,
        bottom: indicator_top + CHECK_BOX_INDICATOR_SIZE,
    }
}

/// Whether the check mark of a box can be computed in `i32`.
pub open spec fn check_mark_fits(rect: Rect) -> bool {
    &&& fits_i32(rect.left + 7)
    &&& fits_i32(rect.top + 8)
    &&& fits_i32(rect.bottom - 4)
    &&& fits_i32(rect.right - 3)
}

/// The three points of the check mark drawn in a box: a short stroke down to
/// the bottom and a long one up to the right.
pub fn check_mark_points(rect: Rect) -> (points: [Point; 3])
    requires
        check_mark_fits(rect),
    ensures
        points[0] == (Point { x: (rect.left + 3) as i32, y: (rect.top + 8) as i32 }),
        points[1] == (Point { x: (rect.left + 7) as i32, y: (rect.bottom - 4) as i32 }),
        points[2] == (Point { x: (rect.right - 3) as i32, y: (rect.top + 4) as i32 }),
{
    [
        Point { x: rect.left + 3, y: rect.top + 8 },
        Point { x: rect.left + 7, y: rect.bottom - 4 },
        Point { x: rect.right - 3, y: rect.top + 4 },
    ]
}

/// The rectangle of the text: the client area after the box and the gap.
pub fn check_box_text_rect(client_rect: Rect) -> (rect: Rect)
    requires
        fits_i32(client_rect.left + CHECK_BOX_PADDING_X + CHECK_BOX_INDICATOR_SIZE + CHECK_BOX_TEXT_GAP),
    ensures
        rect == (Rect {
            left: (client_rect.left + CHECK_BOX_PADDING_X + CHECK_BOX_INDICATOR_SIZE
                + CHECK_BOX_TEXT_GAP) as i32,
            ..client_rect
        }),
{
    let mut text_rect = client_rect;
    text_rect.left = text_rect.left + (CHECK_BOX_PADDING_X + CHECK_BOX_INDICATOR_SIZE + CHECK_BOX_TEXT_GAP);
    text_rect
}

/// The border colour of the box, `rgb(196, 196, 196)`, `rgb(144, 144, 144)`,
/// `rgb(88, 88, 88)` or `rgb(120, 120, 120)`.
pub fn current_indicator_border_color(dark_mode: bool, hovered: bool) -> (color: u32)
    ensures
        color == (if dark_mode {
            if hovered { 0x00C4_C4C4u32 } else { 0x0090_9090u32 }
        } else {
            if hovered { 0x0058_5858u32 } else { 0x0078_7878u32 }
        }),
{
    match (dark_mode, hovered) {
        (true, true) => 0x00C4_C4C4,
        (true, false) => 0x0090_9090,
        (false, true) => 0x0058_5858,
        (false, false) => 0x0078_7878,
    }
}

/// The fill colour of the box, `rgb(54, 54, 54)`, `rgb(42, 42, 42)`,
/// `rgb(230, 230, 230)` or `rgb(244, 244, 244)`.
pub fn current_indicator_fill_color(dark_mode: bool, hovered: bool) -> (color: u32)
    ensures
        color == (if dark_mode {
            if hovered { 0x0036_3636u32 } else { 0x002A_2A2Au32 }
        } else {
            if hovered { 0x00E6_E6E6u32 } else { 0x00F4_F4F4u32 }
        }),
{
    match (dark_mode, hovered) {
        (true, true) => 0x0036_3636,
        (true, false) => 0x002A_2A2A,
        (false, true) => 0x00E6_E6E6,
        (false, false) => 0x00F4_F4F4,
    }
}

/// The colour of the check mark, the accent colour of the scheme:
/// `rgb(238, 189, 82)` dark, `rgb(208, 141, 30)` light.
pub fn current_check_mark_color(dark_mode: bool) -> (color: u32)
    ensures
        color == (if dark_mode { 0x0052_BDEEu32 } else { 0x001E_8DD0u32 }),
{
    if dark_mode {
        0x0052_BDEE
    } else {
        0x001E_8DD0
    }
}

/// Drops the check boxes' font, which must be created again at the next
/// drawing; the handle given back is the one to delete.
pub fn invalidate_check_box_font(cache: &mut FontCache) -> (released: Option<usize>)
    ensures
        released == old(cache)@.font,
        final(cache)@.font is None,
        final(cache)@.history == old(cache)@.history.push(FontCacheEvent::Release),
        fonts_accounted(final(cache)@),
{
    cache.release()
}

/// Whether `check_box_window_size` can be called for a measured text.
pub fn check_box_size_fits_exec(text_rect: Rect) -> (fits: bool)
    ensures
        fits == check_box_size_fits(text_rect),
{
    let w = text_rect.right as i128 - text_rect.left as i128;
    let h = text_rect.bottom as i128 - text_rect.top as i128;
    let tallest: i128 = if 16 >= h {
        16
    } else {
        h
    };
    fits_i32_wide(w) && fits_i32_wide(h) && fits_i32_wide(30 + w) && fits_i32_wide(8 + tallest)
}

/// Whether `check_box_indicator_rect` can be called for a client area.
pub fn indicator_fits_exec(client_rect: Rect) -> (fits: bool)
    ensures
        fits == indicator_fits(client_rect),
{
    let h = client_rect.bottom as i128 - client_rect.top as i128;
    let top = client_rect.top as i128 + tdiv_wide(h - 16, 2);
    fits_i32_wide(h) && fits_i32_wide(h - 16) && fits_i32_wide(top) && fits_i32_wide(top + 16) && fits_i32_wide(
        client_rect.left as i128 + 18,
    )
}

/// Whether `check_mark_points` can be called for a box.
pub fn check_mark_fits_exec(rect: Rect) -> (fits: bool)
    ensures
        fits == check_mark_fits(rect),
{
    fits_i32_wide(rect.left as i128 + 7) && fits_i32_wide(rect.top as i128 + 8) && fits_i32_wide(
        rect.bottom as i128 - 4,
    ) && fits_i32_wide(rect.right as i128 - 3)
}

/// Whether `check_box_text_rect` can be called for a client area.
pub fn text_rect_fits_exec(client_rect: Rect) -> (fits: bool)
    ensures
        fits == fits_i32(client_rect.left + CHECK_BOX_PADDING_X + CHECK_BOX_INDICATOR_SIZE + CHECK_BOX_TEXT_GAP),
{
    fits_i32_wide(client_rect.left as i128 + 28)
}

} // verus!
