use vstd::prelude::*;

use crate::font_cache::{fonts_accounted, FontCache, FontCacheEvent};
use crate::geometry::{fits_i32, fits_i32_wide, Rect};
use crate::hover::{after_mouse_leave, after_mouse_move, mouse_move_effects, HoverTracker, MouseMoveEffects};

verus! {

/// The horizontal padding on each side of the link text.
pub const LINK_PADDING_X: i32 = 10;
/// The padding above the link text.
pub const LINK_PADDING_TOP: i32 = 7;
/// The padding below the link text.
pub const LINK_PADDING_BOTTOM: i32 = 10;
/// What is added to the measured width of the text.
pub const LINK_MEASURE_EXTRA_WIDTH: i32 = 4;
/// What is added to the measured height of the text.
pub const LINK_MEASURE_EXTRA_HEIGHT: i32 = 4;
/// The point size of the link's font.
pub const LINK_FONT_POINT_SIZE: i32 = 11;

/// The state of a link: its text and the mouse over it.
pub struct HyperLinkTextState {
    pub text: String,
    pub hover: HoverTracker,
}

/// What a link does when the left button is released over it.
#[derive(Clone, Copy, Debug, PartialEq, Eq, Structural)]
pub enum LinkClickAction {
    /// Run the link's click handler.
    RunHandler,
}

impl HyperLinkTextState {
    /// A link with a text, without the mouse over it.
    pub fn new(text: &str) -> (state: Self)
        ensures
            state.text@ == text@,
            state.hover == (HoverTracker { hovered: false, tracking_mouse: false }),
    {
        HyperLinkTextState { text: text.to_owned(), hover: HoverTracker::new() }
    }

    /// The text of the link.
    pub fn text(&self) -> (text: &str)
        ensures
            text@ == self.text@,
    {
        self.text.as_str()
    }

    /// Replaces the text of the link, which is then redrawn.
    pub fn set_text(&mut self, text: &str) -> (invalidate: bool)
        ensures
            final(self).text@ == text@,
            final(self).hover == old(self).hover,
            invalidate,
    {
        self.text = text.to_owned();
        true
    }

    /// Whether the mouse is over the link.
    pub fn is_hovered(&self) -> (hovered: bool)
        ensures
            hovered == self.hover.hovered,
    {
        self.hover.hovered
    }

    /// The mouse moved over the link.
    pub fn on_mouse_move(&mut self) -> (effects: MouseMoveEffects)
        ensures
            final(self).hover == after_mouse_move(old(self).hover),
            effects == mouse_move_effects(old(self).hover),
            final(self).text == old(self).text,
    {
        self.hover.on_mouse_move()
    }

    /// The mouse left the link; the result says whether to redraw it.
    pub fn on_mouse_leave(&mut self) -> (invalidate: bool)
        ensures
            final(self).hover == after_mouse_leave(old(self).hover),
            invalidate == old(self).hover.hovered,
            final(self).text == old(self).text,
    {
        self.hover.on_mouse_leave()
    }

    /// The left button was released over the link: its handler runs.
    pub fn on_click(&self) -> (action: LinkClickAction)
        ensures
            action == LinkClickAction::RunHandler,
    {
        LinkClickAction::RunHandler
    }
}

/// The rectangle a link's text takes: the measured one, grown by the extra
/// width and height.
pub fn link_measured_rect(measured: Rect) -> (rect: Rect)
    requires
        fits_i32(measured.right + LINK_MEASURE_EXTRA_WIDTH),
        fits_i32(measured.bottom + LINK_MEASURE_EXTRA_HEIGHT),
    ensures
        rect == (Rect {
            right: (measured.right + LINK_MEASURE_EXTRA_WIDTH) as i32,
            bottom: (measured.bottom + LINK_MEASURE_EXTRA_HEIGHT) as i32,
            ..measured
        }),
{
    let mut rect = measured;
    rect.right = rect.right + LINK_MEASURE_EXTRA_WIDTH;
    rect.bottom = rect.bottom + LINK_MEASURE_EXTRA_HEIGHT;
    rect
}

/// Whether the size of a link can be computed in `i32`.
pub open spec fn link_size_fits(text: Rect) -> bool {
    &&& fits_i32(text.right - text.left)
    &&& fits_i32(text.bottom - text.top)
    &&& fits_i32(text.right - text.left + 2 * LINK_PADDING_X)
    &&& fits_i32(text.bottom - text.top + LINK_PADDING_TOP)
    &&& fits_i32(text.bottom - text.top + LINK_PADDING_TOP + LINK_PADDING_BOTTOM)
}

/// The size of a link's window around its text rectangle: the text with the
/// padding on every side.
pub fn link_window_size(text_rect: Rect) -> (size: (i32, i32))
    requires
        link_size_fits(text_rect),
    ensures
        size.0 == text_rect.right - text_rect.left + 2 * LINK_PADDING_X,
        size.1 == text_rect.bottom - text_rect.top + LINK_PADDING_TOP + LINK_PADDING_BOTTOM,
{
    (
        text_rect.right - text_rect.left + LINK_PADDING_X * 2,
        text_rect.bottom - text_rect.top + LINK_PADDING_TOP + LINK_PADDING_BOTTOM,
    )
}

/// The colour of the link text: a light blue on the dark scheme and a deep
/// blue on the light one, brighter or darker while hovered.
pub fn current_link_color(dark_mode: bool, hovered: bool) -> (color: u32)
    ensures
        color == (if dark_mode {
            if hovered { 0x00FF_C896u32 } else { 0x00FF_B478u32 }
        } else {
            if hovered { 0x00A8_5400u32 } else { 0x00CC_6600u32 }
        }),
{
    match (dark_mode, hovered) {
        (true, true) => 0x00FF_C896,
        (true, false) => 0x00FF_B478,
        (false, true) => 0x00A8_5400,
        (false, false) => 0x00CC_6600,
    }
}

/// Drops the links' font, which must be created again at the next drawing;
/// the handle given back is the one to delete.
pub fn invalidate_hyper_link_text_font(cache: &mut FontCache) -> (released: Option<usize>)
    ensures
        released == old(cache)@.font,
        final(cache)@.font is None,
        final(cache)@.history == old(cache)@.history.push(FontCacheEvent::Release),
        fonts_accounted(final(cache)@),
{
    cache.release()
}

/// Whether `link_measured_rect` can be called for a measured text.
pub fn link_measured_fits_exec(measured: Rect) -> (fits: bool)
    ensures
        fits == (fits_i32(measured.right + LINK_MEASURE_EXTRA_WIDTH) && fits_i32(
            measured.bottom + LINK_MEASURE_EXTRA_HEIGHT,
        )),
{
    fits_i32_wide(measured.right as i128 + 4) && fits_i32_wide(measured.bottom as i128 + 4)
}

/// Whether `link_window_size` can be called for a text rectangle.
pub fn link_size_fits_exec(text_rect: Rect) -> (fits: bool)
    ensures
        fits == link_size_fits(text_rect),
{
    let w = text_rect.right as i128 - text_rect.left as i128;
    let h = text_rect.bottom as i128 - text_rect.top as i128;
    fits_i32_wide(w) && fits_i32_wide(h) && fits_i32_wide(w + 20) && fits_i32_wide(h + 7) && fits_i32_wide(
        h + 17,
    )
}

} // verus!
