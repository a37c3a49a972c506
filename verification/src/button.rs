use vstd::prelude::*;

use crate::geometry::{
    fits_i32, fits_i32_wide, lemma_product_bounded, max_i32, max_int, min_i32, min_int, percent_of, tdiv, tdiv_wide,
    Point, Rect,
};
use crate::tray_icon::{command_id, command_id_of};
use crate::theme::{DARK_BACKGROUND, DARK_TEXT, LIGHT_BACKGROUND, LIGHT_TEXT};

verus! {

/// How many control buttons there are.
pub const BUTTON_COUNT: usize = 3;

/// The three round buttons under the countdown.
#[derive(Clone, Copy, Debug, PartialEq, Eq, Structural)]
pub enum ControlButton {
    Play,
    Pause,
    Reset,
}

/// The command identifier a control button sends to the main window.
pub open spec fn command_id_for(kind: ControlButton) -> usize {
    match kind {
        ControlButton::Play => CONTROL_BUTTON_PLAY_ID,
        ControlButton::Pause => CONTROL_BUTTON_PAUSE_ID,
        ControlButton::Reset => CONTROL_BUTTON_RESET_ID,
    }
}

/// The command identifier of Play.
pub const CONTROL_BUTTON_PLAY_ID: usize = 42001;
/// The command identifier of Pause.
pub const CONTROL_BUTTON_PAUSE_ID: usize = 42002;
/// The command identifier of Reset.
pub const CONTROL_BUTTON_RESET_ID: usize = 42003;

/// A button's command is read back as that button.
pub proof fn lemma_button_command_round_trip(kind: ControlButton, wparam: usize)
    requires
        wparam == command_id_for(kind),
    ensures
        button_command_spec(wparam) == Some(kind),
{
    assert(wparam as int % 65536 == wparam as int);
}

/// The command identifier a control button sends.
pub fn button_command_id(kind: ControlButton) -> (id: usize)
    ensures
        id == command_id_for(kind),
{
    match kind {
        ControlButton::Play => CONTROL_BUTTON_PLAY_ID,
        ControlButton::Pause => CONTROL_BUTTON_PAUSE_ID,
        ControlButton::Reset => CONTROL_BUTTON_RESET_ID,
    }
}

/// The control button whose command a `wparam` carries, if any.
pub open spec fn button_command_spec(wparam: usize) -> Option<ControlButton> {
    if command_id(wparam) == CONTROL_BUTTON_PLAY_ID {
        Some(ControlButton::Play)
    } else if command_id(wparam) == CONTROL_BUTTON_PAUSE_ID {
        Some(ControlButton::Pause)
    } else if command_id(wparam) == CONTROL_BUTTON_RESET_ID {
        Some(ControlButton::Reset)
    } else {
        None
    }
}

/// The control button whose command a `WM_COMMAND` carries in the low 16
/// bits of its `wparam`, if any.
pub fn button_from_command(wparam: usize) -> (button: Option<ControlButton>)
    ensures
        button == button_command_spec(wparam),
{
    let id = command_id_of(wparam);
    if id == CONTROL_BUTTON_PLAY_ID {
        Some(ControlButton::Play)
    } else if id == CONTROL_BUTTON_PAUSE_ID {
        Some(ControlButton::Pause)
    } else if id == CONTROL_BUTTON_RESET_ID {
        Some(ControlButton::Reset)
    } else {
        None
    }
}

/// Where a control button stands in the window.
#[derive(Clone, Copy, Debug, PartialEq, Eq, Structural)]
pub struct ControlButtonLayout {
    pub kind: ControlButton,
    pub rect: Rect,
}

/// The colours a control button is drawn in.
#[derive(Clone, Copy, Debug, PartialEq, Eq, Structural)]
pub struct ButtonColors {
    pub fill: u32,
    pub border: u32,
    pub icon: u32,
}

/// How a control button is drawn: whether it can be pressed, and whether the
/// mouse is over it or pressing it.
#[derive(Clone, Copy, Debug, PartialEq, Eq, Structural)]
pub struct ButtonVisualState {
    pub kind: ControlButton,
    pub enabled: bool,
    pub hovered: bool,
    pub pressed: bool,
}

pub const DARK_BUTTON_FILL: u32 = 0x0036_3636;
pub const LIGHT_BUTTON_FILL: u32 = 0x00E2_E2E2;
pub const DARK_BUTTON_HOVER: u32 = 0x0048_4848;
pub const LIGHT_BUTTON_HOVER: u32 = 0x00D4_D4D4;
pub const DARK_BUTTON_PRESSED: u32 = 0x0058_5858;
pub const LIGHT_BUTTON_PRESSED: u32 = 0x00C4_C4C4;
pub const DARK_BUTTON_BORDER: u32 = 0x006C_6C6C;
pub const LIGHT_BUTTON_BORDER: u32 = 0x009C_9C9C;
/// `rgb(226, 175, 57)`.
pub const DARK_ACCENT_FILL: u32 = 0x0039_AFE2;
/// `rgb(208, 141, 30)`.
pub const LIGHT_ACCENT_FILL: u32 = 0x001E_8DD0;
/// `rgb(238, 189, 82)`.
pub const DARK_ACCENT_HOVER: u32 = 0x0052_BDEE;
/// `rgb(222, 155, 43)`.
pub const LIGHT_ACCENT_HOVER: u32 = 0x002B_9BDE;
/// `rgb(204, 153, 36)`.
pub const DARK_ACCENT_PRESSED: u32 = 0x0024_99CC;
/// `rgb(186, 123, 16)`.
pub const LIGHT_ACCENT_PRESSED: u32 = 0x0010_7BBA;
pub const DARK_DISABLED_FILL: u32 = 0x002C_2C2C;
pub const LIGHT_DISABLED_FILL: u32 = 0x00E8_E8E8;
pub const DARK_DISABLED_BORDER: u32 = 0x004E_4E4E;
pub const LIGHT_DISABLED_BORDER: u32 = 0x00BC_BCBC;
pub const DARK_DISABLED_ICON: u32 = 0x0076_7676;
pub const LIGHT_DISABLED_ICON: u32 = 0x00A8_A8A8;

/// The button kind at a position of the row, from the left.
pub open spec fn kind_at(i: int) -> ControlButton {
    if i == 0 {
        ControlButton::Play
    } else if i == 1 {
        ControlButton::Pause
    } else {
        ControlButton::Reset
    }
}

/// The diameter of the buttons for a client area: an eighth of its smaller
/// side, kept between 48 and 68.
pub open spec fn button_diameter(client: Rect) -> int {
    let side = min_int(client.right - client.left, client.bottom - client.top);
    let d = tdiv(side, 8);
    if d < 48 {
        48
    } else if d > 68 {
        68
    } else {
        d
    }
}

/// The gap between two buttons: 32 percent of the diameter.
pub open spec fn button_spacing(client: Rect) -> int {
    tdiv(button_diameter(client) * 32, 100)
}

/// The width of the row of buttons.
pub open spec fn buttons_total_width(client: Rect) -> int {
    button_diameter(client) * 3 + button_spacing(client) * 2
}

/// The left edge of the row: centred in the client area.
pub open spec fn buttons_left(client: Rect) -> int {
    client.left + tdiv((client.right - client.left) - buttons_total_width(client), 2)
}

/// The top edge of the row: at 58 percent of the client height.
pub open spec fn buttons_top(client: Rect) -> int {
    client.top + tdiv((client.bottom - client.top) * 58, 100)
}

/// The rectangle of the button at position `i` of the row.
pub open spec fn button_rect(client: Rect, i: int) -> Rect {
    let d = button_diameter(client);
    let left = buttons_left(client) + (d + button_spacing(client)) * i;
    let top = buttons_top(client);
    Rect { left: left as i32, top: top as i32, right: (left + d) as i32, bottom: (top + d) as i32 }
}

/// Whether the layout of the buttons can be computed in `i32` for a client area.
pub open spec fn layout_fits(client: Rect) -> bool {
    &&& fits_i32(client.right - client.left)
    &&& fits_i32(client.bottom - client.top)
    &&& fits_i32((client.right - client.left) - buttons_total_width(client))
    &&& fits_i32(buttons_left(client))
    &&& fits_i32((client.bottom - client.top) * 58)
    &&& fits_i32(buttons_top(client))
    &&& fits_i32(buttons_top(client) + button_diameter(client))
    &&& fits_i32(buttons_left(client) + (button_diameter(client) + button_spacing(client)) * 2
        + button_diameter(client))
}

/// The rectangle of a given size whose top-left corner is at (`left`, `top`).
pub fn rect_from_origin(left: i32, top: i32, width: i32, height: i32) -> (rect: Rect)
    requires
        fits_i32(left + width),
        fits_i32(top + height),
    ensures
        rect == (Rect { left, top, right: (left + width) as i32, bottom: (top + height) as i32 }),
{
    Rect { left, top, right: left + width, bottom: top + height }
}

/// The rectangles of Play, Pause and Reset, from left to right, for a client
/// area: round buttons of equal diameter in one row, centred horizontally.
pub fn control_button_layouts(client_rect: Rect) -> (layouts: [ControlButtonLayout; 3])
    requires
        layout_fits(client_rect),
    ensures
        forall|i: int|
            0 <= i < 3 ==> #[trigger] layouts[i] == (ControlButtonLayout {
                kind: kind_at(i),
                rect: button_rect(client_rect, i),
            }),
{
    let client_width = client_rect.right - client_rect.left;
    let client_height = client_rect.bottom - client_rect.top;
    let side = min_i32(client_width, client_height);
    let eighth = side / 8;
    let diameter: i32 = if eighth < 48 {
        48
    } else if eighth > 68 {
        68
    } else {
        eighth
    };
    let spacing = (diameter * 32) / 100;
    let total_width = diameter * (BUTTON_COUNT as i32) + spacing * (BUTTON_COUNT as i32 - 1);
    let left = client_rect.left + (client_width - total_width) / 2;
    let top = client_rect.top + client_height * 58 / 100;
    assert(diameter == button_diameter(client_rect));
    assert(spacing == button_spacing(client_rect));
    [
        ControlButtonLayout {
            kind: ControlButton::Play,
            rect: rect_from_origin(left, top, diameter, diameter),
        },
        ControlButtonLayout {
            kind: ControlButton::Pause,
            rect: rect_from_origin(left + diameter + spacing, top, diameter, diameter),
        },
        ControlButtonLayout {
            kind: ControlButton::Reset,
            rect: rect_from_origin(left + (diameter + spacing) * 2, top, diameter, diameter),
        },
    ]
}

/// The buttons stand in one row, from left to right, with the same top and
/// bottom.
pub proof fn lemma_button_rects_in_a_row(client: Rect)
    requires
        layout_fits(client),
    ensures
        button_rect(client, 0).left <= button_rect(client, 1).left <= button_rect(client, 2).left,
        button_rect(client, 0).right <= button_rect(client, 1).right <= button_rect(client, 2).right,
        button_rect(client, 0).top == button_rect(client, 1).top == button_rect(client, 2).top,
        button_rect(client, 0).bottom == button_rect(client, 1).bottom == button_rect(client, 2).bottom,
        forall|i: int| 0 <= i < 3 ==> #[trigger] button_rect(client, i).right - button_rect(client, i).left
            == button_diameter(client),
        forall|i: int| 0 <= i < 3 ==> #[trigger] button_rect(client, i).left == buttons_left(client)
            + (button_diameter(client) + button_spacing(client)) * i,
{
    let d = button_diameter(client);
    let sp = button_spacing(client);
    assert(48 <= d <= 68);
    assert(0 <= sp <= 22) by {
        assert(d * 32 <= 68 * 32);
        assert(d * 32 >= 0);
    }
    assert((d + sp) * 1 == d + sp);
    assert((d + sp) * 2 == d + sp + d + sp);
    assert((d + sp) * 0 == 0);
}

/// The area of the whole row of buttons, with a margin of 4 on every side.
pub open spec fn controls_area(client: Rect) -> Rect {
    let first = button_rect(client, 0);
    let last = button_rect(client, 2);
    Rect {
        left: (first.left - 4) as i32,
        top: (first.top - 4) as i32,
        right: (last.right + 4) as i32,
        bottom: (first.bottom + 4) as i32,
    }
}

/// Whether the area of the row can be computed in `i32`.
pub open spec fn controls_rect_fits(client: Rect) -> bool {
    &&& layout_fits(client)
    &&& fits_i32(button_rect(client, 0).left - 4)
    &&& fits_i32(button_rect(client, 0).top - 4)
    &&& fits_i32(button_rect(client, 2).right + 4)
    &&& fits_i32(button_rect(client, 0).bottom + 4)
}

/// The smallest rectangle holding every control button, grown by 4 on every
/// side: the area to redraw when the buttons change.
pub fn controls_rect(client_rect: Rect) -> (rect: Rect)
    requires
        controls_rect_fits(client_rect),
    ensures
        rect == controls_area(client_rect),
{
    let layouts = control_button_layouts(client_rect);
    proof {
        lemma_button_rects_in_a_row(client_rect);
    }
    let mut union_rect = layouts[0].rect;
    let ghost first = button_rect(client_rect, 0);
    let mut i: usize = 1;
    while i < BUTTON_COUNT
        invariant
            1 <= i <= 3,
            forall|j: int|
                0 <= j < 3 ==> #[trigger] layouts[j] == (ControlButtonLayout {
                    kind: kind_at(j),
                    rect: button_rect(client_rect, j),
                }),
            layout_fits(client_rect),
            first == button_rect(client_rect, 0),
            union_rect.left == first.left,
            union_rect.top == first.top,
            union_rect.bottom == first.bottom,
            union_rect.right == button_rect(client_rect, i - 1).right,
            button_rect(client_rect, 0).left <= button_rect(client_rect, 1).left
                <= button_rect(client_rect, 2).left,
            button_rect(client_rect, 0).right <= button_rect(client_rect, 1).right
                <= button_rect(client_rect, 2).right,
            button_rect(client_rect, 0).top == button_rect(client_rect, 1).top
                == button_rect(client_rect, 2).top,
            button_rect(client_rect, 0).bottom == button_rect(client_rect, 1).bottom
                == button_rect(client_rect, 2).bottom,
        decreases 3 - i,
    {
        let rect = layouts[i].rect;
        assert(rect == button_rect(client_rect, i as int));
        assert(layouts[i as int - 1].rect == button_rect(client_rect, i - 1));
        union_rect.left = min_i32(union_rect.left, rect.left);
        union_rect.top = min_i32(union_rect.top, rect.top);
        union_rect.right = max_i32(union_rect.right, rect.right);
        union_rect.bottom = max_i32(union_rect.bottom, rect.bottom);
        i = i + 1;
    }
    union_rect.left = union_rect.left - 4;
    union_rect.top = union_rect.top - 4;
    union_rect.right = union_rect.right + 4;
    union_rect.bottom = union_rect.bottom + 4;
    union_rect
}

/// Whether the button of a given kind can be pressed.
pub open spec fn enabled_for(kind: ControlButton, play: bool, pause: bool, reset: bool) -> bool {
    match kind {
        ControlButton::Play => play,
        ControlButton::Pause => pause,
        ControlButton::Reset => reset,
    }
}

/// Whether the button of a given kind can be pressed, out of the three flags.
pub fn button_enabled(kind: ControlButton, play_enabled: bool, pause_enabled: bool, reset_enabled: bool) -> (enabled: bool)
    ensures
        enabled == enabled_for(kind, play_enabled, pause_enabled, reset_enabled),
{
    match kind {
        ControlButton::Play => play_enabled,
        ControlButton::Pause => pause_enabled,
        ControlButton::Reset => reset_enabled,
    }
}

/// Whether the point (`x`, `y`) lies in the disc inscribed in `rect`, its
/// border included.
pub open spec fn disc_contains(rect: Rect, x: int, y: int) -> bool {
    let center_x = tdiv(rect.left + rect.right, 2);
    let center_y = tdiv(rect.top + rect.bottom, 2);
    let radius = tdiv(rect.right - rect.left, 2);
    (x - center_x) * (x - center_x) + (y - center_y) * (y - center_y) <= radius * radius
}

/// Whether the disc test can be computed in `i32`.
pub open spec fn disc_test_fits(rect: Rect, x: int, y: int) -> bool {
    let center_x = tdiv(rect.left + rect.right, 2);
    let center_y = tdiv(rect.top + rect.bottom, 2);
    let radius = tdiv(rect.right - rect.left, 2);
    let dx = x - center_x;
    let dy = y - center_y;
    &&& fits_i32(rect.left + rect.right)
    &&& fits_i32(rect.top + rect.bottom)
    &&& fits_i32(rect.right - rect.left)
    &&& fits_i32(dx)
    &&& fits_i32(dy)
    &&& fits_i32(dx * dx)
    &&& fits_i32(dy * dy)
    &&& fits_i32(dx * dx + dy * dy)
    &&& fits_i32(radius * radius)
}

/// Whether (`x`, `y`) lies in the disc of `rect`.
fn disc_contains_point(rect: Rect, x: i32, y: i32) -> (inside: bool)
    requires
        disc_test_fits(rect, x as int, y as int),
    ensures
        inside == disc_contains(rect, x as int, y as int),
{
    let center_x = (rect.left + rect.right) / 2;
    let center_y = (rect.top + rect.bottom) / 2;
    let radius = (rect.right - rect.left) / 2;
    let dx = x - center_x;
    let dy = y - center_y;
    dx * dx + dy * dy <= radius * radius
}

/// The first enabled button, from position `i` on, whose disc holds the point.
pub open spec fn first_hit(
    client: Rect,
    x: int,
    y: int,
    play: bool,
    pause: bool,
    reset: bool,
    i: int,
) -> Option<ControlButton>
    decreases 3 - i,
{
    if i >= 3 || i < 0 {
        None
    } else if enabled_for(kind_at(i), play, pause, reset) && disc_contains(button_rect(client, i), x, y) {
        Some(kind_at(i))
    } else {
        first_hit(client, x, y, play, pause, reset, i + 1)
    }
}

/// Whether the hit test from position `i` on can be computed in `i32`: every
/// disc test that is made fits.
pub open spec fn hit_test_fits(
    client: Rect,
    x: int,
    y: int,
    play: bool,
    pause: bool,
    reset: bool,
    i: int,
) -> bool
    decreases 3 - i,
{
    if i >= 3 || i < 0 {
        true
    } else {
        let enabled = enabled_for(kind_at(i), play, pause, reset);
        &&& enabled ==> disc_test_fits(button_rect(client, i), x, y)
        &&& !(enabled && disc_contains(button_rect(client, i), x, y)) ==> hit_test_fits(
            client,
            x,
            y,
            play,
            pause,
            reset,
            i + 1,
        )
    }
}

/// The button under the point (`x`, `y`): the first enabled one, from the
/// left, whose disc holds the point; `None` when there is none.
pub fn hit_test_control_button(
    client_rect: Rect,
    x: i32,
    y: i32,
    play_enabled: bool,
    pause_enabled: bool,
    reset_enabled: bool,
) -> (hit: Option<ControlButton>)
    requires
        layout_fits(client_rect),
        hit_test_fits(client_rect, x as int, y as int, play_enabled, pause_enabled, reset_enabled, 0),
    ensures
        hit == first_hit(client_rect, x as int, y as int, play_enabled, pause_enabled, reset_enabled, 0),
{
    let layouts = control_button_layouts(client_rect);
    let mut i: usize = 0;
    while i < BUTTON_COUNT
        invariant
            0 <= i <= 3,
            forall|j: int|
                0 <= j < 3 ==> #[trigger] layouts[j] == (ControlButtonLayout {
                    kind: kind_at(j),
                    rect: button_rect(client_rect, j),
                }),
            first_hit(client_rect, x as int, y as int, play_enabled, pause_enabled, reset_enabled, 0)
                == first_hit(client_rect, x as int, y as int, play_enabled, pause_enabled, reset_enabled, i as int),
            hit_test_fits(client_rect, x as int, y as int, play_enabled, pause_enabled, reset_enabled, i as int),
        decreases 3 - i,
    {
        let button = layouts[i];
        assert(button == layouts[i as int]);
        let is_enabled = button_enabled(button.kind, play_enabled, pause_enabled, reset_enabled);
        if is_enabled {
            if disc_contains_point(button.rect, x, y) {
                return Some(button.kind);
            }
        }
        i = i + 1;
    }
    None
}

/// How each button is drawn, from the left: a button that cannot be pressed
/// is never shown hovered or pressed.
pub fn control_button_visual_states(
    hovered: Option<ControlButton>,
    pressed: Option<ControlButton>,
    play_enabled: bool,
    pause_enabled: bool,
    reset_enabled: bool,
) -> (states: [ButtonVisualState; 3])
    ensures
        forall|i: int|
            0 <= i < 3 ==> #[trigger] states[i] == ({
                let enabled = enabled_for(kind_at(i), play_enabled, pause_enabled, reset_enabled);
                ButtonVisualState {
                    kind: kind_at(i),
                    enabled,
                    hovered: enabled && hovered == Some(kind_at(i)),
                    pressed: enabled && pressed == Some(kind_at(i)),
                }
            }),
{
    [
        visual_state(ControlButton::Play, hovered, pressed, play_enabled, pause_enabled, reset_enabled),
        visual_state(ControlButton::Pause, hovered, pressed, play_enabled, pause_enabled, reset_enabled),
        visual_state(ControlButton::Reset, hovered, pressed, play_enabled, pause_enabled, reset_enabled),
    ]
}

fn same_button(a: Option<ControlButton>, kind: ControlButton) -> (same: bool)
    ensures
        same == (a == Some(kind)),
{
    match a {
        Some(b) => b == kind,
        None => false,
    }
}

fn visual_state(
    kind: ControlButton,
    hovered: Option<ControlButton>,
    pressed: Option<ControlButton>,
    play_enabled: bool,
    pause_enabled: bool,
    reset_enabled: bool,
) -> (state: ButtonVisualState)
    ensures
        state == ({
            let enabled = enabled_for(kind, play_enabled, pause_enabled, reset_enabled);
            ButtonVisualState {
                kind,
                enabled,
                hovered: enabled && hovered == Some(kind),
                pressed: enabled && pressed == Some(kind),
            }
        }),
{
    let is_enabled = button_enabled(kind, play_enabled, pause_enabled, reset_enabled);
    let is_hovered = is_enabled && same_button(hovered, kind);
    let is_pressed = is_enabled && same_button(pressed, kind);
    ButtonVisualState { kind, enabled: is_enabled, hovered: is_hovered, pressed: is_pressed }
}

/// Play and Pause are drawn in the accent colour; Reset is not.
pub fn is_prominent(kind: ControlButton) -> (prominent: bool)
    ensures
        prominent == (kind != ControlButton::Reset),
{
    match kind {
        ControlButton::Reset => false,
        _ => true,
    }
}

/// The colours of a button: muted when it cannot be pressed; otherwise the
/// accent colours for a prominent button and neutral ones for the other, in
/// their pressed, hovered or plain shade, pressed taking precedence.
pub open spec fn button_colors_spec(
    dark_mode: bool,
    enabled: bool,
    prominent: bool,
    hovered: bool,
    pressed: bool,
) -> ButtonColors {
    if !enabled {
        if dark_mode {
            ButtonColors { fill: DARK_DISABLED_FILL, border: DARK_DISABLED_BORDER, icon: DARK_DISABLED_ICON }
        } else {
            ButtonColors { fill: LIGHT_DISABLED_FILL, border: LIGHT_DISABLED_BORDER, icon: LIGHT_DISABLED_ICON }
        }
    } else if prominent {
        let fill = if pressed {
            if dark_mode { DARK_ACCENT_PRESSED } else { LIGHT_ACCENT_PRESSED }
        } else if hovered {
            if dark_mode { DARK_ACCENT_HOVER } else { LIGHT_ACCENT_HOVER }
        } else {
            if dark_mode { DARK_ACCENT_FILL } else { LIGHT_ACCENT_FILL }
        };
        ButtonColors { fill, border: fill, icon: if dark_mode { DARK_BACKGROUND } else { LIGHT_BACKGROUND } }
    } else {
        let fill = if pressed {
            if dark_mode { DARK_BUTTON_PRESSED } else { LIGHT_BUTTON_PRESSED }
        } else if hovered {
            if dark_mode { DARK_BUTTON_HOVER } else { LIGHT_BUTTON_HOVER }
        } else {
            if dark_mode { DARK_BUTTON_FILL } else { LIGHT_BUTTON_FILL }
        };
        ButtonColors {
            fill,
            border: if dark_mode { DARK_BUTTON_BORDER } else { LIGHT_BUTTON_BORDER },
            icon: if dark_mode { DARK_TEXT } else { LIGHT_TEXT },
        }
    }
}

/// The colours a button is drawn in, for the scheme in use.
pub fn current_button_colors(
    dark_mode: bool,
    enabled: bool,
    prominent: bool,
    hovered: bool,
    pressed: bool,
) -> (colors: ButtonColors)
    ensures
        colors == button_colors_spec(dark_mode, enabled, prominent, hovered, pressed),
{
    let (fill, border, icon) = match (dark_mode, enabled, prominent, hovered, pressed) {
        (true, false, _, _, _) => (DARK_DISABLED_FILL, DARK_DISABLED_BORDER, DARK_DISABLED_ICON),
        (true, true, true, _, true) => (DARK_ACCENT_PRESSED, DARK_ACCENT_PRESSED, DARK_BACKGROUND),
        (true, true, true, true, false) => (DARK_ACCENT_HOVER, DARK_ACCENT_HOVER, DARK_BACKGROUND),
        (true, true, true, false, false) => (DARK_ACCENT_FILL, DARK_ACCENT_FILL, DARK_BACKGROUND),
        (true, true, false, _, true) => (DARK_BUTTON_PRESSED, DARK_BUTTON_BORDER, DARK_TEXT),
        (true, true, false, true, false) => (DARK_BUTTON_HOVER, DARK_BUTTON_BORDER, DARK_TEXT),
        (true, true, false, false, false) => (DARK_BUTTON_FILL, DARK_BUTTON_BORDER, DARK_TEXT),
        (false, false, _, _, _) => (LIGHT_DISABLED_FILL, LIGHT_DISABLED_BORDER, LIGHT_DISABLED_ICON),
        (false, true, true, _, true) => (LIGHT_ACCENT_PRESSED, LIGHT_ACCENT_PRESSED, LIGHT_BACKGROUND),
        (false, true, true, true, false) => (LIGHT_ACCENT_HOVER, LIGHT_ACCENT_HOVER, LIGHT_BACKGROUND),
        (false, true, true, false, false) => (LIGHT_ACCENT_FILL, LIGHT_ACCENT_FILL, LIGHT_BACKGROUND),
        (false, true, false, _, true) => (LIGHT_BUTTON_PRESSED, LIGHT_BUTTON_BORDER, LIGHT_TEXT),
        (false, true, false, true, false) => (LIGHT_BUTTON_HOVER, LIGHT_BUTTON_BORDER, LIGHT_TEXT),
        (false, true, false, false, false) => (LIGHT_BUTTON_FILL, LIGHT_BUTTON_BORDER, LIGHT_TEXT),
    };
    ButtonColors { fill, border, icon }
}

/// Whether the play icon of a button can be computed in `i32`.
pub open spec fn play_icon_fits(rect: Rect) -> bool {
    let w = rect.right - rect.left;
    let h = rect.bottom - rect.top;
    &&& fits_i32(w) && fits_i32(h)
    &&& fits_i32(w * 38) && fits_i32(w * 67) && fits_i32(h * 29) && fits_i32(h * 71)
    &&& fits_i32(rect.left + percent_of(w, 38)) && fits_i32(rect.left + percent_of(w, 67))
    &&& fits_i32(rect.top + percent_of(h, 29)) && fits_i32(rect.top + percent_of(h, 71))
    &&& fits_i32(rect.top + rect.bottom)
}

/// The triangle of the play icon: its left side from 29 to 71 percent of the
/// height at 38 percent of the width, its tip at 67 percent of the width on
/// the middle line.
pub fn play_icon_points(rect: Rect) -> (points: [Point; 3])
    requires
        play_icon_fits(rect),
    ensures
        ({
            let w = rect.right - rect.left;
            let h = rect.bottom - rect.top;
            let left = rect.left + percent_of(w, 38);
            &&& points[0] == (Point { x: left as i32, y: (rect.top + percent_of(h, 29)) as i32 })
            &&& points[1] == (Point { x: left as i32, y: (rect.top + percent_of(h, 71)) as i32 })
            &&& points[2] == (Point {
                x: (rect.left + percent_of(w, 67)) as i32,
                y: tdiv(rect.top + rect.bottom, 2) as i32,
            })
        }),
{
    let width = rect.right - rect.left;
    let height = rect.bottom - rect.top;
    let left = rect.left + width * 38 / 100;
    let right = rect.left + width * 67 / 100;
    let top = rect.top + height * 29 / 100;
    let bottom = rect.top + height * 71 / 100;
    let center_y = (rect.top + rect.bottom) / 2;
    [Point { x: left, y: top }, Point { x: left, y: bottom }, Point { x: right, y: center_y }]
}

/// The width of a bar of the pause icon: 12 percent of the button, at least 6.
pub open spec fn pause_bar_width(rect: Rect) -> int {
    max_int(percent_of(rect.right - rect.left, 12), 6)
}

/// The gap between the bars of the pause icon: 10 percent of the button, at least 6.
pub open spec fn pause_bar_gap(rect: Rect) -> int {
    max_int(percent_of(rect.right - rect.left, 10), 6)
}

/// Whether the pause icon of a button can be computed in `i32`.
pub open spec fn pause_icon_fits(rect: Rect) -> bool {
    let w = rect.right - rect.left;
    let h = rect.bottom - rect.top;
    let top = rect.top + percent_of(h, 28);
    let bottom = rect.top + percent_of(h, 72);
    let left = rect.left + percent_of(w, 34);
    &&& fits_i32(w) && fits_i32(h)
    &&& fits_i32(w * 12) && fits_i32(w * 10) && fits_i32(h * 28) && fits_i32(h * 72) && fits_i32(w * 34)
    &&& fits_i32(top) && fits_i32(bottom) && fits_i32(left)
    &&& fits_i32(bottom - top)
    &&& fits_i32(left + pause_bar_width(rect))
    &&& fits_i32(left + pause_bar_width(rect) + pause_bar_gap(rect))
    &&& fits_i32(left + pause_bar_width(rect) + pause_bar_gap(rect) + pause_bar_width(rect))
    &&& fits_i32(top + (bottom - top))
}

/// The two bars of the pause icon, from 28 to 72 percent of the height, the
/// first starting at 34 percent of the width.
pub fn pause_icon_bars(rect: Rect) -> (bars: [Rect; 2])
    requires
        pause_icon_fits(rect),
    ensures
        ({
            let h = rect.bottom - rect.top;
            let top = rect.top + percent_of(h, 28);
            let bottom = rect.top + percent_of(h, 72);
            let left = rect.left + percent_of(rect.right - rect.left, 34);
            let second = left + pause_bar_width(rect) + pause_bar_gap(rect);
            &&& bars[0] == (Rect {
                left: left as i32,
                top: top as i32,
                right: (left + pause_bar_width(rect)) as i32,
                bottom: bottom as i32,
            })
            &&& bars[1] == (Rect {
                left: second as i32,
                top: top as i32,
                right: (second + pause_bar_width(rect)) as i32,
                bottom: bottom as i32,
            })
        }),
{
    let width = rect.right - rect.left;
    let height = rect.bottom - rect.top;
    let bar_width = max_i32(width * 12 / 100, 6);
    let gap = max_i32(width * 10 / 100, 6);
    let top = rect.top + height * 28 / 100;
    let bottom = rect.top + height * 72 / 100;
    let left_bar_left = rect.left + width * 34 / 100;
    let right_bar_left = left_bar_left + bar_width + gap;
    [
        rect_from_origin(left_bar_left, top, bar_width, bottom - top),
        rect_from_origin(right_bar_left, top, bar_width, bottom - top),
    ]
}

/// Whether the centre and radius of the reset icon can be computed in `i32`.
pub open spec fn reset_icon_fits(rect: Rect) -> bool {
    let w = rect.right - rect.left;
    let h = rect.bottom - rect.top;
    &&& fits_i32(w) && fits_i32(h)
    &&& fits_i32(rect.left + rect.right) && fits_i32(rect.top + rect.bottom)
    &&& fits_i32(min_int(w, h) * 24)
}

/// The centre of the reset icon's arc, the centre of the button, and its
/// radius, 24 percent of the button's smaller side.
pub fn reset_icon_circle(rect: Rect) -> (circle: (Point, i32))
    requires
        reset_icon_fits(rect),
    ensures
        circle.0 == (Point {
            x: tdiv(rect.left + rect.right, 2) as i32,
            y: tdiv(rect.top + rect.bottom, 2) as i32,
        }),
        circle.1 == percent_of(min_int(rect.right - rect.left, rect.bottom - rect.top), 24),
{
    let width = rect.right - rect.left;
    let height = rect.bottom - rect.top;
    let center_x = (rect.left + rect.right) / 2;
    let center_y = (rect.top + rect.bottom) / 2;
    let radius = min_i32(width, height) * 24 / 100;
    (Point { x: center_x, y: center_y }, radius)
}

/// Whether the arrow head of the reset icon can be computed in `i32`.
pub open spec fn reset_arrow_fits(rect: Rect, tip: Point) -> bool {
    let w = rect.right - rect.left;
    let h = rect.bottom - rect.top;
    &&& fits_i32(w) && fits_i32(h)
    &&& fits_i32(w * 9) && fits_i32(w * 2) && fits_i32(h * 4) && fits_i32(h * 10)
    &&& fits_i32(tip.x - percent_of(w, 9)) && fits_i32(tip.x - percent_of(w, 2))
    &&& fits_i32(tip.y + percent_of(h, 4)) && fits_i32(tip.y + percent_of(h, 10))
}

/// The arrow head at the end of the reset icon's arc: the tip, and two points
/// behind it to the left and below.
pub fn reset_arrow_points(rect: Rect, tip: Point) -> (points: [Point; 3])
    requires
        reset_arrow_fits(rect, tip),
    ensures
        ({
            let w = rect.right - rect.left;
            let h = rect.bottom - rect.top;
            &&& points[0] == tip
            &&& points[1] == (Point {
                x: (tip.x - percent_of(w, 9)) as i32,
                y: (tip.y + percent_of(h, 4)) as i32,
            })
            &&& points[2] == (Point {
                x: (tip.x - percent_of(w, 2)) as i32,
                y: (tip.y + percent_of(h, 10)) as i32,
            })
        }),
{
    let width = rect.right - rect.left;
    let height = rect.bottom - rect.top;
    [
        tip,
        Point { x: tip.x - width * 9 / 100, y: tip.y + height * 4 / 100 },
        Point { x: tip.x - width * 2 / 100, y: tip.y + height * 10 / 100 },
    ]
}

/// The hit test only ever finds a button that can be pressed, and only one
/// whose disc holds the point.
pub proof fn lemma_hit_button_is_enabled(
    client: Rect,
    x: int,
    y: int,
    play: bool,
    pause: bool,
    reset: bool,
    i: int,
)
    requires
        0 <= i,
    ensures
        first_hit(client, x, y, play, pause, reset, i) matches Some(k) ==> enabled_for(k, play, pause, reset)
            && exists|j: int| i <= j < 3 && kind_at(j) == k && disc_contains(button_rect(client, j), x, y),
    decreases 3 - i,
{
    if i < 3 {
        lemma_hit_button_is_enabled(client, x, y, play, pause, reset, i + 1);
    }
}

/// With no button enabled nothing is ever hit.
pub proof fn lemma_nothing_hit_when_all_disabled(client: Rect, x: int, y: int, i: int)
    ensures
        first_hit(client, x, y, false, false, false, i) is None,
    decreases 3 - i,
{
    if 0 <= i < 3 {
        lemma_nothing_hit_when_all_disabled(client, x, y, i + 1);
    }
}

/// Whether `control_button_layouts` can be called for a client area.
pub fn layout_fits_exec(client_rect: Rect) -> (fits: bool)
    ensures
        fits == layout_fits(client_rect),
{
    let l = client_rect.left as i128;
    let t = client_rect.top as i128;
    let w = client_rect.right as i128 - l;
    let h = client_rect.bottom as i128 - t;
    let side = if w <= h {
        w
    } else {
        h
    };
    let eighth = tdiv_wide(side, 8);
    let d: i128 = if eighth < 48 {
        48
    } else if eighth > 68 {
        68
    } else {
        eighth
    };
    let sp = tdiv_wide(d * 32, 100);
    let total = d * 3 + sp * 2;
    let left = l + tdiv_wide(w - total, 2);
    let top = t + tdiv_wide(h * 58, 100);
    assert(d == button_diameter(client_rect));
    assert(sp == button_spacing(client_rect));
    assert(total == buttons_total_width(client_rect));
    assert(left == buttons_left(client_rect));
    assert(top == buttons_top(client_rect));
    fits_i32_wide(w) && fits_i32_wide(h) && fits_i32_wide(w - total) && fits_i32_wide(left)
        && fits_i32_wide(h * 58) && fits_i32_wide(top) && fits_i32_wide(top + d) && fits_i32_wide(
        left + (d + sp) * 2 + d,
    )
}

/// Whether `controls_rect` can be called for a client area.
pub fn controls_rect_fits_exec(client_rect: Rect) -> (fits: bool)
    ensures
        fits == controls_rect_fits(client_rect),
{
    if !layout_fits_exec(client_rect) {
        return false;
    }
    let layouts = control_button_layouts(client_rect);
    let first = layouts[0].rect;
    let last = layouts[2].rect;
    assert(first == button_rect(client_rect, 0));
    assert(last == button_rect(client_rect, 2));
    fits_i32_wide(first.left as i128 - 4) && fits_i32_wide(first.top as i128 - 4) && fits_i32_wide(
        last.right as i128 + 4,
    ) && fits_i32_wide(first.bottom as i128 + 4)
}

/// Whether the disc test of a rectangle fits in `i32` for a point and, where
/// it does, whether the point lies in the disc.
fn disc_test(rect: Rect, x: i32, y: i32) -> (result: (bool, bool))
    ensures
        result.0 == disc_test_fits(rect, x as int, y as int),
        result.0 ==> result.1 == disc_contains(rect, x as int, y as int),
{
    let sum_x = rect.left as i128 + rect.right as i128;
    let sum_y = rect.top as i128 + rect.bottom as i128;
    let width = rect.right as i128 - rect.left as i128;
    let center_x = tdiv_wide(sum_x, 2);
    let center_y = tdiv_wide(sum_y, 2);
    let radius = tdiv_wide(width, 2);
    let dx = x as i128 - center_x;
    let dy = y as i128 - center_y;
    proof {
        lemma_product_bounded(dx as int, dx as int, 0x4_0000_0000);
        lemma_product_bounded(dy as int, dy as int, 0x4_0000_0000);
        lemma_product_bounded(radius as int, radius as int, 0x4_0000_0000);
    }
    let dx2 = dx * dx;
    let dy2 = dy * dy;
    let r2 = radius * radius;
    let fits = fits_i32_wide(sum_x) && fits_i32_wide(sum_y) && fits_i32_wide(width) && fits_i32_wide(dx)
        && fits_i32_wide(dy) && fits_i32_wide(dx2) && fits_i32_wide(dy2) && fits_i32_wide(dx2 + dy2)
        && fits_i32_wide(r2);
    (fits, dx2 + dy2 <= r2)
}

/// Whether `hit_test_control_button` can be called for a point.
pub fn hit_test_fits_exec(
    client_rect: Rect,
    x: i32,
    y: i32,
    play_enabled: bool,
    pause_enabled: bool,
    reset_enabled: bool,
) -> (fits: bool)
    requires
        layout_fits(client_rect),
    ensures
        fits == hit_test_fits(client_rect, x as int, y as int, play_enabled, pause_enabled, reset_enabled, 0),
{
    let layouts = control_button_layouts(client_rect);
    let mut i: usize = 0;
    while i < BUTTON_COUNT
        invariant
            0 <= i <= 3,
            forall|j: int|
                0 <= j < 3 ==> #[trigger] layouts[j] == (ControlButtonLayout {
                    kind: kind_at(j),
                    rect: button_rect(client_rect, j),
                }),
            hit_test_fits(client_rect, x as int, y as int, play_enabled, pause_enabled, reset_enabled, 0)
                == hit_test_fits(client_rect, x as int, y as int, play_enabled, pause_enabled, reset_enabled, i as int),
        decreases 3 - i,
    {
        let button = layouts[i];
        assert(button == layouts[i as int]);
        if button_enabled(button.kind, play_enabled, pause_enabled, reset_enabled) {
            let (fits, inside) = disc_test(button.rect, x, y);
            if !fits {
                return false;
            }
            if inside {
                return true;
            }
        }
        i = i + 1;
    }
    true
}

/// Whether `play_icon_points` can be called for a button.
pub fn play_icon_fits_exec(rect: Rect) -> (fits: bool)
    ensures
        fits == play_icon_fits(rect),
{
    let l = rect.left as i128;
    let t = rect.top as i128;
    let w = rect.right as i128 - l;
    let h = rect.bottom as i128 - t;
    fits_i32_wide(w) && fits_i32_wide(h) && fits_i32_wide(w * 38) && fits_i32_wide(w * 67) && fits_i32_wide(
        h * 29,
    ) && fits_i32_wide(h * 71) && fits_i32_wide(l + tdiv_wide(w * 38, 100)) && fits_i32_wide(
        l + tdiv_wide(w * 67, 100),
    ) && fits_i32_wide(t + tdiv_wide(h * 29, 100)) && fits_i32_wide(t + tdiv_wide(h * 71, 100))
        && fits_i32_wide(t + rect.bottom as i128)
}

/// Whether `pause_icon_bars` can be called for a button.
pub fn pause_icon_fits_exec(rect: Rect) -> (fits: bool)
    ensures
        fits == pause_icon_fits(rect),
{
    let l = rect.left as i128;
    let t = rect.top as i128;
    let w = rect.right as i128 - l;
    let h = rect.bottom as i128 - t;
    let top = t + tdiv_wide(h * 28, 100);
    let bottom = t + tdiv_wide(h * 72, 100);
    let left = l + tdiv_wide(w * 34, 100);
    let twelve = tdiv_wide(w * 12, 100);
    let ten = tdiv_wide(w * 10, 100);
    let bar_width: i128 = if twelve >= 6 {
        twelve
    } else {
        6
    };
    let gap: i128 = if ten >= 6 {
        ten
    } else {
        6
    };
    assert(bar_width == pause_bar_width(rect));
    assert(gap == pause_bar_gap(rect));
    fits_i32_wide(w) && fits_i32_wide(h) && fits_i32_wide(w * 12) && fits_i32_wide(w * 10) && fits_i32_wide(
        h * 28,
    ) && fits_i32_wide(h * 72) && fits_i32_wide(w * 34) && fits_i32_wide(top) && fits_i32_wide(bottom)
        && fits_i32_wide(left) && fits_i32_wide(bottom - top) && fits_i32_wide(left + bar_width)
        && fits_i32_wide(left + bar_width + gap) && fits_i32_wide(left + bar_width + gap + bar_width)
        && fits_i32_wide(top + (bottom - top))
}

/// Whether `reset_icon_circle` can be called for a button.
pub fn reset_icon_fits_exec(rect: Rect) -> (fits: bool)
    ensures
        fits == reset_icon_fits(rect),
{
    let w = rect.right as i128 - rect.left as i128;
    let h = rect.bottom as i128 - rect.top as i128;
    let side = if w <= h {
        w
    } else {
        h
    };
    fits_i32_wide(w) && fits_i32_wide(h) && fits_i32_wide(rect.left as i128 + rect.right as i128)
        && fits_i32_wide(rect.top as i128 + rect.bottom as i128) && fits_i32_wide(side * 24)
}

/// Whether `reset_arrow_points` can be called for a button and a tip.
pub fn reset_arrow_fits_exec(rect: Rect, tip: Point) -> (fits: bool)
    ensures
        fits == reset_arrow_fits(rect, tip),
{
    let w = rect.right as i128 - rect.left as i128;
    let h = rect.bottom as i128 - rect.top as i128;
    fits_i32_wide(w) && fits_i32_wide(h) && fits_i32_wide(w * 9) && fits_i32_wide(w * 2) && fits_i32_wide(
        h * 4,
    ) && fits_i32_wide(h * 10) && fits_i32_wide(tip.x as i128 - tdiv_wide(w * 9, 100)) && fits_i32_wide(
        tip.x as i128 - tdiv_wide(w * 2, 100),
    ) && fits_i32_wide(tip.y as i128 + tdiv_wide(h * 4, 100)) && fits_i32_wide(
        tip.y as i128 + tdiv_wide(h * 10, 100),
    )
}

/// The square of the distance from (`x`, `y`) to the centre of `rect`, the
/// centre rounded as integer division rounds it.
pub open spec fn centre_distance_sq(rect: Rect, x: int, y: int) -> int {
    let dx = x - tdiv(rect.left + rect.right, 2);
    let dy = y - tdiv(rect.top + rect.bottom, 2);
    dx * dx + dy * dy
}

/// Half the width of `rect`: the radius of its round button.
pub open spec fn half_width(rect: Rect) -> int {
    tdiv(rect.right - rect.left, 2)
}

/// Whether the button at position `i` can be pressed and the point is no
/// farther from its centre than half its width.
pub open spec fn in_enabled_disc(
    client: Rect,
    x: int,
    y: int,
    play: bool,
    pause: bool,
    reset: bool,
    i: int,
) -> bool {
    &&& enabled_for(kind_at(i), play, pause, reset)
    &&& centre_distance_sq(button_rect(client, i), x, y) <= half_width(button_rect(client, i))
        * half_width(button_rect(client, i))
}

/// The hit test finds the first button, from the left, that can be pressed
/// and whose centre is within half the button's width of the point: a point
/// in such a disc and in no such disc to its left is a hit on that button;
/// nothing is hit exactly when the point is in no such disc; and whatever is
/// hit is such a button.
pub proof fn lemma_hit_test_finds_point_in_disc(
    client: Rect,
    x: int,
    y: int,
    play: bool,
    pause: bool,
    reset: bool,
)
    ensures
        forall|i: int|
            0 <= i < 3 && #[trigger] in_enabled_disc(client, x, y, play, pause, reset, i) && (forall|j: int|
                0 <= j < i ==> !in_enabled_disc(client, x, y, play, pause, reset, j)) ==> first_hit(
                client,
                x,
                y,
                play,
                pause,
                reset,
                0,
            ) == Some(kind_at(i)),
        (first_hit(client, x, y, play, pause, reset, 0) is None) == (forall|i: int|
            0 <= i < 3 ==> !#[trigger] in_enabled_disc(client, x, y, play, pause, reset, i)),
        first_hit(client, x, y, play, pause, reset, 0) matches Some(k) ==> exists|i: int|
            0 <= i < 3 && kind_at(i) == k && #[trigger] in_enabled_disc(client, x, y, play, pause, reset, i),
{
    reveal_with_fuel(first_hit, 4);
    assert forall|i: int| 0 <= i < 3 implies #[trigger] in_enabled_disc(client, x, y, play, pause, reset, i)
        == (enabled_for(kind_at(i), play, pause, reset) && disc_contains(button_rect(client, i), x, y)) by {}
    let h0 = in_enabled_disc(client, x, y, play, pause, reset, 0);
    let h1 = in_enabled_disc(client, x, y, play, pause, reset, 1);
    let h2 = in_enabled_disc(client, x, y, play, pause, reset, 2);
    assert(first_hit(client, x, y, play, pause, reset, 0) == (if h0 {
        Some(ControlButton::Play)
    } else if h1 {
        Some(ControlButton::Pause)
    } else if h2 {
        Some(ControlButton::Reset)
    } else {
        None
    }));
    assert forall|i: int|
        0 <= i < 3 && #[trigger] in_enabled_disc(client, x, y, play, pause, reset, i) && (forall|j: int|
            0 <= j < i ==> !in_enabled_disc(client, x, y, play, pause, reset, j)) implies first_hit(
        client,
        x,
        y,
        play,
        pause,
        reset,
        0,
    ) == Some(kind_at(i)) by {
        if i >= 1 {
            assert(!h0);
        }
        if i >= 2 {
            assert(!h1);
        }
    }
    if first_hit(client, x, y, play, pause, reset, 0) is None {
        assert forall|i: int| 0 <= i < 3 implies !#[trigger] in_enabled_disc(
            client,
            x,
            y,
            play,
            pause,
            reset,
            i,
        ) by {}
    }
    if let Some(k) = first_hit(client, x, y, play, pause, reset, 0) {
        if h0 {
            assert(kind_at(0) == k);
        } else if h1 {
            assert(kind_at(1) == k);
        } else {
            assert(kind_at(2) == k);
        }
    }
}

} // verus!
