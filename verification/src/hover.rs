use vstd::prelude::*;

use crate::window_proc::{
    WM_ERASEBKGND, WM_LBUTTONUP, WM_MOUSELEAVE, WM_MOUSEMOVE, WM_NCCREATE, WM_NCDESTROY, WM_PAINT,
    WM_SETCURSOR,
};

verus! {

/// Whether the mouse is over a control, and whether Windows has been asked
/// to report when it leaves.
#[derive(Clone, Copy, Debug, PartialEq, Eq, Structural)]
pub struct HoverTracker {
    pub hovered: bool,
    pub tracking_mouse: bool,
}

/// What a control does after a mouse move over it.
#[derive(Clone, Copy, Debug, PartialEq, Eq, Structural)]
pub struct MouseMoveEffects {
    /// Ask Windows to report when the mouse leaves.
    pub start_tracking: bool,
    /// Redraw the control.
    pub invalidate: bool,
}

/// The tracker after a mouse move: hovered and tracked.
pub open spec fn after_mouse_move(t: HoverTracker) -> HoverTracker {
    HoverTracker { hovered: true, tracking_mouse: true }
}

/// What a mouse move asks for: tracking where it does not run yet, a redraw
/// where the control was not shown hovered.
pub open spec fn mouse_move_effects(t: HoverTracker) -> MouseMoveEffects {
    MouseMoveEffects { start_tracking: !t.tracking_mouse, invalidate: !t.hovered }
}

/// The tracker after the mouse left: neither hovered nor tracked.
pub open spec fn after_mouse_leave(t: HoverTracker) -> HoverTracker {
    HoverTracker { hovered: false, tracking_mouse: false }
}

impl HoverTracker {
    /// Neither hovered nor tracking.
    pub fn new() -> (tracker: Self)
        ensures
            tracker == (HoverTracker { hovered: false, tracking_mouse: false }),
    {
        HoverTracker { hovered: false, tracking_mouse: false }
    }

    /// The mouse moved over the control: leave tracking starts unless it
    /// already runs, and the control is redrawn as hovered unless it already was.
    pub fn on_mouse_move(&mut self) -> (effects: MouseMoveEffects)
        ensures
            *final(self) == after_mouse_move(*old(self)),
            effects == mouse_move_effects(*old(self)),
    {
        let mut effects = MouseMoveEffects { start_tracking: false, invalidate: false };
        if !self.tracking_mouse {
            effects.start_tracking = true;
            self.tracking_mouse = true;
        }
        if !self.hovered {
            self.hovered = true;
            effects.invalidate = true;
        }
        effects
    }

    /// The mouse left the control: it is no longer hovered nor tracked, and it
    /// is redrawn exactly when it was shown hovered.
    pub fn on_mouse_leave(&mut self) -> (invalidate: bool)
        ensures
            *final(self) == after_mouse_leave(*old(self)),
            invalidate == old(self).hovered,
    {
        let should_invalidate = self.hovered;
        self.hovered = false;
        self.tracking_mouse = false;
        should_invalidate
    }
}

/// After one mouse move, further moves ask for nothing: tracking is not
/// restarted and the control is not redrawn again.
pub proof fn lemma_repeated_mouse_move_is_quiet(t: HoverTracker)
    ensures
        mouse_move_effects(after_mouse_move(t)) == (MouseMoveEffects {
            start_tracking: false,
            invalidate: false,
        }),
        after_mouse_move(after_mouse_move(t)) == after_mouse_move(t),
{
}

/// When the mouse comes back after leaving, tracking starts again and the
/// control is redrawn as hovered.
pub proof fn lemma_return_after_leave_restarts_tracking(t: HoverTracker)
    ensures
        mouse_move_effects(after_mouse_leave(t)) == (MouseMoveEffects {
            start_tracking: true,
            invalidate: true,
        }),
{
}

/// The messages a check box or a link window handles.
#[derive(Clone, Copy, Debug, PartialEq, Eq, Structural)]
pub enum ControlMessage {
    /// The window is being made: its state is attached.
    NcCreate,
    Paint,
    /// Erasing the background is skipped, as painting covers it.
    EraseBackground,
    MouseMove,
    MouseLeave,
    /// The left button is released over the control: it is clicked.
    LeftButtonUp,
    SetCursor,
    /// The window is gone: its state is released.
    NcDestroy,
    /// Any other message, left to the default window procedure.
    Other,
}

/// Which handled message a message number is, for a check box or a link window.
pub fn classify_control_message(msg: u32) -> (message: ControlMessage)
    ensures
        message == (if msg == WM_NCCREATE {
            ControlMessage::NcCreate
        } else if msg == WM_PAINT {
            ControlMessage::Paint
        } else if msg == WM_ERASEBKGND {
            ControlMessage::EraseBackground
        } else if msg == WM_MOUSEMOVE {
            ControlMessage::MouseMove
        } else if msg == WM_MOUSELEAVE {
            ControlMessage::MouseLeave
        } else if msg == WM_LBUTTONUP {
            ControlMessage::LeftButtonUp
        } else if msg == WM_SETCURSOR {
            ControlMessage::SetCursor
        } else if msg == WM_NCDESTROY {
            ControlMessage::NcDestroy
        } else {
            ControlMessage::Other
        }),
{
    if msg == WM_NCCREATE {
        ControlMessage::NcCreate
    } else if msg == WM_PAINT {
        ControlMessage::Paint
    } else if msg == WM_ERASEBKGND {
        ControlMessage::EraseBackground
    } else if msg == WM_MOUSEMOVE {
        ControlMessage::MouseMove
    } else if msg == WM_MOUSELEAVE {
        ControlMessage::MouseLeave
    } else if msg == WM_LBUTTONUP {
        ControlMessage::LeftButtonUp
    } else if msg == WM_SETCURSOR {
        ControlMessage::SetCursor
    } else if msg == WM_NCDESTROY {
        ControlMessage::NcDestroy
    } else {
        ControlMessage::Other
    }
}

} // verus!
