//! The decisions of the on-screen drawing windows: what the selection
//! window does on each pointer event, when the transparent overlay
//! redraws, and the colours both use.
use vstd::prelude::*;

verus! {

/// A pointer event as the selection window sees it: its kind, the button
/// number of a press, and the pointer position relative to the root window.
#[derive(Debug, Clone, Copy, PartialEq, Eq, Structural)]
pub enum SelectionEvent {
    ButtonPress { button: u32, x_root: i32, y_root: i32 },
    MotionNotify { x_root: i32, y_root: i32 },
    Other,
}

/// What the selection window does in answer to one event.
#[derive(Debug, Clone, Copy, PartialEq, Eq, Structural)]
pub enum SelectionAction {
    Nothing,
    /// Fill this rectangle of the root window.
    DrawRectangle { x: i32, y: i32, w: u32, h: u32 },
}

/// The answer to one event. The start point of a rectangle is taken afresh
/// for each event and is the origin; a button press does not carry over to
/// later events. A pointer motion fills the rectangle from the origin whose
/// width and height are the pointer's root coordinates read as unsigned
/// numbers.
pub open spec fn spec_selection_step(evt: SelectionEvent) -> SelectionAction {
    match evt {
        SelectionEvent::MotionNotify { x_root, y_root } => SelectionAction::DrawRectangle {
            x: 0,
            y: 0,
            w: x_root as u32,
            h: y_root as u32,
        },
        _ => SelectionAction::Nothing,
    }
}

/// Handles one event of the selection window's event loop.
#[allow(unused_assignments)]
pub fn selection_step(evt: &SelectionEvent) -> (act: SelectionAction)
    ensures
        act == spec_selection_step(*evt),
{
    // the start point is reset for every event; a press sets it, but
    // nothing reads it before the next event resets it again
    let mut x: i32 = 0;
    let mut y: i32 = 0;
    match *evt {
        SelectionEvent::ButtonPress { button, x_root, y_root } => {
            if button == 1 {
                x = x_root;
                y = y_root;
            }
            SelectionAction::Nothing
        },
        SelectionEvent::MotionNotify { x_root, y_root } => {
            SelectionAction::DrawRectangle { x, y, w: x_root as u32, h: y_root as u32 }
        },
        SelectionEvent::Other => SelectionAction::Nothing,
    }
}

/// Whether the transparent window redraws in this turn of its loop, given
/// the number of events the X server has queued: it does when at least one
/// is queued, and takes exactly one of them off the queue.
pub fn redraw_needed(pending: i32) -> (redraw: bool)
    ensures
        redraw == (pending > 0),
{
    pending > 0
}

/// An X colour's 16-bit channels from 8-bit red, green and blue: each
/// value is moved to the high byte.
pub fn x_color(red: u8, green: u8, blue: u8) -> (c: (u16, u16, u16))
    ensures
        c.0 == red * 256,
        c.1 == green * 256,
        c.2 == blue * 256,
{
    (red as u16 * 256, green as u16 * 256, blue as u16 * 256)
}

/// A pointer motion always fills a rectangle anchored at the origin whose
/// width comes from the pointer's x and whose height from its y: each is the
/// coordinate itself when not negative, and the coordinate plus 2^32
/// otherwise (its bits read as unsigned).
pub proof fn law_motion_draws_pointer_rectangle(x_root: i32, y_root: i32)
    ensures
        spec_selection_step(SelectionEvent::MotionNotify { x_root, y_root }) matches SelectionAction::DrawRectangle { x, y, w, h } && x == 0 && y == 0
            && w as int == (if x_root >= 0 { x_root as int } else { x_root + 0x1_0000_0000 })
            && h as int == (if y_root >= 0 { y_root as int } else { y_root + 0x1_0000_0000 }),
{
    assert(x_root >= 0 ==> (x_root as u32) as int == x_root as int) by (bit_vector);
    assert(x_root < 0 ==> (x_root as u32) as int == x_root + 0x1_0000_0000) by (bit_vector);
    assert(y_root >= 0 ==> (y_root as u32) as int == y_root as int) by (bit_vector);
    assert(y_root < 0 ==> (y_root as u32) as int == y_root + 0x1_0000_0000) by (bit_vector);
}

/// Two motions at the same x give rectangles of the same width, and at the
/// same y of the same height; a motion to a larger non-negative x gives a
/// wider rectangle.
pub proof fn law_motion_width_follows_x(x1: i32, y1: i32, x2: i32, y2: i32)
    ensures
        ({
            let a = spec_selection_step(SelectionEvent::MotionNotify { x_root: x1, y_root: y1 });
            let b = spec_selection_step(SelectionEvent::MotionNotify { x_root: x2, y_root: y2 });
            &&& x1 == x2 ==> a->w == b->w
            &&& y1 == y2 ==> a->h == b->h
            &&& 0 <= x1 < x2 ==> a->w < b->w
            &&& 0 <= y1 < y2 ==> a->h < b->h
        }),
{
    law_motion_draws_pointer_rectangle(x1, y1);
    law_motion_draws_pointer_rectangle(x2, y2);
}

/// A button press, whichever the button and wherever the pointer, draws
/// nothing; only a pointer motion ever draws.
pub proof fn law_only_motion_draws(evt: SelectionEvent)
    ensures
        evt is ButtonPress ==> spec_selection_step(evt) == SelectionAction::Nothing,
        spec_selection_step(evt) is DrawRectangle <==> evt is MotionNotify,
{
}

} // verus!
