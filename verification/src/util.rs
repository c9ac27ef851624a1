//! Pure native-side helpers: geometry on native rectangles, menu flag
//! words, language identifiers, and the cursor-lock plan.

use vstd::prelude::*;
use crate::window::CursorLock;

verus! {

// Native menu flag bits (`MF_*`).
pub const MF_BYCOMMAND: u32 = 0x00000000;
pub const MF_DISABLED: u32 = 0x00000002;
pub const MF_ENABLED: u32 = 0x00000000;
pub const MF_GRAYED: u32 = 0x00000001;

/// A native point: a position in signed screen coordinates.
#[derive(Copy, Clone, Debug, PartialEq, Eq, Structural)]
pub struct POINT {
    pub x: i32,
    pub y: i32,
}

/// A native rectangle: edges in signed screen coordinates.
#[derive(Copy, Clone, Debug, PartialEq, Eq, Structural)]
pub struct RECT {
    pub left: i32,
    pub top: i32,
    pub right: i32,
    pub bottom: i32,
}

/// Builds a native language identifier from a primary and a sublanguage
/// identifier, as the platform's headers define it.
#[allow(non_snake_case)]
pub fn MAKELANGID(p: u16, s: u16) -> (r: u16)
    ensures
        r == (s << 10u16) | p,
{
    (s << 10u16) | p
}

/// The width and height of a rectangle.
pub fn rect_to_size2d(rect: &RECT) -> (r: (i32, i32))
    requires
        rect.right - rect.left <= i32::MAX,
        rect.bottom - rect.top <= i32::MAX,
        i32::MIN <= rect.right - rect.left,
        i32::MIN <= rect.bottom - rect.top,
    ensures
        r.0 == rect.right - rect.left,
        r.1 == rect.bottom - rect.top,
{
    (rect.right - rect.left, rect.bottom - rect.top)
}

/// Whether a point lies in a rectangle, under the native convention:
/// the left and top edges are inside, the right and bottom edges are not.
pub fn point_in_rect(rect: &RECT, point: &POINT) -> (r: bool)
    ensures
        r == (rect.left <= point.x < rect.right && rect.top <= point.y < rect.bottom),
{
    rect.left <= point.x && point.x < rect.right && rect.top <= point.y && point.y < rect.bottom
}

/// The center of a rectangle, where a centering cursor lock places the
/// cursor.
pub fn rect_center(rect: &RECT) -> (r: (i32, i32))
    requires
        rect.left <= rect.right,
        rect.top <= rect.bottom,
        rect.right - rect.left <= i32::MAX,
        rect.bottom - rect.top <= i32::MAX,
    ensures
        r.0 == rect.left + (rect.right - rect.left) / 2,
        r.1 == rect.top + (rect.bottom - rect.top) / 2,
{
    let width: i32 = rect.right - rect.left;
    let height: i32 = rect.bottom - rect.top;
    (rect.left + width / 2, rect.top + height / 2)
}

/// The menu flag word that enables or disables the close item of a
/// window's system menu. The close button lives in the menu, not in the
/// style words, so it is toggled with these flags.
pub fn close_button_menu_flags(enabled: bool) -> (r: u32)
    ensures
        r == (if enabled {
            MF_BYCOMMAND | MF_ENABLED
        } else {
            MF_BYCOMMAND | MF_DISABLED | MF_GRAYED
        }),
{
    if enabled {
        MF_BYCOMMAND | MF_ENABLED
    } else {
        MF_BYCOMMAND | MF_DISABLED | MF_GRAYED
    }
}

/// The native step a cursor-lock re-evaluation must take.
#[derive(Copy, Clone, Debug, PartialEq, Eq, Structural)]
pub enum CursorPlan {
    /// Clip the cursor to the window's client area.
    ClipToClient,
    /// Snap the cursor to the center of the window's client area.
    CenterInClient,
    /// Release any clip.
    Unclip,
    /// Leave the cursor alone.
    Leave,
}

/// The step a cursor-lock re-evaluation takes for a lock mode: a clip is
/// released only when the mode was newly cleared, never on a routine
/// re-evaluation without a lock.
pub open spec fn spec_cursor_lock_plan(mode: Option<CursorLock>, newly_set: bool) -> CursorPlan {
    match mode {
        Some(CursorLock::Constrain) => CursorPlan::ClipToClient,
        Some(CursorLock::Center) => CursorPlan::CenterInClient,
        None => if newly_set {
            CursorPlan::Unclip
        } else {
            CursorPlan::Leave
        },
    }
}

/// Decides the native step for a cursor-lock re-evaluation.
pub fn cursor_lock_plan(mode: Option<CursorLock>, newly_set: bool) -> (p: CursorPlan)
    ensures
        p == spec_cursor_lock_plan(mode, newly_set),
{
    match mode {
        Some(CursorLock::Constrain) => CursorPlan::ClipToClient,
        Some(CursorLock::Center) => CursorPlan::CenterInClient,
        None => if newly_set {
            CursorPlan::Unclip
        } else {
            CursorPlan::Leave
        },
    }
}

} // verus!
