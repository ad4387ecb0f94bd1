//! Window placement and sizing arithmetic.
//!
//! The popup sits next to the taskbar, so its position is computed from the
//! taskbar's rectangle and the edge of the screen the taskbar occupies.  The
//! window grows while the monitor-selector list is shown and shrinks back
//! when it is hidden; those heights are computed here from the number of
//! monitors listed.

use vstd::prelude::*;

verus! {

/// Width of the popup window, in pixels.
pub const WINDOW_WIDTH: i32 = 360;

/// Height of the popup window with the selector list hidden, in pixels.
pub const WINDOW_HEIGHT: i32 = 100;

/// Height of the monitor-selector button, and of each list entry.
pub const SELECTOR_HEIGHT: i32 = 45;

/// Height of the slider row under the selector button.
pub const CONTROLS_HEIGHT: i32 = WINDOW_HEIGHT - SELECTOR_HEIGHT;

/// The screen edge the taskbar occupies.
#[derive(Clone, Copy, Debug, PartialEq, Eq, Structural)]
pub enum TaskbarEdge {
    Left,
    Top,
    Right,
    Bottom,
    /// The shell reported an edge this code does not know.
    Unknown,
}

/// A rectangle in screen coordinates.
#[derive(Clone, Copy, Debug, PartialEq, Eq, Structural)]
pub struct ScreenRect {
    pub left: i32,
    pub top: i32,
    pub right: i32,
    pub bottom: i32,
}

/// Where a window of the given size belongs so that it sits at the taskbar's
/// inner corner — next to the clock area for the usual bottom taskbar, and
/// mirrored accordingly for the other edges.  An unrecognised edge yields
/// nothing; the host treats that as fatal, since the window would have no
/// sensible place.
pub fn window_position(
    edge: TaskbarEdge,
    taskbar: ScreenRect,
    width: i32,
    height: i32,
) -> (position: Option<(i32, i32)>)
    requires
        0 <= width,
        0 <= height,
        i32::MIN <= taskbar.right - width,
        i32::MIN <= taskbar.left - width,
        i32::MIN <= taskbar.top - height,
        i32::MIN <= taskbar.bottom - height,
    ensures
        edge is Bottom ==> position == Some((
            (taskbar.right - width) as i32,
            (taskbar.top - height) as i32,
        )),
        edge is Left ==> position == Some((taskbar.right, (taskbar.bottom - height) as i32)),
        edge is Right ==> position == Some((
            (taskbar.left - width) as i32,
            (taskbar.bottom - height) as i32,
        )),
        edge is Top ==> position == Some(((taskbar.right - width) as i32, taskbar.bottom)),
        edge is Unknown ==> position is None,
{
    match edge {
        TaskbarEdge::Bottom => Some((taskbar.right - width, taskbar.top - height)),
        TaskbarEdge::Left => Some((taskbar.right, taskbar.bottom - height)),
        TaskbarEdge::Right => Some((taskbar.left - width, taskbar.bottom - height)),
        TaskbarEdge::Top => Some((taskbar.right - width, taskbar.bottom)),
        TaskbarEdge::Unknown => None,
    }
}

/// Height of the selector list when it shows one entry per monitor.
pub fn selector_list_height(num_monitors: usize) -> (height: i32)
    requires
        num_monitors <= 1000,
    ensures
        height == SELECTOR_HEIGHT * num_monitors,
{
    SELECTOR_HEIGHT * (num_monitors as i32)
}

/// Height of the window while the selector list is revealed: the slider row
/// plus the selector button plus one row per monitor.
pub fn expanded_window_height(num_monitors: usize) -> (height: i32)
    requires
        num_monitors <= 1000,
    ensures
        height == CONTROLS_HEIGHT + SELECTOR_HEIGHT * (1 + num_monitors),
{
    CONTROLS_HEIGHT + SELECTOR_HEIGHT * (1 + num_monitors as i32)
}

/// What clicking the selector button does to the window.
#[derive(Clone, Copy, Debug, PartialEq, Eq, Structural)]
pub struct SelectorToggle {
    /// Whether the list must now be shown.
    pub show_list: bool,
    /// The window height that fits the new state.
    pub window_height: i32,
}

/// Decide the selector button's toggle: reveal the list and grow the window
/// to fit it, or hide the list and return to the resting height.
pub fn selector_toggle(list_visible: bool, num_monitors: usize) -> (toggle: SelectorToggle)
    requires
        num_monitors <= 1000,
    ensures
        !list_visible ==> toggle.show_list
            && toggle.window_height == CONTROLS_HEIGHT + SELECTOR_HEIGHT * (1 + num_monitors),
        list_visible ==> !toggle.show_list && toggle.window_height == WINDOW_HEIGHT,
{
    if !list_visible {
        SelectorToggle { show_list: true, window_height: expanded_window_height(num_monitors) }
    } else {
        SelectorToggle { show_list: false, window_height: WINDOW_HEIGHT }
    }
}

} // verus!
