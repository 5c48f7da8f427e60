use vstd::prelude::*;

use crate::text::str_equals;

verus! {

/// Horizontal distance kept between the main window and the right edge of
/// the primary monitor, in physical pixels.
pub const MARGIN_RIGHT: i64 = 20;

/// Vertical distance kept between the main window and the bottom edge of the
/// primary monitor, in physical pixels (room for a task bar).
pub const MARGIN_BOTTOM: i64 = 60;

/// Whether a window is shown on screen.
#[derive(Clone, Copy, Debug, PartialEq, Eq, Structural)]
pub enum Visibility {
    Visible,
    Hidden,
}

impl Visibility {
    /// The other visibility.
    pub open spec fn flipped(self) -> Visibility {
        match self {
            Visibility::Visible => Visibility::Hidden,
            Visibility::Hidden => Visibility::Visible,
        }
    }

    pub fn flip(self) -> (r: Visibility)
        ensures
            r == self.flipped(),
    {
        match self {
            Visibility::Visible => Visibility::Hidden,
            Visibility::Hidden => Visibility::Visible,
        }
    }

    /// The visibility that a host query reports: a failed query counts as
    /// hidden.
    pub open spec fn reported_spec(reported: Option<bool>) -> Visibility {
        if reported == Some(true) {
            Visibility::Visible
        } else {
            Visibility::Hidden
        }
    }

    pub fn from_report(reported: Option<bool>) -> (r: Visibility)
        ensures
            r == Visibility::reported_spec(reported),
    {
        match reported {
            Some(true) => Visibility::Visible,
            _ => Visibility::Hidden,
        }
    }
}

/// The windows this controller manages, by role.
#[derive(Clone, Copy, Debug, PartialEq, Eq, Structural)]
pub enum ManagedWindow {
    /// The application's main window, labelled `main`.
    Main,
    /// The optional settings window, labelled `settings`.
    Settings,
}

/// The host label of a managed window.
pub open spec fn label_text(w: ManagedWindow) -> Seq<char> {
    match w {
        ManagedWindow::Main => "main"@,
        ManagedWindow::Settings => "settings"@,
    }
}

impl ManagedWindow {
    /// The label under which the host knows this window.
    pub fn label(&self) -> (r: &'static str)
        ensures
            r@ == label_text(*self),
    {
        match self {
            ManagedWindow::Main => "main",
            ManagedWindow::Settings => "settings",
        }
    }

    /// The managed window with this label, if any.
    pub fn from_label(label: &str) -> (r: Option<ManagedWindow>)
        ensures
            r == window_for_label(label@),
    {
        proof {
            reveal_strlit("main");
            reveal_strlit("settings");
            assert("main"@.len() != "settings"@.len());
        }
        if str_equals(label, "main") {
            Some(ManagedWindow::Main)
        } else if str_equals(label, "settings") {
            Some(ManagedWindow::Settings)
        } else {
            None
        }
    }
}

/// The managed window that a host label names, if any.
pub open spec fn window_for_label(label: Seq<char>) -> Option<ManagedWindow> {
    if label == label_text(ManagedWindow::Main) {
        Some(ManagedWindow::Main)
    } else if label == label_text(ManagedWindow::Settings) {
        Some(ManagedWindow::Settings)
    } else {
        None
    }
}

/// A size in physical pixels.
#[derive(Clone, Copy, Debug, PartialEq, Eq, Structural)]
pub struct Size {
    pub width: u32,
    pub height: u32,
}

/// A screen position in physical pixels.
#[derive(Clone, Copy, Debug, PartialEq, Eq, Structural)]
pub struct Position {
    pub x: i32,
    pub y: i32,
}

pub open spec fn fits_i32(v: int) -> bool {
    i32::MIN <= v <= i32::MAX
}

/// Left coordinate that puts a window of width `window` against the right
/// edge of a monitor of width `monitor`, less the margin.
pub open spec fn bottom_right_x(monitor: Size, window: Size) -> int {
    monitor.width - window.width - MARGIN_RIGHT
}

/// Top coordinate that puts a window of height `window` above the bottom
/// edge of a monitor of height `monitor`, less the margin.
pub open spec fn bottom_right_y(monitor: Size, window: Size) -> int {
    monitor.height - window.height - MARGIN_BOTTOM
}

/// Position of a window placed in the bottom-right corner of a monitor, with
/// a margin of 20 pixels to the right and 60 below; none when a coordinate
/// does not fit a screen position.
pub open spec fn placement(monitor: Size, window: Size) -> Option<Position> {
    let x = bottom_right_x(monitor, window);
    let y = bottom_right_y(monitor, window);
    if fits_i32(x) && fits_i32(y) {
        Some(Position { x: x as i32, y: y as i32 })
    } else {
        None
    }
}

/// Computes where the main window goes: against the bottom-right corner of
/// the monitor, 20 pixels from its right edge and 60 from its bottom edge.
pub fn bottom_right_position(monitor: Size, window: Size) -> (r: Option<Position>)
    ensures
        r == placement(monitor, window),
        r is Some <==> (fits_i32(bottom_right_x(monitor, window)) && fits_i32(
            bottom_right_y(monitor, window),
        )),
        r matches Some(p) ==> p.x == bottom_right_x(monitor, window) && p.y == bottom_right_y(
            monitor,
            window,
        ),
{
    let x: i64 = monitor.width as i64 - window.width as i64 - MARGIN_RIGHT;
    let y: i64 = monitor.height as i64 - window.height as i64 - MARGIN_BOTTOM;
    if x < i32::MIN as i64 || x > i32::MAX as i64 || y < i32::MIN as i64 || y > i32::MAX as i64 {
        None
    } else {
        Some(Position { x: x as i32, y: y as i32 })
    }
}

/// The position of the main window at startup, from the sizes the host could
/// report; none when either is unknown.
pub open spec fn initial_placement(monitor: Option<Size>, window: Option<Size>) -> Option<
    Position,
> {
    match (monitor, window) {
        (Some(m), Some(w)) => placement(m, w),
        _ => None,
    }
}

/// The initial position of the main window, when the host could report both
/// the primary monitor's size and the window's size.
pub fn initial_position(monitor: Option<Size>, window: Option<Size>) -> (r: Option<Position>)
    ensures
        r == initial_placement(monitor, window),
        (monitor is None || window is None) ==> r is None,
{
    match (monitor, window) {
        (Some(m), Some(w)) => bottom_right_position(m, w),
        _ => None,
    }
}

} // verus!
