//! Window-level requests and presentation modes, shared between the UI
//! and the host shell that performs them.

use vstd::prelude::*;

verus! {

/// A window-level request raised by the UI and performed by the host.
#[derive(Debug, PartialEq, Eq, Structural)]
pub enum WindowEvent {
    /// Leave the application.
    Exit,
    /// Toggle fullscreen presentation.
    Fullscreen,
    /// Toggle the maximized state.
    Maximize,
    /// Minimize the window.
    Minimize,
    /// Let the user drag the window by its title bar.
    DragWindow,
}

/// How the host window is presented.
#[derive(Debug, Clone, Copy, PartialEq, Eq, Structural)]
pub enum WindowType {
    /// A window of the given size.
    Windowed,
    /// A borderless window over the full screen.
    BorderlessFullscreen,
    /// Fullscreen at desktop resolution, scaled from the nearest
    /// supported size.
    SizedFullscreen,
    /// Fullscreen at the largest supported size.
    Fullscreen,
}

} // verus!
