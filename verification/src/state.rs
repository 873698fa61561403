//! The run loop's own state: the close request and the focus flag.

use vstd::prelude::*;

verus! {

/// What the application core remembers about its window between events:
/// whether closing was requested and whether the window is focused.
pub struct WindowState {
    should_close: bool,
    focus: bool,
}

impl WindowState {
    /// Whether closing has been requested.
    pub closed spec fn should_close_spec(&self) -> bool {
        self.should_close
    }

    /// Whether the window is focused.
    pub closed spec fn focus_spec(&self) -> bool {
        self.focus
    }

    pub fn new() -> (r: WindowState)
        ensures
            !r.should_close_spec(),
            !r.focus_spec(),
    {
        WindowState { should_close: false, focus: false }
    }

    /// Reads the close flag; the run loop re-evaluates this every tick.
    pub fn should_close(&self) -> (r: bool)
        ensures
            r == self.should_close_spec(),
    {
        self.should_close
    }

    /// Requests that the run loop stop; the request is never withdrawn.
    pub fn close(&mut self)
        ensures
            final(self).should_close_spec(),
            final(self).focus_spec() == old(self).focus_spec(),
    {
        self.should_close = true;
    }

    /// Reads the focus flag.
    pub fn is_focused(&mut self) -> (r: bool)
        ensures
            r == old(self).focus_spec(),
            *final(self) == *old(self),
    {
        self.focus
    }

    /// Records the focus reported by the platform.
    pub fn set_focus(&mut self, locked: bool)
        ensures
            final(self).focus_spec() == locked,
            final(self).should_close_spec() == old(self).should_close_spec(),
    {
        self.focus = locked;
    }
}

/// The application core's mutable state record.
pub struct AppState {
    pub window: WindowState,
}

impl AppState {
    pub fn new() -> (r: AppState)
        ensures
            !r.window.should_close_spec(),
            !r.window.focus_spec(),
    {
        AppState { window: WindowState::new() }
    }
}

} // verus!
