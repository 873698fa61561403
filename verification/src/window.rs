//! The platform window collaborator's interface.
//!
//! The core drives the platform entirely through this trait: opening and
//! closing the window, swapping buffers and polling, and translating pending
//! platform input into this crate's events.  Implementations live outside
//! the core — a real windowing backend in the program around it, scripted
//! stand-ins in tests — so nothing is promised about their behaviour here;
//! the core's own state never depends on it.

use vstd::prelude::*;

use crate::dispatch::EventDispatcherImpl;

verus! {

pub trait WindowApi {
    /// Creates the platform window and makes its context current.
    fn open(&mut self);

    /// Captures or releases the cursor for mouse-look.
    fn set_mouse_lock(&mut self, locked: bool);

    /// Turns vertical synchronisation on or off.
    fn set_vsync(&mut self, vsync: bool);

    /// Allows or forbids resizing.
    fn set_resizable(&mut self, resizable: bool);

    /// Swaps buffers and polls the platform for input, once per tick.
    fn update(&mut self);

    /// Translates the pending platform input into events and buffers each
    /// of them with the dispatcher.
    fn dispatch_events(&mut self, dispatcher: &mut EventDispatcherImpl);

    /// Whether the platform itself asked the window to close.
    fn should_close(&self) -> bool;

    /// Closes the platform window.
    fn close(&mut self);
}

} // verus!
