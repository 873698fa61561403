//! The built-in debug-overlay layer.

use vstd::prelude::*;

use crate::dispatch::EventListener;
use crate::event::Event;
use crate::layer::Layer;

verus! {

/// A debug UI layer; it draws nothing yet and consumes no events, but it
/// exercises the full lifecycle so that tooling can hook in later.
pub struct ImGuiLayer {
    attached: bool,
    seen: Ghost<u64>,
}

impl ImGuiLayer {
    pub fn new() -> (r: ImGuiLayer)
        ensures
            !r.attached(),
            r.seen_count() == 0,
    {
        ImGuiLayer { attached: false, seen: Ghost(0) }
    }
}

impl EventListener for ImGuiLayer {
    closed spec fn ready(&self) -> bool {
        self.attached
    }
}

impl Layer for ImGuiLayer {
    closed spec fn attached(&self) -> bool {
        self.attached
    }

    closed spec fn seen_count(&self) -> u64 {
        self.seen@
    }

    fn get_dbg_name(&self) -> (r: &'static str)
        ensures
            r@ == "ImGuiLayer"@,
    {
        "ImGuiLayer"
    }

    fn on_attach(&mut self) {
        self.attached = true;
    }

    fn on_detach(&mut self) {
        self.attached = false;
    }

    /// The debug layer consumes no events: every offer is recorded and
    /// reported unhandled.
    fn on_event(&mut self, event: Event) -> (r: bool)
        ensures
            r == false,
            final(self).attached() == old(self).attached(),
    {
        proof {
            if self.seen@ < u64::MAX {
                self.seen@ = (self.seen@ + 1) as u64;
            }
        }
        false
    }
}

} // verus!
