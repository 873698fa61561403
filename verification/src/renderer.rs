//! The renderer collaborator's interface.
//!
//! Drawing is GPU work done outside the core.  A renderer is initialised
//! once and then invoked exactly once per tick, after the context has been
//! advanced and before events are dispatched.  It borrows the context for
//! the duration of the call and must hand it back well-formed.

use vstd::prelude::*;

use crate::context::Context;
use crate::layer::offered_once;
use crate::window::WindowApi;

verus! {

pub trait Renderer<W: WindowApi> {
    /// A ghost count of the frames this renderer has drawn, so the run
    /// loop's contract can pin how often it invoked the renderer.
    spec fn frame_count(&self) -> u64;

    /// One-time setup against the context: loading GPU entry points and
    /// creating buffers for the scene's meshes.  It draws no frame.
    fn init(&mut self, context: &mut Context<W>)
        requires
            old(context).wf(),
        ensures
            final(context).wf(),
            final(self).frame_count() == old(self).frame_count(),
    ;

    /// Draws one frame; called exactly once per tick.
    fn render(&mut self, context: &mut Context<W>)
        requires
            old(context).wf(),
        ensures
            final(context).wf(),
            offered_once(old(self).frame_count(), final(self).frame_count()),
    ;
}

} // verus!
