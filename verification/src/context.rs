//! The shared mutable context: everything one frame's collaborators work on.

use vstd::prelude::*;

use crate::assets::AssetsManager;
use crate::buffer::EntityBuffer;
use crate::camera::Camera;
use crate::window::WindowApi;

verus! {

/// The aggregate the application core owns and lends, by unique mutable
/// reference, to exactly one collaborator at a time: the renderer, an event
/// handler, or the user application's startup hook.
pub struct Context<W: WindowApi> {
    pub assets: AssetsManager,
    pub entity_buffer: EntityBuffer,
    pub camera: Camera,
    pub window: W,
}

impl<W: WindowApi> Context<W> {
    /// The context's well-formedness: the registry keeps names unique and
    /// the camera its bounds.  Collaborators receive it well-formed and must
    /// return it so.
    pub open spec fn wf(&self) -> bool {
        self.assets.wf() && self.camera.wf()
    }

    /// A fresh context around the given platform window, with an empty
    /// registry rooted at `assets_root`, an empty scene and the default
    /// camera.
    pub fn new(assets_root: &'static str, window: W) -> (r: Context<W>)
        ensures
            r.wf(),
            r.assets.shaders_view().len() == 0,
            r.assets.objects_view().len() == 0,
            r.assets.assets_root_spec() == assets_root@,
            r.entity_buffer.entities@.len() == 0,
            r.entity_buffer.light is None,
            r.entity_buffer.last_id == 0,
            r.camera == Camera::new_spec(),
    {
        Context {
            assets: AssetsManager::new(assets_root),
            entity_buffer: EntityBuffer::new(),
            camera: Camera::new(),
            window,
        }
    }
}

} // verus!
