//! The application core: it owns the layer stack, the user application, the
//! shared context and the run loop, and arbitrates event propagation.
//!
//! For each event the priority order is: the core's own handlers first, the
//! user application second, the layer stack third — inside the stack the
//! overlays from the top down, then the layers from the top down — and the
//! first handler that reports the event consumed stops its propagation.

use vstd::prelude::*;

use crate::camera::{Camera, neg};
use crate::context::Context;
use crate::dispatch::{EventDispatcher, EventDispatcherImpl, EventListener, GenericEventListener,
    propagate_event};
use crate::event::{AppEvent, Event, Key, KeyboardEvent, Modifier, MouseButton, MouseEvent,
    WindowEvent};
use crate::imgui::ImGuiLayer;
use crate::layer::{Layer, LayerHandle, LayerStack, LayerStackImpl, offered_top_segment,
    teardown_order};
use crate::renderer::Renderer;
use crate::state::AppState;
use crate::window::WindowApi;

verus! {

/// How far one movement key press or repeat moves the camera, in
/// thousandths of a unit.
pub const MOVE_STEP: i64 = 100;

/// The camera after the core handles a movement key: the four movement keys
/// displace it by the fixed step along the matching axis, every other key
/// leaves it alone.
pub open spec fn movement_applied(camera: Camera, key: Key) -> Camera {
    match key {
        Key::W => camera.moved_along(camera.front, MOVE_STEP as int),
        Key::S => camera.moved_along(neg(camera.front), MOVE_STEP as int),
        Key::A => camera.moved_along(neg(camera.right), MOVE_STEP as int),
        Key::D => camera.moved_along(camera.right, MOVE_STEP as int),
        _ => camera,
    }
}

/// The user application's contract: a parameterless factory, a startup hook
/// that seeds the context once the first render-capable state is ready, and
/// the full event capability.
pub trait Application<W: WindowApi>: EventListener + Sized {
    /// Builds the application; the result is ready to receive events.
    fn init() -> (r: Self)
        ensures
            r.ready(),
    ;

    /// Called once, after the renderer is initialised and before the first
    /// tick, with the context lent mutably.
    fn post_init(&mut self, context: &mut Context<W>)
        requires
            old(self).ready(),
            old(context).wf(),
        ensures
            final(self).ready(),
            final(context).wf(),
    ;

    /// The directory the platform layer loads this application's asset
    /// files from.
    fn get_assets_path() -> (r: &'static str);
}

/// The engine core, generic over the user application and the platform
/// window.
pub struct Gear<T: Application<W>, W: WindowApi> {
    layers: LayerStackImpl<LayerHandle>,
    app: T,
    state: AppState,
    context: Context<W>,
}

impl<T: Application<W>, W: WindowApi> Gear<T, W> {
    /// The core's well-formedness: the stack keeps its region bound, every
    /// stacked layer is attached, the context is well-formed and the user
    /// application is ready for events.
    pub closed spec fn wf(&self) -> bool {
        &&& self.layers.stack_wf()
        &&& self.layers.all_attached()
        &&& self.context.wf()
        &&& self.app.ready()
    }

    /// Whether closing has been requested, by a window-close event or the
    /// escape key.
    pub closed spec fn close_requested(&self) -> bool {
        self.state.window.should_close_spec()
    }

    /// Whether the window reported itself focused.
    pub closed spec fn focused(&self) -> bool {
        self.state.window.focus_spec()
    }

    /// The camera inside the context.
    pub closed spec fn camera_spec(&self) -> Camera {
        self.context.camera
    }

    /// The whole shared context.
    pub closed spec fn context_spec(&self) -> Context<W> {
        self.context
    }

    /// Opens the platform window, captures the cursor, and assembles the
    /// core around a fresh user application and context.
    pub fn new(window: W) -> (r: Gear<T, W>)
        ensures
            r.wf(),
            !r.close_requested(),
            !r.focused(),
            r.layer_seq().len() == 0,
            r.overlay_split() == 0,
            r.camera_spec() == Camera::new_spec(),
            r.context_spec().wf(),
            r.context_spec().assets.shaders_view().len() == 0,
            r.context_spec().assets.objects_view().len() == 0,
            r.context_spec().entity_buffer.entities@.len() == 0,
            r.context_spec().entity_buffer.light is None,
            r.context_spec().entity_buffer.last_id == 0,
    {
        let mut window = window;
        window.open();
        window.set_mouse_lock(true);

        Gear {
            layers: LayerStackImpl::new(),
            app: T::init(),
            state: AppState::new(),
            context: Context::new(T::get_assets_path(), window),
        }
    }

    /// A read-only view of the shared context.
    pub fn context(&self) -> (r: &Context<W>)
        ensures
            *r == self.context_spec(),
            r.camera == self.camera_spec(),
    {
        &self.context
    }

    /// The number of layers in both regions together.
    pub fn layer_count(&self) -> (r: usize)
        ensures
            r == self.layer_seq().len(),
    {
        self.layers.len()
    }

    /// Whether the run loop has been asked to stop.
    pub fn is_closing(&self) -> (r: bool)
        ensures
            r == self.close_requested(),
    {
        self.state.window.should_close()
    }

    /// Installs the built-in layers: the debug overlay.
    fn load_default_layers(&mut self)
        requires
            old(self).wf(),
        ensures
            final(self).wf(),
            final(self).layer_seq().len() == old(self).layer_seq().len() + 1,
            final(self).overlay_split() == old(self).overlay_split() + 1,
            final(self).close_requested() == old(self).close_requested(),
            final(self).focused() == old(self).focused(),
    {
        let mut imgui_layer = LayerHandle(Box::new(ImGuiLayer::new()));
        imgui_layer.on_attach();
        let ghost l = imgui_layer;
        let ghost pre = self.layers.layer_seq();
        let ghost at = self.layers.overlay_split();
        self.layers.push_layer(imgui_layer);
        proof {
            crate::layer::lemma_insert_facts(pre, at, l);
        }
    }

    /// Displaces the camera for one movement key, if `key` is one.
    fn apply_movement(&mut self, key: Key)
        requires
            old(self).wf(),
        ensures
            final(self).wf(),
            final(self).camera_spec() == movement_applied(old(self).camera_spec(), key),
            final(self).close_requested() == old(self).close_requested(),
            final(self).focused() == old(self).focused(),
            final(self).layer_seq() == old(self).layer_seq(),
            final(self).overlay_split() == old(self).overlay_split(),
    {
        match key {
            Key::W => self.context.camera.move_forward(MOVE_STEP),
            Key::S => self.context.camera.move_backward(MOVE_STEP),
            Key::A => self.context.camera.move_left(MOVE_STEP),
            Key::D => self.context.camera.move_right(MOVE_STEP),
            _ => (),
        }
    }

    /// Pops and detaches every overlay and then every layer, in the exact
    /// reverse of their push order within each region; the returned ghost
    /// trace is the detach order.
    pub fn on_close(&mut self) -> (detached: Ghost<Seq<LayerHandle>>)
        requires
            old(self).wf(),
        ensures
            final(self).wf(),
            final(self).layer_seq().len() == 0,
            final(self).overlay_split() == 0,
            detached@ == teardown_order(old(self).layer_seq(), old(self).overlay_split()),
            detached@.len() == old(self).layer_seq().len(),
            final(self).close_requested() == old(self).close_requested(),
            final(self).focused() == old(self).focused(),
            final(self).camera_spec() == old(self).camera_spec(),
    {
        let detached = self.layers.detach_all();
        proof {
            crate::layer::lemma_teardown_order_index(
                old(self).layer_seq(),
                old(self).overlay_split(),
            );
        }
        detached
    }

    /// Fully drains the dispatcher into the core's own propagation, offering
    /// the pending events most-recent-first.  The core drains the dispatcher
    /// itself — the dispatcher's `consume` does the same for any listener —
    /// so each delivery's effect on the core stays visible: the stack keeps
    /// its shape and a close request is never withdrawn.
    fn drain_events(&mut self, dispatcher: &mut EventDispatcherImpl)
        requires
            old(self).wf(),
        ensures
            final(self).wf(),
            final(dispatcher).pending() == Seq::<Event>::empty(),
            final(self).layer_seq().len() == old(self).layer_seq().len(),
            final(self).overlay_split() == old(self).overlay_split(),
            old(self).close_requested() ==> final(self).close_requested(),
    {
        while dispatcher.pending_len() > 0
            invariant
                self.wf(),
                self.layer_seq().len() == old(self).layer_seq().len(),
                self.overlay_split() == old(self).overlay_split(),
                old(self).close_requested() ==> self.close_requested(),
            decreases dispatcher.pending().len(),
        {
            let event = dispatcher.pop().unwrap();
            self.on_event(event);
        }
    }

    /// Runs at most `max_ticks` frame ticks: each tick advances the camera,
    /// renders exactly one frame, pumps the platform's events behind one
    /// synthetic tick event, and fully drains the queue most-recent-first;
    /// the close flag is re-read every iteration, never cached.  Afterwards
    /// the platform window is closed and teardown detaches every layer,
    /// overlays before layers.  The result reports whether the loop stopped
    /// because closing was requested, together with the ghost detach trace,
    /// which covers the layers pushed before the run plus the built-in
    /// overlay — each exactly once.
    pub fn run_for<R: Renderer<W>>(&mut self, renderer: &mut R, max_ticks: u64) -> (r: (
        bool,
        Ghost<Seq<LayerHandle>>,
    ))
        requires
            old(self).wf(),
        ensures
            final(self).wf(),
            final(self).layer_seq().len() == 0,
            final(self).overlay_split() == 0,
            r.0 == final(self).close_requested(),
            old(self).close_requested() ==> final(self).close_requested(),
            r.1@.len() == old(self).layer_seq().len() + 1,
            final(renderer).frame_count() <= old(renderer).frame_count() + max_ticks,
            max_ticks > 0 && !old(self).close_requested() && old(renderer).frame_count()
                < u64::MAX ==> final(renderer).frame_count() >= old(renderer).frame_count() + 1,
    {
        self.load_default_layers();

        let mut dispatcher = EventDispatcherImpl::new();

        renderer.init(&mut self.context);
        self.app.post_init(&mut self.context);

        let mut ticks_left = max_ticks;
        while !self.state.window.should_close() && ticks_left > 0
            invariant
                self.wf(),
                self.layer_seq().len() == old(self).layer_seq().len() + 1,
                self.overlay_split() == old(self).overlay_split() + 1,
                old(self).close_requested() ==> self.close_requested(),
                ticks_left <= max_ticks,
                ticks_left == max_ticks ==> self.close_requested() == old(self).close_requested(),
                old(renderer).frame_count() <= renderer.frame_count(),
                renderer.frame_count() <= old(renderer).frame_count() + (max_ticks - ticks_left),
                ticks_left < max_ticks && old(renderer).frame_count() < u64::MAX
                    ==> renderer.frame_count() >= old(renderer).frame_count() + 1,
            decreases ticks_left,
        {
            ticks_left = ticks_left - 1;

            self.context.camera.update();
            renderer.render(&mut self.context);

            self.context.window.update();
            dispatcher.dispatch(Event::App(AppEvent::Tick));
            self.context.window.dispatch_events(&mut dispatcher);
            self.drain_events(&mut dispatcher);
        }

        let closed = self.state.window.should_close();
        self.context.window.close();
        let detached = self.on_close();
        (closed, detached)
    }

    /// Runs the frame loop until closing is requested; see `run_for`.  The
    /// tick allowance is the largest expressible and no practical bound.
    pub fn run<R: Renderer<W>>(&mut self, renderer: &mut R) -> (r: (
        bool,
        Ghost<Seq<LayerHandle>>,
    ))
        requires
            old(self).wf(),
        ensures
            final(self).wf(),
            final(self).layer_seq().len() == 0,
            final(self).overlay_split() == 0,
            r.0 == final(self).close_requested(),
            r.1@.len() == old(self).layer_seq().len() + 1,
            !old(self).close_requested() && old(renderer).frame_count() < u64::MAX
                ==> final(renderer).frame_count() >= old(renderer).frame_count() + 1,
    {
        self.run_for(renderer, u64::MAX)
    }
}

/// The core's own built-in handlers: window-close and escape request close
/// and are consumed; movement keys steer the camera and stay unconsumed;
/// mouse movement steers the view only while focused; focus changes are
/// recorded; every other event kind is ignored outright.
impl<T: Application<W>, W: WindowApi> EventListener for Gear<T, W> {
    closed spec fn ready(&self) -> bool {
        self.wf()
    }

    fn on_app_tick(&mut self) -> (r: bool)
        ensures
            r == false,
            *final(self) == *old(self),
    {
        false
    }

    fn on_app_update(&mut self) -> (r: bool)
        ensures
            r == false,
            *final(self) == *old(self),
    {
        false
    }

    fn on_app_render(&mut self) -> (r: bool)
        ensures
            r == false,
            *final(self) == *old(self),
    {
        false
    }

    /// Requests close and reports the event consumed.
    fn on_window_close(&mut self) -> (r: bool)
        ensures
            r == true,
            final(self).close_requested(),
            final(self).focused() == old(self).focused(),
            final(self).camera_spec() == old(self).camera_spec(),
            final(self).layer_seq() == old(self).layer_seq(),
            final(self).overlay_split() == old(self).overlay_split(),
    {
        self.state.window.close();
        true
    }

    fn on_window_resize(&mut self, width: u32, height: u32) -> (r: bool)
        ensures
            r == false,
            *final(self) == *old(self),
    {
        false
    }

    /// Records the focus the platform reported; the event always stays
    /// unconsumed.
    fn on_window_focus(&mut self, focused: bool) -> (r: bool)
        ensures
            r == false,
            final(self).focused() == focused,
            final(self).close_requested() == old(self).close_requested(),
            final(self).camera_spec() == old(self).camera_spec(),
            final(self).layer_seq() == old(self).layer_seq(),
            final(self).overlay_split() == old(self).overlay_split(),
    {
        self.state.window.set_focus(focused);
        false
    }

    /// The escape key requests close and is consumed; the movement keys
    /// displace the camera by the fixed step and stay unconsumed so later
    /// listeners still observe them.
    fn on_key_press(&mut self, key: Key, mods: Modifier) -> (r: bool)
        ensures
            r == (key is Escape),
            key is Escape ==> final(self).close_requested() && final(self).camera_spec() == old(
                self,
            ).camera_spec(),
            !(key is Escape) ==> final(self).close_requested() == old(self).close_requested()
                && final(self).camera_spec() == movement_applied(old(self).camera_spec(), key),
            final(self).focused() == old(self).focused(),
            final(self).layer_seq() == old(self).layer_seq(),
            final(self).overlay_split() == old(self).overlay_split(),
    {
        match key {
            Key::Escape => {
                self.state.window.close();
                true
            }
            _ => {
                self.apply_movement(key);
                false
            }
        }
    }

    fn on_key_release(&mut self, key: Key, mods: Modifier) -> (r: bool)
        ensures
            r == false,
            *final(self) == *old(self),
    {
        false
    }

    /// Key repeats keep moving the camera but never request close.
    fn on_key_repeat(&mut self, key: Key, mods: Modifier) -> (r: bool)
        ensures
            r == false,
            final(self).camera_spec() == movement_applied(old(self).camera_spec(), key),
            final(self).close_requested() == old(self).close_requested(),
            final(self).focused() == old(self).focused(),
            final(self).layer_seq() == old(self).layer_seq(),
            final(self).overlay_split() == old(self).overlay_split(),
    {
        self.apply_movement(key);
        false
    }

    fn on_mouse_press(&mut self, button: MouseButton, mods: Modifier) -> (r: bool)
        ensures
            r == false,
            *final(self) == *old(self),
    {
        false
    }

    fn on_mouse_release(&mut self, button: MouseButton, mods: Modifier) -> (r: bool)
        ensures
            r == false,
            *final(self) == *old(self),
    {
        false
    }

    /// Forwards cursor movement to the camera while the window is focused;
    /// the event always stays unconsumed.
    fn on_mouse_move(&mut self, x: i64, y: i64) -> (r: bool)
        ensures
            r == false,
            old(self).focused() ==> final(self).camera_spec() == old(
                self,
            ).camera_spec().mouse_moved(x as int, y as int),
            !old(self).focused() ==> final(self).camera_spec() == old(self).camera_spec(),
            final(self).close_requested() == old(self).close_requested(),
            final(self).focused() == old(self).focused(),
            final(self).layer_seq() == old(self).layer_seq(),
            final(self).overlay_split() == old(self).overlay_split(),
    {
        if self.state.window.is_focused() {
            self.context.camera.on_mouse_move(x, y);
        }
        false
    }

    fn on_mouse_scroll(&mut self, dx: i64, dy: i64) -> (r: bool)
        ensures
            r == false,
            *final(self) == *old(self),
    {
        false
    }
}

impl<T: Application<W>, W: WindowApi> GenericEventListener for Gear<T, W> {
    closed spec fn listening(&self) -> bool {
        self.wf()
    }

    /// One event's whole propagation: the core's own handlers, then the
    /// user application, then the layer stack, stopping at the first
    /// consumer.  A window-close event or an escape press is consumed by the
    /// core and requests close; a close request is never withdrawn; the
    /// core's handler effects on camera and focus hold whatever the later
    /// listeners answered; the stack keeps its shape, and an event nobody
    /// consumes was offered to every layer.
    fn on_event(&mut self, event: Event) -> (r: bool)
        ensures
            final(self).layer_seq().len() == old(self).layer_seq().len(),
            final(self).overlay_split() == old(self).overlay_split(),
            old(self).close_requested() ==> final(self).close_requested(),
            event == Event::Window(WindowEvent::Close) ==> r && final(self).close_requested(),
            event matches Event::Keyboard(KeyboardEvent::Press(key, _)) ==> {
                &&& key is Escape ==> r && final(self).close_requested()
                &&& !(key is Escape) ==> final(self).camera_spec() == movement_applied(
                    old(self).camera_spec(),
                    key,
                ) && final(self).close_requested() == old(self).close_requested()
            },
            event matches Event::Keyboard(KeyboardEvent::Repeat(key, _)) ==> {
                &&& final(self).camera_spec() == movement_applied(old(self).camera_spec(), key)
                &&& final(self).close_requested() == old(self).close_requested()
            },
            event matches Event::Window(WindowEvent::Focus(focused)) ==> final(self).focused()
                == focused && final(self).close_requested() == old(self).close_requested(),
            event matches Event::Mouse(MouseEvent::Move(x, y)) ==> {
                &&& old(self).focused() ==> final(self).camera_spec() == old(
                    self,
                ).camera_spec().mouse_moved(x as int, y as int)
                &&& !old(self).focused() ==> final(self).camera_spec() == old(self).camera_spec()
                &&& final(self).close_requested() == old(self).close_requested()
            },
            !r ==> offered_top_segment(
                old(self).layer_seq(),
                final(self).layer_seq(),
                old(self).layer_seq().len() as int,
            ),
    {
        // The core's own handlers, routed as `propagate_event` routes but on
        // the core itself, so each built-in handler's exact contract stays
        // visible here.
        let own = match event {
            Event::App(AppEvent::Tick) => self.on_app_tick(),
            Event::Window(WindowEvent::Close) => self.on_window_close(),
            Event::Window(WindowEvent::Resize(w, h)) => self.on_window_resize(w, h),
            Event::Window(WindowEvent::Focus(focused)) => self.on_window_focus(focused),
            Event::Keyboard(KeyboardEvent::Press(key, m)) => self.on_key_press(key, m),
            Event::Keyboard(KeyboardEvent::Release(key, m)) => self.on_key_release(key, m),
            Event::Keyboard(KeyboardEvent::Repeat(key, m)) => self.on_key_repeat(key, m),
            Event::Mouse(MouseEvent::Press(b, m)) => self.on_mouse_press(b, m),
            Event::Mouse(MouseEvent::Release(b, m)) => self.on_mouse_release(b, m),
            Event::Mouse(MouseEvent::Move(x, y)) => self.on_mouse_move(x, y),
            Event::Mouse(MouseEvent::Scroll(dx, dy)) => self.on_mouse_scroll(dx, dy),
            Event::Mouse(MouseEvent::Repeat(..)) => false,
            Event::Nothing => false,
        };
        if own {
            return true;
        }
        if propagate_event(event, &mut self.app) {
            return true;
        }
        let (consumed, _trace) = self.layers.dispatch_event(event);
        consumed
    }
}

impl<T: Application<W>, W: WindowApi> LayerStack for Gear<T, W> {
    closed spec fn layer_seq(&self) -> Seq<LayerHandle> {
        self.layers.layer_seq()
    }

    closed spec fn overlay_split(&self) -> int {
        self.layers.overlay_split()
    }

    closed spec fn owner_inv(&self) -> bool {
        self.wf()
    }

    fn push_layer(&mut self, layer: LayerHandle) {
        let mut layer = layer;
        layer.on_attach();
        let ghost l = layer;
        let ghost pre = self.layers.layer_seq();
        let ghost at = self.layers.overlay_split();
        self.layers.push_layer(layer);
        proof {
            crate::layer::lemma_insert_facts(pre, at, l);
        }
    }

    fn push_overlay(&mut self, overlay: LayerHandle) {
        let mut overlay = overlay;
        overlay.on_attach();
        let ghost l = overlay;
        let ghost pre = self.layers.layer_seq();
        self.layers.push_overlay(overlay);
        proof {
            crate::layer::lemma_append_facts(pre, l);
            assert(self.layers.layer_seq() == pre.push(l));
        }
    }

    fn pop_layer(&mut self) -> (r: Option<LayerHandle>) {
        let ghost pre = self.layers.layer_seq();
        let ghost at = self.layers.overlay_split();
        match self.layers.pop_layer() {
            Some(mut layer) => {
                proof {
                    crate::layer::lemma_remove_facts(pre, at - 1);
                }
                layer.on_detach();
                Some(layer)
            }
            None => None,
        }
    }

    fn pop_overlay(&mut self) -> (r: Option<LayerHandle>) {
        let ghost pre = self.layers.layer_seq();
        match self.layers.pop_overlay() {
            Some(mut overlay) => {
                proof {
                    crate::layer::lemma_drop_last_facts(pre);
                }
                overlay.on_detach();
                Some(overlay)
            }
            None => None,
        }
    }
}

} // verus!
