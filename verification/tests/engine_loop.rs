//! End-to-end runs of the application core against scripted collaborators.

use std::cell::RefCell;
use std::rc::Rc;

use gear::application::{Application, Gear, MOVE_STEP};
use gear::context::Context;
use gear::dispatch::{EventDispatcher, EventDispatcherImpl, EventListener,
    GenericEventListener};
use gear::event::{Event, Key, KeyboardEvent, MouseEvent, WindowEvent};
use gear::layer::{Layer, LayerHandle, LayerStack};
use gear::renderer::Renderer;
use gear::window::WindowApi;

/// A window that feeds one scripted batch of events per tick.
struct ScriptedWindow {
    script: Vec<Vec<Event>>,
    tick: usize,
    closed: Rc<RefCell<bool>>,
}

impl ScriptedWindow {
    fn new(script: Vec<Vec<Event>>) -> (ScriptedWindow, Rc<RefCell<bool>>) {
        let closed = Rc::new(RefCell::new(false));
        (ScriptedWindow { script, tick: 0, closed: closed.clone() }, closed.clone())
    }
}

impl WindowApi for ScriptedWindow {
    fn open(&mut self) {}

    fn set_mouse_lock(&mut self, _locked: bool) {}

    fn set_vsync(&mut self, _vsync: bool) {}

    fn set_resizable(&mut self, _resizable: bool) {}

    fn update(&mut self) {}

    fn dispatch_events(&mut self, dispatcher: &mut EventDispatcherImpl) {
        if self.tick < self.script.len() {
            for event in &self.script[self.tick] {
                dispatcher.dispatch(*event);
            }
        }
        self.tick += 1;
    }

    fn should_close(&self) -> bool {
        *self.closed.borrow()
    }

    fn close(&mut self) {
        *self.closed.borrow_mut() = true;
    }
}

/// A renderer that draws nothing but counts its invocations.
struct CountingRenderer {
    inits: usize,
    frames: usize,
}

impl Renderer<ScriptedWindow> for CountingRenderer {
    // Ghost observation; erased and never called at runtime.
    fn frame_count(&self) -> u64 {
        0
    }

    fn init(&mut self, _context: &mut Context<ScriptedWindow>) {
        self.inits += 1;
    }

    fn render(&mut self, _context: &mut Context<ScriptedWindow>) {
        self.frames += 1;
    }
}

/// The user application under test; it consumes nothing.
struct Sandbox;

impl EventListener for Sandbox {
    fn ready(&self) -> bool {
        true
    }
}

impl Application<ScriptedWindow> for Sandbox {
    fn init() -> Sandbox {
        Sandbox
    }

    fn post_init(&mut self, _context: &mut Context<ScriptedWindow>) {}

    fn get_assets_path() -> &'static str {
        "assets"
    }
}

/// A layer that records lifecycle and events into a shared log.
struct ProbeOverlay {
    name: &'static str,
    consumes: bool,
    log: Rc<RefCell<Vec<String>>>,
}

impl ProbeOverlay {
    fn boxed(name: &'static str, consumes: bool, log: &Rc<RefCell<Vec<String>>>) -> LayerHandle {
        LayerHandle(Box::new(ProbeOverlay { name, consumes, log: log.clone() }))
    }
}

impl Layer for ProbeOverlay {
    fn attached(&self) -> bool {
        true
    }

    // Ghost observation; erased and never called at runtime.
    fn seen_count(&self) -> u64 {
        0
    }

    fn get_dbg_name(&self) -> &'static str {
        self.name
    }

    fn on_attach(&mut self) {
        self.log.borrow_mut().push(format!("attach {}", self.name));
    }

    fn on_detach(&mut self) {
        self.log.borrow_mut().push(format!("detach {}", self.name));
    }

    fn on_event(&mut self, event: Event) -> bool {
        if let Event::Keyboard(KeyboardEvent::Press(key, _)) = event {
            self.log.borrow_mut().push(format!("{} saw {:?}", self.name, key));
        }
        self.consumes
    }
}

fn escape() -> Event {
    Event::Keyboard(KeyboardEvent::Press(Key::Escape, 0))
}

#[test]
fn escape_sets_close_flag_and_terminates_the_loop() {
    // Pressing escape sets the close flag; the next loop condition check
    // terminates the run loop, the window closes, and every attached layer
    // reports detach exactly once.
    let log = Rc::new(RefCell::new(Vec::new()));
    let (window, closed) = ScriptedWindow::new(vec![vec![escape()]]);
    let mut gear: Gear<Sandbox, ScriptedWindow> = Gear::new(window);
    gear.push_layer(ProbeOverlay::boxed("probe", false, &log));

    let mut renderer = CountingRenderer { inits: 0, frames: 0 };
    let closed_by_request = gear.run_for(&mut renderer, 100).0;

    assert!(closed_by_request);
    assert!(gear.is_closing());
    assert!(*closed.borrow());
    assert_eq!(gear.layer_count(), 0);
    assert_eq!(renderer.inits, 1);
    // The escape arrived on the first tick; the loop stopped at its next
    // condition check, after exactly one frame.
    assert_eq!(renderer.frames, 1);

    let log = log.borrow();
    let attaches: Vec<&String> = log.iter().filter(|l| l.starts_with("attach")).collect();
    let detaches: Vec<&String> = log.iter().filter(|l| l.starts_with("detach")).collect();
    assert_eq!(attaches, vec!["attach probe"]);
    assert_eq!(detaches, vec!["detach probe"]);
    // The escape press was consumed by the core: the layer never saw it.
    assert!(log.iter().all(|l| !l.contains("saw")));
}

#[test]
fn movement_key_moves_camera_and_stays_unconsumed() {
    // A movement key pressed while focused moves the camera forward by the
    // fixed step, and the press is still observed by the debug overlay.
    let log = Rc::new(RefCell::new(Vec::new()));
    let (window, _closed) = ScriptedWindow::new(vec![
        vec![
            Event::Window(WindowEvent::Focus(true)),
            Event::Keyboard(KeyboardEvent::Press(Key::W, 0)),
        ],
        vec![escape()],
    ]);
    let mut gear: Gear<Sandbox, ScriptedWindow> = Gear::new(window);
    gear.push_overlay(ProbeOverlay::boxed("debug", false, &log));

    let start_z = gear.context().camera.position.z;
    assert_eq!(start_z, 3000);

    let mut renderer = CountingRenderer { inits: 0, frames: 0 };
    assert!(gear.run_for(&mut renderer, 100).0);

    // The default camera faces the negative depth axis; one step forward is
    // MOVE_STEP thousandths along it.
    // The overlay still received the unconsumed W press.
    assert!(log.borrow().iter().any(|l| l == "debug saw W"));
    // Camera moved forward by the fixed step exactly once.
    assert_eq!(renderer.frames, 2);
    let end_z = start_z - MOVE_STEP;
    assert_eq!(gear_position_z(&gear), end_z);
}

fn gear_position_z(gear: &Gear<Sandbox, ScriptedWindow>) -> i64 {
    gear.context().camera.position.z
}

#[test]
fn window_close_event_is_consumed_and_stops_the_loop() {
    let log = Rc::new(RefCell::new(Vec::new()));
    let (window, closed) = ScriptedWindow::new(vec![vec![Event::Window(WindowEvent::Close)]]);
    let mut gear: Gear<Sandbox, ScriptedWindow> = Gear::new(window);
    gear.push_layer(ProbeOverlay::boxed("probe", true, &log));

    let mut renderer = CountingRenderer { inits: 0, frames: 0 };
    assert!(gear.run_for(&mut renderer, 100).0);
    assert!(*closed.borrow());
    assert_eq!(gear.layer_count(), 0);
}

#[test]
fn teardown_detaches_overlays_before_layers_in_reverse_push_order() {
    // For every layer ever pushed, detach is called exactly once, after
    // attach; detach order is the exact reverse of attach order within each
    // region, overlays detached before layers.
    let log = Rc::new(RefCell::new(Vec::new()));
    let (window, _closed) = ScriptedWindow::new(vec![vec![escape()]]);
    let mut gear: Gear<Sandbox, ScriptedWindow> = Gear::new(window);
    gear.push_layer(ProbeOverlay::boxed("L1", false, &log));
    gear.push_layer(ProbeOverlay::boxed("L2", false, &log));
    gear.push_overlay(ProbeOverlay::boxed("O1", false, &log));
    gear.push_overlay(ProbeOverlay::boxed("O2", false, &log));

    let mut renderer = CountingRenderer { inits: 0, frames: 0 };
    assert!(gear.run_for(&mut renderer, 100).0);

    assert_eq!(
        *log.borrow(),
        vec![
            "attach L1".to_string(),
            "attach L2".to_string(),
            "attach O1".to_string(),
            "attach O2".to_string(),
            "detach O2".to_string(),
            "detach O1".to_string(),
            "detach L2".to_string(),
            "detach L1".to_string(),
        ]
    );
}

#[test]
fn run_terminates_once_closing_is_requested() {
    let (window, closed) = ScriptedWindow::new(vec![vec![], vec![], vec![escape()]]);
    let mut gear: Gear<Sandbox, ScriptedWindow> = Gear::new(window);
    let mut renderer = CountingRenderer { inits: 0, frames: 0 };
    gear.run(&mut renderer);
    assert!(gear.is_closing());
    assert!(*closed.borrow());
    assert_eq!(renderer.frames, 3);
    assert_eq!(gear.layer_count(), 0);
}

#[test]
fn whole_propagation_consumes_closing_events_and_passes_movement_on() {
    let log = Rc::new(RefCell::new(Vec::new()));
    let (window, _closed) = ScriptedWindow::new(vec![]);
    let mut gear: Gear<Sandbox, ScriptedWindow> = Gear::new(window);
    gear.push_overlay(ProbeOverlay::boxed("debug", false, &log));

    // A movement key press is reported unconsumed, moves the camera, and
    // still reaches the overlay.
    let start_z = gear.context().camera.position.z;
    assert!(!gear.on_event(Event::Keyboard(KeyboardEvent::Press(Key::W, 0))));
    assert_eq!(gear.context().camera.position.z, start_z - MOVE_STEP);
    assert!(log.borrow().iter().any(|l| l == "debug saw W"));
    assert!(!gear.is_closing());

    // An escape press is consumed by the core and requests close; the
    // overlay never sees it.
    assert!(gear.on_event(escape()));
    assert!(gear.is_closing());
    assert!(!log.borrow().iter().any(|l| l.contains("Escape")));
}

#[test]
fn loop_stops_when_the_tick_budget_runs_out() {
    let (window, closed) = ScriptedWindow::new(vec![]);
    let mut gear: Gear<Sandbox, ScriptedWindow> = Gear::new(window);
    let mut renderer = CountingRenderer { inits: 0, frames: 0 };
    let closed_by_request = gear.run_for(&mut renderer, 5).0;
    assert!(!closed_by_request);
    assert_eq!(renderer.frames, 5);
    // The platform window is still closed and the stack drained.
    assert!(*closed.borrow());
    assert_eq!(gear.layer_count(), 0);
}

#[test]
fn key_repeat_keeps_moving_the_camera() {
    // Movement applies on press and on repeat; releases move nothing.
    let (window, _closed) = ScriptedWindow::new(vec![
        vec![Event::Keyboard(KeyboardEvent::Press(Key::W, 0))],
        vec![Event::Keyboard(KeyboardEvent::Repeat(Key::W, 0))],
        vec![Event::Keyboard(KeyboardEvent::Release(Key::W, 0))],
        vec![escape()],
    ]);
    let mut gear: Gear<Sandbox, ScriptedWindow> = Gear::new(window);
    let mut renderer = CountingRenderer { inits: 0, frames: 0 };
    assert!(gear.run_for(&mut renderer, 100).0);
    assert_eq!(gear.context().camera.position.z, 3000 - 2 * MOVE_STEP);
}

#[test]
fn gear_pops_detach_their_layers() {
    let log = Rc::new(RefCell::new(Vec::new()));
    let (window, _closed) = ScriptedWindow::new(vec![]);
    let mut gear: Gear<Sandbox, ScriptedWindow> = Gear::new(window);

    gear.push_layer(ProbeOverlay::boxed("L1", false, &log));
    gear.push_overlay(ProbeOverlay::boxed("O1", false, &log));
    assert_eq!(gear.layer_count(), 2);

    assert!(gear.pop_overlay().is_some());
    assert!(gear.pop_layer().is_some());
    assert!(gear.pop_layer().is_none());
    assert!(gear.pop_overlay().is_none());
    assert_eq!(gear.layer_count(), 0);

    assert_eq!(
        *log.borrow(),
        vec![
            "attach L1".to_string(),
            "attach O1".to_string(),
            "detach O1".to_string(),
            "detach L1".to_string(),
        ]
    );
}

#[test]
fn mouse_move_steers_camera_only_while_focused() {
    // Without focus the camera ignores the cursor; with focus the first
    // event only records the position and the second turns the view.
    // Each batch is one tick; a tick's events drain most-recent-first, so
    // order-sensitive moves get a tick of their own.
    let (window, _closed) = ScriptedWindow::new(vec![
        // Unfocused: ignored entirely.
        vec![Event::Mouse(MouseEvent::Move(50_000, 0))],
        vec![Event::Window(WindowEvent::Focus(true))],
        // Focused: the first move only records the cursor position.
        vec![Event::Mouse(MouseEvent::Move(10_000, 0))],
        // The second move turns the view by a tenth of the offset.
        vec![Event::Mouse(MouseEvent::Move(11_000, 0))],
        vec![escape()],
    ]);
    let mut gear: Gear<Sandbox, ScriptedWindow> = Gear::new(window);
    let mut renderer = CountingRenderer { inits: 0, frames: 0 };
    assert!(gear.run_for(&mut renderer, 100).0);

    // Yaw turned by (11000 - 10000) / 10 = 100 thousandths of a degree.
    assert_eq!(gear.context().camera.yaw, -90_000 + 100);
    assert_eq!(gear.context().camera.pitch, 0);
}
