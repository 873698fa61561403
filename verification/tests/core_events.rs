//! Event queue, dispatcher and routing behaviour.

use std::cell::RefCell;
use std::rc::Rc;

use gear::dispatch::{EventDispatcher, EventDispatcherImpl, EventListener, EventQueue,
    GenericEventListener, propagate_event};
use gear::event::{AppEvent, Event, Key, KeyboardEvent, Modifier, MouseButton, MouseEvent,
    WindowEvent};
use gear::modifiers;

struct RecordingSink {
    seen: Rc<RefCell<Vec<Event>>>,
}

impl GenericEventListener for RecordingSink {
    fn listening(&self) -> bool {
        true
    }

    fn on_event(&mut self, event: Event) -> bool {
        self.seen.borrow_mut().push(event);
        false
    }
}

#[derive(Default)]
struct MethodRecorder {
    calls: Vec<String>,
}

impl EventListener for MethodRecorder {
    fn ready(&self) -> bool {
        true
    }

    fn on_app_tick(&mut self) -> bool {
        self.calls.push("tick".to_string());
        false
    }

    fn on_window_close(&mut self) -> bool {
        self.calls.push("close".to_string());
        true
    }

    fn on_window_resize(&mut self, width: u32, height: u32) -> bool {
        self.calls.push(format!("resize {width}x{height}"));
        false
    }

    fn on_window_focus(&mut self, focused: bool) -> bool {
        self.calls.push(format!("focus {focused}"));
        false
    }

    fn on_key_press(&mut self, _key: Key, mods: Modifier) -> bool {
        self.calls.push(format!("press {mods}"));
        false
    }

    fn on_key_release(&mut self, _key: Key, _mods: Modifier) -> bool {
        self.calls.push("release".to_string());
        false
    }

    fn on_key_repeat(&mut self, _key: Key, _mods: Modifier) -> bool {
        self.calls.push("repeat".to_string());
        false
    }

    fn on_mouse_press(&mut self, _button: MouseButton, _mods: Modifier) -> bool {
        self.calls.push("mpress".to_string());
        false
    }

    fn on_mouse_release(&mut self, _button: MouseButton, _mods: Modifier) -> bool {
        self.calls.push("mrelease".to_string());
        false
    }

    fn on_mouse_move(&mut self, x: i64, y: i64) -> bool {
        self.calls.push(format!("move {x},{y}"));
        false
    }

    fn on_mouse_scroll(&mut self, dx: i64, dy: i64) -> bool {
        self.calls.push(format!("scroll {dx},{dy}"));
        false
    }
}

#[test]
fn queue_pops_most_recent_first() {
    let mut q = EventQueue::new();
    assert_eq!(q.len(), 0);
    q.push(Event::App(AppEvent::Tick));
    q.push(Event::Window(WindowEvent::Close));
    q.push(Event::Keyboard(KeyboardEvent::Press(Key::A, 0)));
    assert_eq!(q.len(), 3);
    assert_eq!(q.pop(), Some(Event::Keyboard(KeyboardEvent::Press(Key::A, 0))));
    assert_eq!(q.pop(), Some(Event::Window(WindowEvent::Close)));
    assert_eq!(q.pop(), Some(Event::App(AppEvent::Tick)));
    assert_eq!(q.pop(), None);
    assert_eq!(q.len(), 0);
}

#[test]
fn queue_iter_is_arrival_order() {
    let mut q = EventQueue::new();
    q.push(Event::App(AppEvent::Tick));
    q.push(Event::Window(WindowEvent::Close));
    let events = q.iter();
    assert_eq!(events.len(), 2);
    assert_eq!(events[0], Event::App(AppEvent::Tick));
    assert_eq!(events[1], Event::Window(WindowEvent::Close));
}

#[test]
fn drain_delivers_reverse_arrival_order() {
    // Pushing [A, B, C] and draining yields dispatch order C, B, A, and a
    // full pass leaves the queue empty.
    let a = Event::Keyboard(KeyboardEvent::Press(Key::A, 0));
    let b = Event::Keyboard(KeyboardEvent::Press(Key::B, 0));
    let c = Event::Keyboard(KeyboardEvent::Press(Key::C, 0));

    let mut dispatcher = EventDispatcherImpl::new();
    dispatcher.dispatch(a);
    dispatcher.dispatch(b);
    dispatcher.dispatch(c);

    let seen = Rc::new(RefCell::new(Vec::new()));
    let mut sink = RecordingSink { seen: seen.clone() };
    dispatcher.consume(&mut sink);

    assert_eq!(*seen.borrow(), vec![c, b, a]);

    // The queue was fully consumed: a second pass delivers nothing.
    dispatcher.consume(&mut sink);
    assert_eq!(seen.borrow().len(), 3);
}

#[test]
fn routing_maps_each_event_to_its_method() {
    let mut rec = MethodRecorder::default();

    assert!(!propagate_event(Event::App(AppEvent::Tick), &mut rec));
    assert!(propagate_event(Event::Window(WindowEvent::Close), &mut rec));
    assert!(!propagate_event(Event::Window(WindowEvent::Resize(800, 600)), &mut rec));
    assert!(!propagate_event(Event::Window(WindowEvent::Focus(true)), &mut rec));
    assert!(!propagate_event(
        Event::Keyboard(KeyboardEvent::Press(Key::W, modifiers::SHIFT)),
        &mut rec
    ));
    assert!(!propagate_event(Event::Keyboard(KeyboardEvent::Release(Key::W, 0)), &mut rec));
    assert!(!propagate_event(Event::Keyboard(KeyboardEvent::Repeat(Key::W, 0)), &mut rec));
    assert!(!propagate_event(Event::Mouse(MouseEvent::Press(MouseButton::Left, 0)), &mut rec));
    assert!(!propagate_event(Event::Mouse(MouseEvent::Release(MouseButton::Left, 0)), &mut rec));
    assert!(!propagate_event(Event::Mouse(MouseEvent::Move(10_000, 20_000)), &mut rec));
    assert!(!propagate_event(Event::Mouse(MouseEvent::Scroll(0, 1000)), &mut rec));

    assert_eq!(
        rec.calls,
        vec![
            "tick",
            "close",
            "resize 800x600",
            "focus true",
            "press 1",
            "release",
            "repeat",
            "mpress",
            "mrelease",
            "move 10000,20000",
            "scroll 0,1000",
        ]
    );
}

#[test]
fn unmapped_events_invoke_nothing() {
    let mut rec = MethodRecorder::default();
    assert!(!propagate_event(Event::Nothing, &mut rec));
    assert!(!propagate_event(Event::Mouse(MouseEvent::Repeat(MouseButton::Left, 0)), &mut rec));
    assert!(rec.calls.is_empty());
}

#[test]
fn modifier_bits_combine() {
    let both = modifiers::SHIFT | modifiers::CTRL;
    assert_eq!(both, 3);
    assert_ne!(both & modifiers::SHIFT, 0);
    assert_ne!(both & modifiers::CTRL, 0);
    assert_eq!(both & modifiers::ALT, 0);
    assert_eq!(both & modifiers::SUPER, 0);
}

#[test]
fn default_listener_handles_nothing() {
    struct Inert;
    impl EventListener for Inert {
        fn ready(&self) -> bool {
            true
        }
    }

    let mut inert = Inert;
    assert!(!propagate_event(Event::Window(WindowEvent::Close), &mut inert));
    assert!(!propagate_event(Event::App(AppEvent::Tick), &mut inert));
    assert!(!propagate_event(Event::Keyboard(KeyboardEvent::Press(Key::Escape, 0)), &mut inert));
}
