//! Layer stack ordering, the region invariant and dispatch short-circuiting.

use std::cell::RefCell;
use std::rc::Rc;

use gear::event::{AppEvent, Event, Key, KeyboardEvent};
use gear::layer::{Layer, LayerHandle, LayerStackImpl};

/// A layer that records its lifecycle and the events it sees into a shared
/// log, and consumes events if told to.
struct ProbeLayer {
    name: &'static str,
    consumes: bool,
    log: Rc<RefCell<Vec<String>>>,
}

impl ProbeLayer {
    fn boxed(name: &'static str, consumes: bool, log: &Rc<RefCell<Vec<String>>>) -> LayerHandle {
        LayerHandle(Box::new(ProbeLayer { name, consumes, log: log.clone() }))
    }
}

impl Layer for ProbeLayer {
    fn attached(&self) -> bool {
        true
    }

    // Ghost observation; erased and never called at runtime.
    fn seen_count(&self) -> u64 {
        0
    }

    fn get_dbg_name(&self) -> &'static str {
        self.name
    }

    fn on_attach(&mut self) {
        self.log.borrow_mut().push(format!("attach {}", self.name));
    }

    fn on_detach(&mut self) {
        self.log.borrow_mut().push(format!("detach {}", self.name));
    }

    fn on_event(&mut self, _event: Event) -> bool {
        self.log.borrow_mut().push(format!("event {}", self.name));
        self.consumes
    }
}

fn region_bound_holds<L: Layer>(stack: &LayerStackImpl<L>) -> bool {
    stack.overlay_offset() <= stack.len()
}

#[test]
fn region_bound_holds_after_every_operation() {
    // For an arbitrary mix of pushes and pops, 0 <= overlay_offset <= length
    // after every call.
    let log = Rc::new(RefCell::new(Vec::new()));
    let mut stack: LayerStackImpl<LayerHandle> = LayerStackImpl::new();
    assert!(region_bound_holds(&stack));

    stack.push_layer(ProbeLayer::boxed("l1", false, &log));
    assert!(region_bound_holds(&stack));
    stack.push_overlay(ProbeLayer::boxed("o1", false, &log));
    assert!(region_bound_holds(&stack));
    stack.push_layer(ProbeLayer::boxed("l2", false, &log));
    assert!(region_bound_holds(&stack));
    assert_eq!(stack.overlay_offset(), 2);
    assert_eq!(stack.len(), 3);

    assert!(stack.pop_layer().is_some());
    assert!(region_bound_holds(&stack));
    assert!(stack.pop_overlay().is_some());
    assert!(region_bound_holds(&stack));
    assert!(stack.pop_layer().is_some());
    assert!(region_bound_holds(&stack));
    assert!(stack.pop_layer().is_none());
    assert!(region_bound_holds(&stack));
    assert_eq!(stack.len(), 0);
}

#[test]
fn pop_layer_on_empty_region_is_defined_empty() {
    // With overlay_offset == 0 the layer region is empty: pop_layer returns
    // empty, does not alter overlay_offset and does not panic.
    let log = Rc::new(RefCell::new(Vec::new()));
    let mut stack: LayerStackImpl<LayerHandle> = LayerStackImpl::new();
    stack.push_overlay(ProbeLayer::boxed("o1", false, &log));
    assert_eq!(stack.overlay_offset(), 0);

    assert!(stack.pop_layer().is_none());
    assert_eq!(stack.overlay_offset(), 0);
    assert_eq!(stack.len(), 1);
}

#[test]
fn pop_overlay_on_empty_region_is_defined_empty() {
    let log = Rc::new(RefCell::new(Vec::new()));
    let mut stack: LayerStackImpl<LayerHandle> = LayerStackImpl::new();
    stack.push_layer(ProbeLayer::boxed("l1", false, &log));

    // The overlay region is empty; the layer region must not be drained.
    assert!(stack.pop_overlay().is_none());
    assert_eq!(stack.len(), 1);
    assert_eq!(stack.overlay_offset(), 1);
}

#[test]
fn most_recent_layer_receives_first_and_consumption_stops_propagation() {
    // L1 then L2 pushed, both able to handle the event: L2 receives it
    // first, and since L2 consumes it, L1 never receives it.
    let log = Rc::new(RefCell::new(Vec::new()));
    let mut stack: LayerStackImpl<LayerHandle> = LayerStackImpl::new();
    stack.push_layer(ProbeLayer::boxed("L1", true, &log));
    stack.push_layer(ProbeLayer::boxed("L2", true, &log));

    let consumed = stack.dispatch_event(Event::Keyboard(KeyboardEvent::Press(Key::A, 0))).0;
    assert!(consumed);
    assert_eq!(*log.borrow(), vec!["event L2".to_string()]);
}

#[test]
fn unconsumed_events_reach_every_layer_in_order() {
    let log = Rc::new(RefCell::new(Vec::new()));
    let mut stack: LayerStackImpl<LayerHandle> = LayerStackImpl::new();
    stack.push_layer(ProbeLayer::boxed("L1", false, &log));
    stack.push_layer(ProbeLayer::boxed("L2", false, &log));
    stack.push_overlay(ProbeLayer::boxed("O1", false, &log));
    stack.push_overlay(ProbeLayer::boxed("O2", false, &log));

    let consumed = stack.dispatch_event(Event::App(AppEvent::Tick)).0;
    assert!(!consumed);
    // Overlays first, most recent first; then layers, most recent first.
    assert_eq!(
        *log.borrow(),
        vec![
            "event O2".to_string(),
            "event O1".to_string(),
            "event L2".to_string(),
            "event L1".to_string(),
        ]
    );
}

#[test]
fn detach_all_runs_in_reverse_push_order_overlays_first() {
    // The stack's own pushes do not attach; drive lifecycle explicitly to
    // observe the teardown order alone.
    let log = Rc::new(RefCell::new(Vec::new()));
    let mut stack: LayerStackImpl<LayerHandle> = LayerStackImpl::new();
    for (name, overlay) in [("L1", false), ("L2", false), ("O1", true), ("O2", true)] {
        let mut handle = ProbeLayer::boxed(name, false, &log);
        handle.on_attach();
        if overlay {
            stack.push_overlay(handle);
        } else {
            stack.push_layer(handle);
        }
    }
    log.borrow_mut().clear();

    stack.detach_all();
    assert_eq!(stack.len(), 0);
    assert_eq!(stack.overlay_offset(), 0);
    assert_eq!(
        *log.borrow(),
        vec![
            "detach O2".to_string(),
            "detach O1".to_string(),
            "detach L2".to_string(),
            "detach L1".to_string(),
        ]
    );
}
