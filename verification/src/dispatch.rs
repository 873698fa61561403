//! Event queue, listener capability and the single routing function.
//!
//! Pending events are buffered per tick and consumed most-recent-first.  The
//! mapping from an event to the one listener method it invokes lives in
//! [`propagate_event`] and nowhere else.

use vstd::prelude::*;

use crate::event::{AppEvent, Event, Key, KeyboardEvent, Modifier, MouseButton, MouseEvent,
    WindowEvent};

verus! {

/// A buffer of pending events: appended at the end, consumed from the end,
/// so the most recently pushed event is handled first within a tick.
pub struct EventQueue {
    events: Vec<Event>,
}

impl EventQueue {
    /// The pending events in arrival order.
    pub closed spec fn view(&self) -> Seq<Event> {
        self.events@
    }

    pub fn new() -> (r: EventQueue)
        ensures
            r@ == Seq::<Event>::empty(),
    {
        EventQueue { events: Vec::new() }
    }

    /// Appends an event.
    pub fn push(&mut self, event: Event)
        ensures
            final(self)@ == old(self)@.push(event),
    {
        self.events.push(event);
    }

    /// Removes and returns the most recently pushed event, or signals an
    /// empty buffer.
    pub fn pop(&mut self) -> (r: Option<Event>)
        ensures
            old(self)@.len() > 0 ==> r == Some(old(self)@.last()) && final(self)@ == old(
                self,
            )@.drop_last(),
            old(self)@.len() == 0 ==> r is None && final(self)@ == old(self)@,
    {
        self.events.pop()
    }

    /// The number of pending events.
    pub fn len(&self) -> (r: usize)
        ensures
            r == self@.len(),
    {
        self.events.len()
    }

    /// A read-only walk over the pending events, oldest first.
    pub fn iter(&self) -> (r: &Vec<Event>)
        ensures
            r@ == self@,
    {
        &self.events
    }
}

/// A listener taken as a whole: one entry point per event, used where the
/// routing below has already happened or is delegated.
pub trait GenericEventListener {
    /// Whether the listener may currently be offered events; event delivery
    /// keeps a listener listening.
    spec fn listening(&self) -> bool;

    /// Offers one event; the result reports whether the event was consumed.
    fn on_event(&mut self, event: Event) -> (r: bool)
        requires
            old(self).listening(),
        ensures
            final(self).listening(),
        default_ensures
            r == false,
    {
        false
    }
}

/// The polymorphic event capability: one method per event kind, each
/// defaulting to "not handled" without touching the listener.
///
/// `ready` is the listener's own well-formedness; every handler preserves it
/// and may rely on it.
pub trait EventListener {
    /// Whether the listener may currently be offered events.
    spec fn ready(&self) -> bool;

    fn on_app_tick(&mut self) -> (r: bool)
        requires
            old(self).ready(),
        ensures
            final(self).ready(),
        default_ensures
            r == false,
    {
        false
    }

    fn on_app_update(&mut self) -> (r: bool)
        requires
            old(self).ready(),
        ensures
            final(self).ready(),
        default_ensures
            r == false,
    {
        false
    }

    fn on_app_render(&mut self) -> (r: bool)
        requires
            old(self).ready(),
        ensures
            final(self).ready(),
        default_ensures
            r == false,
    {
        false
    }

    fn on_window_close(&mut self) -> (r: bool)
        requires
            old(self).ready(),
        ensures
            final(self).ready(),
        default_ensures
            r == false,
    {
        false
    }

    fn on_window_resize(&mut self, width: u32, height: u32) -> (r: bool)
        requires
            old(self).ready(),
        ensures
            final(self).ready(),
        default_ensures
            r == false,
    {
        false
    }

    fn on_window_focus(&mut self, focused: bool) -> (r: bool)
        requires
            old(self).ready(),
        ensures
            final(self).ready(),
        default_ensures
            r == false,
    {
        false
    }

    fn on_key_press(&mut self, key: Key, mods: Modifier) -> (r: bool)
        requires
            old(self).ready(),
        ensures
            final(self).ready(),
        default_ensures
            r == false,
    {
        false
    }

    fn on_key_release(&mut self, key: Key, mods: Modifier) -> (r: bool)
        requires
            old(self).ready(),
        ensures
            final(self).ready(),
        default_ensures
            r == false,
    {
        false
    }

    fn on_key_repeat(&mut self, key: Key, mods: Modifier) -> (r: bool)
        requires
            old(self).ready(),
        ensures
            final(self).ready(),
        default_ensures
            r == false,
    {
        false
    }

    fn on_mouse_press(&mut self, button: MouseButton, mods: Modifier) -> (r: bool)
        requires
            old(self).ready(),
        ensures
            final(self).ready(),
        default_ensures
            r == false,
    {
        false
    }

    fn on_mouse_release(&mut self, button: MouseButton, mods: Modifier) -> (r: bool)
        requires
            old(self).ready(),
        ensures
            final(self).ready(),
        default_ensures
            r == false,
    {
        false
    }

    fn on_mouse_move(&mut self, x: i64, y: i64) -> (r: bool)
        requires
            old(self).ready(),
        ensures
            final(self).ready(),
        default_ensures
            r == false,
    {
        false
    }

    fn on_mouse_scroll(&mut self, dx: i64, dy: i64) -> (r: bool)
        requires
            old(self).ready(),
        ensures
            final(self).ready(),
        default_ensures
            r == false,
    {
        false
    }
}

/// Events that no listener method is mapped to: routing returns "not
/// handled" for them without invoking anything.
pub open spec fn unmapped(event: Event) -> bool {
    match event {
        Event::Nothing => true,
        Event::Mouse(MouseEvent::Repeat(..)) => true,
        _ => false,
    }
}

/// Maps an event to the single matching listener method and returns its
/// result; unmapped events are dropped unhandled.  This is the sole place
/// where event-to-method routing is defined.
pub fn propagate_event<L: EventListener>(event: Event, listener: &mut L) -> (r: bool)
    requires
        old(listener).ready(),
    ensures
        final(listener).ready(),
        unmapped(event) ==> r == false && *final(listener) == *old(listener),
{
    match event {
        Event::App(AppEvent::Tick) => listener.on_app_tick(),
        Event::Window(WindowEvent::Close) => listener.on_window_close(),
        Event::Window(WindowEvent::Resize(w, h)) => listener.on_window_resize(w, h),
        Event::Window(WindowEvent::Focus(focused)) => listener.on_window_focus(focused),
        Event::Keyboard(KeyboardEvent::Press(key, mods)) => listener.on_key_press(key, mods),
        Event::Keyboard(KeyboardEvent::Release(key, mods)) => listener.on_key_release(key, mods),
        Event::Keyboard(KeyboardEvent::Repeat(key, mods)) => listener.on_key_repeat(key, mods),
        Event::Mouse(MouseEvent::Press(button, mods)) => listener.on_mouse_press(button, mods),
        Event::Mouse(MouseEvent::Release(button, mods)) => listener.on_mouse_release(button, mods),
        Event::Mouse(MouseEvent::Move(x, y)) => listener.on_mouse_move(x, y),
        Event::Mouse(MouseEvent::Scroll(dx, dy)) => listener.on_mouse_scroll(dx, dy),
        Event::Mouse(MouseEvent::Repeat(..)) => false,
        Event::Nothing => false,
    }
}

/// Collects events during a tick and hands them out for dispatch.
pub trait EventDispatcher {
    /// The events collected and not yet consumed, in arrival order.
    spec fn pending(&self) -> Seq<Event>;

    /// Buffers one event for the current tick.
    fn dispatch(&mut self, event: Event)
        ensures
            final(self).pending() == old(self).pending().push(event),
    ;

    /// Drains the buffer, offering each event to the listener in
    /// most-recent-first order; the returned ghost trace is the exact
    /// delivery order, the reverse of the arrival order.
    ///
    /// The dispatcher is exclusively borrowed for the whole drain, so the
    /// listener cannot buffer new events with it mid-drain: one pass
    /// delivers exactly the events that were pending when it began.
    fn consume<L: GenericEventListener>(&mut self, listener: &mut L) -> (delivered: Ghost<
        Seq<Event>,
    >)
        requires
            old(listener).listening(),
        ensures
            final(self).pending() == Seq::<Event>::empty(),
            final(listener).listening(),
            delivered@ == old(self).pending().reverse(),
    ;
}

/// The one dispatcher of this crate, backed by an [`EventQueue`].
pub struct EventDispatcherImpl {
    queue: EventQueue,
}

impl EventDispatcherImpl {
    pub fn new() -> (r: EventDispatcherImpl)
        ensures
            r.pending() == Seq::<Event>::empty(),
    {
        EventDispatcherImpl { queue: EventQueue::new() }
    }

    /// The number of buffered events.
    pub fn pending_len(&self) -> (r: usize)
        ensures
            r == self.pending().len(),
    {
        self.queue.len()
    }

    /// Removes and returns the most recently buffered event, or signals an
    /// empty buffer.
    pub fn pop(&mut self) -> (r: Option<Event>)
        ensures
            old(self).pending().len() > 0 ==> r == Some(old(self).pending().last())
                && final(self).pending() == old(self).pending().drop_last(),
            old(self).pending().len() == 0 ==> r is None && final(self).pending() == old(
                self,
            ).pending(),
    {
        self.queue.pop()
    }
}

impl EventDispatcher for EventDispatcherImpl {
    closed spec fn pending(&self) -> Seq<Event> {
        self.queue@
    }

    fn dispatch(&mut self, event: Event) {
        self.queue.push(event);
    }

    fn consume<L: GenericEventListener>(&mut self, listener: &mut L) -> (delivered: Ghost<
        Seq<Event>,
    >) {
        let ghost pending0 = self.queue@;
        let mut delivered: Ghost<Seq<Event>> = Ghost(Seq::empty());
        while self.queue.len() > 0
            invariant
                listener.listening(),
                delivered@.len() + self.queue@.len() == pending0.len(),
                self.queue@ == pending0.take(self.queue@.len() as int),
                forall|j: int|
                    0 <= j < delivered@.len() ==> delivered@[j] == pending0[pending0.len() - 1 - j],
            decreases self.queue@.len(),
        {
            let event = self.queue.pop().unwrap();
            listener.on_event(event);
            proof {
                delivered@ = delivered@.push(event);
            }
        }
        proof {
            assert forall|j: int| 0 <= j < delivered@.len() implies delivered@[j]
                == pending0.reverse()[j] by {
                assert(delivered@[j] == pending0[pending0.len() - 1 - j]);
            }
            assert(delivered@ =~= pending0.reverse());
        }
        delivered
    }
}

} // verus!
