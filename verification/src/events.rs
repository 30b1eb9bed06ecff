//! The keyboard/close events the demo reacts to. Each poll cycle drains the
//! platform's event queue; the only events that matter are a window-close
//! request and a press transition of the Escape key, either of which flags
//! the window for close. Everything else is drained and discarded.

use vstd::prelude::*;

verus! {

/// A key, as far as this demo distinguishes keys: Escape is the only one
/// it recognizes.
#[derive(Clone, Copy, Debug, PartialEq, Eq, Structural)]
pub enum Key {
    /// The Escape key.
    Escape,
    /// Any other key.
    Other,
}

/// A key transition.
#[derive(Clone, Copy, Debug, PartialEq, Eq, Structural)]
pub enum KeyAction {
    /// The key went down.
    Press,
    /// The key came up.
    Release,
    /// The key is held and auto-repeating.
    Repeat,
}

/// One drained event.
#[derive(Clone, Copy, Debug, PartialEq, Eq, Structural)]
pub enum WindowEvent {
    /// A key made the given transition.
    KeyInput(Key, KeyAction),
    /// The platform asked the window to close.
    CloseRequested,
    /// Any other window event; drained and discarded.
    Other,
}

/// Whether one event flags the window for close: a press transition of the
/// Escape key does, a close request does, and nothing else does — not a
/// release or repeat of Escape, and no other key in any transition.
pub open spec fn event_requests_close(e: WindowEvent) -> bool {
    match e {
        WindowEvent::KeyInput(k, a) => k == Key::Escape && a == KeyAction::Press,
        WindowEvent::CloseRequested => true,
        WindowEvent::Other => false,
    }
}

/// Whether any event of a drained queue flags the window for close.
pub open spec fn any_requests_close(events: Seq<WindowEvent>) -> bool {
    exists|i: int| 0 <= i < events.len() && event_requests_close(events[i])
}

/// Folds one event into the close flag: the flag is set afterwards exactly
/// when it was set before or this event requests the close.
pub fn handle_event(e: &WindowEvent, should_close: bool) -> (r: bool)
    ensures
        r == (should_close || event_requests_close(*e)),
{
    match e {
        WindowEvent::KeyInput(Key::Escape, KeyAction::Press) => true,
        WindowEvent::CloseRequested => true,
        _ => should_close,
    }
}

/// Drains a whole event queue into the close flag: the flag is set
/// afterwards exactly when it was set before or some drained event
/// requests the close.
pub fn handle_events(events: &Vec<WindowEvent>, should_close: bool) -> (r: bool)
    ensures
        r == (should_close || any_requests_close(events@)),
{
    let mut flag = should_close;
    let mut i: usize = 0;
    while i < events.len()
        invariant
            0 <= i <= events.len(),
            flag == (should_close || any_requests_close(events@.take(i as int))),
        decreases events.len() - i,
    {
        flag = handle_event(&events[i], flag);
        proof {
            assert(events@.take(i + 1) == events@.take(i as int).push(events@[i as int]));
            assert(events@.take(i + 1)[i as int] == events@[i as int]);
            if event_requests_close(events@[i as int]) {
                assert(any_requests_close(events@.take(i + 1)));
            }
        }
        i = i + 1;
    }
    proof {
        assert(events@.take(events@.len() as int) == events@);
    }
    flag
}

} // verus!
