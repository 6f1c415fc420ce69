//! Events of the main loop, the decisions of the input multiplexer that
//! produces them, and the step that the main loop takes on each event.
//!
//! The multiplexer is a worker that polls the terminal with a fixed timeout
//! and forwards what it finds over one ordered channel. The worker itself
//! belongs to the program; what it does next after each outcome is decided
//! here by [`next_action`]. Likewise the main loop draws and waits for events;
//! what an event does to the model is decided here by [`handle_event`].

use vstd::prelude::*;
use crate::app_state::{AppState, AppStateView};
use crate::key::{KeyEvent, KeyEventKind};
use crate::message::{handle_key, handle_key_spec, update, update_spec};

verus! {

/// Unified event consumed by the main loop.
#[derive(Debug, Clone, Copy, PartialEq, Eq, Structural)]
pub enum Event {
    /// A key press. Releases and repeats never become events.
    Key(KeyEvent),
    /// The terminal was resized to the given width and height.
    Resize(u16, u16),
    /// The poll window elapsed without input.
    Tick,
}

/// What one read of the terminal returned.
#[derive(Debug, Clone, Copy, PartialEq, Eq, Structural)]
pub enum TerminalInput {
    /// A key occurrence of any kind.
    Key(KeyEvent),
    /// A resize to the given width and height.
    Resize(u16, u16),
    /// Any other occurrence, such as a focus change or a mouse event.
    Other,
}

/// Outcome of the step that the polling worker took last.
#[derive(Debug, Clone, Copy, PartialEq, Eq, Structural)]
pub enum Outcome {
    /// The worker has just started.
    Started,
    /// The poll returned: `Some(true)` when an occurrence is waiting,
    /// `Some(false)` when the window elapsed, `None` when the poll failed.
    Polled(Option<bool>),
    /// The read returned; `None` when it failed.
    Read(Option<TerminalInput>),
    /// The send returned; `false` when the receiving end is gone.
    Sent(bool),
}

/// What the polling worker does next.
#[derive(Debug, Clone, Copy, PartialEq, Eq, Structural)]
pub enum Action {
    /// Poll the terminal for one poll window.
    Poll,
    /// Read the occurrence that is waiting.
    Read,
    /// Push the event onto the channel.
    Send(Event),
    /// Terminate silently.
    Stop,
}

/// The event that an input of the terminal is forwarded as, if any: a key
/// press becomes a `Key` event, a resize a `Resize` event, everything else is
/// dropped.
pub open spec fn forwarded(input: TerminalInput) -> Option<Event> {
    match input {
        TerminalInput::Key(key) => if key.kind == KeyEventKind::Press {
            Some(Event::Key(key))
        } else {
            None
        },
        TerminalInput::Resize(width, height) => Some(Event::Resize(width, height)),
        TerminalInput::Other => None,
    }
}

/// The action that follows an outcome. The worker polls; a waiting occurrence
/// is read, an elapsed or failed poll sends a `Tick`; what was read is sent if
/// it is forwarded at all, else the worker polls again; after a delivered
/// event it polls again, after a failed send it stops.
pub open spec fn next_action_spec(outcome: Outcome) -> Action {
    match outcome {
        Outcome::Started => Action::Poll,
        Outcome::Polled(ready) => if ready == Some(true) {
            Action::Read
        } else {
            Action::Send(Event::Tick)
        },
        Outcome::Read(input) => match input {
            Some(input) => match forwarded(input) {
                Some(event) => Action::Send(event),
                None => Action::Poll,
            },
            None => Action::Poll,
        },
        Outcome::Sent(delivered) => if delivered {
            Action::Poll
        } else {
            Action::Stop
        },
    }
}

/// Decides how an input of the terminal is forwarded.
pub fn forward(input: TerminalInput) -> (r: Option<Event>)
    ensures
        r == forwarded(input),
{
    match input {
        TerminalInput::Key(key) => match key.kind {
            KeyEventKind::Press => Some(Event::Key(key)),
            _ => None,
        },
        TerminalInput::Resize(width, height) => Some(Event::Resize(width, height)),
        TerminalInput::Other => None,
    }
}

/// Decides what the polling worker does after `outcome`.
pub fn next_action(outcome: Outcome) -> (r: Action)
    ensures
        r == next_action_spec(outcome),
{
    match outcome {
        Outcome::Started => Action::Poll,
        Outcome::Polled(Some(true)) => Action::Read,
        Outcome::Polled(_) => Action::Send(Event::Tick),
        Outcome::Read(Some(input)) => match forward(input) {
            Some(event) => Action::Send(event),
            None => Action::Poll,
        },
        Outcome::Read(None) => Action::Poll,
        Outcome::Sent(true) => Action::Poll,
        Outcome::Sent(false) => Action::Stop,
    }
}

/// The state that follows `s` when the main loop consumes `event`: a key is
/// translated and the message, if there is one, applied; a resize and a tick
/// change nothing.
pub open spec fn handle_event_spec(s: AppStateView, event: Event) -> AppStateView {
    match event {
        Event::Key(key) => match handle_key_spec(key, s) {
            Some(msg) => update_spec(s, msg),
            None => s,
        },
        Event::Resize(_, _) => s,
        Event::Tick => s,
    }
}

/// One turn of the main loop on the event it received. Returns whether the
/// loop goes on: it ends as soon as the termination flag is set.
pub fn handle_event(app: &mut AppState, event: &Event) -> (running: bool)
    ensures
        final(app)@ == handle_event_spec(old(app)@, *event),
        running == !final(app)@.should_quit,
{
    match event {
        Event::Key(key) => {
            match handle_key(*key, app) {
                Some(msg) => update(app, &msg),
                None => {},
            }
        },
        Event::Resize(_, _) => {},
        Event::Tick => {},
    }
    !app.should_quit
}

} // verus!
