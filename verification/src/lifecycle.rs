//! The event loop's lifecycle: running until the managed window is asked to
//! close, exiting from then on.
//!
//! The toolkit delivers events one at a time and wants to know, after each,
//! how to go on. [`handle_event`] is that decision. It reads nothing of an
//! event but what [`LoopEvent`] holds, so whoever pumps the toolkit's events
//! describes each one as a `LoopEvent` and applies the [`LoopControl`] that
//! comes back.

use vstd::prelude::*;

verus! {

/// What happened to a window, as far as the loop tells events apart.
#[derive(Clone, Copy, Debug, PartialEq, Eq, Structural)]
pub enum WindowEventKind {
    /// The user asked to close the window; the window still exists.
    CloseRequested,
    /// The window is gone.
    Destroyed,
    /// The window changed size.
    Resized,
    /// The window changed place.
    Moved,
    /// The window gained or lost the input focus.
    Focused,
    /// Anything else: input, cursor, theme, scale.
    Other,
}

/// One event as the toolkit delivers it, reduced to what the loop reads.
#[derive(Clone, Copy, Debug, PartialEq, Eq, Structural)]
pub enum LoopEvent {
    /// Something happened to a window. `managed` tells whether it is the
    /// window this loop was started for.
    Window { managed: bool, kind: WindowEventKind },
    /// An event that belongs to no window: a device, a redraw, the loop's own
    /// bookkeeping.
    Other,
}

/// How the toolkit is told to go on after an event.
#[derive(Clone, Copy, Debug, PartialEq, Eq, Structural)]
pub enum LoopControl {
    /// Sleep until the next event arrives; never poll.
    Wait,
    /// Stop the loop.
    Exit,
}

/// Where the loop stands.
#[derive(Clone, Copy, Debug, PartialEq, Eq, Structural)]
pub enum LoopState {
    /// Events are handled and the loop waits for more.
    Running,
    /// The managed window was asked to close. There is no way back.
    Exiting,
}

impl LoopEvent {
    /// Whether this event is the request to close the managed window: the one
    /// event that ends the loop.
    pub open spec fn closes_managed_window(self) -> bool {
        self == (LoopEvent::Window { managed: true, kind: WindowEventKind::CloseRequested })
    }

    /// Tells whether this event is the request to close the managed window.
    pub fn is_close_request(&self) -> (yes: bool)
        ensures
            yes == self.closes_managed_window(),
    {
        match self {
            LoopEvent::Window { managed, kind } => *managed && matches!(
                kind,
                WindowEventKind::CloseRequested
            ),
            LoopEvent::Other => false,
        }
    }
}

impl LoopState {
    /// The state after one more event.
    pub open spec fn after(self, event: LoopEvent) -> LoopState {
        if self == LoopState::Exiting || event.closes_managed_window() {
            LoopState::Exiting
        } else {
            LoopState::Running
        }
    }

    /// The state after a run of events, handled first to last.
    pub open spec fn after_all(self, events: Seq<LoopEvent>) -> LoopState
        decreases events.len(),
    {
        if events.len() == 0 {
            self
        } else {
            self.after(events[0]).after_all(events.drop_first())
        }
    }

    /// What the toolkit is told in this state.
    pub open spec fn control(self) -> LoopControl {
        match self {
            LoopState::Running => LoopControl::Wait,
            LoopState::Exiting => LoopControl::Exit,
        }
    }
}

/// Handles one event: gives the state the loop is in afterwards, and what to
/// tell the toolkit.
///
/// A running loop exits on the request to close the managed window and on
/// nothing else; until then it waits. An exiting loop stays so.
pub fn handle_event(state: LoopState, event: &LoopEvent) -> (next: (LoopState, LoopControl))
    ensures
        next.0 == state.after(*event),
        next.1 == next.0.control(),
        next.1 == LoopControl::Exit <==> state == LoopState::Exiting
            || event.closes_managed_window(),
{
    match state {
        LoopState::Exiting => (LoopState::Exiting, LoopControl::Exit),
        LoopState::Running => {
            if event.is_close_request() {
                (LoopState::Exiting, LoopControl::Exit)
            } else {
                (LoopState::Running, LoopControl::Wait)
            }
        },
    }
}

/// An exiting loop is exiting after any run of events.
pub proof fn lemma_exiting_is_terminal(events: Seq<LoopEvent>)
    ensures
        LoopState::Exiting.after_all(events) == LoopState::Exiting,
    decreases events.len(),
{
    if events.len() > 0 {
        lemma_exiting_is_terminal(events.drop_first());
    }
}

/// A running loop is exiting after a run of events exactly when one of them
/// was the request to close the managed window.
pub proof fn lemma_exits_iff_close_requested(events: Seq<LoopEvent>)
    ensures
        LoopState::Running.after_all(events) == LoopState::Exiting <==> exists|i: int|
            0 <= i < events.len() && (#[trigger] events[i]).closes_managed_window(),
    decreases events.len(),
{
    if events.len() > 0 {
        let rest = events.drop_first();
        if events[0].closes_managed_window() {
            lemma_exiting_is_terminal(rest);
        } else {
            lemma_exits_iff_close_requested(rest);
            if LoopState::Running.after_all(rest) == LoopState::Exiting {
                let i = choose|i: int| 0 <= i < rest.len() && (#[trigger] rest[i]).closes_managed_window();
                assert(events[i + 1].closes_managed_window());
            }
            if exists|i: int| 0 <= i < events.len() && (#[trigger] events[i]).closes_managed_window() {
                let i = choose|i: int| 0 <= i < events.len() && (#[trigger] events[i]).closes_managed_window();
                assert(rest[i - 1].closes_managed_window());
            }
        }
    }
}

} // verus!
