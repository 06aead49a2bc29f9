//! The events a runtime dispatches, and the tags that travel with them.
use vstd::prelude::*;

verus! {

/// Whether some widget claimed an interaction event before it reached the
/// application.
#[derive(Clone, Copy, Debug, PartialEq, Eq, Hash)]
pub enum Status {
    /// No widget wanted the event.
    Ignored,
    /// A widget consumed the event.
    Captured,
}

/// Names the window an interaction event came from. It is a tag only.
#[derive(Clone, Copy, Debug, PartialEq, Eq, Hash)]
pub struct WindowId(pub u64);

/// A reading of the runtime's monotonic clock.
#[derive(Clone, Copy, Debug, PartialEq, Eq, Hash)]
pub struct Timestamp(pub u64);

/// What can happen to a window.
#[derive(Clone, Copy, Debug, PartialEq, Eq, Hash)]
pub enum WindowEvent {
    /// The window was opened.
    Opened,
    /// The window was closed.
    Closed,
    /// The user asked for the window to be closed.
    CloseRequested,
    /// The window gained focus.
    Focused,
    /// The window lost focus.
    Unfocused,
    /// The window was moved.
    Moved { x: i32, y: i32 },
    /// The window was resized.
    Resized { width: u32, height: u32 },
    /// The runtime asks the window to draw a frame, at the given time.
    RedrawRequested(Timestamp),
}

/// What can happen on the keyboard.
#[derive(Clone, Copy, Debug, PartialEq, Eq, Hash)]
pub enum KeyboardEvent {
    /// A key went down.
    KeyPressed { key: u32 },
    /// A key came up.
    KeyReleased { key: u32 },
}

/// What can happen with the pointer.
#[derive(Clone, Copy, Debug, PartialEq, Eq, Hash)]
pub enum MouseEvent {
    /// The cursor entered the window.
    CursorEntered,
    /// The cursor left the window.
    CursorLeft,
    /// The cursor moved to a position inside the window.
    CursorMoved { x: i32, y: i32 },
    /// A button went down.
    ButtonPressed { button: u8 },
    /// A button came up.
    ButtonReleased { button: u8 },
}

/// An interaction with a window.
#[derive(Clone, Copy, Debug, PartialEq, Eq, Hash)]
pub enum Event {
    /// A window event.
    Window(WindowEvent),
    /// A keyboard event.
    Keyboard(KeyboardEvent),
    /// A mouse event.
    Mouse(MouseEvent),
}

impl Event {
    /// A redraw request is the one interaction that the filtered
    /// subscriptions never hand to a user's filter.
    pub open spec fn redraw(&self) -> bool {
        self matches Event::Window(WindowEvent::RedrawRequested(_))
    }

    /// Tells whether this event is a redraw request.
    #[verifier::when_used_as_spec(redraw)]
    pub fn is_redraw(&self) -> (answer: bool)
        ensures
            answer == self.redraw(),
    {
        match self {
            Event::Window(WindowEvent::RedrawRequested(_)) => true,
            _ => false,
        }
    }
}

/// An event of the application itself rather than of one of its windows.
#[derive(Clone, Copy, Debug, PartialEq, Eq, Hash)]
pub enum ApplicationEvent {
    /// The application was asked to open again while it was running.
    ReOpen { has_visible_windows: bool },
}

/// One item of the feed that a runtime hands to every live subscription.
#[derive(Clone, Copy, Debug, PartialEq, Eq, Hash)]
pub enum RuntimeEvent {
    /// An interaction with a window, with the verdict of the widgets on it.
    Interaction { window: WindowId, event: Event, status: Status },
    /// An event of the application.
    Application { has_visible_windows: bool },
}

} // verus!
