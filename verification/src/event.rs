//! What travels through the tree: events, lifecycle notices and commands.

use crate::text::same_text;
use vstd::prelude::*;

verus! {

/// The identity of a node in the tree.
#[derive(Clone, Copy, Debug, PartialEq, Eq, Structural)]
pub struct WidgetId {
    pub raw: u64,
}

impl WidgetId {
    pub fn as_raw(self) -> (raw: u64)
        ensures
            raw == self.raw,
    {
        self.raw
    }
}

/// The identity of one external occurrence. Everything that the tree does
/// while it handles the occurrence carries this identifier.
#[derive(Clone, Copy, Debug, PartialEq, Eq, Structural)]
pub struct EventId {
    pub raw: u64,
}

impl EventId {
    pub fn as_raw(self) -> (raw: u64)
        ensures
            raw == self.raw,
    {
        self.raw
    }
}

/// The identity of a timer that a node has asked for.
#[derive(Clone, Copy, Debug, PartialEq, Eq, Structural)]
pub struct TimerToken {
    pub raw: u64,
}

/// The modifier keys that were down, one bit each.
#[derive(Clone, Copy, Debug, PartialEq, Eq, Structural)]
pub struct Modifiers {
    pub bits: u32,
}

/// A pointer occurrence.
#[derive(Clone, Copy)]
pub struct MouseEvent {
    pub pos: kurbo::Point,
    pub mods: Modifiers,
    pub button: u8,
}

/// A keyboard occurrence.
#[derive(Clone, Copy, Debug, PartialEq, Eq, Structural)]
pub struct KeyEvent {
    pub code: u32,
    pub mods: Modifiers,
}

/// A named token by which commands are told apart.
#[derive(Clone, Copy, Debug)]
pub struct Selector {
    pub name: &'static str,
}

/// What a command carries.
#[derive(Clone, Copy, Debug)]
pub enum Payload {
    Unit,
    Flag(bool),
    Index(usize),
    /// A node saw an event of the given kind while the given occurrence was handled.
    SeenEvent(EventId, WidgetId, EventKind),
    /// A node saw a command with the given selector while the given occurrence was handled.
    SeenCommand(EventId, WidgetId, Selector),
}

/// An addressed payload, broadcast through the tree and recognised by its selector.
#[derive(Clone, Copy, Debug)]
pub struct Command {
    pub selector: Selector,
    pub payload: Payload,
    pub target: Option<WidgetId>,
}

/// A payload that a node sends up to its ancestors.
#[derive(Clone, Copy, Debug)]
pub struct Notification {
    pub selector: Selector,
    pub payload: Payload,
    pub source: WidgetId,
}

/// An occurrence that the framework routes for its own bookkeeping.
#[derive(Clone, Copy, Debug)]
pub enum InternalEvent {
    MouseLeave,
    TargetedCommand(Command),
    RouteTimer(TimerToken, WidgetId),
}

/// An external occurrence, as the backend hands it to the tree.
#[derive(Clone, Copy)]
pub enum Event {
    WindowConnected,
    WindowCloseRequested,
    WindowDisconnected,
    WindowSize(kurbo::Size),
    MouseDown(MouseEvent),
    MouseUp(MouseEvent),
    MouseMove(MouseEvent),
    Wheel(MouseEvent),
    KeyDown(KeyEvent),
    KeyUp(KeyEvent),
    Paste,
    Zoom,
    Timer(TimerToken),
    AnimFrame(u64),
    /// A drag gesture has entered the window.
    DropEnter,
    /// The drag gesture has left the window.
    DropLeave,
    Command(Command),
    Notification(Notification),
    Internal(InternalEvent),
}

/// The kind of an event, without what it carries.
#[derive(Clone, Copy, Debug, PartialEq, Eq, Structural)]
pub enum EventKind {
    WindowConnected,
    WindowCloseRequested,
    WindowDisconnected,
    WindowSize,
    MouseDown,
    MouseUp,
    MouseMove,
    Wheel,
    KeyDown,
    KeyUp,
    Paste,
    Zoom,
    Timer,
    AnimFrame,
    DropEnter,
    DropLeave,
    Command,
    Notification,
    Internal,
}

/// A lifecycle notice that the framework routes for its own bookkeeping.
#[derive(Clone, Copy, Debug)]
pub enum InternalLifeCycle {
    RouteWidgetAdded,
    /// Focus moves from one node to another; every node may have lost it.
    RouteFocusChanged { old: Option<WidgetId>, new: Option<WidgetId> },
    ParentWindowOrigin,
}

/// A structural occurrence that a node is told of.
#[derive(Clone, Copy)]
pub enum LifeCycle {
    /// The node has been added to the tree.
    WidgetAdded,
    /// The node's size has changed.
    Size(kurbo::Size),
    /// The pointer has come over the node, or left it.
    HotChanged(bool),
    /// The node has gained or lost focus.
    FocusChanged(bool),
    Internal(InternalLifeCycle),
}

impl Selector {
    pub fn new(name: &'static str) -> (selector: Selector)
        ensures
            selector.name == name,
    {
        Selector { name }
    }

    /// Two selectors are the same token when their names are the same.
    pub open spec fn matches(self, other: Selector) -> bool {
        self.name@ == other.name@
    }

    pub fn same(&self, other: &Selector) -> (same: bool)
        ensures
            same == self.matches(*other),
    {
        same_text(self.name, other.name)
    }

    /// A command with this selector that carries `payload`, addressed to every node.
    pub fn with(self, payload: Payload) -> (command: Command)
        ensures
            command == (Command { selector: self, payload, target: None }),
    {
        Command { selector: self, payload, target: None }
    }
}

impl Command {
    pub fn new(selector: Selector, payload: Payload) -> (command: Command)
        ensures
            command == (Command { selector, payload, target: None }),
    {
        Command { selector, payload, target: None }
    }

    /// The same command, addressed to the node `target`.
    pub fn to(self, target: WidgetId) -> (command: Command)
        ensures
            command == (Command { target: Some(target), ..self }),
    {
        Command { selector: self.selector, payload: self.payload, target: Some(target) }
    }

    /// Whether this command is one of `selector`.
    pub open spec fn spec_is(&self, selector: Selector) -> bool {
        self.selector.matches(selector)
    }

    /// Whether this command is one of `selector`.
    #[verifier::when_used_as_spec(spec_is)]
    pub fn is(&self, selector: Selector) -> (yes: bool)
        ensures
            yes == self.spec_is(selector),
    {
        self.selector.same(&selector)
    }

    /// What this command carries, if it is one of `selector`.
    pub open spec fn spec_get(&self, selector: Selector) -> Option<Payload> {
        if self.selector.matches(selector) {
            Some(self.payload)
        } else {
            None
        }
    }

    /// What this command carries, if it is one of `selector`.
    #[verifier::when_used_as_spec(spec_get)]
    pub fn get(&self, selector: Selector) -> (payload: Option<Payload>)
        ensures
            payload == self.spec_get(selector),
    {
        if self.selector.same(&selector) {
            Some(self.payload)
        } else {
            None
        }
    }
}

impl Event {
    /// The kind of this event.
    pub open spec fn spec_kind(&self) -> EventKind {
        match self {
            Event::WindowConnected => EventKind::WindowConnected,
            Event::WindowCloseRequested => EventKind::WindowCloseRequested,
            Event::WindowDisconnected => EventKind::WindowDisconnected,
            Event::WindowSize(_) => EventKind::WindowSize,
            Event::MouseDown(_) => EventKind::MouseDown,
            Event::MouseUp(_) => EventKind::MouseUp,
            Event::MouseMove(_) => EventKind::MouseMove,
            Event::Wheel(_) => EventKind::Wheel,
            Event::KeyDown(_) => EventKind::KeyDown,
            Event::KeyUp(_) => EventKind::KeyUp,
            Event::Paste => EventKind::Paste,
            Event::Zoom => EventKind::Zoom,
            Event::Timer(_) => EventKind::Timer,
            Event::AnimFrame(_) => EventKind::AnimFrame,
            Event::DropEnter => EventKind::DropEnter,
            Event::DropLeave => EventKind::DropLeave,
            Event::Command(_) => EventKind::Command,
            Event::Notification(_) => EventKind::Notification,
            Event::Internal(_) => EventKind::Internal,
        }
    }

    /// The kind of this event.
    #[verifier::when_used_as_spec(spec_kind)]
    pub fn kind(&self) -> (kind: EventKind)
        ensures
            kind == self.spec_kind(),
    {
        match self {
            Event::WindowConnected => EventKind::WindowConnected,
            Event::WindowCloseRequested => EventKind::WindowCloseRequested,
            Event::WindowDisconnected => EventKind::WindowDisconnected,
            Event::WindowSize(_) => EventKind::WindowSize,
            Event::MouseDown(_) => EventKind::MouseDown,
            Event::MouseUp(_) => EventKind::MouseUp,
            Event::MouseMove(_) => EventKind::MouseMove,
            Event::Wheel(_) => EventKind::Wheel,
            Event::KeyDown(_) => EventKind::KeyDown,
            Event::KeyUp(_) => EventKind::KeyUp,
            Event::Paste => EventKind::Paste,
            Event::Zoom => EventKind::Zoom,
            Event::Timer(_) => EventKind::Timer,
            Event::AnimFrame(_) => EventKind::AnimFrame,
            Event::DropEnter => EventKind::DropEnter,
            Event::DropLeave => EventKind::DropLeave,
            Event::Command(_) => EventKind::Command,
            Event::Notification(_) => EventKind::Notification,
            Event::Internal(_) => EventKind::Internal,
        }
    }

    /// Whether a node that is not shown must still see this event.
    ///
    /// Pointer, keyboard and drag input goes to what is on screen. What
    /// concerns the window, a timer, an animation, a command, a notification
    /// or the framework's own routing reaches every node.
    pub open spec fn spec_should_propagate_to_hidden(&self) -> bool {
        match self {
            Event::WindowConnected
            | Event::WindowCloseRequested
            | Event::WindowDisconnected
            | Event::WindowSize(_)
            | Event::Timer(_)
            | Event::AnimFrame(_)
            | Event::Command(_)
            | Event::Notification(_)
            | Event::Internal(_) => true,
            Event::MouseDown(_)
            | Event::MouseUp(_)
            | Event::MouseMove(_)
            | Event::Wheel(_)
            | Event::KeyDown(_)
            | Event::KeyUp(_)
            | Event::Paste
            | Event::Zoom
            | Event::DropEnter
            | Event::DropLeave => false,
        }
    }

    /// Whether a node that is not shown must still see this event.
    #[verifier::when_used_as_spec(spec_should_propagate_to_hidden)]
    pub fn should_propagate_to_hidden(&self) -> (yes: bool)
        ensures
            yes == self.spec_should_propagate_to_hidden(),
    {
        match self {
            Event::WindowConnected
            | Event::WindowCloseRequested
            | Event::WindowDisconnected
            | Event::WindowSize(_)
            | Event::Timer(_)
            | Event::AnimFrame(_)
            | Event::Command(_)
            | Event::Notification(_)
            | Event::Internal(_) => true,
            Event::MouseDown(_)
            | Event::MouseUp(_)
            | Event::MouseMove(_)
            | Event::Wheel(_)
            | Event::KeyDown(_)
            | Event::KeyUp(_)
            | Event::Paste
            | Event::Zoom
            | Event::DropEnter
            | Event::DropLeave => false,
        }
    }
}

impl InternalLifeCycle {
    /// Whether a node that is not shown must still see this notice.
    pub open spec fn spec_should_propagate_to_hidden(&self) -> bool {
        match self {
            InternalLifeCycle::RouteWidgetAdded | InternalLifeCycle::RouteFocusChanged { .. } => true,
            InternalLifeCycle::ParentWindowOrigin => false,
        }
    }

    /// Whether a node that is not shown must still see this notice.
    #[verifier::when_used_as_spec(spec_should_propagate_to_hidden)]
    pub fn should_propagate_to_hidden(&self) -> (yes: bool)
        ensures
            yes == self.spec_should_propagate_to_hidden(),
    {
        match self {
            InternalLifeCycle::RouteWidgetAdded | InternalLifeCycle::RouteFocusChanged { .. } => true,
            InternalLifeCycle::ParentWindowOrigin => false,
        }
    }
}

impl LifeCycle {
    /// Whether a node that is not shown must still see this notice.
    ///
    /// That a node was added, and where focus went, concerns every node;
    /// its own size, hover and focus concern a node that is shown.
    pub open spec fn spec_should_propagate_to_hidden(&self) -> bool {
        match self {
            LifeCycle::Internal(internal) => internal.spec_should_propagate_to_hidden(),
            LifeCycle::WidgetAdded => true,
            LifeCycle::Size(_) | LifeCycle::HotChanged(_) | LifeCycle::FocusChanged(_) => false,
        }
    }

    /// Whether a node that is not shown must still see this notice.
    #[verifier::when_used_as_spec(spec_should_propagate_to_hidden)]
    pub fn should_propagate_to_hidden(&self) -> (yes: bool)
        ensures
            yes == self.spec_should_propagate_to_hidden(),
    {
        match self {
            LifeCycle::Internal(internal) => internal.should_propagate_to_hidden(),
            LifeCycle::WidgetAdded => true,
            LifeCycle::Size(_) | LifeCycle::HotChanged(_) | LifeCycle::FocusChanged(_) => false,
        }
    }
}

} // verus!
