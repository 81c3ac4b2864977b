//! Identities, input events, lifecycle notices and deferred commands.

use vstd::prelude::*;
use crate::geometry::{Point, Size, Vec2};

verus! {

/// The identity of a containment node. It is given once, when the node is
/// made, and never changes.
#[derive(Clone, Copy, Debug, PartialEq, Eq, Hash, Structural)]
pub struct WidgetId(pub u64);

/// The identity of a window.
#[derive(Clone, Copy, Debug, PartialEq, Eq, Hash, Structural)]
pub struct WindowId(pub u64);

/// The counter that identities are drawn from.
///
/// Identities come out in rising order. Once the counter has reached the last
/// `u64` it stays there and hands that number out again.
#[derive(Debug, PartialEq, Eq)]
pub struct IdSource {
    pub next: u64,
}

impl IdSource {
    /// A source that starts at `first`.
    pub fn starting_at(first: u64) -> (r: IdSource)
        ensures
            r.next == first,
    {
        IdSource { next: first }
    }

    /// A source that starts at zero.
    pub fn new() -> (r: IdSource)
        ensures
            r.next == 0,
    {
        IdSource { next: 0 }
    }

    /// No unused number is left.
    pub open spec fn exhausted(&self) -> bool {
        self.next == u64::MAX
    }

    /// The counter after one draw.
    pub open spec fn after_draw(next: u64) -> u64 {
        if next < u64::MAX {
            (next + 1) as u64
        } else {
            next
        }
    }

    /// Draws the next number.
    pub fn draw(&mut self) -> (r: u64)
        ensures
            r == old(self).next,
            final(self).next == Self::after_draw(old(self).next),
    {
        let n = self.next;
        if n < u64::MAX {
            self.next = n + 1;
        }
        n
    }

    /// Draws the identity of a new node.
    pub fn next_widget_id(&mut self) -> (r: WidgetId)
        ensures
            r == WidgetId(old(self).next),
            final(self).next == Self::after_draw(old(self).next),
    {
        WidgetId(self.draw())
    }

    /// Draws the identity of a new window.
    pub fn next_window_id(&mut self) -> (r: WindowId)
        ensures
            r == WindowId(old(self).next),
            final(self).next == Self::after_draw(old(self).next),
    {
        WindowId(self.draw())
    }
}

/// Two draws from a source that is not exhausted give two different
/// identities, the later one the larger.
pub proof fn lemma_draws_differ(first: u64)
    requires
        first < u64::MAX,
    ensures
        first < IdSource::after_draw(first),
{
}

/// A token for a timer that the host runs.
#[derive(Clone, Copy, Debug, PartialEq, Eq, Structural)]
pub struct TimerToken(pub u64);

/// A pointer event: where it happened and, for the wheel, by how much.
#[derive(Clone, Copy, Debug, PartialEq, Eq, Structural)]
pub struct MouseEvent {
    pub pos: Point,
    pub wheel_delta: Vec2,
}

impl MouseEvent {
    /// A pointer event at `pos` with no wheel movement.
    pub fn at(pos: Point) -> (r: MouseEvent)
        ensures
            r == (MouseEvent { pos, wheel_delta: Vec2 { x: 0, y: 0 } }),
    {
        MouseEvent { pos, wheel_delta: Vec2 { x: 0, y: 0 } }
    }

    /// The same event seen from a frame whose origin lies at `origin`.
    pub open spec fn spec_relative_to(self, origin: Point) -> MouseEvent {
        MouseEvent { pos: self.pos.spec_minus(origin.spec_to_vec2()), wheel_delta: self.wheel_delta }
    }

    pub fn relative_to(self, origin: Point) -> (r: MouseEvent)
        ensures
            r == self.spec_relative_to(origin),
    {
        MouseEvent { pos: self.pos.minus(origin.to_vec2()), wheel_delta: self.wheel_delta }
    }
}

/// A key press or release.
#[derive(Clone, Copy, Debug, PartialEq, Eq, Structural)]
pub struct KeyEvent {
    pub code: u32,
}

/// What a command carries.
#[derive(Clone, Debug)]
pub enum Payload {
    Empty,
    Flag(bool),
    Number(i64),
    Offset(Vec2),
    Text(String),
}

/// Whom a command is for.
#[derive(Clone, Copy, Debug, PartialEq, Eq, Structural)]
pub enum Target {
    /// Every node.
    Global,
    /// The node with this identity.
    Widget(WidgetId),
}

/// The symbol of the command a binding host sends itself to get a round in
/// which it may change the data.
pub const APPLY_BINDINGS: u64 = 1;

/// The symbol of the command that carries data from a parent to a sub-window.
pub const SUB_WINDOW_PARENT_TO_HOST: u64 = 2;

/// The symbol of the command that carries data from a sub-window to its parent.
pub const SUB_WINDOW_HOST_TO_PARENT: u64 = 3;

/// A deferred message. It reaches its target in the next round, on the same
/// thread.
#[derive(Clone, Debug)]
pub struct Command {
    pub selector: u64,
    pub target: Target,
    pub payload: Payload,
}

impl Command {
    /// A command without payload.
    pub fn new(selector: u64, target: Target) -> (r: Command)
        ensures
            r.selector == selector,
            r.target == target,
            r.payload == Payload::Empty,
    {
        Command { selector, target, payload: Payload::Empty }
    }

    /// A command that carries `payload`.
    pub fn with_payload(selector: u64, target: Target, payload: Payload) -> (r: Command)
        ensures
            r.selector == selector,
            r.target == target,
            r.payload == payload,
    {
        Command { selector, target, payload }
    }

    /// Whether this command has the given symbol.
    pub fn is(&self, selector: u64) -> (r: bool)
        ensures
            r == (self.selector == selector),
    {
        self.selector == selector
    }
}

/// One input event, as the host hands it to the root.
#[derive(Clone, Debug)]
pub enum Event {
    WindowConnected,
    WindowSize(Size),
    MouseDown(MouseEvent),
    MouseUp(MouseEvent),
    MouseMove(MouseEvent),
    Wheel(MouseEvent),
    KeyDown(KeyEvent),
    KeyUp(KeyEvent),
    Paste(String),
    Zoom(i64),
    Timer(TimerToken),
    Command(Command),
    Internal(u64),
}

impl Event {
    /// The position of a pointer event.
    pub open spec fn spec_pointer(&self) -> Option<MouseEvent> {
        match self {
            Event::MouseDown(m) | Event::MouseUp(m) | Event::MouseMove(m) | Event::Wheel(m) => Some(
                *m,
            ),
            _ => None,
        }
    }

    pub fn pointer(&self) -> (r: Option<MouseEvent>)
        ensures
            r == self.spec_pointer(),
    {
        match self {
            Event::MouseDown(m) => Some(*m),
            Event::MouseUp(m) => Some(*m),
            Event::MouseMove(m) => Some(*m),
            Event::Wheel(m) => Some(*m),
            _ => None,
        }
    }

    /// This event seen from a frame whose origin lies at `origin`. Only
    /// pointer events have a position to move.
    pub open spec fn spec_relative_to(&self, origin: Point) -> Event {
        match self {
            Event::MouseDown(m) => Event::MouseDown(m.spec_relative_to(origin)),
            Event::MouseUp(m) => Event::MouseUp(m.spec_relative_to(origin)),
            Event::MouseMove(m) => Event::MouseMove(m.spec_relative_to(origin)),
            Event::Wheel(m) => Event::Wheel(m.spec_relative_to(origin)),
            _ => *self,
        }
    }

    /// The pointer event moved into the frame at `origin`; `None` for an
    /// event without position, which is the same in every frame.
    pub fn relative_to(&self, origin: Point) -> (r: Option<Event>)
        ensures
            self.spec_pointer() is Some ==> r == Some(self.spec_relative_to(origin)),
            self.spec_pointer() is None ==> r is None && self.spec_relative_to(origin) == *self,
    {
        match self {
            Event::MouseDown(m) => Some(Event::MouseDown(m.relative_to(origin))),
            Event::MouseUp(m) => Some(Event::MouseUp(m.relative_to(origin))),
            Event::MouseMove(m) => Some(Event::MouseMove(m.relative_to(origin))),
            Event::Wheel(m) => Some(Event::Wheel(m.relative_to(origin))),
            _ => None,
        }
    }
}

/// The internal notice that is passed down the tree after the set of nodes
/// changed. It goes down only where something changed, and a node that has
/// not joined the tree hears it as the notice that it has joined.
pub const ROUTE_WIDGET_ADDED: u64 = 1;

/// A structural notice.
#[derive(Clone, Copy, Debug, PartialEq, Eq, Structural)]
pub enum LifeCycle {
    /// The node has joined the tree. It is the first thing a node hears.
    WidgetAdded,
    Size(Size),
    /// A frame has passed; the number is the time since the last one, in
    /// nanoseconds.
    AnimFrame(u64),
    HotChanged(bool),
    FocusChanged(bool),
    Internal(u64),
}

} // verus!
