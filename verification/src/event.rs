//! The toolkit's event vocabulary and its queue of pending events.

use vstd::prelude::*;

verus! {

/// A position in window coordinates.
#[derive(Clone, Copy, Debug, PartialEq, Eq, Structural)]
pub struct Point {
    pub x: i32,
    pub y: i32,
}

impl Point {
    /// The top-left corner of the window.
    pub open spec fn origin() -> Point {
        Point { x: 0, y: 0 }
    }
}

impl Default for Point {
    fn default() -> (point: Point)
        ensures
            point == Point::origin(),
    {
        Point { x: 0, y: 0 }
    }
}

/// One of the three mouse buttons the backend tells apart.
#[derive(Clone, Copy, Debug, PartialEq, Eq, Structural)]
pub enum MouseButton {
    Left,
    Middle,
    Right,
}

/// A symbolic key.
#[derive(Clone, Copy, Debug, PartialEq, Eq, Structural)]
pub enum Key {
    Backspace,
    Up,
    Down,
    Left,
    Right,
    Enter,
    /// Any key without a symbolic name, carried as the character it produced.
    Character(char),
}

impl From<char> for Key {
    /// The fallback for keys without a symbolic name: the key is the character itself.
    fn from(character: char) -> (key: Key) {
        Key::Character(character)
    }
}

impl vstd::std_specs::convert::FromSpecImpl<char> for Key {
    open spec fn obeys_from_spec() -> bool {
        true
    }

    open spec fn from_spec(character: char) -> Key {
        Key::Character(character)
    }
}

/// An input or system event in the toolkit's own terms.
#[derive(Clone, Copy, Debug, PartialEq, Eq, Structural)]
pub enum Event {
    MouseDown { button: MouseButton, position: Point },
    MouseUp { button: MouseButton, position: Point },
    KeyDown { key: Key },
    KeyUp { key: Key },
    SystemQuit,
    WindowResize { width: u32, height: u32 },
}

/// A pending event together with the order tag it was registered under.
#[derive(Clone, Copy, Debug, PartialEq, Eq, Structural)]
pub struct QueuedEvent {
    pub event: Event,
    pub tag: u32,
}

/// An ordered buffer of pending events: registered at the back, consumed from the front.
pub struct EventQueue {
    pending: Vec<QueuedEvent>,
}

impl View for EventQueue {
    type V = Seq<QueuedEvent>;

    /// The pending events, oldest first.
    closed spec fn view(&self) -> Seq<QueuedEvent> {
        self.pending@
    }
}

impl Default for EventQueue {
    fn default() -> (queue: EventQueue)
        ensures
            queue@ == Seq::<QueuedEvent>::empty(),
    {
        EventQueue { pending: Vec::new() }
    }
}

impl EventQueue {
    /// Appends `event` under `tag` behind everything already pending.
    pub fn register_event(&mut self, event: Event, tag: u32)
        ensures
            final(self)@ == old(self)@.push(QueuedEvent { event, tag }),
    {
        self.pending.push(QueuedEvent { event, tag });
    }

    /// Takes the oldest pending event out of the queue, if there is one.
    pub fn dequeue(&mut self) -> (front: Option<QueuedEvent>)
        ensures
            old(self)@.len() == 0 ==> front.is_none() && final(self)@ == old(self)@,
            old(self)@.len() > 0 ==> {
                &&& front == Some(old(self)@[0])
                &&& final(self)@ == old(self)@.skip(1)
            },
    {
        if self.pending.len() > 0 {
            Some(self.pending.remove(0))
        } else {
            None
        }
    }

    /// The number of pending events.
    pub fn len(&self) -> (count: usize)
        ensures
            count == self@.len(),
    {
        self.pending.len()
    }

    /// Whether nothing is pending.
    pub fn is_empty(&self) -> (empty: bool)
        ensures
            empty <==> self@.len() == 0,
    {
        self.pending.len() == 0
    }

    /// The pending event at position `index`, counted from the front, without consuming it.
    pub fn peek(&self, index: usize) -> (entry: Option<QueuedEvent>)
        ensures
            index < self@.len() ==> entry == Some(self@[index as int]),
            index >= self@.len() ==> entry.is_none(),
    {
        if index < self.pending.len() {
            Some(self.pending[index])
        } else {
            None
        }
    }
}

} // verus!
