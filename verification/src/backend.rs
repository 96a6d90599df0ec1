//! The backend adapter: it remembers the pointer, turns native events into toolkit events
//! and queues them for the next tick of the world.

use crate::event::{Event, EventQueue, MouseButton, Point, QueuedEvent};
use crate::native::{decode, decoded, key_of, map_key, NativeEvent, RawEvent};
use vstd::prelude::*;

verus! {

/// The order tag under which the backend registers every event it translates.
pub const BACKEND_TAG: u32 = 0;

/// What the adapter knows between two native events.
pub struct BackendState {
    /// The left, middle and right button as the last button event reported them.
    pub buttons: (bool, bool, bool),
    /// The last reported pointer position.
    pub position: Point,
    /// The translated events that wait for the next tick, oldest first.
    pub queue: Seq<QueuedEvent>,
}

/// The first button that `buttons` holds, in the order left, middle, right, and the right
/// button where it holds none.
pub open spec fn first_held(buttons: (bool, bool, bool)) -> MouseButton {
    if buttons.0 {
        MouseButton::Left
    } else if buttons.1 {
        MouseButton::Middle
    } else {
        MouseButton::Right
    }
}

/// The buttons that `incoming` holds and `previous` did not.
pub open spec fn newly_pressed(previous: (bool, bool, bool), incoming: (bool, bool, bool)) -> (
    bool,
    bool,
    bool,
) {
    (incoming.0 && !previous.0, incoming.1 && !previous.1, incoming.2 && !previous.2)
}

/// Whether `buttons` holds any button.
pub open spec fn any_held(buttons: (bool, bool, bool)) -> bool {
    buttons.0 || buttons.1 || buttons.2
}

/// The button that a transition from `previous` to `incoming` is attributed to.
///
/// - While `incoming` holds a button, the transition counts as a press. It is attributed to
///   the first button, in the order left, middle, right, that `incoming` holds and
///   `previous` did not. Where no button is new, because one was let go while another stays
///   held or because nothing changed, it is the first button that `incoming` holds.
/// - Once all buttons are let go, the transition counts as a release. It is attributed to
///   the first button that `previous` held, and to the right button where `previous` held
///   none. Where several buttons are let go at once, only this one is named.
pub open spec fn resolved_button(previous: (bool, bool, bool), incoming: (bool, bool, bool))
    -> MouseButton {
    if any_held(newly_pressed(previous, incoming)) {
        first_held(newly_pressed(previous, incoming))
    } else if any_held(incoming) {
        first_held(incoming)
    } else {
        first_held(previous)
    }
}

/// Whether `buttons` holds `button`.
pub open spec fn holds(buttons: (bool, bool, bool), button: MouseButton) -> bool {
    match button {
        MouseButton::Left => buttons.0,
        MouseButton::Middle => buttons.1,
        MouseButton::Right => buttons.2,
    }
}

/// The event that a button change produces: a release when no button is held any more, a
/// press otherwise, at the pointer position known so far.
pub open spec fn button_event(
    previous: (bool, bool, bool),
    incoming: (bool, bool, bool),
    position: Point,
) -> Event {
    if any_held(incoming) {
        Event::MouseDown { button: resolved_button(previous, incoming), position }
    } else {
        Event::MouseUp { button: resolved_button(previous, incoming), position }
    }
}

/// The event that a key change produces. A key reported as pressed gives `KeyUp` and one
/// reported as not pressed gives `KeyDown`. This is the reverse of what the names suggest;
/// it is kept because consumers rely on it.
pub open spec fn key_event(scancode: u8, character: char, pressed: bool) -> Event {
    if pressed {
        Event::KeyUp { key: key_of(scancode, character) }
    } else {
        Event::KeyDown { key: key_of(scancode, character) }
    }
}

/// The toolkit event that a native event is translated to, if it is translated at all.
/// Pointer moves and events of other kinds produce none.
pub open spec fn emitted(state: BackendState, event: NativeEvent) -> Option<Event> {
    match event {
        NativeEvent::Mouse { .. } => None,
        NativeEvent::Button { left, middle, right } => Some(
            button_event(state.buttons, (left, middle, right), state.position),
        ),
        NativeEvent::Key { scancode, character, pressed } => Some(
            key_event(scancode, character, pressed),
        ),
        NativeEvent::Quit => Some(Event::SystemQuit),
        NativeEvent::Resize { width, height } => Some(Event::WindowResize { width, height }),
        NativeEvent::Other => None,
    }
}

/// The adapter's state after one native event: the emitted event, if any, joins the back of
/// the queue; a pointer move replaces the position; a button change replaces the button
/// state, after its event was built from the previous one.
pub open spec fn translated(state: BackendState, event: NativeEvent) -> BackendState {
    BackendState {
        buttons: match event {
            NativeEvent::Button { left, middle, right } => (left, middle, right),
            _ => state.buttons,
        },
        position: match event {
            NativeEvent::Mouse { x, y } => Point { x, y },
            _ => state.position,
        },
        queue: match emitted(state, event) {
            Some(event) => state.queue.push(QueuedEvent { event, tag: BACKEND_TAG }),
            None => state.queue,
        },
    }
}

/// The adapter's state after a run of native events, taken in order.
pub open spec fn drained(state: BackendState, events: Seq<NativeEvent>) -> BackendState
    decreases events.len(),
{
    if events.len() == 0 {
        state
    } else {
        translated(drained(state, events.drop_last()), events.last())
    }
}

/// The first button that `buttons` holds, or the right button where it holds none.
fn first_button(buttons: (bool, bool, bool)) -> (button: MouseButton)
    ensures
        button == first_held(buttons),
{
    if buttons.0 {
        MouseButton::Left
    } else if buttons.1 {
        MouseButton::Middle
    } else {
        MouseButton::Right
    }
}

/// Attributes the transition from `previous` to `incoming` to one button.
pub fn resolve_button(previous: (bool, bool, bool), incoming: (bool, bool, bool)) -> (button:
    MouseButton)
    ensures
        button == resolved_button(previous, incoming),
{
    let pressed = (incoming.0 && !previous.0, incoming.1 && !previous.1, incoming.2 && !previous.2);
    if pressed.0 || pressed.1 || pressed.2 {
        first_button(pressed)
    } else if incoming.0 || incoming.1 || incoming.2 {
        first_button(incoming)
    } else {
        first_button(previous)
    }
}

/// The backend adapter for an Orbital window. It owns the window surface of type `R` and the
/// theme of type `T`, hands both through to the toolkit's phases untouched, and keeps the
/// state that event translation needs.
pub struct OrbitalBackend<R, T> {
    inner: R,
    theme: T,
    mouse_buttons: (bool, bool, bool),
    mouse_position: Point,
    event_queue: EventQueue,
}

/// What the render phase sees: the surface to draw on, the theme, and the event queue.
pub struct RenderContext<'a, R, T> {
    pub renderer: &'a mut R,
    pub theme: &'a T,
    pub event_queue: &'a mut EventQueue,
}

/// What the layout phase sees: the size of the window and the theme.
pub struct LayoutContext<'a, T> {
    pub window_size: (u32, u32),
    pub theme: &'a T,
}

/// What the event phase sees: the event queue.
pub struct EventContext<'a> {
    pub event_queue: &'a mut EventQueue,
}

/// What the state phase sees: the theme and the event queue.
pub struct StateContext<'a, T> {
    pub theme: &'a T,
    pub event_queue: &'a mut EventQueue,
}

impl<R, T> View for OrbitalBackend<R, T> {
    type V = BackendState;

    closed spec fn view(&self) -> BackendState {
        BackendState {
            buttons: self.mouse_buttons,
            position: self.mouse_position,
            queue: self.event_queue@,
        }
    }
}

impl<R, T> OrbitalBackend<R, T> {
    /// The window surface the backend owns.
    pub closed spec fn surface(&self) -> R {
        self.inner
    }

    /// The theme the backend was made with.
    pub closed spec fn theme(&self) -> T {
        self.theme
    }

    /// A backend that has seen no native event yet: no button held, the pointer at the
    /// origin, nothing queued.
    pub fn new(theme: T, inner: R) -> (backend: OrbitalBackend<R, T>)
        ensures
            backend.surface() == inner,
            backend.theme() == theme,
            backend@ == (BackendState {
                buttons: (false, false, false),
                position: Point::origin(),
                queue: Seq::empty(),
            }),
    {
        OrbitalBackend {
            inner,
            theme,
            mouse_buttons: (false, false, false),
            mouse_position: Point::default(),
            event_queue: EventQueue::default(),
        }
    }

    /// Translates one native event.
    pub fn translate(&mut self, event: NativeEvent)
        ensures
            final(self)@ == translated(old(self)@, event),
            final(self).surface() == old(self).surface(),
            final(self).theme() == old(self).theme(),
    {
        match event {
            NativeEvent::Mouse { x, y } => {
                self.mouse_position = Point { x, y };
            },
            NativeEvent::Button { left, middle, right } => {
                let previous = self.mouse_buttons;
                let button = resolve_button(previous, (left, middle, right));
                if !left && !middle && !right {
                    self.event_queue.register_event(
                        Event::MouseUp { button, position: self.mouse_position },
                        BACKEND_TAG,
                    );
                } else {
                    self.event_queue.register_event(
                        Event::MouseDown { button, position: self.mouse_position },
                        BACKEND_TAG,
                    );
                }
                self.mouse_buttons = (left, middle, right);
            },
            NativeEvent::Key { scancode, character, pressed } => {
                let key = map_key(scancode, character);
                if pressed {
                    self.event_queue.register_event(Event::KeyUp { key }, BACKEND_TAG);
                } else {
                    self.event_queue.register_event(Event::KeyDown { key }, BACKEND_TAG);
                }
            },
            NativeEvent::Quit => {
                self.event_queue.register_event(Event::SystemQuit, BACKEND_TAG);
            },
            NativeEvent::Resize { width, height } => {
                self.event_queue.register_event(Event::WindowResize { width, height }, BACKEND_TAG);
            },
            NativeEvent::Other => {},
        }
    }

    /// Translates the raw events that the window delivered since the last call, in the
    /// order of their arrival.
    pub fn drain_events(&mut self, raw: &Vec<RawEvent>)
        ensures
            final(self)@ == drained(old(self)@, raw@.map_values(|r: RawEvent| decoded(r))),
            final(self).surface() == old(self).surface(),
            final(self).theme() == old(self).theme(),
    {
        let ghost events = raw@.map_values(|r: RawEvent| decoded(r));
        let mut index: usize = 0;
        while index < raw.len()
            invariant
                index <= raw.len(),
                events == raw@.map_values(|r: RawEvent| decoded(r)),
                self@ == drained(old(self)@, events.take(index as int)),
                self.surface() == old(self).surface(),
                self.theme() == old(self).theme(),
            decreases raw.len() - index,
        {
            let event = decode(raw[index]);
            self.translate(event);
            proof {
                assert(events.take(index + 1).drop_last() == events.take(index as int));
            }
            index += 1;
        }
        proof {
            assert(events.take(raw.len() as int) == events);
        }
    }

    /// The last reported pointer position.
    pub fn mouse_position(&self) -> (position: Point)
        ensures
            position == self@.position,
    {
        self.mouse_position
    }

    /// The left, middle and right button as last reported.
    pub fn mouse_buttons(&self) -> (buttons: (bool, bool, bool))
        ensures
            buttons == self@.buttons,
    {
        self.mouse_buttons
    }

    /// The queue of translated events, for reading.
    pub fn event_queue(&self) -> (queue: &EventQueue)
        ensures
            queue@ == self@.queue,
    {
        &self.event_queue
    }

    /// The window surface, for the queries that only the window can answer.
    pub fn inner(&self) -> (surface: &R)
        ensures
            *surface == self.surface(),
    {
        &self.inner
    }

    /// The window surface, for the calls that change the window. What the caller does to the
    /// surface is what the backend holds afterwards; nothing else changes.
    pub fn inner_mut(&mut self) -> (surface: &mut R)
        ensures
            *surface == old(self).surface(),
            final(self).surface() == *final(surface),
            final(self).theme() == old(self).theme(),
            final(self)@ == old(self)@,
    {
        &mut self.inner
    }

    /// The view for the render phase. What the phase does to the surface and to the queue
    /// is what the backend holds afterwards.
    pub fn render_context(&mut self) -> (context: RenderContext<'_, R, T>)
        ensures
            *context.renderer == old(self).surface(),
            *context.theme == old(self).theme(),
            context.event_queue@ == old(self)@.queue,
            final(self).surface() == *final(context.renderer),
            final(self).theme() == old(self).theme(),
            final(self)@ == (BackendState { queue: final(context.event_queue)@, ..old(self)@ }),
    {
        RenderContext {
            renderer: &mut self.inner,
            theme: &self.theme,
            event_queue: &mut self.event_queue,
        }
    }

    /// The view for the layout phase, for a window of the size `window_size`.
    pub fn layout_context(&mut self, window_size: (u32, u32)) -> (context: LayoutContext<'_, T>)
        ensures
            context.window_size == window_size,
            *context.theme == old(self).theme(),
            final(self).surface() == old(self).surface(),
            final(self).theme() == old(self).theme(),
            final(self)@ == old(self)@,
    {
        LayoutContext { window_size, theme: &self.theme }
    }

    /// The view for the event phase. What the phase does to the queue is what the backend
    /// holds afterwards.
    pub fn event_context(&mut self) -> (context: EventContext<'_>)
        ensures
            context.event_queue@ == old(self)@.queue,
            final(self).surface() == old(self).surface(),
            final(self).theme() == old(self).theme(),
            final(self)@ == (BackendState { queue: final(context.event_queue)@, ..old(self)@ }),
    {
        EventContext { event_queue: &mut self.event_queue }
    }

    /// The view for the state phase. What the phase does to the queue is what the backend
    /// holds afterwards.
    pub fn state_context(&mut self) -> (context: StateContext<'_, T>)
        ensures
            *context.theme == old(self).theme(),
            context.event_queue@ == old(self)@.queue,
            final(self).surface() == old(self).surface(),
            final(self).theme() == old(self).theme(),
            final(self)@ == (BackendState { queue: final(context.event_queue)@, ..old(self)@ }),
    {
        StateContext { theme: &self.theme, event_queue: &mut self.event_queue }
    }
}

/// A transition that changes one button alone is attributed to that button: a press of one
/// button names it, whatever else is held, and the release of the last held button names
/// it. The event is a press in the first case and a release in the second.
pub proof fn lemma_single_change_names_its_button(
    previous: (bool, bool, bool),
    incoming: (bool, bool, bool),
    button: MouseButton,
    position: Point,
)
    requires
        holds(incoming, button) != holds(previous, button),
        forall|other: MouseButton|
            other != button ==> #[trigger] holds(incoming, other) == holds(previous, other),
        holds(incoming, button) || !any_held(incoming),
    ensures
        resolved_button(previous, incoming) == button,
        holds(incoming, button) ==> button_event(previous, incoming, position)
            == (Event::MouseDown { button, position }),
        !holds(incoming, button) ==> button_event(previous, incoming, position)
            == (Event::MouseUp { button, position }),
{
    assert(button != MouseButton::Left ==> holds(incoming, MouseButton::Left) == holds(
        previous,
        MouseButton::Left,
    ));
    assert(button != MouseButton::Middle ==> holds(incoming, MouseButton::Middle) == holds(
        previous,
        MouseButton::Middle,
    ));
    assert(button != MouseButton::Right ==> holds(incoming, MouseButton::Right) == holds(
        previous,
        MouseButton::Right,
    ));
}

/// The native events of a run of button changes, each given as the left, middle and right
/// button after the change.
pub open spec fn button_changes(changes: Seq<(bool, bool, bool)>) -> Seq<NativeEvent> {
    changes.map_values(
        |change: (bool, bool, bool)|
            NativeEvent::Button { left: change.0, middle: change.1, right: change.2 },
    )
}

/// The button state that the change number `index` of a run meets: the state before the
/// run for the first change, and the change just before it for every other.
pub open spec fn buttons_before(
    state: BackendState,
    changes: Seq<(bool, bool, bool)>,
    index: int,
) -> (bool, bool, bool) {
    if index <= 0 {
        state.buttons
    } else {
        changes[index - 1]
    }
}

/// Every button change of a run queues exactly one event, a press or a release, behind what
/// was queued before and in the order of the changes. The event of a change is decided by
/// the button state that the change meets and the one it brings, and carries the pointer
/// position, which button changes leave alone.
pub proof fn lemma_one_event_per_button_change(
    state: BackendState,
    changes: Seq<(bool, bool, bool)>,
)
    ensures
        ({
            let after = drained(state, button_changes(changes));
            &&& after.position == state.position
            &&& after.buttons == buttons_before(state, changes, changes.len() as int)
            &&& after.queue.len() == state.queue.len() + changes.len()
            &&& after.queue.take(state.queue.len() as int) == state.queue
            &&& forall|i: int|
                0 <= i < changes.len() ==> {
                    let entry = #[trigger] after.queue[state.queue.len() + i];
                    &&& entry.tag == BACKEND_TAG
                    &&& entry.event == button_event(
                        buttons_before(state, changes, i),
                        changes[i],
                        state.position,
                    )
                    &&& (entry.event is MouseDown || entry.event is MouseUp)
                }
        }),
    decreases changes.len(),
{
    if changes.len() > 0 {
        let earlier = changes.drop_last();
        lemma_one_event_per_button_change(state, earlier);
        assert(button_changes(changes).drop_last() == button_changes(earlier));
    }
}

} // verus!
