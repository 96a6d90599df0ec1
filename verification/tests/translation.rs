use orbtk::backend::{resolve_button, OrbitalBackend, BACKEND_TAG};
use orbtk::event::MouseButton::{Left, Middle, Right};
use orbtk::event::{Event, Key, MouseButton, Point, QueuedEvent};
use orbtk::native::{NativeEvent, RawEvent};

fn backend() -> OrbitalBackend<(), ()> {
    OrbitalBackend::new((), ())
}

fn queued(backend: &OrbitalBackend<(), ()>) -> Vec<Event> {
    let queue = backend.event_queue();
    let mut events = Vec::new();
    let mut index = 0;
    while let Some(entry) = queue.peek(index) {
        assert_eq!(entry.tag, BACKEND_TAG);
        events.push(entry.event);
        index += 1;
    }
    assert_eq!(index, queue.len());
    events
}

fn button(left: bool, middle: bool, right: bool) -> NativeEvent {
    NativeEvent::Button { left, middle, right }
}

#[test]
fn new_backend_has_seen_nothing() {
    let backend = backend();
    assert_eq!(backend.mouse_buttons(), (false, false, false));
    assert_eq!(backend.mouse_position(), Point { x: 0, y: 0 });
    assert!(backend.event_queue().is_empty());
}

#[test]
fn press_then_release_at_the_known_position() {
    let mut backend = backend();
    backend.translate(NativeEvent::Mouse { x: 10, y: 20 });
    backend.translate(button(true, false, false));
    backend.translate(button(false, false, false));
    let position = Point { x: 10, y: 20 };
    assert_eq!(
        queued(&backend),
        vec![
            Event::MouseDown { button: MouseButton::Left, position },
            Event::MouseUp { button: MouseButton::Left, position },
        ]
    );
}

#[test]
fn press_then_release_from_raw_events() {
    let mut backend = backend();
    let raw = vec![
        RawEvent { code: 2, a: 10, b: 20 },
        RawEvent { code: 3, a: 1, b: 0 },
        RawEvent { code: 3, a: 0, b: 0 },
    ];
    backend.drain_events(&raw);
    let position = Point { x: 10, y: 20 };
    assert_eq!(
        queued(&backend),
        vec![
            Event::MouseDown { button: MouseButton::Left, position },
            Event::MouseUp { button: MouseButton::Left, position },
        ]
    );
    assert_eq!(backend.mouse_position(), position);
    assert_eq!(backend.mouse_buttons(), (false, false, false));
}

#[test]
fn pointer_move_queues_nothing() {
    let mut backend = backend();
    backend.translate(NativeEvent::Mouse { x: -3, y: 7 });
    assert!(backend.event_queue().is_empty());
    assert_eq!(backend.mouse_position(), Point { x: -3, y: 7 });
    assert_eq!(backend.mouse_buttons(), (false, false, false));
}

#[test]
fn button_event_carries_the_last_recorded_position() {
    let mut backend = backend();
    backend.translate(button(false, true, false));
    backend.translate(NativeEvent::Mouse { x: 5, y: 6 });
    backend.translate(button(false, false, false));
    assert_eq!(
        queued(&backend),
        vec![
            Event::MouseDown { button: MouseButton::Middle, position: Point { x: 0, y: 0 } },
            Event::MouseUp { button: MouseButton::Middle, position: Point { x: 5, y: 6 } },
        ]
    );
}

#[test]
fn every_button_change_queues_one_event() {
    let mut backend = backend();
    let changes = [
        (true, false, false),
        (true, false, true),
        (false, false, true),
        (false, false, false),
        (false, true, false),
        (false, true, true),
        (false, false, false),
    ];
    for (count, change) in changes.iter().enumerate() {
        backend.translate(button(change.0, change.1, change.2));
        assert_eq!(backend.event_queue().len(), count + 1);
        assert_eq!(backend.mouse_buttons(), *change);
    }
    let position = Point { x: 0, y: 0 };
    assert_eq!(
        queued(&backend),
        vec![
            Event::MouseDown { button: MouseButton::Left, position },
            Event::MouseDown { button: MouseButton::Right, position },
            Event::MouseDown { button: MouseButton::Right, position },
            Event::MouseUp { button: MouseButton::Right, position },
            Event::MouseDown { button: MouseButton::Middle, position },
            Event::MouseDown { button: MouseButton::Right, position },
            Event::MouseUp { button: MouseButton::Middle, position },
        ]
    );
}

#[test]
fn press_while_another_button_is_held_names_the_new_button() {
    let mut backend = backend();
    backend.translate(button(true, false, false));
    backend.translate(button(true, false, true));
    let position = Point { x: 0, y: 0 };
    assert_eq!(
        queued(&backend),
        vec![
            Event::MouseDown { button: MouseButton::Left, position },
            Event::MouseDown { button: MouseButton::Right, position },
        ]
    );
    assert_eq!(backend.mouse_buttons(), (true, false, true));
}

#[test]
fn press_while_another_button_is_held_from_raw_events() {
    let mut backend = backend();
    let raw = vec![
        RawEvent { code: 3, a: 1, b: 0 },
        RawEvent { code: 3, a: 5, b: 0 },
        RawEvent { code: 3, a: 7, b: 0 },
    ];
    backend.drain_events(&raw);
    let position = Point { x: 0, y: 0 };
    assert_eq!(
        queued(&backend),
        vec![
            Event::MouseDown { button: MouseButton::Left, position },
            Event::MouseDown { button: MouseButton::Right, position },
            Event::MouseDown { button: MouseButton::Middle, position },
        ]
    );
}

#[test]
fn press_is_attributed_to_the_first_new_button() {
    let none = (false, false, false);
    assert_eq!(resolve_button(none, (true, false, false)), Left);
    assert_eq!(resolve_button(none, (false, true, false)), Middle);
    assert_eq!(resolve_button(none, (false, false, true)), Right);
    assert_eq!(resolve_button(none, (true, true, true)), Left);
    assert_eq!(resolve_button(none, (false, true, true)), Middle);
    assert_eq!(resolve_button((true, false, false), (true, true, false)), Middle);
    assert_eq!(resolve_button((true, false, false), (true, true, true)), Middle);
    assert_eq!(resolve_button((true, true, false), (true, true, true)), Right);
    assert_eq!(resolve_button((false, false, true), (true, false, true)), Left);
    assert_eq!(resolve_button((false, true, false), (true, true, true)), Left);
    // a button is swapped for another in one change: the new one is named
    assert_eq!(resolve_button((true, false, false), (false, false, true)), Right);
    assert_eq!(resolve_button((false, false, true), (false, true, false)), Middle);
}

#[test]
fn change_without_a_new_button_names_the_first_held() {
    // one button let go while another stays held
    assert_eq!(resolve_button((true, false, true), (false, false, true)), Right);
    assert_eq!(resolve_button((true, true, false), (true, false, false)), Left);
    assert_eq!(resolve_button((true, true, true), (false, true, true)), Middle);
    // nothing changed
    assert_eq!(resolve_button((true, false, true), (true, false, true)), Left);
    assert_eq!(resolve_button((false, false, true), (false, false, true)), Right);
}

#[test]
fn release_is_attributed_to_the_first_button_held_before() {
    let none = (false, false, false);
    assert_eq!(resolve_button((true, false, false), none), Left);
    assert_eq!(resolve_button((false, true, false), none), Middle);
    assert_eq!(resolve_button((false, false, true), none), Right);
    assert_eq!(resolve_button((true, true, true), none), Left);
    assert_eq!(resolve_button((false, true, true), none), Middle);
    assert_eq!(resolve_button(none, none), Right);
}

#[test]
fn release_of_several_buttons_names_only_the_first() {
    let mut backend = backend();
    backend.translate(button(true, true, true));
    backend.translate(button(false, false, false));
    let position = Point { x: 0, y: 0 };
    assert_eq!(
        queued(&backend),
        vec![
            Event::MouseDown { button: MouseButton::Left, position },
            Event::MouseUp { button: MouseButton::Left, position },
        ]
    );
}

#[test]
fn release_with_nothing_held_names_the_right_button() {
    let mut backend = backend();
    backend.translate(button(false, false, false));
    assert_eq!(
        queued(&backend),
        vec![Event::MouseUp { button: MouseButton::Right, position: Point { x: 0, y: 0 } }]
    );
}

#[test]
fn pressed_key_gives_key_up_and_released_key_gives_key_down() {
    let mut backend = backend();
    backend.translate(NativeEvent::Key { scancode: 0x1E, character: 'a', pressed: true });
    backend.translate(NativeEvent::Key { scancode: 0x1E, character: 'a', pressed: false });
    assert_eq!(
        queued(&backend),
        vec![
            Event::KeyUp { key: Key::Character('a') },
            Event::KeyDown { key: Key::Character('a') },
        ]
    );
}

#[test]
fn key_events_leave_pointer_state_alone() {
    let mut backend = backend();
    backend.translate(NativeEvent::Mouse { x: 1, y: 2 });
    backend.translate(button(false, false, true));
    backend.translate(NativeEvent::Key { scancode: 0x48, character: '\0', pressed: false });
    assert_eq!(backend.mouse_position(), Point { x: 1, y: 2 });
    assert_eq!(backend.mouse_buttons(), (false, false, true));
    assert_eq!(backend.event_queue().peek(1).map(|e| e.event), Some(Event::KeyDown { key: Key::Up }));
}

#[test]
fn quit_queues_one_system_quit() {
    let mut backend = backend();
    backend.translate(NativeEvent::Quit);
    assert_eq!(queued(&backend), vec![Event::SystemQuit]);
}

#[test]
fn resize_queues_the_new_size_unchecked() {
    let mut backend = backend();
    backend.translate(NativeEvent::Resize { width: 400, height: 300 });
    backend.translate(NativeEvent::Resize { width: 0, height: u32::MAX });
    assert_eq!(
        queued(&backend),
        vec![
            Event::WindowResize { width: 400, height: 300 },
            Event::WindowResize { width: 0, height: u32::MAX },
        ]
    );
}

#[test]
fn other_events_are_ignored() {
    let mut backend = backend();
    backend.translate(NativeEvent::Other);
    assert!(backend.event_queue().is_empty());
    let raw: Vec<RawEvent> = [0, 4, 6, 7, 9, 10, 11, 12, 13, 14, 15, 16, 17, 18, 19, 20, 21, 22, -1, 99]
        .iter()
        .map(|code| RawEvent { code: *code, a: 1, b: 1 })
        .collect();
    backend.drain_events(&raw);
    assert!(backend.event_queue().is_empty());
    assert_eq!(backend.mouse_position(), Point { x: 0, y: 0 });
    assert_eq!(backend.mouse_buttons(), (false, false, false));
}

#[test]
fn draining_nothing_changes_nothing() {
    let mut backend = backend();
    backend.translate(NativeEvent::Quit);
    backend.drain_events(&Vec::new());
    assert_eq!(queued(&backend), vec![Event::SystemQuit]);
}

#[test]
fn drained_events_keep_their_order_behind_earlier_ones() {
    let mut backend = backend();
    backend.translate(NativeEvent::Quit);
    let raw = vec![
        RawEvent { code: 8, a: 640, b: 480 },
        RawEvent { code: 1, a: 10, b: 0x1C },
        RawEvent { code: 5, a: 0, b: 0 },
    ];
    backend.drain_events(&raw);
    assert_eq!(
        queued(&backend),
        vec![
            Event::SystemQuit,
            Event::WindowResize { width: 640, height: 480 },
            Event::KeyDown { key: Key::Enter },
            Event::SystemQuit,
        ]
    );
}

#[test]
fn queue_entries_carry_the_backend_tag() {
    let mut backend = backend();
    backend.translate(NativeEvent::Quit);
    assert_eq!(BACKEND_TAG, 0);
    assert_eq!(
        backend.event_queue().peek(0),
        Some(QueuedEvent { event: Event::SystemQuit, tag: 0 })
    );
}
