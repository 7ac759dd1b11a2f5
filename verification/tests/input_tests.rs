use bevy_iced::input::{
    process_input, ButtonChange, FrameInput, IcedEventQueue, InputEvent, KeyInput,
};
use bevy_iced::modifiers::{compute_modifiers, ModifierKey, Modifiers};
use bevy_input::keyboard::KeyCode;
use bevy_input::ButtonInput;

type Event = InputEvent<(f32, f32), u8, (f32, f32), char, u64>;

fn empty_frame() -> FrameInput<(f32, f32), u8, (f32, f32), char, u64> {
    FrameInput {
        cursor_moved: vec![],
        mouse_button: vec![],
        cursor_entered: 0,
        cursor_left: 0,
        mouse_wheel: vec![],
        keyboard_input: vec![],
        touch_input: vec![],
        window_focused: vec![],
    }
}

fn key(key: char, modifier_key: Option<ModifierKey>, pressed: bool, repeat: bool) -> KeyInput<char> {
    KeyInput { key, modifier_key, pressed, repeat }
}

const NONE: Modifiers = Modifiers { shift: false, control: false, alt: false, logo: false };

#[test]
fn no_key_held_gives_no_modifiers() {
    let input: ButtonInput<KeyCode> = ButtonInput::default();
    assert_eq!(compute_modifiers(&input), NONE);
}

#[test]
fn either_side_sets_the_modifier() {
    let mut input: ButtonInput<KeyCode> = ButtonInput::default();
    input.press(KeyCode::ControlRight);
    input.press(KeyCode::ShiftLeft);
    input.press(KeyCode::KeyA);
    assert_eq!(
        compute_modifiers(&input),
        Modifiers { shift: true, control: true, alt: false, logo: false }
    );
    let mut input: ButtonInput<KeyCode> = ButtonInput::default();
    input.press(KeyCode::AltRight);
    input.press(KeyCode::SuperLeft);
    assert_eq!(
        compute_modifiers(&input),
        Modifiers { shift: false, control: false, alt: true, logo: true }
    );
}

#[test]
fn released_key_no_longer_counts() {
    let mut input: ButtonInput<KeyCode> = ButtonInput::default();
    input.press(KeyCode::AltLeft);
    input.release(KeyCode::AltLeft);
    assert_eq!(compute_modifiers(&input), NONE);
}

#[test]
fn events_come_in_kind_order() {
    let mut queue: IcedEventQueue<Event> = IcedEventQueue::new();
    let mut frame = empty_frame();
    frame.window_focused = vec![true, false];
    frame.touch_input = vec![7];
    frame.keyboard_input = vec![key('a', None, true, false)];
    frame.mouse_wheel = vec![(0.0, 3.0)];
    frame.cursor_left = 1;
    frame.cursor_entered = 2;
    frame.mouse_button = vec![ButtonChange { button: 1, pressed: true }, ButtonChange { button: 1, pressed: false }];
    frame.cursor_moved = vec![(1.0, 2.0), (3.0, 4.0)];
    let held: ButtonInput<KeyCode> = ButtonInput::default();
    process_input(&mut queue, frame, &held);
    let expected: Vec<Event> = vec![
        InputEvent::CursorMoved((1.0, 2.0)),
        InputEvent::CursorMoved((3.0, 4.0)),
        InputEvent::ButtonPressed(1),
        InputEvent::ButtonReleased(1),
        InputEvent::CursorEntered,
        InputEvent::CursorEntered,
        InputEvent::CursorLeft,
        InputEvent::WheelScrolled((0.0, 3.0)),
        InputEvent::KeyPressed { key: 'a', modifiers: NONE, repeat: false },
        InputEvent::Touch(7),
        InputEvent::Focused,
        InputEvent::Unfocused,
    ];
    assert_eq!(queue.0, expected);
}

#[test]
fn modifier_keys_report_modifiers_only() {
    let mut queue: IcedEventQueue<Event> = IcedEventQueue::new();
    let mut frame = empty_frame();
    frame.keyboard_input = vec![
        key('c', Some(ModifierKey::ControlLeft), true, false),
        key('x', None, true, true),
        key('x', None, false, false),
        key('c', Some(ModifierKey::ControlLeft), false, false),
    ];
    let mut held: ButtonInput<KeyCode> = ButtonInput::default();
    held.press(KeyCode::ControlLeft);
    process_input(&mut queue, frame, &held);
    let ctrl = Modifiers { shift: false, control: true, alt: false, logo: false };
    let expected: Vec<Event> = vec![
        InputEvent::ModifiersChanged(ctrl),
        InputEvent::KeyPressed { key: 'x', modifiers: ctrl, repeat: true },
        InputEvent::KeyReleased { key: 'x', modifiers: ctrl },
        InputEvent::ModifiersChanged(ctrl),
    ];
    assert_eq!(queue.0, expected);
}

#[test]
fn processing_replaces_the_previous_frame() {
    let mut queue: IcedEventQueue<Event> = IcedEventQueue(vec![InputEvent::CursorLeft, InputEvent::Focused]);
    let mut frame = empty_frame();
    frame.touch_input = vec![1, 2];
    let held: ButtonInput<KeyCode> = ButtonInput::default();
    process_input(&mut queue, frame, &held);
    let expected: Vec<Event> = vec![InputEvent::Touch(1), InputEvent::Touch(2)];
    assert_eq!(queue.0, expected);

    process_input(&mut queue, empty_frame(), &held);
    assert!(queue.0.is_empty());
}

#[test]
fn one_event_per_input_message() {
    let mut queue: IcedEventQueue<Event> = IcedEventQueue::new();
    let mut frame = empty_frame();
    frame.cursor_moved = vec![(0.0, 0.0); 3];
    frame.cursor_entered = 4;
    frame.cursor_left = 5;
    frame.window_focused = vec![true; 6];
    let held: ButtonInput<KeyCode> = ButtonInput::default();
    process_input(&mut queue, frame, &held);
    assert_eq!(queue.0.len(), 3 + 4 + 5 + 6);
}
