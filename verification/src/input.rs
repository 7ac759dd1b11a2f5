//! Translation of one frame of bevy input into the events an iced interface reads.
//!
//! The payloads that the translation moves but never reads (positions, buttons,
//! scroll deltas, keys and touches) are type parameters: the application fills
//! them with iced's own types.

use vstd::prelude::*;
use bevy_input::ButtonInput;
use bevy_input::keyboard::KeyCode;
use crate::modifiers::{compute_modifiers, held_modifier_keys, modifiers_of, ModifierKey, Modifiers};

verus! {

/// A mouse button that went down or up.
#[derive(Clone, Debug, PartialEq)]
pub struct ButtonChange<B> {
    pub button: B,
    pub pressed: bool,
}

/// A keyboard key that went down or up.
#[derive(Clone, Debug, PartialEq)]
pub struct KeyInput<K> {
    /// What iced is told of the key: its logical and physical identity and its text.
    pub key: K,
    /// The modifier this key is, if it is one of the eight modifier keys.
    pub modifier_key: Option<ModifierKey>,
    pub pressed: bool,
    /// Whether the press comes from the key being held down.
    pub repeat: bool,
}

/// The input that bevy delivered in one frame, one list per kind of message.
#[derive(Clone, Debug, PartialEq)]
pub struct FrameInput<P, B, W, K, T> {
    pub cursor_moved: Vec<P>,
    pub mouse_button: Vec<ButtonChange<B>>,
    pub cursor_entered: usize,
    pub cursor_left: usize,
    pub mouse_wheel: Vec<W>,
    pub keyboard_input: Vec<KeyInput<K>>,
    pub touch_input: Vec<T>,
    /// For each focus change of the window: whether it gained focus.
    pub window_focused: Vec<bool>,
}

/// An event for the iced interface.
#[derive(Clone, Debug, PartialEq)]
pub enum InputEvent<P, B, W, K, T> {
    CursorMoved(P),
    ButtonPressed(B),
    ButtonReleased(B),
    CursorEntered,
    CursorLeft,
    WheelScrolled(W),
    ModifiersChanged(Modifiers),
    KeyPressed { key: K, modifiers: Modifiers, repeat: bool },
    KeyReleased { key: K, modifiers: Modifiers },
    Touch(T),
    Focused,
    Unfocused,
}

/// The queue of events that the interface reads in its next update.
#[derive(Clone, Debug, PartialEq)]
pub struct IcedEventQueue<E>(pub Vec<E>);

impl<E> View for IcedEventQueue<E> {
    type V = Seq<E>;

    open spec fn view(&self) -> Seq<E> {
        self.0@
    }
}

impl<E> IcedEventQueue<E> {
    /// An empty queue.
    pub fn new() -> (queue: Self)
        ensures
            queue@ == Seq::<E>::empty(),
    {
        IcedEventQueue(Vec::new())
    }
}

/// The event for a mouse button change.
pub open spec fn button_event<P, B, W, K, T>(change: ButtonChange<B>) -> InputEvent<P, B, W, K, T> {
    if change.pressed {
        InputEvent::ButtonPressed(change.button)
    } else {
        InputEvent::ButtonReleased(change.button)
    }
}

/// The event for a keyboard key change: a modifier key reports the modifiers
/// alone; any other key is pressed or released with the modifiers of the frame.
pub open spec fn key_event<P, B, W, K, T>(input: KeyInput<K>, modifiers: Modifiers) -> InputEvent<P, B, W, K, T> {
    match input.modifier_key {
        Some(_) => InputEvent::ModifiersChanged(modifiers),
        None => if input.pressed {
            InputEvent::KeyPressed { key: input.key, modifiers, repeat: input.repeat }
        } else {
            InputEvent::KeyReleased { key: input.key, modifiers }
        },
    }
}

/// The event for a change of the window's focus.
pub open spec fn focus_event<P, B, W, K, T>(focused: bool) -> InputEvent<P, B, W, K, T> {
    if focused {
        InputEvent::Focused
    } else {
        InputEvent::Unfocused
    }
}

/// `n` copies of `event`.
pub open spec fn repeated<E>(event: E, n: nat) -> Seq<E> {
    Seq::new(n, |i: int| event)
}

/// The events of one frame, in the order the interface receives them: cursor
/// moves, mouse buttons, cursor entering, cursor leaving, wheel, keyboard,
/// touch and focus, each kind in the order bevy delivered it.
pub open spec fn frame_events<P, B, W, K, T>(input: FrameInput<P, B, W, K, T>, modifiers: Modifiers) -> Seq<InputEvent<P, B, W, K, T>> {
    input.cursor_moved@.map_values(|p: P| InputEvent::<P, B, W, K, T>::CursorMoved(p))
        + input.mouse_button@.map_values(|c: ButtonChange<B>| button_event::<P, B, W, K, T>(c))
        + repeated(InputEvent::<P, B, W, K, T>::CursorEntered, input.cursor_entered as nat)
        + repeated(InputEvent::<P, B, W, K, T>::CursorLeft, input.cursor_left as nat)
        + input.mouse_wheel@.map_values(|w: W| InputEvent::<P, B, W, K, T>::WheelScrolled(w))
        + input.keyboard_input@.map_values(|k: KeyInput<K>| key_event::<P, B, W, K, T>(k, modifiers))
        + input.touch_input@.map_values(|t: T| InputEvent::<P, B, W, K, T>::Touch(t))
        + input.window_focused@.map_values(|f: bool| focus_event::<P, B, W, K, T>(f))
}

fn push_cursor_moves<P, B, W, K, T>(queue: &mut Vec<InputEvent<P, B, W, K, T>>, moves: Vec<P>)
    ensures
        final(queue)@ == old(queue)@ + moves@.map_values(|p: P| InputEvent::<P, B, W, K, T>::CursorMoved(p)),
{
    let ghost start = queue@;
    let ghost all = moves@;
    for p in it: moves.into_iter()
        invariant
            it.seq() == all,
            queue@ == start + all.take(it.index() as int).map_values(|p: P| InputEvent::<P, B, W, K, T>::CursorMoved(p)),
    {
        queue.push(InputEvent::CursorMoved(p));
        proof {
            assert(all.take(it.index() + 1) == all.take(it.index() as int).push(p));
        }
    }
    proof {
        assert(all.take(all.len() as int) == all);
    }
}

fn push_mouse_buttons<P, B, W, K, T>(queue: &mut Vec<InputEvent<P, B, W, K, T>>, changes: Vec<ButtonChange<B>>)
    ensures
        final(queue)@ == old(queue)@ + changes@.map_values(|c: ButtonChange<B>| button_event::<P, B, W, K, T>(c)),
{
    let ghost start = queue@;
    let ghost all = changes@;
    for c in it: changes.into_iter()
        invariant
            it.seq() == all,
            queue@ == start + all.take(it.index() as int).map_values(|c: ButtonChange<B>| button_event::<P, B, W, K, T>(c)),
    {
        let ghost cur = c;
        let event = if c.pressed {
            InputEvent::ButtonPressed(c.button)
        } else {
            InputEvent::ButtonReleased(c.button)
        };
        queue.push(event);
        proof {
            assert(all.take(it.index() + 1) == all.take(it.index() as int).push(cur));
        }
    }
    proof {
        assert(all.take(all.len() as int) == all);
    }
}

fn push_repeated<P, B, W, K, T>(queue: &mut Vec<InputEvent<P, B, W, K, T>>, entered: bool, count: usize)
    ensures
        final(queue)@ == old(queue)@ + repeated(
            if entered { InputEvent::<P, B, W, K, T>::CursorEntered } else { InputEvent::<P, B, W, K, T>::CursorLeft },
            count as nat,
        ),
{
    let ghost start = queue@;
    let ghost event = if entered { InputEvent::<P, B, W, K, T>::CursorEntered } else { InputEvent::<P, B, W, K, T>::CursorLeft };
    let mut i: usize = 0;
    while i < count
        invariant
            i <= count,
            event == (if entered { InputEvent::<P, B, W, K, T>::CursorEntered } else { InputEvent::<P, B, W, K, T>::CursorLeft }),
            queue@ == start + repeated(event, i as nat),
        decreases count - i,
    {
        if entered {
            queue.push(InputEvent::CursorEntered);
        } else {
            queue.push(InputEvent::CursorLeft);
        }
        proof {
            assert(repeated(event, (i + 1) as nat) == repeated(event, i as nat).push(event));
            assert(start + repeated(event, i as nat).push(event) == (start + repeated(event, i as nat)).push(event));
        }
        i = i + 1;
    }
}

fn push_mouse_wheel<P, B, W, K, T>(queue: &mut Vec<InputEvent<P, B, W, K, T>>, wheel: Vec<W>)
    ensures
        final(queue)@ == old(queue)@ + wheel@.map_values(|w: W| InputEvent::<P, B, W, K, T>::WheelScrolled(w)),
{
    let ghost start = queue@;
    let ghost all = wheel@;
    for w in it: wheel.into_iter()
        invariant
            it.seq() == all,
            queue@ == start + all.take(it.index() as int).map_values(|w: W| InputEvent::<P, B, W, K, T>::WheelScrolled(w)),
    {
        queue.push(InputEvent::WheelScrolled(w));
        proof {
            assert(all.take(it.index() + 1) == all.take(it.index() as int).push(w));
        }
    }
    proof {
        assert(all.take(all.len() as int) == all);
    }
}

fn push_keyboard_input<P, B, W, K, T>(queue: &mut Vec<InputEvent<P, B, W, K, T>>, keys: Vec<KeyInput<K>>, modifiers: Modifiers)
    ensures
        final(queue)@ == old(queue)@ + keys@.map_values(|k: KeyInput<K>| key_event::<P, B, W, K, T>(k, modifiers)),
{
    let ghost start = queue@;
    let ghost all = keys@;
    for k in it: keys.into_iter()
        invariant
            it.seq() == all,
            queue@ == start + all.take(it.index() as int).map_values(|k: KeyInput<K>| key_event::<P, B, W, K, T>(k, modifiers)),
    {
        let ghost cur = k;
        let event = match k.modifier_key {
            Some(_) => InputEvent::ModifiersChanged(modifiers),
            None => if k.pressed {
                InputEvent::KeyPressed { key: k.key, modifiers, repeat: k.repeat }
            } else {
                InputEvent::KeyReleased { key: k.key, modifiers }
            },
        };
        queue.push(event);
        proof {
            assert(all.take(it.index() + 1) == all.take(it.index() as int).push(cur));
        }
    }
    proof {
        assert(all.take(all.len() as int) == all);
    }
}

fn push_touch_input<P, B, W, K, T>(queue: &mut Vec<InputEvent<P, B, W, K, T>>, touches: Vec<T>)
    ensures
        final(queue)@ == old(queue)@ + touches@.map_values(|t: T| InputEvent::<P, B, W, K, T>::Touch(t)),
{
    let ghost start = queue@;
    let ghost all = touches@;
    for t in it: touches.into_iter()
        invariant
            it.seq() == all,
            queue@ == start + all.take(it.index() as int).map_values(|t: T| InputEvent::<P, B, W, K, T>::Touch(t)),
    {
        queue.push(InputEvent::Touch(t));
        proof {
            assert(all.take(it.index() + 1) == all.take(it.index() as int).push(t));
        }
    }
    proof {
        assert(all.take(all.len() as int) == all);
    }
}

fn push_window_focused<P, B, W, K, T>(queue: &mut Vec<InputEvent<P, B, W, K, T>>, focus: Vec<bool>)
    ensures
        final(queue)@ == old(queue)@ + focus@.map_values(|f: bool| focus_event::<P, B, W, K, T>(f)),
{
    let ghost start = queue@;
    let ghost all = focus@;
    for f in it: focus.into_iter()
        invariant
            it.seq() == all,
            queue@ == start + all.take(it.index() as int).map_values(|f: bool| focus_event::<P, B, W, K, T>(f)),
    {
        if f {
            queue.push(InputEvent::Focused);
        } else {
            queue.push(InputEvent::Unfocused);
        }
        proof {
            assert(all.take(it.index() + 1) == all.take(it.index() as int).push(f));
        }
    }
    proof {
        assert(all.take(all.len() as int) == all);
    }
}

/// Where each input message of a frame lands among the frame's events, and
/// what it becomes there: the messages of each kind, in bevy's order, one event
/// each, after all the messages of the kinds before it.
pub proof fn lemma_frame_event_positions<P, B, W, K, T>(input: FrameInput<P, B, W, K, T>, modifiers: Modifiers)
    ensures
            frame_events(input, modifiers).len() == input.cursor_moved@.len() + input.mouse_button@.len() + input.cursor_entered
                + input.cursor_left + input.mouse_wheel@.len() + input.keyboard_input@.len()
                + input.touch_input@.len() + input.window_focused@.len(),
            forall|i: int| 0 <= i < input.cursor_moved@.len() ==>
                frame_events(input, modifiers)[i] == InputEvent::<P, B, W, K, T>::CursorMoved(#[trigger] input.cursor_moved@[i]),
            forall|i: int| 0 <= i < input.mouse_button@.len() ==>
                frame_events(input, modifiers)[input.cursor_moved@.len() + i] == (if (#[trigger] input.mouse_button@[i]).pressed {
                    InputEvent::<P, B, W, K, T>::ButtonPressed(input.mouse_button@[i].button)
                } else {
                    InputEvent::<P, B, W, K, T>::ButtonReleased(input.mouse_button@[i].button)
                }),
            forall|i: int| 0 <= i < input.cursor_entered ==>
                #[trigger] frame_events(input, modifiers)[input.cursor_moved@.len() + input.mouse_button@.len() + i]
                    == InputEvent::<P, B, W, K, T>::CursorEntered,
            forall|i: int| 0 <= i < input.cursor_left ==>
                #[trigger] frame_events(input, modifiers)[input.cursor_moved@.len() + input.mouse_button@.len() + input.cursor_entered + i]
                    == InputEvent::<P, B, W, K, T>::CursorLeft,
            forall|i: int| 0 <= i < input.mouse_wheel@.len() ==>
                frame_events(input, modifiers)[input.cursor_moved@.len() + input.mouse_button@.len() + input.cursor_entered
                    + input.cursor_left + i] == InputEvent::<P, B, W, K, T>::WheelScrolled(#[trigger] input.mouse_wheel@[i]),
            forall|i: int| 0 <= i < input.keyboard_input@.len() ==>
                frame_events(input, modifiers)[input.cursor_moved@.len() + input.mouse_button@.len() + input.cursor_entered
                    + input.cursor_left + input.mouse_wheel@.len() + i] == (match (#[trigger] input.keyboard_input@[i]).modifier_key {
                    Some(_) => InputEvent::<P, B, W, K, T>::ModifiersChanged(modifiers),
                    None => if input.keyboard_input@[i].pressed {
                        InputEvent::<P, B, W, K, T>::KeyPressed {
                            key: input.keyboard_input@[i].key,
                            modifiers: modifiers,
                            repeat: input.keyboard_input@[i].repeat,
                        }
                    } else {
                        InputEvent::<P, B, W, K, T>::KeyReleased { key: input.keyboard_input@[i].key, modifiers: modifiers }
                    },
                }),
            forall|i: int| 0 <= i < input.touch_input@.len() ==>
                frame_events(input, modifiers)[input.cursor_moved@.len() + input.mouse_button@.len() + input.cursor_entered
                    + input.cursor_left + input.mouse_wheel@.len() + input.keyboard_input@.len() + i]
                    == InputEvent::<P, B, W, K, T>::Touch(#[trigger] input.touch_input@[i]),
            forall|i: int| 0 <= i < input.window_focused@.len() ==>
                frame_events(input, modifiers)[input.cursor_moved@.len() + input.mouse_button@.len() + input.cursor_entered
                    + input.cursor_left + input.mouse_wheel@.len() + input.keyboard_input@.len()
                    + input.touch_input@.len() + i] == (if #[trigger] input.window_focused@[i] {
                    InputEvent::<P, B, W, K, T>::Focused
                } else {
                    InputEvent::<P, B, W, K, T>::Unfocused
                }),
{
    let s1 = input.cursor_moved@.map_values(|p: P| InputEvent::<P, B, W, K, T>::CursorMoved(p));
    let s2 = input.mouse_button@.map_values(|c: ButtonChange<B>| button_event::<P, B, W, K, T>(c));
    let s3 = repeated(InputEvent::<P, B, W, K, T>::CursorEntered, input.cursor_entered as nat);
    let s4 = repeated(InputEvent::<P, B, W, K, T>::CursorLeft, input.cursor_left as nat);
    let s5 = input.mouse_wheel@.map_values(|w: W| InputEvent::<P, B, W, K, T>::WheelScrolled(w));
    let s6 = input.keyboard_input@.map_values(|k: KeyInput<K>| key_event::<P, B, W, K, T>(k, modifiers));
    let s7 = input.touch_input@.map_values(|t: T| InputEvent::<P, B, W, K, T>::Touch(t));
    let s8 = input.window_focused@.map_values(|f: bool| focus_event::<P, B, W, K, T>(f));
    let p2 = s1 + s2;
    let p3 = p2 + s3;
    let p4 = p3 + s4;
    let p5 = p4 + s5;
    let p6 = p5 + s6;
    let p7 = p6 + s7;
    let q = p7 + s8;
    assert(q == frame_events(input, modifiers));
    assert forall|i: int| 0 <= i < input.cursor_moved@.len() implies
        q[i] == InputEvent::<P, B, W, K, T>::CursorMoved(#[trigger] input.cursor_moved@[i]) by {
        assert(q[i] == p7[i] && p7[i] == p6[i] && p6[i] == p5[i] && p5[i] == p4[i]);
        assert(p4[i] == p3[i] && p3[i] == p2[i] && p2[i] == s1[i]);
    }
    assert forall|i: int| 0 <= i < input.mouse_button@.len() implies
        q[input.cursor_moved@.len() + i] == (if (#[trigger] input.mouse_button@[i]).pressed {
            InputEvent::<P, B, W, K, T>::ButtonPressed(input.mouse_button@[i].button)
        } else {
            InputEvent::<P, B, W, K, T>::ButtonReleased(input.mouse_button@[i].button)
        }) by {
        let j = s1.len() + i;
        assert(q[j] == p7[j] && p7[j] == p6[j] && p6[j] == p5[j] && p5[j] == p4[j]);
        assert(p4[j] == p3[j] && p3[j] == p2[j] && p2[j] == s2[i]);
    }
    assert forall|i: int| 0 <= i < input.cursor_entered implies
        #[trigger] q[input.cursor_moved@.len() + input.mouse_button@.len() + i]
            == InputEvent::<P, B, W, K, T>::CursorEntered by {
        let j = p2.len() + i;
        assert(q[j] == p7[j] && p7[j] == p6[j] && p6[j] == p5[j] && p5[j] == p4[j]);
        assert(p4[j] == p3[j] && p3[j] == s3[i]);
    }
    assert forall|i: int| 0 <= i < input.cursor_left implies
        #[trigger] q[input.cursor_moved@.len() + input.mouse_button@.len() + input.cursor_entered + i]
            == InputEvent::<P, B, W, K, T>::CursorLeft by {
        let j = p3.len() + i;
        assert(q[j] == p7[j] && p7[j] == p6[j] && p6[j] == p5[j] && p5[j] == p4[j]);
        assert(p4[j] == s4[i]);
    }
    assert forall|i: int| 0 <= i < input.mouse_wheel@.len() implies
        q[input.cursor_moved@.len() + input.mouse_button@.len() + input.cursor_entered
            + input.cursor_left + i] == InputEvent::<P, B, W, K, T>::WheelScrolled(#[trigger] input.mouse_wheel@[i]) by {
        let j = p4.len() + i;
        assert(q[j] == p7[j] && p7[j] == p6[j] && p6[j] == p5[j] && p5[j] == s5[i]);
    }
    assert forall|i: int| 0 <= i < input.keyboard_input@.len() implies
        q[input.cursor_moved@.len() + input.mouse_button@.len() + input.cursor_entered
            + input.cursor_left + input.mouse_wheel@.len() + i] == (match (#[trigger] input.keyboard_input@[i]).modifier_key {
            Some(_) => InputEvent::<P, B, W, K, T>::ModifiersChanged(modifiers),
            None => if input.keyboard_input@[i].pressed {
                InputEvent::<P, B, W, K, T>::KeyPressed {
                    key: input.keyboard_input@[i].key,
                    modifiers: modifiers,
                    repeat: input.keyboard_input@[i].repeat,
                }
            } else {
                InputEvent::<P, B, W, K, T>::KeyReleased { key: input.keyboard_input@[i].key, modifiers: modifiers }
            },
        }) by {
        let j = p5.len() + i;
        assert(q[j] == p7[j] && p7[j] == p6[j] && p6[j] == s6[i]);
    }
    assert forall|i: int| 0 <= i < input.touch_input@.len() implies
        q[input.cursor_moved@.len() + input.mouse_button@.len() + input.cursor_entered
            + input.cursor_left + input.mouse_wheel@.len() + input.keyboard_input@.len() + i]
            == InputEvent::<P, B, W, K, T>::Touch(#[trigger] input.touch_input@[i]) by {
        let j = p6.len() + i;
        assert(q[j] == p7[j] && p7[j] == s7[i]);
    }
    assert forall|i: int| 0 <= i < input.window_focused@.len() implies
        q[input.cursor_moved@.len() + input.mouse_button@.len() + input.cursor_entered
            + input.cursor_left + input.mouse_wheel@.len() + input.keyboard_input@.len()
            + input.touch_input@.len() + i] == (if #[trigger] input.window_focused@[i] {
            InputEvent::<P, B, W, K, T>::Focused
        } else {
            InputEvent::<P, B, W, K, T>::Unfocused
        }) by {
        let j = p7.len() + i;
        assert(q[j] == s8[i]);
    }
}

/// Replaces the queue's events with those of this frame's input.
/// The modifiers that keyboard events carry are read once, from the keys held
/// when the frame is processed.
pub fn process_input<P, B, W, K, T>(
    event_queue: &mut IcedEventQueue<InputEvent<P, B, W, K, T>>,
    events: FrameInput<P, B, W, K, T>,
    input_map: &ButtonInput<KeyCode>,
)
    ensures
        final(event_queue)@ == frame_events(events, modifiers_of(held_modifier_keys(*input_map))),
            final(event_queue)@.len() == events.cursor_moved@.len() + events.mouse_button@.len() + events.cursor_entered
                + events.cursor_left + events.mouse_wheel@.len() + events.keyboard_input@.len()
                + events.touch_input@.len() + events.window_focused@.len(),
            forall|i: int| 0 <= i < events.cursor_moved@.len() ==>
                final(event_queue)@[i] == InputEvent::<P, B, W, K, T>::CursorMoved(#[trigger] events.cursor_moved@[i]),
            forall|i: int| 0 <= i < events.mouse_button@.len() ==>
                final(event_queue)@[events.cursor_moved@.len() + i] == (if (#[trigger] events.mouse_button@[i]).pressed {
                    InputEvent::<P, B, W, K, T>::ButtonPressed(events.mouse_button@[i].button)
                } else {
                    InputEvent::<P, B, W, K, T>::ButtonReleased(events.mouse_button@[i].button)
                }),
            forall|i: int| 0 <= i < events.cursor_entered ==>
                #[trigger] final(event_queue)@[events.cursor_moved@.len() + events.mouse_button@.len() + i]
                    == InputEvent::<P, B, W, K, T>::CursorEntered,
            forall|i: int| 0 <= i < events.cursor_left ==>
                #[trigger] final(event_queue)@[events.cursor_moved@.len() + events.mouse_button@.len() + events.cursor_entered + i]
                    == InputEvent::<P, B, W, K, T>::CursorLeft,
            forall|i: int| 0 <= i < events.mouse_wheel@.len() ==>
                final(event_queue)@[events.cursor_moved@.len() + events.mouse_button@.len() + events.cursor_entered
                    + events.cursor_left + i] == InputEvent::<P, B, W, K, T>::WheelScrolled(#[trigger] events.mouse_wheel@[i]),
            forall|i: int| 0 <= i < events.keyboard_input@.len() ==>
                final(event_queue)@[events.cursor_moved@.len() + events.mouse_button@.len() + events.cursor_entered
                    + events.cursor_left + events.mouse_wheel@.len() + i] == (match (#[trigger] events.keyboard_input@[i]).modifier_key {
                    Some(_) => InputEvent::<P, B, W, K, T>::ModifiersChanged(Modifiers {
                        shift: held_modifier_keys(*input_map).contains(ModifierKey::ShiftLeft)
                            || held_modifier_keys(*input_map).contains(ModifierKey::ShiftRight),
                        control: held_modifier_keys(*input_map).contains(ModifierKey::ControlLeft)
                            || held_modifier_keys(*input_map).contains(ModifierKey::ControlRight),
                        alt: held_modifier_keys(*input_map).contains(ModifierKey::AltLeft)
                            || held_modifier_keys(*input_map).contains(ModifierKey::AltRight),
                        logo: held_modifier_keys(*input_map).contains(ModifierKey::SuperLeft)
                            || held_modifier_keys(*input_map).contains(ModifierKey::SuperRight),
                    }),
                    None => if events.keyboard_input@[i].pressed {
                        InputEvent::<P, B, W, K, T>::KeyPressed {
                            key: events.keyboard_input@[i].key,
                            modifiers: Modifiers {
                        shift: held_modifier_keys(*input_map).contains(ModifierKey::ShiftLeft)
                            || held_modifier_keys(*input_map).contains(ModifierKey::ShiftRight),
                        control: held_modifier_keys(*input_map).contains(ModifierKey::ControlLeft)
                            || held_modifier_keys(*input_map).contains(ModifierKey::ControlRight),
                        alt: held_modifier_keys(*input_map).contains(ModifierKey::AltLeft)
                            || held_modifier_keys(*input_map).contains(ModifierKey::AltRight),
                        logo: held_modifier_keys(*input_map).contains(ModifierKey::SuperLeft)
                            || held_modifier_keys(*input_map).contains(ModifierKey::SuperRight),
                    },
                            repeat: events.keyboard_input@[i].repeat,
                        }
                    } else {
                        InputEvent::<P, B, W, K, T>::KeyReleased { key: events.keyboard_input@[i].key, modifiers: Modifiers {
                        shift: held_modifier_keys(*input_map).contains(ModifierKey::ShiftLeft)
                            || held_modifier_keys(*input_map).contains(ModifierKey::ShiftRight),
                        control: held_modifier_keys(*input_map).contains(ModifierKey::ControlLeft)
                            || held_modifier_keys(*input_map).contains(ModifierKey::ControlRight),
                        alt: held_modifier_keys(*input_map).contains(ModifierKey::AltLeft)
                            || held_modifier_keys(*input_map).contains(ModifierKey::AltRight),
                        logo: held_modifier_keys(*input_map).contains(ModifierKey::SuperLeft)
                            || held_modifier_keys(*input_map).contains(ModifierKey::SuperRight),
                    } }
                    },
                }),
            forall|i: int| 0 <= i < events.touch_input@.len() ==>
                final(event_queue)@[events.cursor_moved@.len() + events.mouse_button@.len() + events.cursor_entered
                    + events.cursor_left + events.mouse_wheel@.len() + events.keyboard_input@.len() + i]
                    == InputEvent::<P, B, W, K, T>::Touch(#[trigger] events.touch_input@[i]),
            forall|i: int| 0 <= i < events.window_focused@.len() ==>
                final(event_queue)@[events.cursor_moved@.len() + events.mouse_button@.len() + events.cursor_entered
                    + events.cursor_left + events.mouse_wheel@.len() + events.keyboard_input@.len()
                    + events.touch_input@.len() + i] == (if #[trigger] events.window_focused@[i] {
                    InputEvent::<P, B, W, K, T>::Focused
                } else {
                    InputEvent::<P, B, W, K, T>::Unfocused
                }),
{
    let ghost frame = events;
    let FrameInput {
        cursor_moved,
        mouse_button,
        cursor_entered,
        cursor_left,
        mouse_wheel,
        keyboard_input,
        touch_input,
        window_focused,
    } = events;
    let queue = &mut event_queue.0;
    queue.clear();
    push_cursor_moves(queue, cursor_moved);
    push_mouse_buttons(queue, mouse_button);
    push_repeated(queue, true, cursor_entered);
    push_repeated(queue, false, cursor_left);
    push_mouse_wheel(queue, mouse_wheel);
    let modifiers = compute_modifiers(input_map);
    push_keyboard_input(queue, keyboard_input, modifiers);
    push_touch_input(queue, touch_input);
    push_window_focused(queue, window_focused);
    proof {
        assert(queue@ == frame_events(frame, modifiers));
        lemma_frame_event_positions(frame, modifiers);
    }
}

/// Where the keyboard's events start among a frame's events.
pub open spec fn keyboard_offset<P, B, W, K, T>(input: FrameInput<P, B, W, K, T>) -> int {
    input.cursor_moved@.len() + input.mouse_button@.len() + input.cursor_entered
        + input.cursor_left + input.mouse_wheel@.len()
}

/// The number of input messages in a frame.
pub open spec fn input_count<P, B, W, K, T>(input: FrameInput<P, B, W, K, T>) -> int {
    keyboard_offset(input) + input.keyboard_input@.len() + input.touch_input@.len()
        + input.window_focused@.len()
}

/// Each input message of a frame becomes exactly one event.
pub proof fn lemma_one_event_per_input<P, B, W, K, T>(input: FrameInput<P, B, W, K, T>, modifiers: Modifiers)
    ensures
        frame_events(input, modifiers).len() == input_count(input),
{
}

/// The i-th key change of a frame becomes the event at its place among the
/// frame's events: a modifier key reports the frame's modifiers and nothing
/// else; any other key is pressed or released, as it went, with the frame's
/// modifiers and, when pressed, whether it repeats.
pub proof fn lemma_key_events<P, B, W, K, T>(input: FrameInput<P, B, W, K, T>, modifiers: Modifiers, i: int)
    requires
        0 <= i < input.keyboard_input@.len(),
    ensures
        ({
            let key = input.keyboard_input@[i];
            let event = frame_events(input, modifiers)[keyboard_offset(input) + i];
            &&& key.modifier_key is Some ==> event == InputEvent::<P, B, W, K, T>::ModifiersChanged(modifiers)
            &&& key.modifier_key is None && key.pressed ==> event == InputEvent::<P, B, W, K, T>::KeyPressed {
                key: key.key,
                modifiers,
                repeat: key.repeat,
            }
            &&& key.modifier_key is None && !key.pressed ==> event == InputEvent::<P, B, W, K, T>::KeyReleased {
                key: key.key,
                modifiers,
            }
        }),
{
    let a = input.cursor_moved@.map_values(|p: P| InputEvent::<P, B, W, K, T>::CursorMoved(p))
        + input.mouse_button@.map_values(|c: ButtonChange<B>| button_event::<P, B, W, K, T>(c))
        + repeated(InputEvent::<P, B, W, K, T>::CursorEntered, input.cursor_entered as nat)
        + repeated(InputEvent::<P, B, W, K, T>::CursorLeft, input.cursor_left as nat)
        + input.mouse_wheel@.map_values(|w: W| InputEvent::<P, B, W, K, T>::WheelScrolled(w));
    let k = input.keyboard_input@.map_values(|k: KeyInput<K>| key_event::<P, B, W, K, T>(k, modifiers));
    let rest = input.touch_input@.map_values(|t: T| InputEvent::<P, B, W, K, T>::Touch(t))
        + input.window_focused@.map_values(|f: bool| focus_event::<P, B, W, K, T>(f));
    assert(a.len() == keyboard_offset(input));
    assert(frame_events(input, modifiers) == a + k + rest);
    assert((a + k + rest)[a.len() + i] == k[i]);
}

/// Every event about keys carries the modifiers read for the frame.
pub proof fn lemma_frame_modifiers_everywhere<P, B, W, K, T>(input: FrameInput<P, B, W, K, T>, modifiers: Modifiers)
    ensures
        forall|i: int| 0 <= i < frame_events(input, modifiers).len() ==> {
            let event = #[trigger] frame_events(input, modifiers)[i];
            &&& event matches InputEvent::ModifiersChanged(m) ==> m == modifiers
            &&& event matches InputEvent::KeyPressed { modifiers: m, .. } ==> m == modifiers
            &&& event matches InputEvent::KeyReleased { modifiers: m, .. } ==> m == modifiers
        },
{
    let events = frame_events(input, modifiers);
    assert forall|i: int| 0 <= i < events.len() implies {
        let event = #[trigger] events[i];
        &&& event matches InputEvent::ModifiersChanged(m) ==> m == modifiers
        &&& event matches InputEvent::KeyPressed { modifiers: m, .. } ==> m == modifiers
        &&& event matches InputEvent::KeyReleased { modifiers: m, .. } ==> m == modifiers
    } by {
        let off = keyboard_offset(input);
        let klen = input.keyboard_input@.len() as int;
        if off <= i < off + klen {
            lemma_key_events(input, modifiers, i - off);
        } else {
            let a = input.cursor_moved@.map_values(|p: P| InputEvent::<P, B, W, K, T>::CursorMoved(p))
                + input.mouse_button@.map_values(|c: ButtonChange<B>| button_event::<P, B, W, K, T>(c))
                + repeated(InputEvent::<P, B, W, K, T>::CursorEntered, input.cursor_entered as nat)
                + repeated(InputEvent::<P, B, W, K, T>::CursorLeft, input.cursor_left as nat)
                + input.mouse_wheel@.map_values(|w: W| InputEvent::<P, B, W, K, T>::WheelScrolled(w));
            let k = input.keyboard_input@.map_values(|k: KeyInput<K>| key_event::<P, B, W, K, T>(k, modifiers));
            let t = input.touch_input@.map_values(|t: T| InputEvent::<P, B, W, K, T>::Touch(t));
            let f = input.window_focused@.map_values(|f: bool| focus_event::<P, B, W, K, T>(f));
            assert(events == a + k + t + f);
            if i < off {
                assert(events[i] == a[i]);
            } else if i < off + klen + t.len() {
                assert(events[i] == t[i - off - klen]);
            } else {
                assert(events[i] == f[i - off - klen - t.len()]);
            }
        }
    }
}

} // verus!
