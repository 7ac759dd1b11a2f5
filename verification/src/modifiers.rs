//! Keyboard modifier state, read from bevy's held keys.

use vstd::prelude::*;
use bevy_input::ButtonInput;
use bevy_input::keyboard::KeyCode;

verus! {

/// bevy's keyboard key code, carried opaquely.
#[verifier::external_type_specification]
#[verifier::external_body]
pub struct ExKeyCode(KeyCode);

/// bevy's set of held, just pressed and just released buttons.
#[verifier::external_type_specification]
#[verifier::external_body]
#[verifier::reject_recursive_types(T)]
pub struct ExButtonInput<T: Clone + Eq + core::hash::Hash + Send + Sync + 'static>(ButtonInput<T>);

/// The eight keys whose state makes up the modifiers.
#[derive(Clone, Copy, Debug, PartialEq, Eq, Structural)]
pub enum ModifierKey {
    ControlLeft,
    ControlRight,
    ShiftLeft,
    ShiftRight,
    AltLeft,
    AltRight,
    SuperLeft,
    SuperRight,
}

/// A modifier, held through either its left or its right key.
#[derive(Clone, Copy, Debug, PartialEq, Eq, Structural)]
pub enum ModifierGroup {
    Control,
    Shift,
    Alt,
    Super,
}

impl ModifierGroup {
    /// The left key of the group.
    pub open spec fn left(self) -> ModifierKey {
        match self {
            ModifierGroup::Control => ModifierKey::ControlLeft,
            ModifierGroup::Shift => ModifierKey::ShiftLeft,
            ModifierGroup::Alt => ModifierKey::AltLeft,
            ModifierGroup::Super => ModifierKey::SuperLeft,
        }
    }

    /// The right key of the group.
    pub open spec fn right(self) -> ModifierKey {
        match self {
            ModifierGroup::Control => ModifierKey::ControlRight,
            ModifierGroup::Shift => ModifierKey::ShiftRight,
            ModifierGroup::Alt => ModifierKey::AltRight,
            ModifierGroup::Super => ModifierKey::SuperRight,
        }
    }
}

/// The modifier keys that a `ButtonInput<KeyCode>` holds as pressed.
pub uninterp spec fn held_modifier_keys(input: ButtonInput<KeyCode>) -> Set<ModifierKey>;

/// Calls `ButtonInput::any_pressed` with the bevy key code of the same name as
/// `key`. bevy answers whether that key is in its set of pressed keys, which is
/// what the contract says over `held_modifier_keys`.
#[verifier::external_body]
fn any_pressed(input: &ButtonInput<KeyCode>, key: ModifierKey) -> (res: bool)
    ensures
        res == held_modifier_keys(*input).contains(key),
{
    input.any_pressed([match key {
        ModifierKey::ControlLeft => KeyCode::ControlLeft,
        ModifierKey::ControlRight => KeyCode::ControlRight,
        ModifierKey::ShiftLeft => KeyCode::ShiftLeft,
        ModifierKey::ShiftRight => KeyCode::ShiftRight,
        ModifierKey::AltLeft => KeyCode::AltLeft,
        ModifierKey::AltRight => KeyCode::AltRight,
        ModifierKey::SuperLeft => KeyCode::SuperLeft,
        ModifierKey::SuperRight => KeyCode::SuperRight,
    }])
}

/// Whether the left or the right key of `group` is held.
fn group_pressed(input: &ButtonInput<KeyCode>, group: ModifierGroup) -> (res: bool)
    ensures
        res == (held_modifier_keys(*input).contains(group.left())
            || held_modifier_keys(*input).contains(group.right())),
{
    let (left, right) = match group {
        ModifierGroup::Control => (ModifierKey::ControlLeft, ModifierKey::ControlRight),
        ModifierGroup::Shift => (ModifierKey::ShiftLeft, ModifierKey::ShiftRight),
        ModifierGroup::Alt => (ModifierKey::AltLeft, ModifierKey::AltRight),
        ModifierGroup::Super => (ModifierKey::SuperLeft, ModifierKey::SuperRight),
    };
    any_pressed(input, left) || any_pressed(input, right)
}

/// The state of the modifier keys, as iced's keyboard events carry it.
#[derive(Clone, Copy, Debug, PartialEq, Eq, Structural)]
pub struct Modifiers {
    pub shift: bool,
    pub control: bool,
    pub alt: bool,
    pub logo: bool,
}

impl Modifiers {
    /// No modifier held.
    pub open spec fn none() -> Modifiers {
        Modifiers { shift: false, control: false, alt: false, logo: false }
    }

    /// Whether the modifier of `group` is set.
    pub open spec fn has(self, group: ModifierGroup) -> bool {
        match group {
            ModifierGroup::Control => self.control,
            ModifierGroup::Shift => self.shift,
            ModifierGroup::Alt => self.alt,
            ModifierGroup::Super => self.logo,
        }
    }
}

/// The modifiers that a set of held keys makes up: a modifier is set when
/// its left key or its right key is held.
pub open spec fn modifiers_of(held: Set<ModifierKey>) -> Modifiers {
    Modifiers {
        shift: held.contains(ModifierKey::ShiftLeft) || held.contains(ModifierKey::ShiftRight),
        control: held.contains(ModifierKey::ControlLeft) || held.contains(ModifierKey::ControlRight),
        alt: held.contains(ModifierKey::AltLeft) || held.contains(ModifierKey::AltRight),
        logo: held.contains(ModifierKey::SuperLeft) || held.contains(ModifierKey::SuperRight),
    }
}

/// Reads the modifiers from the keys that bevy holds as pressed.
pub fn compute_modifiers(input_map: &ButtonInput<KeyCode>) -> (modifiers: Modifiers)
    ensures
        modifiers == modifiers_of(held_modifier_keys(*input_map)),
        modifiers.shift == (held_modifier_keys(*input_map).contains(ModifierKey::ShiftLeft)
            || held_modifier_keys(*input_map).contains(ModifierKey::ShiftRight)),
        modifiers.control == (held_modifier_keys(*input_map).contains(ModifierKey::ControlLeft)
            || held_modifier_keys(*input_map).contains(ModifierKey::ControlRight)),
        modifiers.alt == (held_modifier_keys(*input_map).contains(ModifierKey::AltLeft)
            || held_modifier_keys(*input_map).contains(ModifierKey::AltRight)),
        modifiers.logo == (held_modifier_keys(*input_map).contains(ModifierKey::SuperLeft)
            || held_modifier_keys(*input_map).contains(ModifierKey::SuperRight)),
{
    let mut modifiers = Modifiers { shift: false, control: false, alt: false, logo: false };
    if group_pressed(input_map, ModifierGroup::Control) {
        modifiers.control = true;
    }
    if group_pressed(input_map, ModifierGroup::Shift) {
        modifiers.shift = true;
    }
    if group_pressed(input_map, ModifierGroup::Alt) {
        modifiers.alt = true;
    }
    if group_pressed(input_map, ModifierGroup::Super) {
        modifiers.logo = true;
    }
    modifiers
}

/// A modifier is set exactly when one of its two keys is held.
pub proof fn lemma_modifier_set_iff_key_held(held: Set<ModifierKey>, group: ModifierGroup)
    ensures
        modifiers_of(held).has(group) <==> (held.contains(group.left()) || held.contains(group.right())),
{
}

} // verus!
