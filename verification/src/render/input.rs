//! What input events mean for the overlay: which mouse button, which
//! modifiers, which key slot. The numbers are those of the windowing layer.

use vstd::prelude::*;

verus! {

/// How many mouse buttons the overlay tracks.
pub const MOUSE_BUTTON_COUNT: usize = 5;

/// The windowing layer's number of the left mouse button.
pub const BUTTON_LEFT: u8 = 1;

/// The windowing layer's number of the middle mouse button.
pub const BUTTON_MIDDLE: u8 = 2;

/// The windowing layer's number of the right mouse button.
pub const BUTTON_RIGHT: u8 = 3;

/// The windowing layer's number of the first extra mouse button.
pub const BUTTON_X1: u8 = 4;

/// The windowing layer's number of the second extra mouse button.
pub const BUTTON_X2: u8 = 5;

/// The modifier bits of the two shift keys.
pub const KMOD_SHIFT: u16 = 0x0003;

/// The modifier bits of the two control keys.
pub const KMOD_CTRL: u16 = 0x00C0;

/// The modifier bits of the two alt keys.
pub const KMOD_ALT: u16 = 0x0300;

/// The modifier bits of the two system keys.
pub const KMOD_GUI: u16 = 0x0C00;

/// The place of a mouse button among the buttons of the overlay: left,
/// right, middle, first extra, second extra. A button that the overlay does
/// not know counts as the left one.
pub open spec fn spec_mouse_button_index(button: u8) -> usize {
    if button == BUTTON_RIGHT {
        1
    } else if button == BUTTON_MIDDLE {
        2
    } else if button == BUTTON_X1 {
        3
    } else if button == BUTTON_X2 {
        4
    } else {
        0
    }
}

/// The place of a mouse button among the buttons of the overlay.
#[verifier::when_used_as_spec(spec_mouse_button_index)]
pub fn mouse_button_index(button: u8) -> (index: usize)
    ensures
        index == spec_mouse_button_index(button),
        index < MOUSE_BUTTON_COUNT,
{
    if button == BUTTON_RIGHT {
        1
    } else if button == BUTTON_MIDDLE {
        2
    } else if button == BUTTON_X1 {
        3
    } else if button == BUTTON_X2 {
        4
    } else {
        0
    }
}

/// Which mouse buttons are held down.
#[derive(Clone, Copy, Debug, PartialEq, Eq)]
pub struct MouseButtons {
    pub pressed: [bool; 5],
}

impl MouseButtons {
    /// No button is held down.
    pub fn new() -> (buttons: MouseButtons)
        ensures
            forall|i: int| 0 <= i < MOUSE_BUTTON_COUNT ==> !buttons.pressed@[i],
    {
        MouseButtons { pressed: [false; 5] }
    }

    /// Takes a button going down or up: its place is set, the others stay.
    pub fn set(&mut self, button: u8, down: bool)
        ensures
            final(self).pressed@ == old(self).pressed@.update(
                spec_mouse_button_index(button) as int,
                down,
            ),
    {
        let index = mouse_button_index(button);
        self.pressed[index] = down;
    }
}

/// The modifier keys that are held down.
#[derive(Clone, Copy, Debug, PartialEq, Eq, Structural)]
pub struct KeyModifiers {
    pub ctrl: bool,
    pub alt: bool,
    pub shift: bool,
    pub gui: bool,
}

/// The modifiers that a modifier state holds: each is held when one of its
/// two keys is.
pub open spec fn spec_key_modifiers(modifier: u16) -> KeyModifiers {
    KeyModifiers {
        ctrl: modifier & KMOD_CTRL != 0,
        alt: modifier & KMOD_ALT != 0,
        shift: modifier & KMOD_SHIFT != 0,
        gui: modifier & KMOD_GUI != 0,
    }
}

/// Reads the modifiers out of a modifier state.
#[verifier::when_used_as_spec(spec_key_modifiers)]
pub fn key_modifiers(modifier: u16) -> (held: KeyModifiers)
    ensures
        held == spec_key_modifiers(modifier),
{
    KeyModifiers {
        ctrl: modifier & KMOD_CTRL != 0,
        alt: modifier & KMOD_ALT != 0,
        shift: modifier & KMOD_SHIFT != 0,
        gui: modifier & KMOD_GUI != 0,
    }
}

/// A modifier is held exactly when its left or its right key is, and the
/// bits of other keys do not matter.
pub proof fn lemma_modifier_is_left_or_right(modifier: u16)
    ensures
        spec_key_modifiers(modifier).shift <==> (modifier & 0x0001 != 0 || modifier & 0x0002 != 0),
        spec_key_modifiers(modifier).ctrl <==> (modifier & 0x0040 != 0 || modifier & 0x0080 != 0),
        spec_key_modifiers(modifier).alt <==> (modifier & 0x0100 != 0 || modifier & 0x0200 != 0),
        spec_key_modifiers(modifier).gui <==> (modifier & 0x0400 != 0 || modifier & 0x0800 != 0),
{
    assert((modifier & 0x0003 != 0) <==> (modifier & 0x0001 != 0 || modifier & 0x0002 != 0))
        by (bit_vector);
    assert((modifier & 0x00C0 != 0) <==> (modifier & 0x0040 != 0 || modifier & 0x0080 != 0))
        by (bit_vector);
    assert((modifier & 0x0300 != 0) <==> (modifier & 0x0100 != 0 || modifier & 0x0200 != 0))
        by (bit_vector);
    assert((modifier & 0x0C00 != 0) <==> (modifier & 0x0400 != 0 || modifier & 0x0800 != 0))
        by (bit_vector);
}

/// The slot of a key in a table of `keys` slots: its scancode, where that
/// lies within the table.
pub fn key_slot(scancode: i32, keys: usize) -> (slot: Option<usize>)
    ensures
        slot is Some <==> 0 <= scancode < keys,
        slot is Some ==> slot->Some_0 == scancode,
{
    if scancode >= 0 && (scancode as usize) < keys {
        Some(scancode as usize)
    } else {
        None
    }
}

} // verus!
