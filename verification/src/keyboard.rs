//! The stateful scancode decoder, from the `pc_keyboard` crate.
//!
//! The decoder turns the bytes read from the keyboard data port into key
//! events and decoded keys; its decode tables and modifier state live in the
//! outside crate and are opaque here. Each call the interrupt handler makes
//! is declared below; what the handler does with the decoder's answer is
//! verified in [`crate::interrupt`].

use vstd::prelude::*;

use pc_keyboard::layouts::Us104Key;
use pc_keyboard::{DecodedKey, HandleControl, KeyEvent, Keyboard, ScancodeSet1};

verus! {

/// The decoder of the outside crate, held opaquely: its type's trait-bounded
/// generics cannot be declared to the verifier, so the concrete decoder for
/// this kernel's layout and scancode set stands behind this struct.
#[verifier::external_body]
pub struct KeyboardState {
    inner: Keyboard<Us104Key, ScancodeSet1>,
}

#[verifier::external_type_specification]
#[verifier::external_body]
pub struct ExKeyEvent(KeyEvent);

#[verifier::external_type_specification]
#[verifier::external_body]
pub struct ExDecodedKey(DecodedKey);

/// What the keyboard handler emits to the output sink for one decoded key:
/// either the character a key press stands for, or the rendered name of a
/// key that carries no character.
pub enum KeyOutput {
    /// A Unicode character.
    Unicode(char),
    /// The rendered name of a raw key, one character at a time.
    RawKey(Vec<char>),
}

/// Relies on pc_keyboard::Keyboard::new: a fresh decoder for the US 104-key
/// layout and scancode set 1, with control keys passed through unchanged.
#[verifier::external_body]
pub fn keyboard_new() -> KeyboardState {
    KeyboardState { inner: Keyboard::new(Us104Key, ScancodeSet1, HandleControl::Ignore) }
}

/// Relies on pc_keyboard::Keyboard::add_byte: advances the decoder by one
/// scancode byte and yields a key event when one is complete; a decode error
/// yields nothing here, as the handler ignores malformed scancodes.
#[verifier::external_body]
pub fn keyboard_add_byte(keyboard: &mut KeyboardState, scancode: u8) -> Option<KeyEvent> {
    match keyboard.inner.add_byte(scancode) {
        Ok(event) => event,
        Err(_) => None,
    }
}

/// Relies on pc_keyboard::Keyboard::process_keyevent: applies the decoder's
/// modifier state to the event and maps it to a decoded key, if it yields
/// one.
#[verifier::external_body]
pub fn keyboard_process_keyevent(
    keyboard: &mut KeyboardState,
    event: KeyEvent,
) -> Option<DecodedKey> {
    keyboard.inner.process_keyevent(event)
}

/// Relies on pc_keyboard::DecodedKey having exactly the two variants mirrored
/// by [`KeyOutput`]; a raw key code is rendered through its Debug form.
#[verifier::external_body]
pub fn decoded_key_output(key: DecodedKey) -> KeyOutput {
    match key {
        DecodedKey::Unicode(character) => KeyOutput::Unicode(character),
        DecodedKey::RawKey(code) => KeyOutput::RawKey(format!("{:?}", code).chars().collect()),
    }
}

} // verus!
