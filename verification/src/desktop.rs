//! The desktop window's per-frame input decisions: window keys pressed and
//! released this frame, and what the mouse points at on the skin.

use vstd::prelude::*;
use crate::frontend_keys::{minifb_host_key, minifb_key};
use crate::input::{FrontendInputState, released_matrix};
use crate::keyboard::HostKey;

verus! {

/// What a mouse press on the device skin selects.
#[derive(Clone, Copy, Debug, PartialEq, Eq, Structural)]
pub enum SkinInput {
    /// A keypad matrix key.
    Key(u8),
    /// The reset button.
    Reset,
}

/// The held keyboard keys after this frame's window key events: the keys
/// pressed, in order, then the keys released, in order; codes that name no
/// host key change nothing.
pub open spec fn keyboard_after_events(held: Set<HostKey>, pressed: Seq<u8>, released: Seq<u8>) -> Set<HostKey> {
    keys_released(keys_pressed(held, pressed, pressed.len()), released, released.len())
}

/// The held keys after the first `n` press events.
pub open spec fn keys_pressed(held: Set<HostKey>, codes: Seq<u8>, n: nat) -> Set<HostKey>
    decreases n,
{
    if n == 0 {
        held
    } else {
        let before = keys_pressed(held, codes, (n - 1) as nat);
        match minifb_key(codes[n - 1]) {
            Some(key) => before.insert(key),
            None => before,
        }
    }
}

/// The held keys after the first `n` release events.
pub open spec fn keys_released(held: Set<HostKey>, codes: Seq<u8>, n: nat) -> Set<HostKey>
    decreases n,
{
    if n == 0 {
        held
    } else {
        let before = keys_released(held, codes, (n - 1) as nat);
        match minifb_key(codes[n - 1]) {
            Some(key) => before.remove(key),
            None => before,
        }
    }
}

/// Record this frame's window key events, given by window key codes.
pub fn apply_window_keys(input: &mut FrontendInputState, pressed: &Vec<u8>, released: &Vec<u8>)
    ensures
        final(input)@.keyboard == keyboard_after_events(old(input)@.keyboard, pressed@, released@),
        final(input)@.controller == old(input)@.controller,
        final(input)@.pointer == old(input)@.pointer,
        final(input)@.applied == old(input)@.applied,
{
    let ghost start = input@.keyboard;
    let mut i: usize = 0;
    while i < pressed.len()
        invariant
            i <= pressed@.len(),
            input@.keyboard == keys_pressed(start, pressed@, i as nat),
            input@.controller == old(input)@.controller,
            input@.pointer == old(input)@.pointer,
            input@.applied == old(input)@.applied,
        decreases pressed@.len() - i,
    {
        if let Some(key) = minifb_host_key(pressed[i]) {
            input.set_keyboard_key(key, true);
        }
        i = i + 1;
    }
    let ghost after_presses = input@.keyboard;
    let mut j: usize = 0;
    while j < released.len()
        invariant
            j <= released@.len(),
            after_presses == keys_pressed(start, pressed@, pressed@.len()),
            input@.keyboard == keys_released(after_presses, released@, j as nat),
            input@.controller == old(input)@.controller,
            input@.pointer == old(input)@.pointer,
            input@.applied == old(input)@.applied,
        decreases released@.len() - j,
    {
        if let Some(key) = minifb_host_key(released[j]) {
            input.set_keyboard_key(key, false);
        }
        j = j + 1;
    }
}

/// The matrix key the pointer holds for what the mouse selects.
pub open spec fn pointer_key(target: Option<SkinInput>) -> Option<u8> {
    match target {
        Some(SkinInput::Key(id)) => if id < 64 {
            Some(id)
        } else {
            None
        },
        _ => None,
    }
}

/// Follow the mouse for one frame: `target` is what it selects now (nothing
/// when the button is up or the mouse is off the skin). Returns whether the
/// machine must reset, which is when the mouse has just come onto the reset
/// button; the applied matrix is then forgotten.
pub fn apply_mouse(input: &mut FrontendInputState, current: &mut Option<SkinInput>, target: Option<SkinInput>) -> (reset: bool)
    ensures
        reset == (*old(current) != target && target == Some(SkinInput::Reset)),
        *final(current) == target,
        final(input)@.pointer == pointer_key(target),
        final(input)@.applied == if reset {
            released_matrix()
        } else {
            old(input)@.applied
        },
        final(input)@.keyboard == old(input)@.keyboard,
        final(input)@.controller == old(input)@.controller,
{
    let mut reset = false;
    if *current != target {
        if target == Some(SkinInput::Reset) {
            input.reset_applied();
            reset = true;
        }
        *current = target;
    }
    match target {
        Some(SkinInput::Key(id)) => input.set_pointer_key(Some(id)),
        _ => input.set_pointer_key(None),
    }
    reset
}

} // verus!
