//! What the libretro core tells the frontend about itself, and how it reads
//! the frontend's answers: the RetroPad input descriptors, the core option
//! that selects the machine model, and the per-frame RetroPad poll.

use vstd::prelude::*;
use crate::frontend_keys::{
    RETRO_DEVICE_ID_JOYPAD_A, RETRO_DEVICE_ID_JOYPAD_B, RETRO_DEVICE_ID_JOYPAD_DOWN, RETRO_DEVICE_ID_JOYPAD_L,
    RETRO_DEVICE_ID_JOYPAD_LEFT, RETRO_DEVICE_ID_JOYPAD_R, RETRO_DEVICE_ID_JOYPAD_RIGHT, RETRO_DEVICE_ID_JOYPAD_SELECT,
    RETRO_DEVICE_ID_JOYPAD_START, RETRO_DEVICE_ID_JOYPAD_UP, RETRO_DEVICE_ID_JOYPAD_X, RETRO_DEVICE_ID_JOYPAD_Y,
    retropad_host_key, retropad_key,
};
use crate::input::FrontendInputState;
use crate::keyboard::HostKey;
use crate::machine::{MachineModel, model_named};

verus! {

/// The libretro device type of the standard RetroPad.
pub const RETRO_DEVICE_JOYPAD: u32 = 1;

/// The number of RetroPad buttons the core polls each frame.
pub const RETROPAD_BUTTONS: u32 = 12;

/// One entry of the input descriptor table handed to the frontend; the table
/// ends with an entry without a description.
#[derive(Clone, Copy, Debug)]
pub struct InputDescriptor {
    pub port: u32,
    pub device: u32,
    pub index: u32,
    pub id: u32,
    pub description: Option<&'static str>,
}

/// The descriptor of a button on the first RetroPad.
pub open spec fn joypad_descriptor_spec(id: u32, description: &'static str) -> InputDescriptor {
    InputDescriptor { port: 0, device: RETRO_DEVICE_JOYPAD, index: 0, id, description: Some(description) }
}

/// The descriptor of a button on the first RetroPad.
pub fn joypad_descriptor(id: u32, description: &'static str) -> (r: InputDescriptor)
    ensures
        r == joypad_descriptor_spec(id, description),
{
    InputDescriptor { port: 0, device: RETRO_DEVICE_JOYPAD, index: 0, id, description: Some(description) }
}

/// The table of RetroPad buttons the core reads, with what each does, and
/// the closing entry.
pub open spec fn input_descriptors_spec() -> Seq<InputDescriptor> {
    seq![
        joypad_descriptor_spec(RETRO_DEVICE_ID_JOYPAD_B, "Escape / Back"),
        joypad_descriptor_spec(RETRO_DEVICE_ID_JOYPAD_Y, "F4"),
        joypad_descriptor_spec(RETRO_DEVICE_ID_JOYPAD_SELECT, "F11 / Model Hotkey"),
        joypad_descriptor_spec(RETRO_DEVICE_ID_JOYPAD_START, "F10 / Model Hotkey"),
        joypad_descriptor_spec(RETRO_DEVICE_ID_JOYPAD_UP, "Up"),
        joypad_descriptor_spec(RETRO_DEVICE_ID_JOYPAD_DOWN, "Down"),
        joypad_descriptor_spec(RETRO_DEVICE_ID_JOYPAD_LEFT, "Left"),
        joypad_descriptor_spec(RETRO_DEVICE_ID_JOYPAD_RIGHT, "Right"),
        joypad_descriptor_spec(RETRO_DEVICE_ID_JOYPAD_A, "Enter / Confirm"),
        joypad_descriptor_spec(RETRO_DEVICE_ID_JOYPAD_X, "F1"),
        joypad_descriptor_spec(RETRO_DEVICE_ID_JOYPAD_L, "Page Up"),
        joypad_descriptor_spec(RETRO_DEVICE_ID_JOYPAD_R, "Page Down"),
        InputDescriptor { port: 0, device: 0, index: 0, id: 0, description: None },
    ]
}

/// The table of RetroPad buttons the core reads, with what each does, and
/// the closing entry.
pub fn input_descriptors() -> (r: Vec<InputDescriptor>)
    ensures
        r@ == input_descriptors_spec(),
{
    vec![
        joypad_descriptor(RETRO_DEVICE_ID_JOYPAD_B, "Escape / Back"),
        joypad_descriptor(RETRO_DEVICE_ID_JOYPAD_Y, "F4"),
        joypad_descriptor(RETRO_DEVICE_ID_JOYPAD_SELECT, "F11 / Model Hotkey"),
        joypad_descriptor(RETRO_DEVICE_ID_JOYPAD_START, "F10 / Model Hotkey"),
        joypad_descriptor(RETRO_DEVICE_ID_JOYPAD_UP, "Up"),
        joypad_descriptor(RETRO_DEVICE_ID_JOYPAD_DOWN, "Down"),
        joypad_descriptor(RETRO_DEVICE_ID_JOYPAD_LEFT, "Left"),
        joypad_descriptor(RETRO_DEVICE_ID_JOYPAD_RIGHT, "Right"),
        joypad_descriptor(RETRO_DEVICE_ID_JOYPAD_A, "Enter / Confirm"),
        joypad_descriptor(RETRO_DEVICE_ID_JOYPAD_X, "F1"),
        joypad_descriptor(RETRO_DEVICE_ID_JOYPAD_L, "Page Up"),
        joypad_descriptor(RETRO_DEVICE_ID_JOYPAD_R, "Page Down"),
        InputDescriptor { port: 0, device: 0, index: 0, id: 0, description: None },
    ]
}

/// Law: every RetroPad button the core maps to a key is advertised, on the
/// first RetroPad, before the closing entry.
pub proof fn lemma_mapped_buttons_are_advertised(button: u32)
    requires
        retropad_key(button) is Some,
    ensures
        exists|i: int|
            0 <= i < input_descriptors_spec().len() - 1 && (#[trigger] input_descriptors_spec()[i]).id == button
                && input_descriptors_spec()[i].device == RETRO_DEVICE_JOYPAD && input_descriptors_spec()[i].port == 0
                && input_descriptors_spec()[i].index == 0 && input_descriptors_spec()[i].description is Some,
{
    let d = input_descriptors_spec();
    if button == RETRO_DEVICE_ID_JOYPAD_B {
        assert(d[0].id == button);
    } else if button == RETRO_DEVICE_ID_JOYPAD_Y {
        assert(d[1].id == button);
    } else if button == RETRO_DEVICE_ID_JOYPAD_SELECT {
        assert(d[2].id == button);
    } else if button == RETRO_DEVICE_ID_JOYPAD_START {
        assert(d[3].id == button);
    } else if button == RETRO_DEVICE_ID_JOYPAD_UP {
        assert(d[4].id == button);
    } else if button == RETRO_DEVICE_ID_JOYPAD_DOWN {
        assert(d[5].id == button);
    } else if button == RETRO_DEVICE_ID_JOYPAD_LEFT {
        assert(d[6].id == button);
    } else if button == RETRO_DEVICE_ID_JOYPAD_RIGHT {
        assert(d[7].id == button);
    } else if button == RETRO_DEVICE_ID_JOYPAD_A {
        assert(d[8].id == button);
    } else if button == RETRO_DEVICE_ID_JOYPAD_X {
        assert(d[9].id == button);
    } else if button == RETRO_DEVICE_ID_JOYPAD_L {
        assert(d[10].id == button);
    } else {
        assert(d[11].id == button);
    }
}

/// Law: every advertised button is one the core maps to a key, and the
/// table closes with the one entry that has no description.
pub proof fn lemma_advertised_buttons_are_mapped(i: int)
    requires
        0 <= i < input_descriptors_spec().len(),
    ensures
        i < input_descriptors_spec().len() - 1 ==> {
            &&& input_descriptors_spec()[i].description is Some
            &&& input_descriptors_spec()[i].device == RETRO_DEVICE_JOYPAD
            &&& input_descriptors_spec()[i].port == 0
            &&& input_descriptors_spec()[i].index == 0
            &&& retropad_key(input_descriptors_spec()[i].id) is Some
        },
        i == input_descriptors_spec().len() - 1 ==> input_descriptors_spec()[i].description is None,
{
}

/// The decimal digit character of a value below 10.
pub open spec fn decimal_digit(d: int) -> char {
    ('0' as int + d) as char
}

/// The name a key goes by on a PC keyboard, as the descriptors print it.
pub open spec fn key_caption(k: HostKey) -> Seq<char> {
    match k {
        HostKey::Up => "Up"@,
        HostKey::Down => "Down"@,
        HostKey::Left => "Left"@,
        HostKey::Right => "Right"@,
        HostKey::Return => "Enter"@,
        HostKey::Escape => "Escape"@,
        HostKey::PageUp => "Page Up"@,
        HostKey::PageDown => "Page Down"@,
        HostKey::Function(n) => if n < 10 {
            seq!['F', decimal_digit(n as int)]
        } else {
            seq!['F', decimal_digit((n / 10) as int), decimal_digit((n % 10) as int)]
        },
        _ => Seq::empty(),
    }
}

/// A description that names `caption` first: the whole description, or the
/// caption followed by a space and more words.
pub open spec fn leads_with(description: Seq<char>, caption: Seq<char>) -> bool {
    ||| description == caption
    ||| description.len() > caption.len() && description.subrange(0, caption.len() as int) == caption
        && description[caption.len() as int] == ' '
}

/// Law: each advertised RetroPad button presses the key its descriptor names
/// (X presses F1, Y F4, A Enter, B Escape, L Page Up, R Page Down, Start F10,
/// Select F11, and the pad the arrows).
pub proof fn lemma_buttons_press_the_key_they_advertise(i: int)
    requires
        0 <= i < input_descriptors_spec().len() - 1,
    ensures
        retropad_key(input_descriptors_spec()[i].id) is Some,
        input_descriptors_spec()[i].description is Some,
        leads_with(
            input_descriptors_spec()[i].description.unwrap()@,
            key_caption(retropad_key(input_descriptors_spec()[i].id).unwrap()),
        ),
{
    reveal_strlit("Escape / Back");
    reveal_strlit("F4");
    reveal_strlit("F11 / Model Hotkey");
    reveal_strlit("F10 / Model Hotkey");
    reveal_strlit("Up");
    reveal_strlit("Down");
    reveal_strlit("Left");
    reveal_strlit("Right");
    reveal_strlit("Enter / Confirm");
    reveal_strlit("F1");
    reveal_strlit("Page Up");
    reveal_strlit("Page Down");
    reveal_strlit("Enter");
    reveal_strlit("Escape");
    let d = input_descriptors_spec()[i];
    let caption = key_caption(retropad_key(d.id).unwrap());
    let text = d.description.unwrap()@;
    if i == 0 || i == 2 || i == 3 || i == 8 {
        assert(text.subrange(0, caption.len() as int) =~= caption);
    } else {
        assert(text =~= caption);
    }
}

/// The core option that selects the machine model.
#[derive(Clone, Copy, Debug)]
pub struct CoreVariable {
    pub key: Option<&'static str>,
    pub value: Option<&'static str>,
}

/// The core options offered to the frontend: the model choice, then the
/// closing entry.
pub open spec fn core_variables_spec() -> Seq<CoreVariable> {
    seq![
        CoreVariable {
            key: Some("wqxemu_model"),
            value: Some("Machine Model (Restart); NC1020|PC1000|CC800|NC2000|NC3000"),
        },
        CoreVariable { key: None, value: None },
    ]
}

/// The core options offered to the frontend: the model choice, then the
/// closing entry.
pub fn core_variables() -> (r: Vec<CoreVariable>)
    ensures
        r@ == core_variables_spec(),
{
    vec![
        CoreVariable {
            key: Some("wqxemu_model"),
            value: Some("Machine Model (Restart); NC1020|PC1000|CC800|NC2000|NC3000"),
        },
        CoreVariable { key: None, value: None },
    ]
}

/// The model the frontend's option value selects: the named model, or the
/// NC1020 when the frontend gave no value or one that names no model.
pub open spec fn selected_model_spec(value: Option<Seq<char>>) -> MachineModel {
    match value {
        Some(v) => match model_named(v) {
            Some(model) => model,
            None => MachineModel::Nc1020,
        },
        None => MachineModel::Nc1020,
    }
}

/// The model the frontend's option value selects.
pub fn selected_model(value: Option<&str>) -> (r: MachineModel)
    ensures
        r == selected_model_spec(
            match value {
                Some(v) => Some(v@),
                None => None,
            },
        ),
{
    match value {
        Some(v) => match MachineModel::from_name(v) {
            Some(model) => model,
            None => MachineModel::Nc1020,
        },
        None => MachineModel::Nc1020,
    }
}

/// The held controller keys after reading the first `n` RetroPad buttons,
/// in button order; `states[b]` is the frontend's state of button `b`.
pub open spec fn controller_after_poll(held: Set<HostKey>, states: Seq<i16>, n: nat) -> Set<HostKey>
    decreases n,
{
    if n == 0 {
        held
    } else {
        let before = controller_after_poll(held, states, (n - 1) as nat);
        match retropad_key((n - 1) as u32) {
            Some(key) => if states[n - 1] != 0 {
                before.insert(key)
            } else {
                before.remove(key)
            },
            None => before,
        }
    }
}

/// Record one frame's RetroPad button states: each mapped button presses or
/// releases the key it stands for.
pub fn apply_retropad_states(input: &mut FrontendInputState, states: &[i16; 12])
    ensures
        final(input)@.controller == controller_after_poll(old(input)@.controller, states@, 12),
        final(input)@.keyboard == old(input)@.keyboard,
        final(input)@.pointer == old(input)@.pointer,
        final(input)@.applied == old(input)@.applied,
{
    let mut button: u32 = 0;
    while button < RETROPAD_BUTTONS
        invariant
            button <= RETROPAD_BUTTONS,
            states@.len() == 12,
            input@.controller == controller_after_poll(old(input)@.controller, states@, button as nat),
            input@.keyboard == old(input)@.keyboard,
            input@.pointer == old(input)@.pointer,
            input@.applied == old(input)@.applied,
        decreases RETROPAD_BUTTONS - button,
    {
        if let Some(host_key) = retropad_host_key(button) {
            let state = states[button as usize];
            input.set_controller_key(host_key, state != 0);
        }
        button = button + 1;
    }
}

} // verus!
