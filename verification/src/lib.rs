//! Verified core of the Wenquxing emulator frontends: machine models, keypad
//! layouts, host keyboard translation, frontend input merging, firmware file
//! rules, save-state envelopes and the drawn device skin.

pub mod machine;
pub mod legend;
pub mod keyboard;
pub mod layouts;
pub mod input;
pub mod frontend_keys;
pub mod envelope;
pub mod firmware;
pub mod canvas;
pub mod glyphs;
pub mod skin_style;
pub mod skin;
pub mod device;
pub mod cases;
pub mod retro_setup;
pub mod screenshot;
pub mod retro_load;
pub mod desktop;
pub mod companions;
pub mod keymap_laws;
