# wqxemu

The verified core of the Wenquxing (文曲星) emulator frontends: everything the
desktop window and the libretro core decide between the emulated machine and
the user, written in Verus with its behaviour stated in contracts.

- `machine`: the five machine models, their names and save-state tags.
- `keyboard`, `layouts`, `legend`: each model's keypad layout and how a PC key
  resolves to a keypad matrix key through the legends printed on the caps.
- `input`: the merged keyboard, controller and pointer state, and the matrix
  changes to apply each frame.
- `frontend_keys`: libretro key codes, RetroPad buttons and window key codes as
  host keys.
- `firmware`: firmware file sets, their checks, and session file paths.
- `envelope`: the save-state envelope the libretro core hands to RetroArch.
- `retro_setup`, `retro_load`, `companions`: the libretro core's input
  descriptors, model option, per-frame RetroPad poll and start-up decisions,
  from a firmware file given as content (with its companion files) or from
  the system directory.
- `keymap_laws`: the layouts' shape and how every documented PC key resolves.
- `desktop`: the desktop window's per-frame key and mouse decisions.
- `canvas`, `glyphs`, `skin_style`, `skin`, `cases`, `device`: the drawn device
  skins, shape by shape, and their resampling to the window size.
- `screenshot`: screenshot image data.

`app/` holds the programs around the library: the desktop window (`main.rs`)
and the libretro C API (`retro_core.rs`). They run the emulated machine from
the emulator core crate `wqxemu_core`. The desktop window expects a `keypad`
module with the skin geometry (key regions and hit testing); that module is
not part of this tree, so the desktop window does not build as it stands.
