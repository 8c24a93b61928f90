//! Key styles and legends of the drawn device skins: colours and shapes of
//! each model's keys, the secondary legends printed on and above them, and
//! the label sizes that fit a key face.

use vstd::prelude::*;
use crate::canvas::Rect;
use crate::keyboard::KeyDef;
use crate::machine::MachineModel;

verus! {

/// How a key cap is outlined.
#[derive(Clone, Copy, Debug, PartialEq, Eq, Structural)]
pub enum ButtonShape {
    /// A rectangle with this corner radius.
    Rect(usize),
    /// Fully rounded short ends.
    Capsule,
    /// Fully rounded.
    Circle,
}

/// The colours and shape of a key cap.
#[derive(Clone, Copy, Debug, PartialEq, Eq, Structural)]
pub struct ButtonStyle {
    pub face: u32,
    pub border: u32,
    pub text: u32,
    pub shape: ButtonShape,
}

/// The plain key style of a model.
pub open spec fn base_style(model: MachineModel) -> ButtonStyle {
    match model {
        MachineModel::Nc1020 => ButtonStyle { face: 0xDCDBD9, border: 0x6E7072, text: 0x1B1D1F, shape: ButtonShape::Rect(6) },
        MachineModel::Nc2000 => ButtonStyle { face: 0xD8D9D7, border: 0x6E7276, text: 0x1B1D1F, shape: ButtonShape::Rect(6) },
        MachineModel::Pc1000 => ButtonStyle { face: 0x4A4F58, border: 0x14171B, text: 0xF2F4F6, shape: ButtonShape::Rect(13) },
        MachineModel::Cc800 => ButtonStyle { face: 0x262A30, border: 0x0C0E10, text: 0xF5F6F7, shape: ButtonShape::Rect(13) },
        MachineModel::Nc3000 => ButtonStyle { face: 0x4A4E54, border: 0x14161A, text: 0xF2F4F6, shape: ButtonShape::Rect(13) },
    }
}

/// The style of the key at display row `drow`, column `dcol` of a model:
/// hotkeys, side function keys, power, Enter and Help keys have their own
/// colours and shapes.
pub open spec fn key_style_spec(model: MachineModel, drow: u8, dcol: u8) -> ButtonStyle {
    let base = base_style(model);
    let function_key = drow == 1 && 2 <= dcol && dcol <= 5;
    let power_key = drow == 1 && dcol == 8;
    let enter_key = drow == 3 && dcol == 9;
    let help_key = drow == 5 && dcol == 0;
    match model {
        MachineModel::Nc1020 => if drow == 0 {
            ButtonStyle { face: 0xADA3C1, border: 0x55506A, text: 0x2E2A3A, ..base }
        } else if function_key {
            ButtonStyle { face: 0xA5CEE3, border: 0x4E7896, text: 0x1E4E78, ..base }
        } else if power_key {
            ButtonStyle { face: 0xA5CDE2, border: 0x4E7896, text: 0x1E4E78, shape: ButtonShape::Circle }
        } else if enter_key {
            ButtonStyle { face: 0xFD8630, border: 0xA85410, text: 0x502800, ..base }
        } else if help_key {
            ButtonStyle { text: 0xC0202C, ..base }
        } else {
            base
        },
        MachineModel::Pc1000 => if drow == 0 && dcol == 6 {
            ButtonStyle { face: 0xF6AE28, border: 0x8E6208, text: 0x5E4200, ..base }
        } else if function_key {
            ButtonStyle { text: 0x9FC4E8, ..base }
        } else if power_key {
            ButtonStyle { face: 0xF6E0D6, border: 0x9A9DA0, text: 0x2F5FA8, shape: ButtonShape::Capsule }
        } else if enter_key {
            ButtonStyle { face: 0xFDB930, border: 0x8E6208, text: 0x5E4000, ..base }
        } else if help_key {
            ButtonStyle { text: 0xE884B4, ..base }
        } else {
            base
        },
        MachineModel::Cc800 => if drow == 0 && dcol <= 5 {
            ButtonStyle { face: 0x0BA78B, border: 0x065844, text: 0xF2FFFB, shape: ButtonShape::Capsule }
        } else if drow == 0 && dcol == 6 {
            ButtonStyle { face: 0x0BA78B, border: 0x065844, text: 0xF2FFFB, shape: ButtonShape::Circle }
        } else if function_key {
            ButtonStyle { face: 0xF2C231, border: 0x8E6E08, text: 0x8E2418, shape: ButtonShape::Circle }
        } else if power_key {
            ButtonStyle { face: 0xBE4470, border: 0x6E1E38, text: 0xF6DCE6, shape: ButtonShape::Circle }
        } else if enter_key {
            ButtonStyle { face: 0x0BA78B, border: 0x065844, text: 0xF2FFFB, ..base }
        } else {
            base
        },
        MachineModel::Nc2000 => if drow == 0 {
            ButtonStyle { face: 0xABC378, border: 0x5E7A34, text: 0x24350E, ..base }
        } else if function_key || power_key {
            ButtonStyle { face: 0xE2E4EC, border: 0x6E7694, text: 0x2A3C78, shape: ButtonShape::Rect(8) }
        } else if enter_key {
            ButtonStyle { face: 0x5FC0C8, border: 0x2E7A82, text: 0x0F3540, ..base }
        } else if help_key {
            ButtonStyle { text: 0xE06010, ..base }
        } else {
            base
        },
        MachineModel::Nc3000 => if function_key {
            ButtonStyle { face: 0xBEC1C3, border: 0x4E5256, text: 0x3A3E42, shape: ButtonShape::Circle }
        } else if power_key {
            ButtonStyle { face: 0xC2C4C6, border: 0x4E5256, text: 0x8E9296, shape: ButtonShape::Circle }
        } else if enter_key {
            ButtonStyle { face: 0xE0A2C2, border: 0x9E4E6E, text: 0x7E2450, ..base }
        } else {
            base
        },
    }
}

/// The style of a key cap on a model's skin.
pub fn key_style(model: MachineModel, def: &KeyDef) -> (r: ButtonStyle)
    ensures
        r == key_style_spec(model, def.drow, def.dcol),
{
    let base = match model {
        MachineModel::Nc1020 => ButtonStyle { face: 0xDCDBD9, border: 0x6E7072, text: 0x1B1D1F, shape: ButtonShape::Rect(6) },
        MachineModel::Nc2000 => ButtonStyle { face: 0xD8D9D7, border: 0x6E7276, text: 0x1B1D1F, shape: ButtonShape::Rect(6) },
        MachineModel::Pc1000 => ButtonStyle { face: 0x4A4F58, border: 0x14171B, text: 0xF2F4F6, shape: ButtonShape::Rect(13) },
        MachineModel::Cc800 => ButtonStyle { face: 0x262A30, border: 0x0C0E10, text: 0xF5F6F7, shape: ButtonShape::Rect(13) },
        MachineModel::Nc3000 => ButtonStyle { face: 0x4A4E54, border: 0x14161A, text: 0xF2F4F6, shape: ButtonShape::Rect(13) },
    };
    let drow = def.drow;
    let dcol = def.dcol;
    let function_key = drow == 1 && 2 <= dcol && dcol <= 5;
    let power_key = drow == 1 && dcol == 8;
    let enter_key = drow == 3 && dcol == 9;
    let help_key = drow == 5 && dcol == 0;
    match model {
        MachineModel::Nc1020 => if drow == 0 {
            ButtonStyle { face: 0xADA3C1, border: 0x55506A, text: 0x2E2A3A, ..base }
        } else if function_key {
            ButtonStyle { face: 0xA5CEE3, border: 0x4E7896, text: 0x1E4E78, ..base }
        } else if power_key {
            ButtonStyle { face: 0xA5CDE2, border: 0x4E7896, text: 0x1E4E78, shape: ButtonShape::Circle }
        } else if enter_key {
            ButtonStyle { face: 0xFD8630, border: 0xA85410, text: 0x502800, ..base }
        } else if help_key {
            ButtonStyle { text: 0xC0202C, ..base }
        } else {
            base
        },
        MachineModel::Pc1000 => if drow == 0 && dcol == 6 {
            ButtonStyle { face: 0xF6AE28, border: 0x8E6208, text: 0x5E4200, ..base }
        } else if function_key {
            ButtonStyle { text: 0x9FC4E8, ..base }
        } else if power_key {
            ButtonStyle { face: 0xF6E0D6, border: 0x9A9DA0, text: 0x2F5FA8, shape: ButtonShape::Capsule }
        } else if enter_key {
            ButtonStyle { face: 0xFDB930, border: 0x8E6208, text: 0x5E4000, ..base }
        } else if help_key {
            ButtonStyle { text: 0xE884B4, ..base }
        } else {
            base
        },
        MachineModel::Cc800 => if drow == 0 && dcol <= 5 {
            ButtonStyle { face: 0x0BA78B, border: 0x065844, text: 0xF2FFFB, shape: ButtonShape::Capsule }
        } else if drow == 0 && dcol == 6 {
            ButtonStyle { face: 0x0BA78B, border: 0x065844, text: 0xF2FFFB, shape: ButtonShape::Circle }
        } else if function_key {
            ButtonStyle { face: 0xF2C231, border: 0x8E6E08, text: 0x8E2418, shape: ButtonShape::Circle }
        } else if power_key {
            ButtonStyle { face: 0xBE4470, border: 0x6E1E38, text: 0xF6DCE6, shape: ButtonShape::Circle }
        } else if enter_key {
            ButtonStyle { face: 0x0BA78B, border: 0x065844, text: 0xF2FFFB, ..base }
        } else {
            base
        },
        MachineModel::Nc2000 => if drow == 0 {
            ButtonStyle { face: 0xABC378, border: 0x5E7A34, text: 0x24350E, ..base }
        } else if function_key || power_key {
            ButtonStyle { face: 0xE2E4EC, border: 0x6E7694, text: 0x2A3C78, shape: ButtonShape::Rect(8) }
        } else if enter_key {
            ButtonStyle { face: 0x5FC0C8, border: 0x2E7A82, text: 0x0F3540, ..base }
        } else if help_key {
            ButtonStyle { text: 0xE06010, ..base }
        } else {
            base
        },
        MachineModel::Nc3000 => if function_key {
            ButtonStyle { face: 0xBEC1C3, border: 0x4E5256, text: 0x3A3E42, shape: ButtonShape::Circle }
        } else if power_key {
            ButtonStyle { face: 0xC2C4C6, border: 0x4E5256, text: 0x8E9296, shape: ButtonShape::Circle }
        } else if enter_key {
            ButtonStyle { face: 0xE0A2C2, border: 0x9E4E6E, text: 0x7E2450, ..base }
        } else {
            base
        },
    }
}

/// The calculator digit printed on a key of the numeric block, by display position.
pub open spec fn numeric_legend_spec(drow: u8, dcol: u8) -> Option<&'static str> {
    if drow == 2 && dcol == 4 {
        Some("7")
    } else if drow == 2 && dcol == 5 {
        Some("8")
    } else if drow == 2 && dcol == 6 {
        Some("9")
    } else if drow == 3 && dcol == 4 {
        Some("4")
    } else if drow == 3 && dcol == 5 {
        Some("5")
    } else if drow == 3 && dcol == 6 {
        Some("6")
    } else if drow == 4 && dcol == 4 {
        Some("1")
    } else if drow == 4 && dcol == 5 {
        Some("2")
    } else if drow == 4 && dcol == 6 {
        Some("3")
    } else if drow == 5 && dcol == 4 {
        Some("0")
    } else if drow == 5 && dcol == 5 {
        Some(".")
    } else {
        None
    }
}

/// The calculator digit printed on a key.
pub fn numeric_legend(def: &KeyDef) -> (r: Option<&'static str>)
    ensures
        r == numeric_legend_spec(def.drow, def.dcol),
        r matches Some(text) ==> text@.len() <= 0x40,
{
    proof {
        reveal_strlit(".");
        reveal_strlit("0");
        reveal_strlit("1");
        reveal_strlit("2");
        reveal_strlit("3");
        reveal_strlit("4");
        reveal_strlit("5");
        reveal_strlit("6");
        reveal_strlit("7");
        reveal_strlit("8");
        reveal_strlit("9");
    }
    let drow = def.drow;
    let dcol = def.dcol;
    if drow == 2 && dcol == 4 {
        Some("7")
    } else if drow == 2 && dcol == 5 {
        Some("8")
    } else if drow == 2 && dcol == 6 {
        Some("9")
    } else if drow == 3 && dcol == 4 {
        Some("4")
    } else if drow == 3 && dcol == 5 {
        Some("5")
    } else if drow == 3 && dcol == 6 {
        Some("6")
    } else if drow == 4 && dcol == 4 {
        Some("1")
    } else if drow == 4 && dcol == 5 {
        Some("2")
    } else if drow == 4 && dcol == 6 {
        Some("3")
    } else if drow == 5 && dcol == 4 {
        Some("0")
    } else if drow == 5 && dcol == 5 {
        Some(".")
    } else {
        None
    }
}

/// The colour of the digit segment on numeric keys.
pub open spec fn segment_color_spec(model: MachineModel) -> u32 {
    match model {
        MachineModel::Nc1020 => 0x0F56C4,
        MachineModel::Pc1000 => 0x6FD1CF,
        MachineModel::Cc800 => 0xE3BE62,
        MachineModel::Nc2000 => 0x4048C8,
        MachineModel::Nc3000 => 0x7AC8CE,
    }
}

/// The colour of the digit segment on numeric keys.
pub fn segment_color(model: MachineModel) -> (r: u32)
    ensures
        r == segment_color_spec(model),
{
    match model {
        MachineModel::Nc1020 => 0x0F56C4,
        MachineModel::Pc1000 => 0x6FD1CF,
        MachineModel::Cc800 => 0xE3BE62,
        MachineModel::Nc2000 => 0x4048C8,
        MachineModel::Nc3000 => 0x7AC8CE,
    }
}

/// The colour of the digit printed on the segment.
pub open spec fn segment_text_color_spec(model: MachineModel) -> u32 {
    match model {
        MachineModel::Pc1000 => 0x0F3548,
        _ => 0xFFFFFF,
    }
}

/// The colour of the digit printed on the segment.
pub fn segment_text_color(model: MachineModel) -> (r: u32)
    ensures
        r == segment_text_color_spec(model),
{
    match model {
        MachineModel::Pc1000 => 0x0F3548,
        _ => 0xFFFFFF,
    }
}

/// Whether two strings have the same characters.
pub fn str_eq(a: &str, b: &str) -> (r: bool)
    ensures
        r == (a@ == b@),
{
    let n = a.unicode_len();
    if n != b.unicode_len() {
        return false;
    }
    let mut i: usize = 0;
    while i < n
        invariant
            n == a@.len(),
            n == b@.len(),
            i <= n,
            forall|j: int| 0 <= j < i ==> a@[j] == b@[j],
        decreases n - i,
    {
        if a.get_char(i) != b.get_char(i) {
            return false;
        }
        i = i + 1;
    }
    assert(a@ =~= b@);
    true
}

/// The colour of an arrow key's triangle.
pub open spec fn arrow_color_spec(model: MachineModel, label: &str) -> u32 {
    match model {
        MachineModel::Nc1020 => 0xC4202C,
        MachineModel::Nc2000 => if label@ == "DN"@ || label@ == "PGDN"@ {
            0x4048C8
        } else {
            0xF08228
        },
        _ => 0xE884B4,
    }
}

/// The colour of an arrow key's triangle.
pub fn arrow_color(model: MachineModel, label: &str) -> (r: u32)
    ensures
        r == arrow_color_spec(model, label),
{
    match model {
        MachineModel::Nc1020 => 0xC4202C,
        MachineModel::Nc2000 => if str_eq(label, "DN") || str_eq(label, "PGDN") {
            0x4048C8
        } else {
            0xF08228
        },
        _ => 0xE884B4,
    }
}

/// The calculator memory mark printed beside an arrow.
pub open spec fn arrow_mark_spec(model: MachineModel, label: &str) -> Option<&'static str> {
    if label@ == "UP"@ {
        Some("-")
    } else if label@ == "PGDN"@ {
        Some("M-")
    } else if label@ == "RT"@ {
        Some("M+")
    } else if label@ == "DN"@ && model != MachineModel::Nc1020 {
        Some("+")
    } else {
        None
    }
}

/// The calculator memory mark printed beside an arrow.
pub fn arrow_mark(model: MachineModel, label: &str) -> (r: Option<&'static str>)
    ensures
        r == arrow_mark_spec(model, label),
        r matches Some(text) ==> text@.len() <= 0x40,
{
    proof {
        reveal_strlit("+");
        reveal_strlit("-");
        reveal_strlit("M+");
        reveal_strlit("M-");
    }
    if str_eq(label, "UP") {
        Some("-")
    } else if str_eq(label, "PGDN") {
        Some("M-")
    } else if str_eq(label, "RT") {
        Some("M+")
    } else if str_eq(label, "DN") && model != MachineModel::Nc1020 {
        Some("+")
    } else {
        None
    }
}

/// The shifted function printed above a key, by display position.
pub open spec fn key_superscript_spec(model: MachineModel, drow: u8, dcol: u8) -> Option<&'static str> {
    if model == MachineModel::Cc800 && drow == 2 && dcol == 2 {
        None
    } else if drow == 2 && dcol == 0 {
        Some("SIN-1")
    } else if drow == 2 && dcol == 1 {
        Some("COS-1")
    } else if drow == 2 && dcol == 2 {
        Some("TAN-1")
    } else if drow == 2 && dcol == 3 {
        Some("HYP")
    } else if drow == 2 && dcol == 8 {
        Some("#")
    } else if drow == 3 && dcol == 0 {
        Some("10X")
    } else if drow == 3 && dcol == 1 {
        Some("EX")
    } else if drow == 3 && dcol == 3 {
        Some("X2")
    } else if drow == 3 && dcol == 7 {
        Some("?")
    } else if drow == 3 && dcol == 8 {
        Some("*")
    } else if drow == 4 && dcol == 0 {
        Some(")")
    } else if drow == 4 && dcol == 1 {
        Some("X!")
    } else if drow == 5 && dcol == 1 {
        Some("SHIFT")
    } else if drow == 5 && dcol == 2 {
        Some("CAPS")
    } else {
        None
    }
}

/// The shifted function printed above a key.
pub fn key_superscript(model: MachineModel, def: &KeyDef) -> (r: Option<&'static str>)
    ensures
        r == key_superscript_spec(model, def.drow, def.dcol),
        r matches Some(text) ==> text@.len() <= 0x40,
{
    proof {
        reveal_strlit("#");
        reveal_strlit(")");
        reveal_strlit("*");
        reveal_strlit("10X");
        reveal_strlit("?");
        reveal_strlit("CAPS");
        reveal_strlit("COS-1");
        reveal_strlit("EX");
        reveal_strlit("HYP");
        reveal_strlit("SHIFT");
        reveal_strlit("SIN-1");
        reveal_strlit("TAN-1");
        reveal_strlit("X!");
        reveal_strlit("X2");
    }
    let drow = def.drow;
    let dcol = def.dcol;
    if model == MachineModel::Cc800 && drow == 2 && dcol == 2 {
        None
    } else if drow == 2 && dcol == 0 {
        Some("SIN-1")
    } else if drow == 2 && dcol == 1 {
        Some("COS-1")
    } else if drow == 2 && dcol == 2 {
        Some("TAN-1")
    } else if drow == 2 && dcol == 3 {
        Some("HYP")
    } else if drow == 2 && dcol == 8 {
        Some("#")
    } else if drow == 3 && dcol == 0 {
        Some("10X")
    } else if drow == 3 && dcol == 1 {
        Some("EX")
    } else if drow == 3 && dcol == 3 {
        Some("X2")
    } else if drow == 3 && dcol == 7 {
        Some("?")
    } else if drow == 3 && dcol == 8 {
        Some("*")
    } else if drow == 4 && dcol == 0 {
        Some(")")
    } else if drow == 4 && dcol == 1 {
        Some("X!")
    } else if drow == 5 && dcol == 1 {
        Some("SHIFT")
    } else if drow == 5 && dcol == 2 {
        Some("CAPS")
    } else {
        None
    }
}

/// The colour of the shifted functions.
pub open spec fn superscript_color_spec(model: MachineModel) -> u32 {
    match model {
        MachineModel::Nc3000 => 0x2F55B4,
        _ => 0xC0202C,
    }
}

/// The colour of the shifted functions.
pub fn superscript_color(model: MachineModel) -> (r: u32)
    ensures
        r == superscript_color_spec(model),
{
    match model {
        MachineModel::Nc3000 => 0x2F55B4,
        _ => 0xC0202C,
    }
}

/// The calculator function printed in the corner of a key, by display position.
pub open spec fn key_sublabel_spec(drow: u8, dcol: u8) -> Option<&'static str> {
    if drow == 2 && dcol == 0 {
        Some("sin")
    } else if drow == 2 && dcol == 1 {
        Some("cos")
    } else if drow == 2 && dcol == 2 {
        Some("tan")
    } else if drow == 2 && dcol == 3 {
        Some("1/x")
    } else if drow == 2 && dcol == 7 {
        Some("%")
    } else if drow == 2 && dcol == 9 {
        Some("MC")
    } else if drow == 3 && dcol == 0 {
        Some("log")
    } else if drow == 3 && dcol == 1 {
        Some("ln")
    } else if drow == 3 && dcol == 2 {
        Some("XY")
    } else if drow == 3 && dcol == 8 {
        Some("X")
    } else {
        None
    }
}

/// The calculator function printed in the corner of a key.
pub fn key_sublabel(def: &KeyDef) -> (r: Option<&'static str>)
    ensures
        r == key_sublabel_spec(def.drow, def.dcol),
        r matches Some(text) ==> text@.len() <= 0x40,
{
    proof {
        reveal_strlit("%");
        reveal_strlit("1/x");
        reveal_strlit("MC");
        reveal_strlit("X");
        reveal_strlit("XY");
        reveal_strlit("cos");
        reveal_strlit("ln");
        reveal_strlit("log");
        reveal_strlit("sin");
        reveal_strlit("tan");
    }
    let drow = def.drow;
    let dcol = def.dcol;
    if drow == 2 && dcol == 0 {
        Some("sin")
    } else if drow == 2 && dcol == 1 {
        Some("cos")
    } else if drow == 2 && dcol == 2 {
        Some("tan")
    } else if drow == 2 && dcol == 3 {
        Some("1/x")
    } else if drow == 2 && dcol == 7 {
        Some("%")
    } else if drow == 2 && dcol == 9 {
        Some("MC")
    } else if drow == 3 && dcol == 0 {
        Some("log")
    } else if drow == 3 && dcol == 1 {
        Some("ln")
    } else if drow == 3 && dcol == 2 {
        Some("XY")
    } else if drow == 3 && dcol == 8 {
        Some("X")
    } else {
        None
    }
}

/// The colour of the corner functions.
pub open spec fn sublabel_color_spec(model: MachineModel) -> u32 {
    match model {
        MachineModel::Nc1020 | MachineModel::Nc2000 => 0x2456B0,
        MachineModel::Pc1000 => 0x8ED4D2,
        MachineModel::Cc800 => 0xD8B45A,
        MachineModel::Nc3000 => 0x7AC8CE,
    }
}

/// The colour of the corner functions.
pub fn sublabel_color(model: MachineModel) -> (r: u32)
    ensures
        r == sublabel_color_spec(model),
{
    match model {
        MachineModel::Nc1020 | MachineModel::Nc2000 => 0x2456B0,
        MachineModel::Pc1000 => 0x8ED4D2,
        MachineModel::Cc800 => 0xD8B45A,
        MachineModel::Nc3000 => 0x7AC8CE,
    }
}

/// The direction an arrow key's triangle points, if the key is an arrow.
pub open spec fn arrow_direction_spec(label: &str) -> Option<(isize, isize)> {
    if label@ == "LT"@ {
        Some((-1isize, 0isize))
    } else if label@ == "RT"@ {
        Some((1isize, 0isize))
    } else if label@ == "UP"@ || label@ == "PGUP"@ {
        Some((0isize, -1isize))
    } else if label@ == "DN"@ || label@ == "PGDN"@ {
        Some((0isize, 1isize))
    } else {
        None
    }
}

/// The direction an arrow key's triangle points, if the key is an arrow.
pub fn arrow_direction(label: &str) -> (r: Option<(isize, isize)>)
    ensures
        r == arrow_direction_spec(label),
{
    if str_eq(label, "LT") {
        Some((-1, 0))
    } else if str_eq(label, "RT") {
        Some((1, 0))
    } else if str_eq(label, "UP") || str_eq(label, "PGUP") {
        Some((0, -1))
    } else if str_eq(label, "DN") || str_eq(label, "PGDN") {
        Some((0, 1))
    } else {
        None
    }
}

/// A shorter label for keys whose name does not fit.
pub open spec fn compact_label_spec(label: &'static str) -> &'static str {
    if label@ == "PGUP"@ {
        "PU"
    } else if label@ == "PGDN"@ {
        "PD"
    } else if label@ == "SHIFT"@ {
        "SHFT"
    } else {
        label
    }
}

/// A shorter label for keys whose name does not fit.
pub fn compact_label(label: &'static str) -> (r: &'static str)
    ensures
        r == compact_label_spec(label),
        r@.len() <= label@.len(),
{
    proof {
        reveal_strlit("PU");
        reveal_strlit("PD");
        reveal_strlit("SHFT");
        reveal_strlit("PGUP");
        reveal_strlit("PGDN");
        reveal_strlit("SHIFT");
    }
    if str_eq(label, "PGUP") {
        "PU"
    } else if str_eq(label, "PGDN") {
        "PD"
    } else if str_eq(label, "SHIFT") {
        "SHFT"
    } else {
        label
    }
}

/// The largest font pixel size, between 2 and 5, at which a label fits a key
/// face with a 7-pixel margin.
pub open spec fn label_size_spec(region: Rect, length: nat) -> usize {
    let length = if length >= 1 { length as int } else { 1 };
    let horizontal = (if region.width >= 14 { region.width - 14 } else { 0 }) / (length * 6 - 1);
    let vertical = (if region.height >= 14 { region.height - 14 } else { 0 }) / 7;
    let size = if horizontal <= vertical { horizontal } else { vertical };
    (if size < 2 { 2 } else if size > 5 { 5 } else { size }) as usize
}

/// The font pixel size of a label on a key face.
pub fn label_size(region: Rect, label: &str) -> (r: usize)
    requires
        label@.len() * 6 <= usize::MAX,
    ensures
        r == label_size_spec(region, label@.len()),
{
    let count = label.unicode_len();
    let length = if count >= 1 { count } else { 1 };
    let horizontal = region.width.saturating_sub(14) / (length * 6 - 1);
    let vertical = region.height.saturating_sub(14) / 7;
    let size = if horizontal <= vertical { horizontal } else { vertical };
    if size < 2 {
        2
    } else if size > 5 {
        5
    } else {
        size
    }
}

} // verus!
