//! Model-specific keyboard layouts.
//!
//! Every Wenquxing model exposes an 8x8 keypad matrix, but the physical key
//! arrangement (and therefore which PC key maps to which matrix position)
//! differs per model. This module describes the on-screen keys (label, PC key
//! hint) of each supported model and resolves physical keyboard keys to
//! matrix key IDs, so every frontend uses the same mapping.

use vstd::prelude::*;
use crate::machine::{MachineModel, ascii_upper, ascii_upper_exec, char_from_ascii};
use crate::legend::{split_parts, has_part, parse_u8, legend_parts, contains_part, parse_u8_from, chars_of, parts_view};
use crate::layouts::{layout_nc1020, layout_nc2000, layout_nc3000, layout_pc1000,
    layout_nc1020_spec, layout_nc2000_spec, layout_nc3000_spec, layout_pc1000_spec};

verus! {

/// A frontend-independent physical keyboard key.
///
/// Frontends translate their native key codes into this type so every
/// frontend uses the same Wenquxing keypad mapping.
#[derive(Clone, Copy, Debug, PartialEq, Eq, Hash, Structural)]
pub enum HostKey {
    Letter(char),
    Digit(u8),
    Function(u8),
    Return,
    Escape,
    Space,
    Backspace,
    Delete,
    Up,
    Down,
    Left,
    Right,
    PageUp,
    PageDown,
    Period,
    Comma,
    Slash,
    LeftBracket,
    RightBracket,
    Backslash,
    Equals,
}

/// A single on-screen key.
///
/// `drow`/`dcol` are the physical display position (6 rows x 10 cols,
/// matching the real Wenquxing keypad), while `row`/`col` are the keypad
/// matrix coordinates used for input.
#[derive(Clone, Copy, Debug)]
pub struct KeyDef {
    /// Physical display row (0-5).
    pub drow: u8,
    /// Physical display column (0-9).
    pub dcol: u8,
    /// Keypad matrix row (0-7).
    pub row: u8,
    /// Keypad matrix column (0-7).
    pub col: u8,
    /// Key-face label shown on the virtual keypad (ASCII).
    pub label: &'static str,
    /// PC key hint (e.g. "F5", "A", "UP"); empty when unmapped.
    pub hint: &'static str,
}

/// A key definition with its label and hint as character sequences.
#[verifier::ext_equal]
pub struct KeyView {
    pub drow: u8,
    pub dcol: u8,
    pub row: u8,
    pub col: u8,
    pub label: Seq<char>,
    pub hint: Seq<char>,
}

impl View for KeyDef {
    type V = KeyView;

    open spec fn view(&self) -> KeyView {
        KeyView {
            drow: self.drow,
            dcol: self.dcol,
            row: self.row,
            col: self.col,
            label: self.label@,
            hint: self.hint@,
        }
    }
}

/// The views of a sequence of key definitions.
pub open spec fn key_views(keys: Seq<KeyDef>) -> Seq<KeyView> {
    keys.map_values(|k: KeyDef| k@)
}

/// The machine key ID of a matrix position: the NC1020 family encodes
/// `col << 3 | row`, every other model `row << 3 | col`.
pub open spec fn key_id_spec(model: MachineModel, row: u8, col: u8) -> u8 {
    match model {
        MachineModel::Nc1020 => ((col << 3u8) | row) as u8,
        _ => ((row << 3u8) | col) as u8,
    }
}

/// Key ID for a matrix position in the machine encoding.
///
/// Most models encode `key_id = row << 3 | col`, but the NC1020 family
/// (following the NC1020's own keypad matrix numbering) encodes the opposite
/// way: `row = key_id % 8`, `col = key_id / 8`.
pub fn key_id_for(model: MachineModel, row: u8, col: u8) -> (r: u8)
    ensures
        r == key_id_spec(model, row, col),
        row < 8 && col < 8 ==> r == match model {
            MachineModel::Nc1020 => col * 8 + row,
            _ => row * 8 + col,
        },
{
    proof {
        lemma_key_id_arith(row, col);
    }
    match model {
        MachineModel::Nc1020 => (col << 3) | row,
        _ => (row << 3) | col,
    }
}

/// Inside the matrix, the shift-or encoding is plain arithmetic.
pub proof fn lemma_key_id_arith(row: u8, col: u8)
    ensures
        row < 8 && col < 8 ==> ((row << 3u8) | col) == row * 8 + col,
        row < 8 && col < 8 ==> ((col << 3u8) | row) == col * 8 + row,
{
    assert(row < 8 && col < 8 ==> ((row << 3u8) | col) == row * 8 + col) by (bit_vector);
    assert(row < 8 && col < 8 ==> ((col << 3u8) | row) == col * 8 + row) by (bit_vector);
}

/// Build an NC1020 key definition from its matrix ID.
pub fn nc1020_key(drow: u8, dcol: u8, key_id: u8, label: &'static str, hint: &'static str) -> (r: KeyDef)
    ensures
        r.drow == drow,
        r.dcol == dcol,
        r.row == key_id % 8,
        r.col == key_id / 8,
        r.label == label,
        r.hint == hint,
{
    assert(key_id & 7 == key_id % 8) by (bit_vector);
    assert(key_id >> 3 == key_id / 8) by (bit_vector);
    KeyDef { drow, dcol, row: key_id & 7, col: key_id >> 3, label, hint }
}

/// The keypad layout of a model.
pub open spec fn layout_spec(model: MachineModel) -> Seq<KeyView> {
    match model {
        MachineModel::Nc1020 => layout_nc1020_spec(),
        MachineModel::Nc2000 => layout_nc2000_spec(),
        MachineModel::Nc3000 => layout_nc3000_spec(),
        MachineModel::Pc1000 | MachineModel::Cc800 => layout_pc1000_spec(),
    }
}

/// Keypad layout for a model, used by frontends to draw the virtual
/// keypad and translate mouse clicks.
pub fn layout_for(model: MachineModel) -> (r: Vec<KeyDef>)
    ensures
        key_views(r@) == layout_spec(model),
{
    match model {
        MachineModel::Nc1020 => layout_nc1020(),
        MachineModel::Nc2000 => layout_nc2000(),
        MachineModel::Nc3000 => layout_nc3000(),
        MachineModel::Pc1000 | MachineModel::Cc800 => layout_pc1000(),
    }
}

/// All `'/'`-separated parts of a key's label, then of its hint.
pub open spec fn key_parts(key: KeyView) -> Seq<Seq<char>> {
    split_parts(key.label) + split_parts(key.hint)
}

/// The fixed legend that a non-character host key looks for.
pub open spec fn fixed_alias(model: MachineModel, host_key: HostKey) -> Option<Seq<char>> {
    match host_key {
        HostKey::Return => Some(seq!['E', 'N', 'T']),
        HostKey::Escape => Some(seq!['E', 'S', 'C']),
        HostKey::Space | HostKey::Equals => Some(seq!['S', 'P', 'C']),
        HostKey::Backspace => Some(seq!['F', '2']),
        HostKey::Delete => if model == MachineModel::Nc1020 {
            Some(seq!['D', 'E', 'L'])
        } else {
            Some(seq!['F', '1', '2'])
        },
        HostKey::Function(12) if model == MachineModel::Nc1020 => Some(seq!['D', 'E', 'L']),
        HostKey::Up => Some(seq!['U', 'P']),
        HostKey::Down => Some(seq!['D', 'N']),
        HostKey::Left => Some(seq!['L', 'T']),
        HostKey::Right => Some(seq!['R', 'T']),
        HostKey::PageUp | HostKey::Comma => Some(seq!['P', 'G', 'U', 'P']),
        HostKey::PageDown | HostKey::Slash => Some(seq!['P', 'G', 'D', 'N']),
        HostKey::Period => Some(seq!['.']),
        HostKey::LeftBracket => Some(seq!['H', 'E', 'L', 'P']),
        HostKey::RightBracket => Some(seq!['S', 'H', 'I', 'F', 'T']),
        HostKey::Backslash => Some(seq!['I', 'M', 'E']),
        HostKey::Letter(_) | HostKey::Digit(_) | HostKey::Function(_) => None,
    }
}

/// ASCII letters.
pub open spec fn is_ascii_alphabetic(c: char) -> bool {
    ('A' <= c && c <= 'Z') || ('a' <= c && c <= 'z')
}

/// A part reading `F` followed by the number `n`.
pub open spec fn is_function_part(part: Seq<char>, n: u8) -> bool {
    part.len() >= 1 && part[0] == 'F' && parse_u8(part.drop_first()) == Some(n)
}

/// One of `parts` names function key `n`.
pub open spec fn has_function_part(parts: Seq<Seq<char>>, n: u8) -> bool {
    exists|i: int| 0 <= i < parts.len() && is_function_part(#[trigger] parts[i], n)
}

/// Whether `key` carries a legend that `host_key` selects on `model`.
pub open spec fn key_matches(model: MachineModel, host_key: HostKey, key: KeyView) -> bool {
    let parts = key_parts(key);
    match host_key {
        HostKey::Function(12) if model == MachineModel::Nc1020 => has_part(parts, seq!['D', 'E', 'L']),
        HostKey::Letter(c) if is_ascii_alphabetic(c) => has_part(parts, seq![ascii_upper(c)]),
        HostKey::Digit(d) if d <= 9 => has_part(parts, seq![(('0' as u32) + (d as u32)) as char]),
        HostKey::Function(n) if 1 <= n && n <= 12 => has_function_part(parts, n),
        _ => match fixed_alias(model, host_key) {
            Some(alias) => has_part(parts, alias),
            None => false,
        },
    }
}

/// The index of the first key at or after `i` that `host_key` selects.
pub open spec fn first_match_from(keys: Seq<KeyView>, model: MachineModel, host_key: HostKey, i: int) -> Option<int>
    decreases keys.len() - i,
{
    if i < 0 || i >= keys.len() {
        None
    } else if key_matches(model, host_key, keys[i]) {
        Some(i)
    } else {
        first_match_from(keys, model, host_key, i + 1)
    }
}

/// The matrix key ID that a physical key operates on `model`: that of the
/// first key of the model's layout carrying the legend the host key selects.
pub open spec fn host_key_id(model: MachineModel, host_key: HostKey) -> Option<u8> {
    let keys = layout_spec(model);
    match first_match_from(keys, model, host_key, 0) {
        Some(i) => Some(key_id_spec(model, keys[i].row, keys[i].col)),
        None => None,
    }
}

/// The matched index is a key of the layout that matches, and no earlier key matches.
pub proof fn lemma_first_match_from(keys: Seq<KeyView>, model: MachineModel, host_key: HostKey, i: int)
    requires
        0 <= i,
    ensures
        match first_match_from(keys, model, host_key, i) {
            Some(j) => i <= j < keys.len() && key_matches(model, host_key, keys[j])
                && forall|k: int| i <= k < j ==> !key_matches(model, host_key, #[trigger] keys[k]),
            None => forall|k: int| i <= k < keys.len() ==> !key_matches(model, host_key, #[trigger] keys[k]),
        },
    decreases keys.len() - i,
{
    if i < keys.len() && !key_matches(model, host_key, keys[i]) {
        lemma_first_match_from(keys, model, host_key, i + 1);
    }
}

/// The characters of a one-character legend.
fn single_char(c: char) -> (r: Vec<char>)
    ensures
        r@ == seq![c],
{
    let mut r: Vec<char> = Vec::new();
    r.push(c);
    r
}

fn fixed_alias_for(model: MachineModel, host_key: HostKey) -> (r: Option<&'static str>)
    ensures
        match (r, fixed_alias(model, host_key)) {
            (Some(a), Some(b)) => a@ == b,
            (None, None) => true,
            _ => false,
        },
{
    proof {
        reveal_strlit("ENT");
        reveal_strlit("ESC");
        reveal_strlit("SPC");
        reveal_strlit("F2");
        reveal_strlit("DEL");
        reveal_strlit("F12");
        reveal_strlit("UP");
        reveal_strlit("DN");
        reveal_strlit("LT");
        reveal_strlit("RT");
        reveal_strlit("PGUP");
        reveal_strlit("PGDN");
        reveal_strlit(".");
        reveal_strlit("HELP");
        reveal_strlit("SHIFT");
        reveal_strlit("IME");
    }
    let is_nc1020 = model == MachineModel::Nc1020;
    match host_key {
        HostKey::Return => Some("ENT"),
        HostKey::Escape => Some("ESC"),
        HostKey::Space => Some("SPC"),
        HostKey::Equals => Some("SPC"),
        HostKey::Backspace => Some("F2"),
        HostKey::Delete => if is_nc1020 {
            Some("DEL")
        } else {
            Some("F12")
        },
        HostKey::Function(n) => if n == 12 && is_nc1020 {
            Some("DEL")
        } else {
            None
        },
        HostKey::Up => Some("UP"),
        HostKey::Down => Some("DN"),
        HostKey::Left => Some("LT"),
        HostKey::Right => Some("RT"),
        HostKey::PageUp => Some("PGUP"),
        HostKey::Comma => Some("PGUP"),
        HostKey::PageDown => Some("PGDN"),
        HostKey::Slash => Some("PGDN"),
        HostKey::Period => Some("."),
        HostKey::LeftBracket => Some("HELP"),
        HostKey::RightBracket => Some("SHIFT"),
        HostKey::Backslash => Some("IME"),
        HostKey::Letter(_) | HostKey::Digit(_) => None,
    }
}

/// The parts of a key's label followed by those of its hint.
fn key_legend_parts(key: &KeyDef) -> (r: Vec<Vec<char>>)
    ensures
        parts_view(r@) == key_parts(key@),
{
    let mut parts = legend_parts(key.label);
    let mut hint_parts = legend_parts(key.hint);
    let ghost a = parts_view(parts@);
    let ghost b = parts_view(hint_parts@);
    parts.append(&mut hint_parts);
    assert(parts_view(parts@) =~= a + b);
    parts
}

/// Whether some part names function key `n`.
fn contains_function_part(parts: &Vec<Vec<char>>, n: u8) -> (r: bool)
    ensures
        r == has_function_part(parts_view(parts@), n),
{
    let mut i: usize = 0;
    while i < parts.len()
        invariant
            i <= parts@.len(),
            forall|j: int| 0 <= j < i ==> !is_function_part(#[trigger] parts_view(parts@)[j], n),
        decreases parts@.len() - i,
    {
        let part = &parts[i];
        if part.len() >= 1 && part[0] == 'F' {
            let parsed = parse_u8_from(part, 1);
            proof {
                assert(part@.skip(1) == part@.drop_first());
            }
            if parsed == Some(n) {
                assert(is_function_part(parts_view(parts@)[i as int], n));
                return true;
            }
        }
        i = i + 1;
    }
    false
}

fn key_has_alias_chars(parts: &Vec<Vec<char>>, alias: &str) -> (r: bool)
    ensures
        r == has_part(parts_view(parts@), alias@),
{
    let expected = chars_of(alias);
    contains_part(parts, &expected)
}

/// Whether `key` carries `expected` as one of the `'/'`-separated parts of its
/// label or hint.
pub fn key_has_alias(key: &KeyDef, expected: &str) -> (r: bool)
    ensures
        r == has_part(key_parts(key@), expected@),
{
    let parts = key_legend_parts(key);
    key_has_alias_chars(&parts, expected)
}

fn key_matches_exec(model: MachineModel, host_key: HostKey, key: &KeyDef) -> (r: bool)
    ensures
        r == key_matches(model, host_key, key@),
{
    let parts = key_legend_parts(key);
    let is_nc1020 = model == MachineModel::Nc1020;
    match host_key {
        HostKey::Function(n) => {
            if n == 12 && is_nc1020 {
                proof {
                    reveal_strlit("DEL");
                    assert("DEL"@ =~= seq!['D', 'E', 'L']);
                }
                key_has_alias_chars(&parts, "DEL")
            } else if 1 <= n && n <= 12 {
                contains_function_part(&parts, n)
            } else {
                false
            }
        },
        HostKey::Letter(c) => {
            if ('A' <= c && c <= 'Z') || ('a' <= c && c <= 'z') {
                let expected = single_char(ascii_upper_exec(c));
                contains_part(&parts, &expected)
            } else {
                false
            }
        },
        HostKey::Digit(d) => {
            if d <= 9 {
                let code: u32 = ('0' as u32) + (d as u32);
                let expected = single_char(char_from_ascii(code));
                contains_part(&parts, &expected)
            } else {
                false
            }
        },
        _ => match fixed_alias_for(model, host_key) {
            Some(alias) => key_has_alias_chars(&parts, alias),
            None => false,
        },
    }
}

/// Resolve a physical keyboard key to the active model's keypad matrix.
pub fn key_id_for_host_key(model: MachineModel, host_key: HostKey) -> (r: Option<u8>)
    ensures
        r == host_key_id(model, host_key),
{
    let layout = layout_for(model);
    let ghost keys = layout_spec(model);
    let mut i: usize = 0;
    while i < layout.len()
        invariant
            key_views(layout@) == keys,
            keys == layout_spec(model),
            i <= layout@.len(),
            first_match_from(keys, model, host_key, 0) == first_match_from(keys, model, host_key, i as int),
        decreases layout@.len() - i,
    {
        let key = &layout[i];
        assert(keys[i as int] == key@);
        if key_matches_exec(model, host_key, key) {
            return Some(key_id_for(model, key.row, key.col));
        }
        i = i + 1;
    }
    None
}

/// Every key of every layout sits inside the 8x8 matrix.
pub proof fn lemma_layout_in_matrix(model: MachineModel)
    ensures
        forall|i: int| 0 <= i < layout_spec(model).len()
            ==> (#[trigger] layout_spec(model)[i]).row < 8 && layout_spec(model)[i].col < 8,
{
    let keys = layout_spec(model);
    assert forall|i: int| 0 <= i < keys.len() implies (#[trigger] keys[i]).row < 8 && keys[i].col < 8 by {
    }
}

/// Law: a physical key always resolves to a matrix key ID below `KEY_COUNT`,
/// so it can index the 64-entry keypad state.
pub proof fn lemma_host_key_id_in_matrix(model: MachineModel, host_key: HostKey)
    ensures
        host_key_id(model, host_key) matches Some(id) ==> id < 64,
{
    let keys = layout_spec(model);
    lemma_first_match_from(keys, model, host_key, 0);
    lemma_layout_in_matrix(model);
    match first_match_from(keys, model, host_key, 0) {
        Some(i) => {
            lemma_key_id_arith(keys[i].row, keys[i].col);
        },
        None => {},
    }
}

proof fn lemma_first_match_agrees(keys: Seq<KeyView>, model: MachineModel, a: HostKey, b: HostKey, i: int)
    requires
        forall|k: KeyView| #[trigger] key_matches(model, a, k) == key_matches(model, b, k),
    ensures
        first_match_from(keys, model, a, i) == first_match_from(keys, model, b, i),
    decreases keys.len() - i,
{
    if 0 <= i < keys.len() {
        assert(key_matches(model, a, keys[i]) == key_matches(model, b, keys[i]));
        lemma_first_match_agrees(keys, model, a, b, i + 1);
    }
}

/// Two host keys that select the same legends operate the same matrix key.
proof fn lemma_same_legends_same_id(model: MachineModel, a: HostKey, b: HostKey)
    requires
        forall|k: KeyView| #[trigger] key_matches(model, a, k) == key_matches(model, b, k),
    ensures
        host_key_id(model, a) == host_key_id(model, b),
{
    lemma_first_match_agrees(layout_spec(model), model, a, b, 0);
}

/// Law: on every model `=` works as Space, `,` as Page Up and `/` as Page
/// Down.
pub proof fn lemma_punctuation_aliases(model: MachineModel)
    ensures
        host_key_id(model, HostKey::Equals) == host_key_id(model, HostKey::Space),
        host_key_id(model, HostKey::Comma) == host_key_id(model, HostKey::PageUp),
        host_key_id(model, HostKey::Slash) == host_key_id(model, HostKey::PageDown),
{
    lemma_same_legends_same_id(model, HostKey::Equals, HostKey::Space);
    lemma_same_legends_same_id(model, HostKey::Comma, HostKey::PageUp);
    lemma_same_legends_same_id(model, HostKey::Slash, HostKey::PageDown);
}

/// Law: a letter key selects the same matrix key in lower and upper case.
pub proof fn lemma_letters_ignore_case(model: MachineModel, c: char)
    requires
        'a' <= c <= 'z',
    ensures
        host_key_id(model, HostKey::Letter(c)) == host_key_id(model, HostKey::Letter(ascii_upper(c))),
{
    let upper = ascii_upper(c);
    assert(ascii_upper(upper) == upper);
    lemma_same_legends_same_id(model, HostKey::Letter(c), HostKey::Letter(upper));
}

/// Law: on the NC1020, F12 and Delete both operate the power key.
pub proof fn lemma_nc1020_power_keys()
    ensures
        host_key_id(MachineModel::Nc1020, HostKey::Function(12)) == host_key_id(
            MachineModel::Nc1020,
            HostKey::Delete,
        ),
{
    lemma_same_legends_same_id(MachineModel::Nc1020, HostKey::Function(12), HostKey::Delete);
}

} // verus!
