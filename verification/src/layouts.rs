use vstd::prelude::*;
use crate::keyboard::{KeyDef, KeyView, key_views, nc1020_key};

verus! {

/// NC2000 keypad: standard 6x10 keypad with hotkeys in matrix column 1.
pub open spec fn layout_nc2000_spec() -> Seq<KeyView> {
    seq![
        KeyView { drow: 0, dcol: 0, row: 3, col: 1, label: seq!['D', 'I', 'C', 'T'], hint: seq!['F', '5'] },
        KeyView { drow: 0, dcol: 1, row: 4, col: 1, label: seq!['C', 'A', 'R', 'D'], hint: seq!['F', '6'] },
        KeyView { drow: 0, dcol: 2, row: 5, col: 1, label: seq!['C', 'A', 'L', 'C'], hint: seq!['F', '7'] },
        KeyView { drow: 0, dcol: 3, row: 2, col: 1, label: seq!['M', 'E', 'M', 'O'], hint: seq!['F', '8'] },
        KeyView { drow: 0, dcol: 4, row: 1, col: 1, label: seq!['D', 'A', 'T', 'A'], hint: seq!['F', '9'] },
        KeyView { drow: 0, dcol: 5, row: 0, col: 1, label: seq!['T', 'I', 'M', 'E'], hint: seq!['F', '1', '0'] },
        KeyView { drow: 0, dcol: 6, row: 6, col: 1, label: seq!['N', 'E', 'T'], hint: seq!['F', '1', '1'] },
        KeyView { drow: 1, dcol: 2, row: 0, col: 2, label: seq!['F', '1'], hint: seq!['F', '1'] },
        KeyView { drow: 1, dcol: 3, row: 1, col: 2, label: seq!['F', '2'], hint: seq!['F', '2'] },
        KeyView { drow: 1, dcol: 4, row: 2, col: 2, label: seq!['F', '3'], hint: seq!['F', '3'] },
        KeyView { drow: 1, dcol: 5, row: 3, col: 2, label: seq!['F', '4'], hint: seq!['F', '4'] },
        KeyView { drow: 1, dcol: 8, row: 0, col: 0, label: seq!['O', 'N'], hint: seq!['F', '1', '2'] },
        KeyView { drow: 2, dcol: 0, row: 0, col: 4, label: seq!['Q'], hint: seq!['Q'] },
        KeyView { drow: 2, dcol: 1, row: 1, col: 4, label: seq!['W'], hint: seq!['W'] },
        KeyView { drow: 2, dcol: 2, row: 2, col: 4, label: seq!['E'], hint: seq!['E'] },
        KeyView { drow: 2, dcol: 3, row: 3, col: 4, label: seq!['R'], hint: seq!['R'] },
        KeyView { drow: 2, dcol: 4, row: 4, col: 4, label: seq!['T'], hint: seq!['T', '/', '7'] },
        KeyView { drow: 2, dcol: 5, row: 5, col: 4, label: seq!['Y'], hint: seq!['Y', '/', '8'] },
        KeyView { drow: 2, dcol: 6, row: 6, col: 4, label: seq!['U'], hint: seq!['U', '/', '9'] },
        KeyView { drow: 2, dcol: 7, row: 7, col: 4, label: seq!['I'], hint: seq!['I'] },
        KeyView { drow: 2, dcol: 8, row: 0, col: 3, label: seq!['O'], hint: seq!['O'] },
        KeyView { drow: 2, dcol: 9, row: 4, col: 3, label: seq!['P'], hint: seq!['P'] },
        KeyView { drow: 3, dcol: 0, row: 0, col: 5, label: seq!['A'], hint: seq!['A'] },
        KeyView { drow: 3, dcol: 1, row: 1, col: 5, label: seq!['S'], hint: seq!['S'] },
        KeyView { drow: 3, dcol: 2, row: 2, col: 5, label: seq!['D'], hint: seq!['D'] },
        KeyView { drow: 3, dcol: 3, row: 3, col: 5, label: seq!['F'], hint: seq!['F'] },
        KeyView { drow: 3, dcol: 4, row: 4, col: 5, label: seq!['G'], hint: seq!['G', '/', '4'] },
        KeyView { drow: 3, dcol: 5, row: 5, col: 5, label: seq!['H'], hint: seq!['H', '/', '5'] },
        KeyView { drow: 3, dcol: 6, row: 6, col: 5, label: seq!['J'], hint: seq!['J', '/', '6'] },
        KeyView { drow: 3, dcol: 7, row: 7, col: 5, label: seq!['K'], hint: seq!['K'] },
        KeyView { drow: 3, dcol: 8, row: 1, col: 3, label: seq!['L'], hint: seq!['L'] },
        KeyView { drow: 3, dcol: 9, row: 5, col: 3, label: seq!['E', 'N', 'T'], hint: seq!['E', 'N', 'T'] },
        KeyView { drow: 4, dcol: 0, row: 0, col: 6, label: seq!['Z'], hint: seq!['Z'] },
        KeyView { drow: 4, dcol: 1, row: 1, col: 6, label: seq!['X'], hint: seq!['X'] },
        KeyView { drow: 4, dcol: 2, row: 2, col: 6, label: seq!['C'], hint: seq!['C'] },
        KeyView { drow: 4, dcol: 3, row: 3, col: 6, label: seq!['V'], hint: seq!['V'] },
        KeyView { drow: 4, dcol: 4, row: 4, col: 6, label: seq!['B'], hint: seq!['B', '/', '1'] },
        KeyView { drow: 4, dcol: 5, row: 5, col: 6, label: seq!['N'], hint: seq!['N', '/', '2'] },
        KeyView { drow: 4, dcol: 6, row: 6, col: 6, label: seq!['M'], hint: seq!['M', '/', '3'] },
        KeyView { drow: 4, dcol: 7, row: 7, col: 6, label: seq!['P', 'G', 'U', 'P'], hint: seq!['P', 'G', 'U', 'P'] },
        KeyView { drow: 4, dcol: 8, row: 2, col: 3, label: seq!['U', 'P'], hint: seq!['U', 'P'] },
        KeyView { drow: 4, dcol: 9, row: 6, col: 3, label: seq!['P', 'G', 'D', 'N'], hint: seq!['P', 'G', 'D', 'N'] },
        KeyView { drow: 5, dcol: 0, row: 0, col: 7, label: seq!['H', 'E', 'L', 'P'], hint: Seq::<char>::empty() },
        KeyView { drow: 5, dcol: 1, row: 1, col: 7, label: seq!['S', 'H', 'I', 'F', 'T'], hint: Seq::<char>::empty() },
        KeyView { drow: 5, dcol: 2, row: 2, col: 7, label: seq!['I', 'M', 'E'], hint: Seq::<char>::empty() },
        KeyView { drow: 5, dcol: 3, row: 3, col: 7, label: seq!['E', 'S', 'C'], hint: seq!['E', 'S', 'C'] },
        KeyView { drow: 5, dcol: 4, row: 4, col: 7, label: seq!['0'], hint: seq!['0'] },
        KeyView { drow: 5, dcol: 5, row: 5, col: 7, label: seq!['.'], hint: seq!['.'] },
        KeyView { drow: 5, dcol: 6, row: 6, col: 7, label: seq!['S', 'P', 'C'], hint: seq!['S', 'P', 'C'] },
        KeyView { drow: 5, dcol: 7, row: 7, col: 7, label: seq!['L', 'T'], hint: seq!['L', 'T'] },
        KeyView { drow: 5, dcol: 8, row: 3, col: 3, label: seq!['D', 'N'], hint: seq!['D', 'N'] },
        KeyView { drow: 5, dcol: 9, row: 7, col: 3, label: seq!['R', 'T'], hint: seq!['R', 'T'] },
    ]
}

/// The NC2000 keypad as key definitions.
#[verifier::rlimit(100)]
pub fn layout_nc2000() -> (r: Vec<KeyDef>)
    ensures
        key_views(r@) == layout_nc2000_spec(),
{
    proof {
        reveal_strlit("");
        reveal_strlit(".");
        reveal_strlit("0");
        reveal_strlit("A");
        reveal_strlit("B");
        reveal_strlit("B/1");
        reveal_strlit("C");
        reveal_strlit("CALC");
        reveal_strlit("CARD");
        reveal_strlit("D");
        reveal_strlit("DATA");
        reveal_strlit("DICT");
        reveal_strlit("DN");
        reveal_strlit("E");
        reveal_strlit("ENT");
        reveal_strlit("ESC");
        reveal_strlit("F");
        reveal_strlit("F1");
        reveal_strlit("F10");
        reveal_strlit("F11");
        reveal_strlit("F12");
        reveal_strlit("F2");
        reveal_strlit("F3");
        reveal_strlit("F4");
        reveal_strlit("F5");
        reveal_strlit("F6");
        reveal_strlit("F7");
        reveal_strlit("F8");
        reveal_strlit("F9");
        reveal_strlit("G");
        reveal_strlit("G/4");
        reveal_strlit("H");
        reveal_strlit("H/5");
        reveal_strlit("HELP");
        reveal_strlit("I");
        reveal_strlit("IME");
        reveal_strlit("J");
        reveal_strlit("J/6");
        reveal_strlit("K");
        reveal_strlit("L");
        reveal_strlit("LT");
        reveal_strlit("M");
        reveal_strlit("M/3");
        reveal_strlit("MEMO");
        reveal_strlit("N");
        reveal_strlit("N/2");
        reveal_strlit("NET");
        reveal_strlit("O");
        reveal_strlit("ON");
        reveal_strlit("P");
        reveal_strlit("PGDN");
        reveal_strlit("PGUP");
        reveal_strlit("Q");
        reveal_strlit("R");
        reveal_strlit("RT");
        reveal_strlit("S");
        reveal_strlit("SHIFT");
        reveal_strlit("SPC");
        reveal_strlit("T");
        reveal_strlit("T/7");
        reveal_strlit("TIME");
        reveal_strlit("U");
        reveal_strlit("U/9");
        reveal_strlit("UP");
        reveal_strlit("V");
        reveal_strlit("W");
        reveal_strlit("X");
        reveal_strlit("Y");
        reveal_strlit("Y/8");
        reveal_strlit("Z");
    }
    let keys = vec![
        KeyDef { drow: 0, dcol: 0, row: 3, col: 1, label: "DICT", hint: "F5" },
        KeyDef { drow: 0, dcol: 1, row: 4, col: 1, label: "CARD", hint: "F6" },
        KeyDef { drow: 0, dcol: 2, row: 5, col: 1, label: "CALC", hint: "F7" },
        KeyDef { drow: 0, dcol: 3, row: 2, col: 1, label: "MEMO", hint: "F8" },
        KeyDef { drow: 0, dcol: 4, row: 1, col: 1, label: "DATA", hint: "F9" },
        KeyDef { drow: 0, dcol: 5, row: 0, col: 1, label: "TIME", hint: "F10" },
        KeyDef { drow: 0, dcol: 6, row: 6, col: 1, label: "NET", hint: "F11" },
        KeyDef { drow: 1, dcol: 2, row: 0, col: 2, label: "F1", hint: "F1" },
        KeyDef { drow: 1, dcol: 3, row: 1, col: 2, label: "F2", hint: "F2" },
        KeyDef { drow: 1, dcol: 4, row: 2, col: 2, label: "F3", hint: "F3" },
        KeyDef { drow: 1, dcol: 5, row: 3, col: 2, label: "F4", hint: "F4" },
        KeyDef { drow: 1, dcol: 8, row: 0, col: 0, label: "ON", hint: "F12" },
        KeyDef { drow: 2, dcol: 0, row: 0, col: 4, label: "Q", hint: "Q" },
        KeyDef { drow: 2, dcol: 1, row: 1, col: 4, label: "W", hint: "W" },
        KeyDef { drow: 2, dcol: 2, row: 2, col: 4, label: "E", hint: "E" },
        KeyDef { drow: 2, dcol: 3, row: 3, col: 4, label: "R", hint: "R" },
        KeyDef { drow: 2, dcol: 4, row: 4, col: 4, label: "T", hint: "T/7" },
        KeyDef { drow: 2, dcol: 5, row: 5, col: 4, label: "Y", hint: "Y/8" },
        KeyDef { drow: 2, dcol: 6, row: 6, col: 4, label: "U", hint: "U/9" },
        KeyDef { drow: 2, dcol: 7, row: 7, col: 4, label: "I", hint: "I" },
        KeyDef { drow: 2, dcol: 8, row: 0, col: 3, label: "O", hint: "O" },
        KeyDef { drow: 2, dcol: 9, row: 4, col: 3, label: "P", hint: "P" },
        KeyDef { drow: 3, dcol: 0, row: 0, col: 5, label: "A", hint: "A" },
        KeyDef { drow: 3, dcol: 1, row: 1, col: 5, label: "S", hint: "S" },
        KeyDef { drow: 3, dcol: 2, row: 2, col: 5, label: "D", hint: "D" },
        KeyDef { drow: 3, dcol: 3, row: 3, col: 5, label: "F", hint: "F" },
        KeyDef { drow: 3, dcol: 4, row: 4, col: 5, label: "G", hint: "G/4" },
        KeyDef { drow: 3, dcol: 5, row: 5, col: 5, label: "H", hint: "H/5" },
        KeyDef { drow: 3, dcol: 6, row: 6, col: 5, label: "J", hint: "J/6" },
        KeyDef { drow: 3, dcol: 7, row: 7, col: 5, label: "K", hint: "K" },
        KeyDef { drow: 3, dcol: 8, row: 1, col: 3, label: "L", hint: "L" },
        KeyDef { drow: 3, dcol: 9, row: 5, col: 3, label: "ENT", hint: "ENT" },
        KeyDef { drow: 4, dcol: 0, row: 0, col: 6, label: "Z", hint: "Z" },
        KeyDef { drow: 4, dcol: 1, row: 1, col: 6, label: "X", hint: "X" },
        KeyDef { drow: 4, dcol: 2, row: 2, col: 6, label: "C", hint: "C" },
        KeyDef { drow: 4, dcol: 3, row: 3, col: 6, label: "V", hint: "V" },
        KeyDef { drow: 4, dcol: 4, row: 4, col: 6, label: "B", hint: "B/1" },
        KeyDef { drow: 4, dcol: 5, row: 5, col: 6, label: "N", hint: "N/2" },
        KeyDef { drow: 4, dcol: 6, row: 6, col: 6, label: "M", hint: "M/3" },
        KeyDef { drow: 4, dcol: 7, row: 7, col: 6, label: "PGUP", hint: "PGUP" },
        KeyDef { drow: 4, dcol: 8, row: 2, col: 3, label: "UP", hint: "UP" },
        KeyDef { drow: 4, dcol: 9, row: 6, col: 3, label: "PGDN", hint: "PGDN" },
        KeyDef { drow: 5, dcol: 0, row: 0, col: 7, label: "HELP", hint: "" },
        KeyDef { drow: 5, dcol: 1, row: 1, col: 7, label: "SHIFT", hint: "" },
        KeyDef { drow: 5, dcol: 2, row: 2, col: 7, label: "IME", hint: "" },
        KeyDef { drow: 5, dcol: 3, row: 3, col: 7, label: "ESC", hint: "ESC" },
        KeyDef { drow: 5, dcol: 4, row: 4, col: 7, label: "0", hint: "0" },
        KeyDef { drow: 5, dcol: 5, row: 5, col: 7, label: ".", hint: "." },
        KeyDef { drow: 5, dcol: 6, row: 6, col: 7, label: "SPC", hint: "SPC" },
        KeyDef { drow: 5, dcol: 7, row: 7, col: 7, label: "LT", hint: "LT" },
        KeyDef { drow: 5, dcol: 8, row: 3, col: 3, label: "DN", hint: "DN" },
        KeyDef { drow: 5, dcol: 9, row: 7, col: 3, label: "RT", hint: "RT" },
    ];
    assert(key_views(keys@) =~~= layout_nc2000_spec());
    keys
}

/// NC3000 keypad: standard 6x10 keypad with hotkeys in matrix column 0.
pub open spec fn layout_nc3000_spec() -> Seq<KeyView> {
    seq![
        KeyView { drow: 0, dcol: 0, row: 1, col: 0, label: seq!['G', 'A', 'M', 'E'], hint: seq!['F', '5'] },
        KeyView { drow: 0, dcol: 1, row: 2, col: 0, label: seq!['C', 'A', 'L', 'C'], hint: seq!['F', '6'] },
        KeyView { drow: 0, dcol: 2, row: 3, col: 0, label: seq!['T', 'I', 'M', 'E'], hint: seq!['F', '7'] },
        KeyView { drow: 0, dcol: 3, row: 5, col: 0, label: seq!['D', 'I', 'C', 'T'], hint: seq!['F', '9'] },
        KeyView { drow: 0, dcol: 4, row: 6, col: 0, label: seq!['L', 'E', 'X'], hint: seq!['F', '1', '0'] },
        KeyView { drow: 0, dcol: 5, row: 7, col: 0, label: seq!['S', 'T', 'U', 'D', 'Y'], hint: seq!['F', '1', '1'] },
        KeyView { drow: 1, dcol: 2, row: 0, col: 2, label: seq!['F', '1'], hint: seq!['F', '1'] },
        KeyView { drow: 1, dcol: 3, row: 1, col: 2, label: seq!['F', '2'], hint: seq!['F', '2'] },
        KeyView { drow: 1, dcol: 4, row: 2, col: 2, label: seq!['F', '3'], hint: seq!['F', '3'] },
        KeyView { drow: 1, dcol: 5, row: 3, col: 2, label: seq!['F', '4'], hint: seq!['F', '4'] },
        KeyView { drow: 1, dcol: 8, row: 0, col: 0, label: seq!['P', 'W', 'R'], hint: seq!['F', '1', '2'] },
        KeyView { drow: 2, dcol: 0, row: 0, col: 4, label: seq!['Q'], hint: seq!['Q'] },
        KeyView { drow: 2, dcol: 1, row: 1, col: 4, label: seq!['W'], hint: seq!['W'] },
        KeyView { drow: 2, dcol: 2, row: 2, col: 4, label: seq!['E'], hint: seq!['E'] },
        KeyView { drow: 2, dcol: 3, row: 3, col: 4, label: seq!['R'], hint: seq!['R'] },
        KeyView { drow: 2, dcol: 4, row: 4, col: 4, label: seq!['T'], hint: seq!['T', '/', '7'] },
        KeyView { drow: 2, dcol: 5, row: 5, col: 4, label: seq!['Y'], hint: seq!['Y', '/', '8'] },
        KeyView { drow: 2, dcol: 6, row: 6, col: 4, label: seq!['U'], hint: seq!['U', '/', '9'] },
        KeyView { drow: 2, dcol: 7, row: 7, col: 4, label: seq!['I'], hint: seq!['I'] },
        KeyView { drow: 2, dcol: 8, row: 0, col: 3, label: seq!['O'], hint: seq!['O'] },
        KeyView { drow: 2, dcol: 9, row: 4, col: 3, label: seq!['P'], hint: seq!['P'] },
        KeyView { drow: 3, dcol: 0, row: 0, col: 5, label: seq!['A'], hint: seq!['A'] },
        KeyView { drow: 3, dcol: 1, row: 1, col: 5, label: seq!['S'], hint: seq!['S'] },
        KeyView { drow: 3, dcol: 2, row: 2, col: 5, label: seq!['D'], hint: seq!['D'] },
        KeyView { drow: 3, dcol: 3, row: 3, col: 5, label: seq!['F'], hint: seq!['F'] },
        KeyView { drow: 3, dcol: 4, row: 4, col: 5, label: seq!['G'], hint: seq!['G', '/', '4'] },
        KeyView { drow: 3, dcol: 5, row: 5, col: 5, label: seq!['H'], hint: seq!['H', '/', '5'] },
        KeyView { drow: 3, dcol: 6, row: 6, col: 5, label: seq!['J'], hint: seq!['J', '/', '6'] },
        KeyView { drow: 3, dcol: 7, row: 7, col: 5, label: seq!['K'], hint: seq!['K'] },
        KeyView { drow: 3, dcol: 8, row: 1, col: 3, label: seq!['L'], hint: seq!['L'] },
        KeyView { drow: 3, dcol: 9, row: 5, col: 3, label: seq!['E', 'N', 'T'], hint: seq!['E', 'N', 'T'] },
        KeyView { drow: 4, dcol: 0, row: 0, col: 6, label: seq!['Z'], hint: seq!['Z'] },
        KeyView { drow: 4, dcol: 1, row: 1, col: 6, label: seq!['X'], hint: seq!['X'] },
        KeyView { drow: 4, dcol: 2, row: 2, col: 6, label: seq!['C'], hint: seq!['C'] },
        KeyView { drow: 4, dcol: 3, row: 3, col: 6, label: seq!['V'], hint: seq!['V'] },
        KeyView { drow: 4, dcol: 4, row: 4, col: 6, label: seq!['B'], hint: seq!['B', '/', '1'] },
        KeyView { drow: 4, dcol: 5, row: 5, col: 6, label: seq!['N'], hint: seq!['N', '/', '2'] },
        KeyView { drow: 4, dcol: 6, row: 6, col: 6, label: seq!['M'], hint: seq!['M', '/', '3'] },
        KeyView { drow: 4, dcol: 7, row: 7, col: 6, label: seq!['P', 'G', 'U', 'P'], hint: seq!['P', 'G', 'U', 'P'] },
        KeyView { drow: 4, dcol: 8, row: 2, col: 3, label: seq!['U', 'P'], hint: seq!['U', 'P'] },
        KeyView { drow: 4, dcol: 9, row: 6, col: 3, label: seq!['P', 'G', 'D', 'N'], hint: seq!['P', 'G', 'D', 'N'] },
        KeyView { drow: 5, dcol: 0, row: 0, col: 7, label: seq!['H', 'E', 'L', 'P'], hint: Seq::<char>::empty() },
        KeyView { drow: 5, dcol: 1, row: 1, col: 7, label: seq!['S', 'H', 'I', 'F', 'T'], hint: Seq::<char>::empty() },
        KeyView { drow: 5, dcol: 2, row: 2, col: 7, label: seq!['I', 'M', 'E'], hint: Seq::<char>::empty() },
        KeyView { drow: 5, dcol: 3, row: 3, col: 7, label: seq!['E', 'S', 'C'], hint: seq!['E', 'S', 'C'] },
        KeyView { drow: 5, dcol: 4, row: 4, col: 7, label: seq!['0'], hint: seq!['0'] },
        KeyView { drow: 5, dcol: 5, row: 5, col: 7, label: seq!['.'], hint: seq!['.'] },
        KeyView { drow: 5, dcol: 6, row: 6, col: 7, label: seq!['S', 'P', 'C'], hint: seq!['S', 'P', 'C'] },
        KeyView { drow: 5, dcol: 7, row: 7, col: 7, label: seq!['L', 'T'], hint: seq!['L', 'T'] },
        KeyView { drow: 5, dcol: 8, row: 3, col: 3, label: seq!['D', 'N'], hint: seq!['D', 'N'] },
        KeyView { drow: 5, dcol: 9, row: 7, col: 3, label: seq!['R', 'T'], hint: seq!['R', 'T'] },
    ]
}

/// The NC3000 keypad as key definitions.
#[verifier::rlimit(100)]
pub fn layout_nc3000() -> (r: Vec<KeyDef>)
    ensures
        key_views(r@) == layout_nc3000_spec(),
{
    proof {
        reveal_strlit("");
        reveal_strlit(".");
        reveal_strlit("0");
        reveal_strlit("A");
        reveal_strlit("B");
        reveal_strlit("B/1");
        reveal_strlit("C");
        reveal_strlit("CALC");
        reveal_strlit("D");
        reveal_strlit("DICT");
        reveal_strlit("DN");
        reveal_strlit("E");
        reveal_strlit("ENT");
        reveal_strlit("ESC");
        reveal_strlit("F");
        reveal_strlit("F1");
        reveal_strlit("F10");
        reveal_strlit("F11");
        reveal_strlit("F12");
        reveal_strlit("F2");
        reveal_strlit("F3");
        reveal_strlit("F4");
        reveal_strlit("F5");
        reveal_strlit("F6");
        reveal_strlit("F7");
        reveal_strlit("F9");
        reveal_strlit("G");
        reveal_strlit("G/4");
        reveal_strlit("GAME");
        reveal_strlit("H");
        reveal_strlit("H/5");
        reveal_strlit("HELP");
        reveal_strlit("I");
        reveal_strlit("IME");
        reveal_strlit("J");
        reveal_strlit("J/6");
        reveal_strlit("K");
        reveal_strlit("L");
        reveal_strlit("LEX");
        reveal_strlit("LT");
        reveal_strlit("M");
        reveal_strlit("M/3");
        reveal_strlit("N");
        reveal_strlit("N/2");
        reveal_strlit("O");
        reveal_strlit("P");
        reveal_strlit("PGDN");
        reveal_strlit("PGUP");
        reveal_strlit("PWR");
        reveal_strlit("Q");
        reveal_strlit("R");
        reveal_strlit("RT");
        reveal_strlit("S");
        reveal_strlit("SHIFT");
        reveal_strlit("SPC");
        reveal_strlit("STUDY");
        reveal_strlit("T");
        reveal_strlit("T/7");
        reveal_strlit("TIME");
        reveal_strlit("U");
        reveal_strlit("U/9");
        reveal_strlit("UP");
        reveal_strlit("V");
        reveal_strlit("W");
        reveal_strlit("X");
        reveal_strlit("Y");
        reveal_strlit("Y/8");
        reveal_strlit("Z");
    }
    let keys = vec![
        KeyDef { drow: 0, dcol: 0, row: 1, col: 0, label: "GAME", hint: "F5" },
        KeyDef { drow: 0, dcol: 1, row: 2, col: 0, label: "CALC", hint: "F6" },
        KeyDef { drow: 0, dcol: 2, row: 3, col: 0, label: "TIME", hint: "F7" },
        KeyDef { drow: 0, dcol: 3, row: 5, col: 0, label: "DICT", hint: "F9" },
        KeyDef { drow: 0, dcol: 4, row: 6, col: 0, label: "LEX", hint: "F10" },
        KeyDef { drow: 0, dcol: 5, row: 7, col: 0, label: "STUDY", hint: "F11" },
        KeyDef { drow: 1, dcol: 2, row: 0, col: 2, label: "F1", hint: "F1" },
        KeyDef { drow: 1, dcol: 3, row: 1, col: 2, label: "F2", hint: "F2" },
        KeyDef { drow: 1, dcol: 4, row: 2, col: 2, label: "F3", hint: "F3" },
        KeyDef { drow: 1, dcol: 5, row: 3, col: 2, label: "F4", hint: "F4" },
        KeyDef { drow: 1, dcol: 8, row: 0, col: 0, label: "PWR", hint: "F12" },
        KeyDef { drow: 2, dcol: 0, row: 0, col: 4, label: "Q", hint: "Q" },
        KeyDef { drow: 2, dcol: 1, row: 1, col: 4, label: "W", hint: "W" },
        KeyDef { drow: 2, dcol: 2, row: 2, col: 4, label: "E", hint: "E" },
        KeyDef { drow: 2, dcol: 3, row: 3, col: 4, label: "R", hint: "R" },
        KeyDef { drow: 2, dcol: 4, row: 4, col: 4, label: "T", hint: "T/7" },
        KeyDef { drow: 2, dcol: 5, row: 5, col: 4, label: "Y", hint: "Y/8" },
        KeyDef { drow: 2, dcol: 6, row: 6, col: 4, label: "U", hint: "U/9" },
        KeyDef { drow: 2, dcol: 7, row: 7, col: 4, label: "I", hint: "I" },
        KeyDef { drow: 2, dcol: 8, row: 0, col: 3, label: "O", hint: "O" },
        KeyDef { drow: 2, dcol: 9, row: 4, col: 3, label: "P", hint: "P" },
        KeyDef { drow: 3, dcol: 0, row: 0, col: 5, label: "A", hint: "A" },
        KeyDef { drow: 3, dcol: 1, row: 1, col: 5, label: "S", hint: "S" },
        KeyDef { drow: 3, dcol: 2, row: 2, col: 5, label: "D", hint: "D" },
        KeyDef { drow: 3, dcol: 3, row: 3, col: 5, label: "F", hint: "F" },
        KeyDef { drow: 3, dcol: 4, row: 4, col: 5, label: "G", hint: "G/4" },
        KeyDef { drow: 3, dcol: 5, row: 5, col: 5, label: "H", hint: "H/5" },
        KeyDef { drow: 3, dcol: 6, row: 6, col: 5, label: "J", hint: "J/6" },
        KeyDef { drow: 3, dcol: 7, row: 7, col: 5, label: "K", hint: "K" },
        KeyDef { drow: 3, dcol: 8, row: 1, col: 3, label: "L", hint: "L" },
        KeyDef { drow: 3, dcol: 9, row: 5, col: 3, label: "ENT", hint: "ENT" },
        KeyDef { drow: 4, dcol: 0, row: 0, col: 6, label: "Z", hint: "Z" },
        KeyDef { drow: 4, dcol: 1, row: 1, col: 6, label: "X", hint: "X" },
        KeyDef { drow: 4, dcol: 2, row: 2, col: 6, label: "C", hint: "C" },
        KeyDef { drow: 4, dcol: 3, row: 3, col: 6, label: "V", hint: "V" },
        KeyDef { drow: 4, dcol: 4, row: 4, col: 6, label: "B", hint: "B/1" },
        KeyDef { drow: 4, dcol: 5, row: 5, col: 6, label: "N", hint: "N/2" },
        KeyDef { drow: 4, dcol: 6, row: 6, col: 6, label: "M", hint: "M/3" },
        KeyDef { drow: 4, dcol: 7, row: 7, col: 6, label: "PGUP", hint: "PGUP" },
        KeyDef { drow: 4, dcol: 8, row: 2, col: 3, label: "UP", hint: "UP" },
        KeyDef { drow: 4, dcol: 9, row: 6, col: 3, label: "PGDN", hint: "PGDN" },
        KeyDef { drow: 5, dcol: 0, row: 0, col: 7, label: "HELP", hint: "" },
        KeyDef { drow: 5, dcol: 1, row: 1, col: 7, label: "SHIFT", hint: "" },
        KeyDef { drow: 5, dcol: 2, row: 2, col: 7, label: "IME", hint: "" },
        KeyDef { drow: 5, dcol: 3, row: 3, col: 7, label: "ESC", hint: "ESC" },
        KeyDef { drow: 5, dcol: 4, row: 4, col: 7, label: "0", hint: "0" },
        KeyDef { drow: 5, dcol: 5, row: 5, col: 7, label: ".", hint: "." },
        KeyDef { drow: 5, dcol: 6, row: 6, col: 7, label: "SPC", hint: "SPC" },
        KeyDef { drow: 5, dcol: 7, row: 7, col: 7, label: "LT", hint: "LT" },
        KeyDef { drow: 5, dcol: 8, row: 3, col: 3, label: "DN", hint: "DN" },
        KeyDef { drow: 5, dcol: 9, row: 7, col: 3, label: "RT", hint: "RT" },
    ];
    assert(key_views(keys@) =~~= layout_nc3000_spec());
    keys
}

/// PC1000 / CC800 keypad (same matrix, as the PC1000 keymap numbers it).
pub open spec fn layout_pc1000_spec() -> Seq<KeyView> {
    seq![
        KeyView { drow: 0, dcol: 0, row: 1, col: 0, label: seq!['D', 'I', 'C', 'T'], hint: seq!['F', '5'] },
        KeyView { drow: 0, dcol: 1, row: 1, col: 1, label: seq!['C', 'A', 'R', 'D'], hint: seq!['F', '6'] },
        KeyView { drow: 0, dcol: 2, row: 1, col: 2, label: seq!['C', 'A', 'L', 'C'], hint: seq!['F', '7'] },
        KeyView { drow: 0, dcol: 3, row: 1, col: 3, label: seq!['M', 'E', 'M', 'O'], hint: seq!['F', '8'] },
        KeyView { drow: 0, dcol: 4, row: 1, col: 4, label: seq!['D', 'A', 'T', 'A'], hint: seq!['F', '9'] },
        KeyView { drow: 0, dcol: 5, row: 1, col: 5, label: seq!['T', 'I', 'M', 'E'], hint: seq!['F', '1', '0'] },
        KeyView { drow: 0, dcol: 6, row: 1, col: 6, label: seq!['N', 'E', 'T'], hint: seq!['F', '1', '1'] },
        KeyView { drow: 1, dcol: 2, row: 7, col: 2, label: seq!['F', '1'], hint: seq!['F', '1'] },
        KeyView { drow: 1, dcol: 3, row: 7, col: 3, label: seq!['F', '2'], hint: seq!['F', '2'] },
        KeyView { drow: 1, dcol: 4, row: 7, col: 4, label: seq!['F', '3'], hint: seq!['F', '3'] },
        KeyView { drow: 1, dcol: 5, row: 7, col: 5, label: seq!['F', '4'], hint: seq!['F', '4'] },
        KeyView { drow: 1, dcol: 8, row: 0, col: 0, label: seq!['O', 'N'], hint: seq!['F', '1', '2'] },
        KeyView { drow: 2, dcol: 0, row: 5, col: 0, label: seq!['Q'], hint: seq!['Q'] },
        KeyView { drow: 2, dcol: 1, row: 5, col: 1, label: seq!['W'], hint: seq!['W'] },
        KeyView { drow: 2, dcol: 2, row: 5, col: 2, label: seq!['E'], hint: seq!['E'] },
        KeyView { drow: 2, dcol: 3, row: 5, col: 3, label: seq!['R'], hint: seq!['R'] },
        KeyView { drow: 2, dcol: 4, row: 5, col: 4, label: seq!['T'], hint: seq!['T', '/', '7'] },
        KeyView { drow: 2, dcol: 5, row: 5, col: 5, label: seq!['Y'], hint: seq!['Y', '/', '8'] },
        KeyView { drow: 2, dcol: 6, row: 5, col: 6, label: seq!['U'], hint: seq!['U', '/', '9'] },
        KeyView { drow: 2, dcol: 7, row: 5, col: 7, label: seq!['I'], hint: seq!['I'] },
        KeyView { drow: 2, dcol: 8, row: 6, col: 0, label: seq!['O'], hint: seq!['O'] },
        KeyView { drow: 2, dcol: 9, row: 6, col: 4, label: seq!['P'], hint: seq!['P'] },
        KeyView { drow: 3, dcol: 0, row: 4, col: 0, label: seq!['A'], hint: seq!['A'] },
        KeyView { drow: 3, dcol: 1, row: 4, col: 1, label: seq!['S'], hint: seq!['S'] },
        KeyView { drow: 3, dcol: 2, row: 4, col: 2, label: seq!['D'], hint: seq!['D'] },
        KeyView { drow: 3, dcol: 3, row: 4, col: 3, label: seq!['F'], hint: seq!['F'] },
        KeyView { drow: 3, dcol: 4, row: 4, col: 4, label: seq!['G'], hint: seq!['G', '/', '4'] },
        KeyView { drow: 3, dcol: 5, row: 4, col: 5, label: seq!['H'], hint: seq!['H', '/', '5'] },
        KeyView { drow: 3, dcol: 6, row: 4, col: 6, label: seq!['J'], hint: seq!['J', '/', '6'] },
        KeyView { drow: 3, dcol: 7, row: 4, col: 7, label: seq!['K'], hint: seq!['K'] },
        KeyView { drow: 3, dcol: 8, row: 6, col: 1, label: seq!['L'], hint: seq!['L'] },
        KeyView { drow: 3, dcol: 9, row: 6, col: 5, label: seq!['E', 'N', 'T'], hint: seq!['E', 'N', 'T'] },
        KeyView { drow: 4, dcol: 0, row: 3, col: 0, label: seq!['Z'], hint: seq!['Z'] },
        KeyView { drow: 4, dcol: 1, row: 3, col: 1, label: seq!['X'], hint: seq!['X'] },
        KeyView { drow: 4, dcol: 2, row: 3, col: 2, label: seq!['C'], hint: seq!['C'] },
        KeyView { drow: 4, dcol: 3, row: 3, col: 3, label: seq!['V'], hint: seq!['V'] },
        KeyView { drow: 4, dcol: 4, row: 3, col: 4, label: seq!['B'], hint: seq!['B', '/', '1'] },
        KeyView { drow: 4, dcol: 5, row: 3, col: 5, label: seq!['N'], hint: seq!['N', '/', '2'] },
        KeyView { drow: 4, dcol: 6, row: 3, col: 6, label: seq!['M'], hint: seq!['M', '/', '3'] },
        KeyView { drow: 4, dcol: 7, row: 3, col: 7, label: seq!['P', 'G', 'U', 'P'], hint: seq!['P', 'G', 'U', 'P'] },
        KeyView { drow: 4, dcol: 8, row: 6, col: 2, label: seq!['U', 'P'], hint: seq!['U', 'P'] },
        KeyView { drow: 4, dcol: 9, row: 6, col: 6, label: seq!['P', 'G', 'D', 'N'], hint: seq!['P', 'G', 'D', 'N'] },
        KeyView { drow: 5, dcol: 0, row: 2, col: 0, label: seq!['H', 'E', 'L', 'P'], hint: Seq::<char>::empty() },
        KeyView { drow: 5, dcol: 1, row: 2, col: 1, label: seq!['S', 'H', 'I', 'F', 'T'], hint: Seq::<char>::empty() },
        KeyView { drow: 5, dcol: 2, row: 2, col: 2, label: seq!['I', 'M', 'E'], hint: Seq::<char>::empty() },
        KeyView { drow: 5, dcol: 3, row: 2, col: 3, label: seq!['E', 'S', 'C'], hint: seq!['E', 'S', 'C'] },
        KeyView { drow: 5, dcol: 4, row: 2, col: 4, label: seq!['0'], hint: seq!['0'] },
        KeyView { drow: 5, dcol: 5, row: 2, col: 5, label: seq!['.'], hint: seq!['.'] },
        KeyView { drow: 5, dcol: 6, row: 2, col: 6, label: seq!['S', 'P', 'C'], hint: seq!['S', 'P', 'C'] },
        KeyView { drow: 5, dcol: 7, row: 2, col: 7, label: seq!['L', 'T'], hint: seq!['L', 'T'] },
        KeyView { drow: 5, dcol: 8, row: 6, col: 3, label: seq!['D', 'N'], hint: seq!['D', 'N'] },
        KeyView { drow: 5, dcol: 9, row: 6, col: 7, label: seq!['R', 'T'], hint: seq!['R', 'T'] },
    ]
}

/// The PC1000 keypad as key definitions.
#[verifier::rlimit(100)]
pub fn layout_pc1000() -> (r: Vec<KeyDef>)
    ensures
        key_views(r@) == layout_pc1000_spec(),
{
    proof {
        reveal_strlit("");
        reveal_strlit(".");
        reveal_strlit("0");
        reveal_strlit("A");
        reveal_strlit("B");
        reveal_strlit("B/1");
        reveal_strlit("C");
        reveal_strlit("CALC");
        reveal_strlit("CARD");
        reveal_strlit("D");
        reveal_strlit("DATA");
        reveal_strlit("DICT");
        reveal_strlit("DN");
        reveal_strlit("E");
        reveal_strlit("ENT");
        reveal_strlit("ESC");
        reveal_strlit("F");
        reveal_strlit("F1");
        reveal_strlit("F10");
        reveal_strlit("F11");
        reveal_strlit("F12");
        reveal_strlit("F2");
        reveal_strlit("F3");
        reveal_strlit("F4");
        reveal_strlit("F5");
        reveal_strlit("F6");
        reveal_strlit("F7");
        reveal_strlit("F8");
        reveal_strlit("F9");
        reveal_strlit("G");
        reveal_strlit("G/4");
        reveal_strlit("H");
        reveal_strlit("H/5");
        reveal_strlit("HELP");
        reveal_strlit("I");
        reveal_strlit("IME");
        reveal_strlit("J");
        reveal_strlit("J/6");
        reveal_strlit("K");
        reveal_strlit("L");
        reveal_strlit("LT");
        reveal_strlit("M");
        reveal_strlit("M/3");
        reveal_strlit("MEMO");
        reveal_strlit("N");
        reveal_strlit("N/2");
        reveal_strlit("NET");
        reveal_strlit("O");
        reveal_strlit("ON");
        reveal_strlit("P");
        reveal_strlit("PGDN");
        reveal_strlit("PGUP");
        reveal_strlit("Q");
        reveal_strlit("R");
        reveal_strlit("RT");
        reveal_strlit("S");
        reveal_strlit("SHIFT");
        reveal_strlit("SPC");
        reveal_strlit("T");
        reveal_strlit("T/7");
        reveal_strlit("TIME");
        reveal_strlit("U");
        reveal_strlit("U/9");
        reveal_strlit("UP");
        reveal_strlit("V");
        reveal_strlit("W");
        reveal_strlit("X");
        reveal_strlit("Y");
        reveal_strlit("Y/8");
        reveal_strlit("Z");
    }
    let keys = vec![
        KeyDef { drow: 0, dcol: 0, row: 1, col: 0, label: "DICT", hint: "F5" },
        KeyDef { drow: 0, dcol: 1, row: 1, col: 1, label: "CARD", hint: "F6" },
        KeyDef { drow: 0, dcol: 2, row: 1, col: 2, label: "CALC", hint: "F7" },
        KeyDef { drow: 0, dcol: 3, row: 1, col: 3, label: "MEMO", hint: "F8" },
        KeyDef { drow: 0, dcol: 4, row: 1, col: 4, label: "DATA", hint: "F9" },
        KeyDef { drow: 0, dcol: 5, row: 1, col: 5, label: "TIME", hint: "F10" },
        KeyDef { drow: 0, dcol: 6, row: 1, col: 6, label: "NET", hint: "F11" },
        KeyDef { drow: 1, dcol: 2, row: 7, col: 2, label: "F1", hint: "F1" },
        KeyDef { drow: 1, dcol: 3, row: 7, col: 3, label: "F2", hint: "F2" },
        KeyDef { drow: 1, dcol: 4, row: 7, col: 4, label: "F3", hint: "F3" },
        KeyDef { drow: 1, dcol: 5, row: 7, col: 5, label: "F4", hint: "F4" },
        KeyDef { drow: 1, dcol: 8, row: 0, col: 0, label: "ON", hint: "F12" },
        KeyDef { drow: 2, dcol: 0, row: 5, col: 0, label: "Q", hint: "Q" },
        KeyDef { drow: 2, dcol: 1, row: 5, col: 1, label: "W", hint: "W" },
        KeyDef { drow: 2, dcol: 2, row: 5, col: 2, label: "E", hint: "E" },
        KeyDef { drow: 2, dcol: 3, row: 5, col: 3, label: "R", hint: "R" },
        KeyDef { drow: 2, dcol: 4, row: 5, col: 4, label: "T", hint: "T/7" },
        KeyDef { drow: 2, dcol: 5, row: 5, col: 5, label: "Y", hint: "Y/8" },
        KeyDef { drow: 2, dcol: 6, row: 5, col: 6, label: "U", hint: "U/9" },
        KeyDef { drow: 2, dcol: 7, row: 5, col: 7, label: "I", hint: "I" },
        KeyDef { drow: 2, dcol: 8, row: 6, col: 0, label: "O", hint: "O" },
        KeyDef { drow: 2, dcol: 9, row: 6, col: 4, label: "P", hint: "P" },
        KeyDef { drow: 3, dcol: 0, row: 4, col: 0, label: "A", hint: "A" },
        KeyDef { drow: 3, dcol: 1, row: 4, col: 1, label: "S", hint: "S" },
        KeyDef { drow: 3, dcol: 2, row: 4, col: 2, label: "D", hint: "D" },
        KeyDef { drow: 3, dcol: 3, row: 4, col: 3, label: "F", hint: "F" },
        KeyDef { drow: 3, dcol: 4, row: 4, col: 4, label: "G", hint: "G/4" },
        KeyDef { drow: 3, dcol: 5, row: 4, col: 5, label: "H", hint: "H/5" },
        KeyDef { drow: 3, dcol: 6, row: 4, col: 6, label: "J", hint: "J/6" },
        KeyDef { drow: 3, dcol: 7, row: 4, col: 7, label: "K", hint: "K" },
        KeyDef { drow: 3, dcol: 8, row: 6, col: 1, label: "L", hint: "L" },
        KeyDef { drow: 3, dcol: 9, row: 6, col: 5, label: "ENT", hint: "ENT" },
        KeyDef { drow: 4, dcol: 0, row: 3, col: 0, label: "Z", hint: "Z" },
        KeyDef { drow: 4, dcol: 1, row: 3, col: 1, label: "X", hint: "X" },
        KeyDef { drow: 4, dcol: 2, row: 3, col: 2, label: "C", hint: "C" },
        KeyDef { drow: 4, dcol: 3, row: 3, col: 3, label: "V", hint: "V" },
        KeyDef { drow: 4, dcol: 4, row: 3, col: 4, label: "B", hint: "B/1" },
        KeyDef { drow: 4, dcol: 5, row: 3, col: 5, label: "N", hint: "N/2" },
        KeyDef { drow: 4, dcol: 6, row: 3, col: 6, label: "M", hint: "M/3" },
        KeyDef { drow: 4, dcol: 7, row: 3, col: 7, label: "PGUP", hint: "PGUP" },
        KeyDef { drow: 4, dcol: 8, row: 6, col: 2, label: "UP", hint: "UP" },
        KeyDef { drow: 4, dcol: 9, row: 6, col: 6, label: "PGDN", hint: "PGDN" },
        KeyDef { drow: 5, dcol: 0, row: 2, col: 0, label: "HELP", hint: "" },
        KeyDef { drow: 5, dcol: 1, row: 2, col: 1, label: "SHIFT", hint: "" },
        KeyDef { drow: 5, dcol: 2, row: 2, col: 2, label: "IME", hint: "" },
        KeyDef { drow: 5, dcol: 3, row: 2, col: 3, label: "ESC", hint: "ESC" },
        KeyDef { drow: 5, dcol: 4, row: 2, col: 4, label: "0", hint: "0" },
        KeyDef { drow: 5, dcol: 5, row: 2, col: 5, label: ".", hint: "." },
        KeyDef { drow: 5, dcol: 6, row: 2, col: 6, label: "SPC", hint: "SPC" },
        KeyDef { drow: 5, dcol: 7, row: 2, col: 7, label: "LT", hint: "LT" },
        KeyDef { drow: 5, dcol: 8, row: 6, col: 3, label: "DN", hint: "DN" },
        KeyDef { drow: 5, dcol: 9, row: 6, col: 7, label: "RT", hint: "RT" },
    ];
    assert(key_views(keys@) =~~= layout_pc1000_spec());
    keys
}

/// NC1020 keypad, by the NC1020's matrix IDs.
pub open spec fn layout_nc1020_spec() -> Seq<KeyView> {
    seq![
        KeyView { drow: 0, dcol: 0, row: 3, col: 1, label: seq!['D', 'I', 'C', 'T'], hint: seq!['F', '5'] },
        KeyView { drow: 0, dcol: 1, row: 4, col: 1, label: seq!['C', 'A', 'R', 'D'], hint: seq!['F', '6'] },
        KeyView { drow: 0, dcol: 2, row: 5, col: 1, label: seq!['C', 'A', 'L', 'C'], hint: seq!['F', '7'] },
        KeyView { drow: 0, dcol: 3, row: 2, col: 1, label: seq!['M', 'E', 'M', 'O'], hint: seq!['F', '8'] },
        KeyView { drow: 0, dcol: 4, row: 1, col: 1, label: seq!['D', 'A', 'T', 'A'], hint: seq!['F', '9'] },
        KeyView { drow: 0, dcol: 5, row: 0, col: 1, label: seq!['T', 'I', 'M', 'E'], hint: seq!['F', '1', '0'] },
        KeyView { drow: 0, dcol: 6, row: 6, col: 1, label: seq!['N', 'E', 'T'], hint: seq!['F', '1', '1'] },
        KeyView { drow: 1, dcol: 2, row: 0, col: 2, label: seq!['F', '1'], hint: seq!['F', '1'] },
        KeyView { drow: 1, dcol: 3, row: 1, col: 2, label: seq!['F', '2'], hint: seq!['F', '2'] },
        KeyView { drow: 1, dcol: 4, row: 2, col: 2, label: seq!['F', '3'], hint: seq!['F', '3'] },
        KeyView { drow: 1, dcol: 5, row: 3, col: 2, label: seq!['F', '4'], hint: seq!['F', '4'] },
        KeyView { drow: 1, dcol: 8, row: 7, col: 1, label: seq!['O', 'N'], hint: seq!['D', 'E', 'L'] },
        KeyView { drow: 2, dcol: 0, row: 0, col: 4, label: seq!['Q'], hint: seq!['Q'] },
        KeyView { drow: 2, dcol: 1, row: 1, col: 4, label: seq!['W'], hint: seq!['W'] },
        KeyView { drow: 2, dcol: 2, row: 2, col: 4, label: seq!['E'], hint: seq!['E'] },
        KeyView { drow: 2, dcol: 3, row: 3, col: 4, label: seq!['R'], hint: seq!['R'] },
        KeyView { drow: 2, dcol: 4, row: 4, col: 4, label: seq!['T', '/', '7'], hint: seq!['T'] },
        KeyView { drow: 2, dcol: 5, row: 5, col: 4, label: seq!['Y', '/', '8'], hint: seq!['Y'] },
        KeyView { drow: 2, dcol: 6, row: 6, col: 4, label: seq!['U', '/', '9'], hint: seq!['U'] },
        KeyView { drow: 2, dcol: 7, row: 7, col: 4, label: seq!['I'], hint: seq!['I'] },
        KeyView { drow: 2, dcol: 8, row: 0, col: 3, label: seq!['O'], hint: seq!['O'] },
        KeyView { drow: 2, dcol: 9, row: 4, col: 3, label: seq!['P'], hint: seq!['P'] },
        KeyView { drow: 3, dcol: 0, row: 0, col: 5, label: seq!['A'], hint: seq!['A'] },
        KeyView { drow: 3, dcol: 1, row: 1, col: 5, label: seq!['S'], hint: seq!['S'] },
        KeyView { drow: 3, dcol: 2, row: 2, col: 5, label: seq!['D'], hint: seq!['D'] },
        KeyView { drow: 3, dcol: 3, row: 3, col: 5, label: seq!['F'], hint: seq!['F'] },
        KeyView { drow: 3, dcol: 4, row: 4, col: 5, label: seq!['G', '/', '4'], hint: seq!['G'] },
        KeyView { drow: 3, dcol: 5, row: 5, col: 5, label: seq!['H', '/', '5'], hint: seq!['H'] },
        KeyView { drow: 3, dcol: 6, row: 6, col: 5, label: seq!['J', '/', '6'], hint: seq!['J'] },
        KeyView { drow: 3, dcol: 7, row: 7, col: 5, label: seq!['K'], hint: seq!['K'] },
        KeyView { drow: 3, dcol: 8, row: 1, col: 3, label: seq!['L'], hint: seq!['L'] },
        KeyView { drow: 3, dcol: 9, row: 5, col: 3, label: seq!['E', 'N', 'T'], hint: seq!['E', 'N', 'T'] },
        KeyView { drow: 4, dcol: 0, row: 0, col: 6, label: seq!['Z'], hint: seq!['Z'] },
        KeyView { drow: 4, dcol: 1, row: 1, col: 6, label: seq!['X'], hint: seq!['X'] },
        KeyView { drow: 4, dcol: 2, row: 2, col: 6, label: seq!['C'], hint: seq!['C'] },
        KeyView { drow: 4, dcol: 3, row: 3, col: 6, label: seq!['V'], hint: seq!['V'] },
        KeyView { drow: 4, dcol: 4, row: 4, col: 6, label: seq!['B', '/', '1'], hint: seq!['B'] },
        KeyView { drow: 4, dcol: 5, row: 5, col: 6, label: seq!['N', '/', '2'], hint: seq!['N'] },
        KeyView { drow: 4, dcol: 6, row: 6, col: 6, label: seq!['M', '/', '3'], hint: seq!['M'] },
        KeyView { drow: 4, dcol: 7, row: 7, col: 6, label: seq!['P', 'G', 'U', 'P'], hint: seq!['P', 'G', 'U', 'P'] },
        KeyView { drow: 4, dcol: 8, row: 2, col: 3, label: seq!['U', 'P'], hint: seq!['U', 'P'] },
        KeyView { drow: 4, dcol: 9, row: 6, col: 3, label: seq!['P', 'G', 'D', 'N'], hint: seq!['P', 'G', 'D', 'N'] },
        KeyView { drow: 5, dcol: 0, row: 0, col: 7, label: seq!['H', 'E', 'L', 'P'], hint: Seq::<char>::empty() },
        KeyView { drow: 5, dcol: 1, row: 1, col: 7, label: seq!['S', 'H', 'I', 'F', 'T'], hint: Seq::<char>::empty() },
        KeyView { drow: 5, dcol: 2, row: 2, col: 7, label: seq!['I', 'M', 'E'], hint: Seq::<char>::empty() },
        KeyView { drow: 5, dcol: 3, row: 3, col: 7, label: seq!['E', 'S', 'C'], hint: seq!['E', 'S', 'C'] },
        KeyView { drow: 5, dcol: 4, row: 4, col: 7, label: seq!['0'], hint: seq!['0'] },
        KeyView { drow: 5, dcol: 5, row: 5, col: 7, label: seq!['D', 'O', 'T'], hint: seq!['.'] },
        KeyView { drow: 5, dcol: 6, row: 6, col: 7, label: seq!['S', 'P', 'C'], hint: seq!['S', 'P', 'C'] },
        KeyView { drow: 5, dcol: 7, row: 7, col: 7, label: seq!['L', 'T'], hint: seq!['L', 'T'] },
        KeyView { drow: 5, dcol: 8, row: 3, col: 3, label: seq!['D', 'N'], hint: seq!['D', 'N'] },
        KeyView { drow: 5, dcol: 9, row: 7, col: 3, label: seq!['R', 'T'], hint: seq!['R', 'T'] },
    ]
}

/// The NC1020 keypad as key definitions.
#[verifier::rlimit(100)]
pub fn layout_nc1020() -> (r: Vec<KeyDef>)
    ensures
        key_views(r@) == layout_nc1020_spec(),
{
    proof {
        reveal_strlit("");
        reveal_strlit(".");
        reveal_strlit("0");
        reveal_strlit("A");
        reveal_strlit("B");
        reveal_strlit("B/1");
        reveal_strlit("C");
        reveal_strlit("CALC");
        reveal_strlit("CARD");
        reveal_strlit("D");
        reveal_strlit("DATA");
        reveal_strlit("DEL");
        reveal_strlit("DICT");
        reveal_strlit("DN");
        reveal_strlit("DOT");
        reveal_strlit("E");
        reveal_strlit("ENT");
        reveal_strlit("ESC");
        reveal_strlit("F");
        reveal_strlit("F1");
        reveal_strlit("F10");
        reveal_strlit("F11");
        reveal_strlit("F2");
        reveal_strlit("F3");
        reveal_strlit("F4");
        reveal_strlit("F5");
        reveal_strlit("F6");
        reveal_strlit("F7");
        reveal_strlit("F8");
        reveal_strlit("F9");
        reveal_strlit("G");
        reveal_strlit("G/4");
        reveal_strlit("H");
        reveal_strlit("H/5");
        reveal_strlit("HELP");
        reveal_strlit("I");
        reveal_strlit("IME");
        reveal_strlit("J");
        reveal_strlit("J/6");
        reveal_strlit("K");
        reveal_strlit("L");
        reveal_strlit("LT");
        reveal_strlit("M");
        reveal_strlit("M/3");
        reveal_strlit("MEMO");
        reveal_strlit("N");
        reveal_strlit("N/2");
        reveal_strlit("NET");
        reveal_strlit("O");
        reveal_strlit("ON");
        reveal_strlit("P");
        reveal_strlit("PGDN");
        reveal_strlit("PGUP");
        reveal_strlit("Q");
        reveal_strlit("R");
        reveal_strlit("RT");
        reveal_strlit("S");
        reveal_strlit("SHIFT");
        reveal_strlit("SPC");
        reveal_strlit("T");
        reveal_strlit("T/7");
        reveal_strlit("TIME");
        reveal_strlit("U");
        reveal_strlit("U/9");
        reveal_strlit("UP");
        reveal_strlit("V");
        reveal_strlit("W");
        reveal_strlit("X");
        reveal_strlit("Y");
        reveal_strlit("Y/8");
        reveal_strlit("Z");
    }
    let keys = vec![
        nc1020_key(0, 0, 0x0B, "DICT", "F5"),
        nc1020_key(0, 1, 0x0C, "CARD", "F6"),
        nc1020_key(0, 2, 0x0D, "CALC", "F7"),
        nc1020_key(0, 3, 0x0A, "MEMO", "F8"),
        nc1020_key(0, 4, 0x09, "DATA", "F9"),
        nc1020_key(0, 5, 0x08, "TIME", "F10"),
        nc1020_key(0, 6, 0x0E, "NET", "F11"),
        nc1020_key(1, 2, 0x10, "F1", "F1"),
        nc1020_key(1, 3, 0x11, "F2", "F2"),
        nc1020_key(1, 4, 0x12, "F3", "F3"),
        nc1020_key(1, 5, 0x13, "F4", "F4"),
        nc1020_key(1, 8, 0x0F, "ON", "DEL"),
        nc1020_key(2, 0, 0x20, "Q", "Q"),
        nc1020_key(2, 1, 0x21, "W", "W"),
        nc1020_key(2, 2, 0x22, "E", "E"),
        nc1020_key(2, 3, 0x23, "R", "R"),
        nc1020_key(2, 4, 0x24, "T/7", "T"),
        nc1020_key(2, 5, 0x25, "Y/8", "Y"),
        nc1020_key(2, 6, 0x26, "U/9", "U"),
        nc1020_key(2, 7, 0x27, "I", "I"),
        nc1020_key(2, 8, 0x18, "O", "O"),
        nc1020_key(2, 9, 0x1C, "P", "P"),
        nc1020_key(3, 0, 0x28, "A", "A"),
        nc1020_key(3, 1, 0x29, "S", "S"),
        nc1020_key(3, 2, 0x2A, "D", "D"),
        nc1020_key(3, 3, 0x2B, "F", "F"),
        nc1020_key(3, 4, 0x2C, "G/4", "G"),
        nc1020_key(3, 5, 0x2D, "H/5", "H"),
        nc1020_key(3, 6, 0x2E, "J/6", "J"),
        nc1020_key(3, 7, 0x2F, "K", "K"),
        nc1020_key(3, 8, 0x19, "L", "L"),
        nc1020_key(3, 9, 0x1D, "ENT", "ENT"),
        nc1020_key(4, 0, 0x30, "Z", "Z"),
        nc1020_key(4, 1, 0x31, "X", "X"),
        nc1020_key(4, 2, 0x32, "C", "C"),
        nc1020_key(4, 3, 0x33, "V", "V"),
        nc1020_key(4, 4, 0x34, "B/1", "B"),
        nc1020_key(4, 5, 0x35, "N/2", "N"),
        nc1020_key(4, 6, 0x36, "M/3", "M"),
        nc1020_key(4, 7, 0x37, "PGUP", "PGUP"),
        nc1020_key(4, 8, 0x1A, "UP", "UP"),
        nc1020_key(4, 9, 0x1E, "PGDN", "PGDN"),
        nc1020_key(5, 0, 0x38, "HELP", ""),
        nc1020_key(5, 1, 0x39, "SHIFT", ""),
        nc1020_key(5, 2, 0x3A, "IME", ""),
        nc1020_key(5, 3, 0x3B, "ESC", "ESC"),
        nc1020_key(5, 4, 0x3C, "0", "0"),
        nc1020_key(5, 5, 0x3D, "DOT", "."),
        nc1020_key(5, 6, 0x3E, "SPC", "SPC"),
        nc1020_key(5, 7, 0x3F, "LT", "LT"),
        nc1020_key(5, 8, 0x1B, "DN", "DN"),
        nc1020_key(5, 9, 0x1F, "RT", "RT"),
    ];
    assert(key_views(keys@) =~~= layout_nc1020_spec());
    keys
}

} // verus!
