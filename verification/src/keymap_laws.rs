//! Laws of the keypad layouts and of how PC keys resolve on them: every
//! layout stays inside the matrix with one key per position, and each PC key
//! that the keyboard guide lists operates the key carrying its legend.

use vstd::prelude::*;
use crate::frontend_keys::{
    MINIFB_KEY_BACKSLASH, MINIFB_KEY_COMMA, MINIFB_KEY_EQUAL, MINIFB_KEY_LEFT_BRACKET, MINIFB_KEY_PAGE_DOWN,
    MINIFB_KEY_PAGE_UP, MINIFB_KEY_PERIOD, MINIFB_KEY_RIGHT_BRACKET, MINIFB_KEY_SLASH, MINIFB_KEY_SPACE, minifb_key,
};
use crate::keyboard::{
    HostKey, KeyView, first_match_from, fixed_alias, host_key_id, is_function_part, key_id_spec, key_matches, key_parts,
    lemma_first_match_from, lemma_key_id_arith, lemma_letters_ignore_case, lemma_punctuation_aliases, layout_spec,
};
use crate::layouts::{layout_nc1020_spec, layout_nc2000_spec, layout_nc3000_spec, layout_pc1000_spec};
use crate::legend::{digits_value, has_part, lemma_split_parts_pair, lemma_split_parts_single};
use crate::machine::{MachineModel, ascii_lower, ascii_upper};
use crate::skin_style::numeric_legend_spec;

verus! {

/// The matrix key ID of key `i` of a model's layout.
pub open spec fn layout_key_id(model: MachineModel, i: int) -> u8 {
    key_id_spec(model, layout_spec(model)[i].row, layout_spec(model)[i].col)
}

/// `h` operates the layout key whose first legend part is `a`.
pub open spec fn operates_key_labelled(model: MachineModel, h: HostKey, a: Seq<char>) -> bool {
    exists|i: int|
        0 <= i < layout_spec(model).len() && key_parts(layout_spec(model)[i])[0] == a && host_key_id(model, h) == Some(
            #[trigger] layout_key_id(model, i),
        )
}

/// `h` operates the layout key that carries the legend part `a`.
pub open spec fn operates_key_carrying(model: MachineModel, h: HostKey, a: Seq<char>) -> bool {
    exists|i: int|
        0 <= i < layout_spec(model).len() && has_part(key_parts(layout_spec(model)[i]), a) && host_key_id(model, h)
            == Some(#[trigger] layout_key_id(model, i))
}

/// The matrix key a window key operates: that of the host key it stands for.
pub open spec fn window_key_id(model: MachineModel, code: u8) -> Option<u8> {
    match minifb_key(code) {
        Some(h) => host_key_id(model, h),
        None => None,
    }
}

/// The digit that shares a key with a letter, for 1 to 9.
pub open spec fn digit_letter(d: u8) -> char {
    if d == 1 {
        'B'
    } else if d == 2 {
        'N'
    } else if d == 3 {
        'M'
    } else if d == 4 {
        'G'
    } else if d == 5 {
        'H'
    } else if d == 6 {
        'J'
    } else if d == 7 {
        'T'
    } else if d == 8 {
        'Y'
    } else {
        'U'
    }
}

/// A host key that matches key `j` of the layout and no other key operates key `j`.
proof fn lemma_unique_match(model: MachineModel, h: HostKey, j: int)
    requires
        0 <= j < layout_spec(model).len(),
        key_matches(model, h, layout_spec(model)[j]),
        forall|i: int|
            0 <= i < layout_spec(model).len() && key_matches(model, h, #[trigger] layout_spec(model)[i]) ==> i == j,
    ensures
        host_key_id(model, h) == Some(layout_key_id(model, j)),
{
    let keys = layout_spec(model);
    lemma_first_match_from(keys, model, h, 0);
    match first_match_from(keys, model, h, 0) {
        Some(m) => {
            assert(key_matches(model, h, keys[m]));
        },
        None => {
            assert(!key_matches(model, h, keys[j]));
        },
    }
}

/// The legend parts of each NC1020 key, in layout order.
pub open spec fn nc1020_parts() -> Seq<Seq<Seq<char>>> {
    seq![
        seq![seq!['D', 'I', 'C', 'T'], seq!['F', '5']],
        seq![seq!['C', 'A', 'R', 'D'], seq!['F', '6']],
        seq![seq!['C', 'A', 'L', 'C'], seq!['F', '7']],
        seq![seq!['M', 'E', 'M', 'O'], seq!['F', '8']],
        seq![seq!['D', 'A', 'T', 'A'], seq!['F', '9']],
        seq![seq!['T', 'I', 'M', 'E'], seq!['F', '1', '0']],
        seq![seq!['N', 'E', 'T'], seq!['F', '1', '1']],
        seq![seq!['F', '1'], seq!['F', '1']],
        seq![seq!['F', '2'], seq!['F', '2']],
        seq![seq!['F', '3'], seq!['F', '3']],
        seq![seq!['F', '4'], seq!['F', '4']],
        seq![seq!['O', 'N'], seq!['D', 'E', 'L']],
        seq![seq!['Q'], seq!['Q']],
        seq![seq!['W'], seq!['W']],
        seq![seq!['E'], seq!['E']],
        seq![seq!['R'], seq!['R']],
        seq![seq!['T'], seq!['7'], seq!['T']],
        seq![seq!['Y'], seq!['8'], seq!['Y']],
        seq![seq!['U'], seq!['9'], seq!['U']],
        seq![seq!['I'], seq!['I']],
        seq![seq!['O'], seq!['O']],
        seq![seq!['P'], seq!['P']],
        seq![seq!['A'], seq!['A']],
        seq![seq!['S'], seq!['S']],
        seq![seq!['D'], seq!['D']],
        seq![seq!['F'], seq!['F']],
        seq![seq!['G'], seq!['4'], seq!['G']],
        seq![seq!['H'], seq!['5'], seq!['H']],
        seq![seq!['J'], seq!['6'], seq!['J']],
        seq![seq!['K'], seq!['K']],
        seq![seq!['L'], seq!['L']],
        seq![seq!['E', 'N', 'T'], seq!['E', 'N', 'T']],
        seq![seq!['Z'], seq!['Z']],
        seq![seq!['X'], seq!['X']],
        seq![seq!['C'], seq!['C']],
        seq![seq!['V'], seq!['V']],
        seq![seq!['B'], seq!['1'], seq!['B']],
        seq![seq!['N'], seq!['2'], seq!['N']],
        seq![seq!['M'], seq!['3'], seq!['M']],
        seq![seq!['P', 'G', 'U', 'P'], seq!['P', 'G', 'U', 'P']],
        seq![seq!['U', 'P'], seq!['U', 'P']],
        seq![seq!['P', 'G', 'D', 'N'], seq!['P', 'G', 'D', 'N']],
        seq![seq!['H', 'E', 'L', 'P'], Seq::<char>::empty()],
        seq![seq!['S', 'H', 'I', 'F', 'T'], Seq::<char>::empty()],
        seq![seq!['I', 'M', 'E'], Seq::<char>::empty()],
        seq![seq!['E', 'S', 'C'], seq!['E', 'S', 'C']],
        seq![seq!['0'], seq!['0']],
        seq![seq!['D', 'O', 'T'], seq!['.']],
        seq![seq!['S', 'P', 'C'], seq!['S', 'P', 'C']],
        seq![seq!['L', 'T'], seq!['L', 'T']],
        seq![seq!['D', 'N'], seq!['D', 'N']],
        seq![seq!['R', 'T'], seq!['R', 'T']],
    ]
}

proof fn lemma_nc1020_parts()
    ensures
        forall|i: int| 0 <= i < layout_nc1020_spec().len() ==> key_parts(#[trigger] layout_nc1020_spec()[i]) == nc1020_parts()[i],
{
    let keys = layout_nc1020_spec();
    let table = nc1020_parts();
    assert forall|i: int| 0 <= i < keys.len() implies key_parts(#[trigger] keys[i]) == table[i] by {
        if i == 0 {
            lemma_split_parts_single(seq!['D', 'I', 'C', 'T']);
            lemma_split_parts_single(seq!['F', '5']);
            assert(key_parts(keys[i]) =~= table[i]);
        } else if i == 1 {
            lemma_split_parts_single(seq!['C', 'A', 'R', 'D']);
            lemma_split_parts_single(seq!['F', '6']);
            assert(key_parts(keys[i]) =~= table[i]);
        } else if i == 2 {
            lemma_split_parts_single(seq!['C', 'A', 'L', 'C']);
            lemma_split_parts_single(seq!['F', '7']);
            assert(key_parts(keys[i]) =~= table[i]);
        } else if i == 3 {
            lemma_split_parts_single(seq!['M', 'E', 'M', 'O']);
            lemma_split_parts_single(seq!['F', '8']);
            assert(key_parts(keys[i]) =~= table[i]);
        } else if i == 4 {
            lemma_split_parts_single(seq!['D', 'A', 'T', 'A']);
            lemma_split_parts_single(seq!['F', '9']);
            assert(key_parts(keys[i]) =~= table[i]);
        } else if i == 5 {
            lemma_split_parts_single(seq!['T', 'I', 'M', 'E']);
            lemma_split_parts_single(seq!['F', '1', '0']);
            assert(key_parts(keys[i]) =~= table[i]);
        } else if i == 6 {
            lemma_split_parts_single(seq!['N', 'E', 'T']);
            lemma_split_parts_single(seq!['F', '1', '1']);
            assert(key_parts(keys[i]) =~= table[i]);
        } else if i == 7 {
            lemma_split_parts_single(seq!['F', '1']);
            lemma_split_parts_single(seq!['F', '1']);
            assert(key_parts(keys[i]) =~= table[i]);
        } else if i == 8 {
            lemma_split_parts_single(seq!['F', '2']);
            lemma_split_parts_single(seq!['F', '2']);
            assert(key_parts(keys[i]) =~= table[i]);
        } else if i == 9 {
            lemma_split_parts_single(seq!['F', '3']);
            lemma_split_parts_single(seq!['F', '3']);
            assert(key_parts(keys[i]) =~= table[i]);
        } else if i == 10 {
            lemma_split_parts_single(seq!['F', '4']);
            lemma_split_parts_single(seq!['F', '4']);
            assert(key_parts(keys[i]) =~= table[i]);
        } else if i == 11 {
            lemma_split_parts_single(seq!['O', 'N']);
            lemma_split_parts_single(seq!['D', 'E', 'L']);
            assert(key_parts(keys[i]) =~= table[i]);
        } else if i == 12 {
            lemma_split_parts_single(seq!['Q']);
            lemma_split_parts_single(seq!['Q']);
            assert(key_parts(keys[i]) =~= table[i]);
        } else if i == 13 {
            lemma_split_parts_single(seq!['W']);
            lemma_split_parts_single(seq!['W']);
            assert(key_parts(keys[i]) =~= table[i]);
        } else if i == 14 {
            lemma_split_parts_single(seq!['E']);
            lemma_split_parts_single(seq!['E']);
            assert(key_parts(keys[i]) =~= table[i]);
        } else if i == 15 {
            lemma_split_parts_single(seq!['R']);
            lemma_split_parts_single(seq!['R']);
            assert(key_parts(keys[i]) =~= table[i]);
        } else if i == 16 {
            lemma_split_parts_pair(seq!['T'], seq!['7']);
            assert(seq!['T', '/', '7'] =~= seq!['T'] + seq!['/'] + seq!['7']);
            lemma_split_parts_single(seq!['T']);
            assert(key_parts(keys[i]) =~= table[i]);
        } else if i == 17 {
            lemma_split_parts_pair(seq!['Y'], seq!['8']);
            assert(seq!['Y', '/', '8'] =~= seq!['Y'] + seq!['/'] + seq!['8']);
            lemma_split_parts_single(seq!['Y']);
            assert(key_parts(keys[i]) =~= table[i]);
        } else if i == 18 {
            lemma_split_parts_pair(seq!['U'], seq!['9']);
            assert(seq!['U', '/', '9'] =~= seq!['U'] + seq!['/'] + seq!['9']);
            lemma_split_parts_single(seq!['U']);
            assert(key_parts(keys[i]) =~= table[i]);
        } else if i == 19 {
            lemma_split_parts_single(seq!['I']);
            lemma_split_parts_single(seq!['I']);
            assert(key_parts(keys[i]) =~= table[i]);
        } else if i == 20 {
            lemma_split_parts_single(seq!['O']);
            lemma_split_parts_single(seq!['O']);
            assert(key_parts(keys[i]) =~= table[i]);
        } else if i == 21 {
            lemma_split_parts_single(seq!['P']);
            lemma_split_parts_single(seq!['P']);
            assert(key_parts(keys[i]) =~= table[i]);
        } else if i == 22 {
            lemma_split_parts_single(seq!['A']);
            lemma_split_parts_single(seq!['A']);
            assert(key_parts(keys[i]) =~= table[i]);
        } else if i == 23 {
            lemma_split_parts_single(seq!['S']);
            lemma_split_parts_single(seq!['S']);
            assert(key_parts(keys[i]) =~= table[i]);
        } else if i == 24 {
            lemma_split_parts_single(seq!['D']);
            lemma_split_parts_single(seq!['D']);
            assert(key_parts(keys[i]) =~= table[i]);
        } else if i == 25 {
            lemma_split_parts_single(seq!['F']);
            lemma_split_parts_single(seq!['F']);
            assert(key_parts(keys[i]) =~= table[i]);
        } else if i == 26 {
            lemma_split_parts_pair(seq!['G'], seq!['4']);
            assert(seq!['G', '/', '4'] =~= seq!['G'] + seq!['/'] + seq!['4']);
            lemma_split_parts_single(seq!['G']);
            assert(key_parts(keys[i]) =~= table[i]);
        } else if i == 27 {
            lemma_split_parts_pair(seq!['H'], seq!['5']);
            assert(seq!['H', '/', '5'] =~= seq!['H'] + seq!['/'] + seq!['5']);
            lemma_split_parts_single(seq!['H']);
            assert(key_parts(keys[i]) =~= table[i]);
        } else if i == 28 {
            lemma_split_parts_pair(seq!['J'], seq!['6']);
            assert(seq!['J', '/', '6'] =~= seq!['J'] + seq!['/'] + seq!['6']);
            lemma_split_parts_single(seq!['J']);
            assert(key_parts(keys[i]) =~= table[i]);
        } else if i == 29 {
            lemma_split_parts_single(seq!['K']);
            lemma_split_parts_single(seq!['K']);
            assert(key_parts(keys[i]) =~= table[i]);
        } else if i == 30 {
            lemma_split_parts_single(seq!['L']);
            lemma_split_parts_single(seq!['L']);
            assert(key_parts(keys[i]) =~= table[i]);
        } else if i == 31 {
            lemma_split_parts_single(seq!['E', 'N', 'T']);
            lemma_split_parts_single(seq!['E', 'N', 'T']);
            assert(key_parts(keys[i]) =~= table[i]);
        } else if i == 32 {
            lemma_split_parts_single(seq!['Z']);
            lemma_split_parts_single(seq!['Z']);
            assert(key_parts(keys[i]) =~= table[i]);
        } else if i == 33 {
            lemma_split_parts_single(seq!['X']);
            lemma_split_parts_single(seq!['X']);
            assert(key_parts(keys[i]) =~= table[i]);
        } else if i == 34 {
            lemma_split_parts_single(seq!['C']);
            lemma_split_parts_single(seq!['C']);
            assert(key_parts(keys[i]) =~= table[i]);
        } else if i == 35 {
            lemma_split_parts_single(seq!['V']);
            lemma_split_parts_single(seq!['V']);
            assert(key_parts(keys[i]) =~= table[i]);
        } else if i == 36 {
            lemma_split_parts_pair(seq!['B'], seq!['1']);
            assert(seq!['B', '/', '1'] =~= seq!['B'] + seq!['/'] + seq!['1']);
            lemma_split_parts_single(seq!['B']);
            assert(key_parts(keys[i]) =~= table[i]);
        } else if i == 37 {
            lemma_split_parts_pair(seq!['N'], seq!['2']);
            assert(seq!['N', '/', '2'] =~= seq!['N'] + seq!['/'] + seq!['2']);
            lemma_split_parts_single(seq!['N']);
            assert(key_parts(keys[i]) =~= table[i]);
        } else if i == 38 {
            lemma_split_parts_pair(seq!['M'], seq!['3']);
            assert(seq!['M', '/', '3'] =~= seq!['M'] + seq!['/'] + seq!['3']);
            lemma_split_parts_single(seq!['M']);
            assert(key_parts(keys[i]) =~= table[i]);
        } else if i == 39 {
            lemma_split_parts_single(seq!['P', 'G', 'U', 'P']);
            lemma_split_parts_single(seq!['P', 'G', 'U', 'P']);
            assert(key_parts(keys[i]) =~= table[i]);
        } else if i == 40 {
            lemma_split_parts_single(seq!['U', 'P']);
            lemma_split_parts_single(seq!['U', 'P']);
            assert(key_parts(keys[i]) =~= table[i]);
        } else if i == 41 {
            lemma_split_parts_single(seq!['P', 'G', 'D', 'N']);
            lemma_split_parts_single(seq!['P', 'G', 'D', 'N']);
            assert(key_parts(keys[i]) =~= table[i]);
        } else if i == 42 {
            lemma_split_parts_single(seq!['H', 'E', 'L', 'P']);
            lemma_split_parts_single(Seq::<char>::empty());
            assert(key_parts(keys[i]) =~= table[i]);
        } else if i == 43 {
            lemma_split_parts_single(seq!['S', 'H', 'I', 'F', 'T']);
            lemma_split_parts_single(Seq::<char>::empty());
            assert(key_parts(keys[i]) =~= table[i]);
        } else if i == 44 {
            lemma_split_parts_single(seq!['I', 'M', 'E']);
            lemma_split_parts_single(Seq::<char>::empty());
            assert(key_parts(keys[i]) =~= table[i]);
        } else if i == 45 {
            lemma_split_parts_single(seq!['E', 'S', 'C']);
            lemma_split_parts_single(seq!['E', 'S', 'C']);
            assert(key_parts(keys[i]) =~= table[i]);
        } else if i == 46 {
            lemma_split_parts_single(seq!['0']);
            lemma_split_parts_single(seq!['0']);
            assert(key_parts(keys[i]) =~= table[i]);
        } else if i == 47 {
            lemma_split_parts_single(seq!['D', 'O', 'T']);
            lemma_split_parts_single(seq!['.']);
            assert(key_parts(keys[i]) =~= table[i]);
        } else if i == 48 {
            lemma_split_parts_single(seq!['S', 'P', 'C']);
            lemma_split_parts_single(seq!['S', 'P', 'C']);
            assert(key_parts(keys[i]) =~= table[i]);
        } else if i == 49 {
            lemma_split_parts_single(seq!['L', 'T']);
            lemma_split_parts_single(seq!['L', 'T']);
            assert(key_parts(keys[i]) =~= table[i]);
        } else if i == 50 {
            lemma_split_parts_single(seq!['D', 'N']);
            lemma_split_parts_single(seq!['D', 'N']);
            assert(key_parts(keys[i]) =~= table[i]);
        } else if i == 51 {
            lemma_split_parts_single(seq!['R', 'T']);
            lemma_split_parts_single(seq!['R', 'T']);
            assert(key_parts(keys[i]) =~= table[i]);
        }
    }
}

/// The index of the NC1020 key carrying a legend part, or -1.
pub open spec fn nc1020_owner(part: Seq<char>) -> int {
    if part.len() == 4 && part[0] == 'D' && part[1] == 'I' && part[2] == 'C' && part[3] == 'T' {
        0
    } else if part.len() == 2 && part[0] == 'F' && part[1] == '5' {
        0
    } else if part.len() == 4 && part[0] == 'C' && part[1] == 'A' && part[2] == 'R' && part[3] == 'D' {
        1
    } else if part.len() == 2 && part[0] == 'F' && part[1] == '6' {
        1
    } else if part.len() == 4 && part[0] == 'C' && part[1] == 'A' && part[2] == 'L' && part[3] == 'C' {
        2
    } else if part.len() == 2 && part[0] == 'F' && part[1] == '7' {
        2
    } else if part.len() == 4 && part[0] == 'M' && part[1] == 'E' && part[2] == 'M' && part[3] == 'O' {
        3
    } else if part.len() == 2 && part[0] == 'F' && part[1] == '8' {
        3
    } else if part.len() == 4 && part[0] == 'D' && part[1] == 'A' && part[2] == 'T' && part[3] == 'A' {
        4
    } else if part.len() == 2 && part[0] == 'F' && part[1] == '9' {
        4
    } else if part.len() == 4 && part[0] == 'T' && part[1] == 'I' && part[2] == 'M' && part[3] == 'E' {
        5
    } else if part.len() == 3 && part[0] == 'F' && part[1] == '1' && part[2] == '0' {
        5
    } else if part.len() == 3 && part[0] == 'N' && part[1] == 'E' && part[2] == 'T' {
        6
    } else if part.len() == 3 && part[0] == 'F' && part[1] == '1' && part[2] == '1' {
        6
    } else if part.len() == 2 && part[0] == 'F' && part[1] == '1' {
        7
    } else if part.len() == 2 && part[0] == 'F' && part[1] == '2' {
        8
    } else if part.len() == 2 && part[0] == 'F' && part[1] == '3' {
        9
    } else if part.len() == 2 && part[0] == 'F' && part[1] == '4' {
        10
    } else if part.len() == 2 && part[0] == 'O' && part[1] == 'N' {
        11
    } else if part.len() == 3 && part[0] == 'D' && part[1] == 'E' && part[2] == 'L' {
        11
    } else if part.len() == 1 && part[0] == 'Q' {
        12
    } else if part.len() == 1 && part[0] == 'W' {
        13
    } else if part.len() == 1 && part[0] == 'E' {
        14
    } else if part.len() == 1 && part[0] == 'R' {
        15
    } else if part.len() == 1 && part[0] == 'T' {
        16
    } else if part.len() == 1 && part[0] == '7' {
        16
    } else if part.len() == 1 && part[0] == 'Y' {
        17
    } else if part.len() == 1 && part[0] == '8' {
        17
    } else if part.len() == 1 && part[0] == 'U' {
        18
    } else if part.len() == 1 && part[0] == '9' {
        18
    } else if part.len() == 1 && part[0] == 'I' {
        19
    } else if part.len() == 1 && part[0] == 'O' {
        20
    } else if part.len() == 1 && part[0] == 'P' {
        21
    } else if part.len() == 1 && part[0] == 'A' {
        22
    } else if part.len() == 1 && part[0] == 'S' {
        23
    } else if part.len() == 1 && part[0] == 'D' {
        24
    } else if part.len() == 1 && part[0] == 'F' {
        25
    } else if part.len() == 1 && part[0] == 'G' {
        26
    } else if part.len() == 1 && part[0] == '4' {
        26
    } else if part.len() == 1 && part[0] == 'H' {
        27
    } else if part.len() == 1 && part[0] == '5' {
        27
    } else if part.len() == 1 && part[0] == 'J' {
        28
    } else if part.len() == 1 && part[0] == '6' {
        28
    } else if part.len() == 1 && part[0] == 'K' {
        29
    } else if part.len() == 1 && part[0] == 'L' {
        30
    } else if part.len() == 3 && part[0] == 'E' && part[1] == 'N' && part[2] == 'T' {
        31
    } else if part.len() == 1 && part[0] == 'Z' {
        32
    } else if part.len() == 1 && part[0] == 'X' {
        33
    } else if part.len() == 1 && part[0] == 'C' {
        34
    } else if part.len() == 1 && part[0] == 'V' {
        35
    } else if part.len() == 1 && part[0] == 'B' {
        36
    } else if part.len() == 1 && part[0] == '1' {
        36
    } else if part.len() == 1 && part[0] == 'N' {
        37
    } else if part.len() == 1 && part[0] == '2' {
        37
    } else if part.len() == 1 && part[0] == 'M' {
        38
    } else if part.len() == 1 && part[0] == '3' {
        38
    } else if part.len() == 4 && part[0] == 'P' && part[1] == 'G' && part[2] == 'U' && part[3] == 'P' {
        39
    } else if part.len() == 2 && part[0] == 'U' && part[1] == 'P' {
        40
    } else if part.len() == 4 && part[0] == 'P' && part[1] == 'G' && part[2] == 'D' && part[3] == 'N' {
        41
    } else if part.len() == 4 && part[0] == 'H' && part[1] == 'E' && part[2] == 'L' && part[3] == 'P' {
        42
    } else if part.len() == 5 && part[0] == 'S' && part[1] == 'H' && part[2] == 'I' && part[3] == 'F' && part[4] == 'T' {
        43
    } else if part.len() == 3 && part[0] == 'I' && part[1] == 'M' && part[2] == 'E' {
        44
    } else if part.len() == 3 && part[0] == 'E' && part[1] == 'S' && part[2] == 'C' {
        45
    } else if part.len() == 1 && part[0] == '0' {
        46
    } else if part.len() == 3 && part[0] == 'D' && part[1] == 'O' && part[2] == 'T' {
        47
    } else if part.len() == 1 && part[0] == '.' {
        47
    } else if part.len() == 3 && part[0] == 'S' && part[1] == 'P' && part[2] == 'C' {
        48
    } else if part.len() == 2 && part[0] == 'L' && part[1] == 'T' {
        49
    } else if part.len() == 2 && part[0] == 'D' && part[1] == 'N' {
        50
    } else if part.len() == 2 && part[0] == 'R' && part[1] == 'T' {
        51
    } else {
        -1
    }
}

proof fn lemma_nc1020_owner()
    ensures
        forall|i: int, k: int|
            0 <= i < nc1020_parts().len() && 0 <= k < nc1020_parts()[i].len() && (#[trigger] nc1020_parts()[i][k]).len() > 0 ==> nc1020_owner(nc1020_parts()[i][k]) == i,
{
    let table = nc1020_parts();
    assert forall|i: int, k: int| 0 <= i < table.len() && 0 <= k < table[i].len() && (#[trigger] table[i][k]).len() > 0 implies nc1020_owner(table[i][k]) == i by {
        if i == 0 {
            assert(nc1020_owner(seq!['D', 'I', 'C', 'T']) == 0);
            assert(nc1020_owner(seq!['F', '5']) == 0);
        } else if i == 1 {
            assert(nc1020_owner(seq!['C', 'A', 'R', 'D']) == 1);
            assert(nc1020_owner(seq!['F', '6']) == 1);
        } else if i == 2 {
            assert(nc1020_owner(seq!['C', 'A', 'L', 'C']) == 2);
            assert(nc1020_owner(seq!['F', '7']) == 2);
        } else if i == 3 {
            assert(nc1020_owner(seq!['M', 'E', 'M', 'O']) == 3);
            assert(nc1020_owner(seq!['F', '8']) == 3);
        } else if i == 4 {
            assert(nc1020_owner(seq!['D', 'A', 'T', 'A']) == 4);
            assert(nc1020_owner(seq!['F', '9']) == 4);
        } else if i == 5 {
            assert(nc1020_owner(seq!['T', 'I', 'M', 'E']) == 5);
            assert(nc1020_owner(seq!['F', '1', '0']) == 5);
        } else if i == 6 {
            assert(nc1020_owner(seq!['N', 'E', 'T']) == 6);
            assert(nc1020_owner(seq!['F', '1', '1']) == 6);
        } else if i == 7 {
            assert(nc1020_owner(seq!['F', '1']) == 7);
            assert(nc1020_owner(seq!['F', '1']) == 7);
        } else if i == 8 {
            assert(nc1020_owner(seq!['F', '2']) == 8);
            assert(nc1020_owner(seq!['F', '2']) == 8);
        } else if i == 9 {
            assert(nc1020_owner(seq!['F', '3']) == 9);
            assert(nc1020_owner(seq!['F', '3']) == 9);
        } else if i == 10 {
            assert(nc1020_owner(seq!['F', '4']) == 10);
            assert(nc1020_owner(seq!['F', '4']) == 10);
        } else if i == 11 {
            assert(nc1020_owner(seq!['O', 'N']) == 11);
            assert(nc1020_owner(seq!['D', 'E', 'L']) == 11);
        } else if i == 12 {
            assert(nc1020_owner(seq!['Q']) == 12);
            assert(nc1020_owner(seq!['Q']) == 12);
        } else if i == 13 {
            assert(nc1020_owner(seq!['W']) == 13);
            assert(nc1020_owner(seq!['W']) == 13);
        } else if i == 14 {
            assert(nc1020_owner(seq!['E']) == 14);
            assert(nc1020_owner(seq!['E']) == 14);
        } else if i == 15 {
            assert(nc1020_owner(seq!['R']) == 15);
            assert(nc1020_owner(seq!['R']) == 15);
        } else if i == 16 {
            assert(nc1020_owner(seq!['T']) == 16);
            assert(nc1020_owner(seq!['7']) == 16);
            assert(nc1020_owner(seq!['T']) == 16);
        } else if i == 17 {
            assert(nc1020_owner(seq!['Y']) == 17);
            assert(nc1020_owner(seq!['8']) == 17);
            assert(nc1020_owner(seq!['Y']) == 17);
        } else if i == 18 {
            assert(nc1020_owner(seq!['U']) == 18);
            assert(nc1020_owner(seq!['9']) == 18);
            assert(nc1020_owner(seq!['U']) == 18);
        } else if i == 19 {
            assert(nc1020_owner(seq!['I']) == 19);
            assert(nc1020_owner(seq!['I']) == 19);
        } else if i == 20 {
            assert(nc1020_owner(seq!['O']) == 20);
            assert(nc1020_owner(seq!['O']) == 20);
        } else if i == 21 {
            assert(nc1020_owner(seq!['P']) == 21);
            assert(nc1020_owner(seq!['P']) == 21);
        } else if i == 22 {
            assert(nc1020_owner(seq!['A']) == 22);
            assert(nc1020_owner(seq!['A']) == 22);
        } else if i == 23 {
            assert(nc1020_owner(seq!['S']) == 23);
            assert(nc1020_owner(seq!['S']) == 23);
        } else if i == 24 {
            assert(nc1020_owner(seq!['D']) == 24);
            assert(nc1020_owner(seq!['D']) == 24);
        } else if i == 25 {
            assert(nc1020_owner(seq!['F']) == 25);
            assert(nc1020_owner(seq!['F']) == 25);
        } else if i == 26 {
            assert(nc1020_owner(seq!['G']) == 26);
            assert(nc1020_owner(seq!['4']) == 26);
            assert(nc1020_owner(seq!['G']) == 26);
        } else if i == 27 {
            assert(nc1020_owner(seq!['H']) == 27);
            assert(nc1020_owner(seq!['5']) == 27);
            assert(nc1020_owner(seq!['H']) == 27);
        } else if i == 28 {
            assert(nc1020_owner(seq!['J']) == 28);
            assert(nc1020_owner(seq!['6']) == 28);
            assert(nc1020_owner(seq!['J']) == 28);
        } else if i == 29 {
            assert(nc1020_owner(seq!['K']) == 29);
            assert(nc1020_owner(seq!['K']) == 29);
        } else if i == 30 {
            assert(nc1020_owner(seq!['L']) == 30);
            assert(nc1020_owner(seq!['L']) == 30);
        } else if i == 31 {
            assert(nc1020_owner(seq!['E', 'N', 'T']) == 31);
            assert(nc1020_owner(seq!['E', 'N', 'T']) == 31);
        } else if i == 32 {
            assert(nc1020_owner(seq!['Z']) == 32);
            assert(nc1020_owner(seq!['Z']) == 32);
        } else if i == 33 {
            assert(nc1020_owner(seq!['X']) == 33);
            assert(nc1020_owner(seq!['X']) == 33);
        } else if i == 34 {
            assert(nc1020_owner(seq!['C']) == 34);
            assert(nc1020_owner(seq!['C']) == 34);
        } else if i == 35 {
            assert(nc1020_owner(seq!['V']) == 35);
            assert(nc1020_owner(seq!['V']) == 35);
        } else if i == 36 {
            assert(nc1020_owner(seq!['B']) == 36);
            assert(nc1020_owner(seq!['1']) == 36);
            assert(nc1020_owner(seq!['B']) == 36);
        } else if i == 37 {
            assert(nc1020_owner(seq!['N']) == 37);
            assert(nc1020_owner(seq!['2']) == 37);
            assert(nc1020_owner(seq!['N']) == 37);
        } else if i == 38 {
            assert(nc1020_owner(seq!['M']) == 38);
            assert(nc1020_owner(seq!['3']) == 38);
            assert(nc1020_owner(seq!['M']) == 38);
        } else if i == 39 {
            assert(nc1020_owner(seq!['P', 'G', 'U', 'P']) == 39);
            assert(nc1020_owner(seq!['P', 'G', 'U', 'P']) == 39);
        } else if i == 40 {
            assert(nc1020_owner(seq!['U', 'P']) == 40);
            assert(nc1020_owner(seq!['U', 'P']) == 40);
        } else if i == 41 {
            assert(nc1020_owner(seq!['P', 'G', 'D', 'N']) == 41);
            assert(nc1020_owner(seq!['P', 'G', 'D', 'N']) == 41);
        } else if i == 42 {
            assert(nc1020_owner(seq!['H', 'E', 'L', 'P']) == 42);
        } else if i == 43 {
            assert(nc1020_owner(seq!['S', 'H', 'I', 'F', 'T']) == 43);
        } else if i == 44 {
            assert(nc1020_owner(seq!['I', 'M', 'E']) == 44);
        } else if i == 45 {
            assert(nc1020_owner(seq!['E', 'S', 'C']) == 45);
            assert(nc1020_owner(seq!['E', 'S', 'C']) == 45);
        } else if i == 46 {
            assert(nc1020_owner(seq!['0']) == 46);
            assert(nc1020_owner(seq!['0']) == 46);
        } else if i == 47 {
            assert(nc1020_owner(seq!['D', 'O', 'T']) == 47);
            assert(nc1020_owner(seq!['.']) == 47);
        } else if i == 48 {
            assert(nc1020_owner(seq!['S', 'P', 'C']) == 48);
            assert(nc1020_owner(seq!['S', 'P', 'C']) == 48);
        } else if i == 49 {
            assert(nc1020_owner(seq!['L', 'T']) == 49);
            assert(nc1020_owner(seq!['L', 'T']) == 49);
        } else if i == 50 {
            assert(nc1020_owner(seq!['D', 'N']) == 50);
            assert(nc1020_owner(seq!['D', 'N']) == 50);
        } else if i == 51 {
            assert(nc1020_owner(seq!['R', 'T']) == 51);
            assert(nc1020_owner(seq!['R', 'T']) == 51);
        }
    }
}

proof fn lemma_nc1020_function_two()
    ensures
        forall|i: int, k: int|
            0 <= i < nc1020_parts().len() && 0 <= k < nc1020_parts()[i].len() && is_function_part(#[trigger] nc1020_parts()[i][k], 2) ==> i == 8,
        is_function_part(nc1020_parts()[8][0], 2),
{
    let table = nc1020_parts();
    assert(seq!['F', '2'].drop_first() =~= seq!['2']);
    assert(digits_value(Seq::<char>::empty()) == 0);
    assert(seq!['2'].drop_last() =~= Seq::<char>::empty());
    assert(digits_value(seq!['2']) == 2);
    assert forall|i: int, k: int| 0 <= i < table.len() && 0 <= k < table[i].len() && is_function_part(#[trigger] table[i][k], 2) implies i == 8 by {
        if i == 0 {
            assert(seq!['F', '5'].drop_first() =~= seq!['5']);
            assert(digits_value(Seq::<char>::empty()) == 0);
            assert(seq!['5'].drop_last() =~= Seq::<char>::empty());
            assert(digits_value(seq!['5']) == 5);
        } else if i == 1 {
            assert(seq!['F', '6'].drop_first() =~= seq!['6']);
            assert(digits_value(Seq::<char>::empty()) == 0);
            assert(seq!['6'].drop_last() =~= Seq::<char>::empty());
            assert(digits_value(seq!['6']) == 6);
        } else if i == 2 {
            assert(seq!['F', '7'].drop_first() =~= seq!['7']);
            assert(digits_value(Seq::<char>::empty()) == 0);
            assert(seq!['7'].drop_last() =~= Seq::<char>::empty());
            assert(digits_value(seq!['7']) == 7);
        } else if i == 3 {
            assert(seq!['F', '8'].drop_first() =~= seq!['8']);
            assert(digits_value(Seq::<char>::empty()) == 0);
            assert(seq!['8'].drop_last() =~= Seq::<char>::empty());
            assert(digits_value(seq!['8']) == 8);
        } else if i == 4 {
            assert(seq!['F', '9'].drop_first() =~= seq!['9']);
            assert(digits_value(Seq::<char>::empty()) == 0);
            assert(seq!['9'].drop_last() =~= Seq::<char>::empty());
            assert(digits_value(seq!['9']) == 9);
        } else if i == 5 {
            assert(seq!['F', '1', '0'].drop_first() =~= seq!['1', '0']);
            assert(digits_value(Seq::<char>::empty()) == 0);
            assert(seq!['1'].drop_last() =~= Seq::<char>::empty());
            assert(digits_value(seq!['1']) == 1);
            assert(seq!['1', '0'].drop_last() =~= seq!['1']);
            assert(digits_value(seq!['1', '0']) == 10);
        } else if i == 6 {
            assert(seq!['F', '1', '1'].drop_first() =~= seq!['1', '1']);
            assert(digits_value(Seq::<char>::empty()) == 0);
            assert(seq!['1'].drop_last() =~= Seq::<char>::empty());
            assert(digits_value(seq!['1']) == 1);
            assert(seq!['1', '1'].drop_last() =~= seq!['1']);
            assert(digits_value(seq!['1', '1']) == 11);
        } else if i == 7 {
            assert(seq!['F', '1'].drop_first() =~= seq!['1']);
            assert(digits_value(Seq::<char>::empty()) == 0);
            assert(seq!['1'].drop_last() =~= Seq::<char>::empty());
            assert(digits_value(seq!['1']) == 1);
            assert(seq!['F', '1'].drop_first() =~= seq!['1']);
            assert(digits_value(Seq::<char>::empty()) == 0);
            assert(seq!['1'].drop_last() =~= Seq::<char>::empty());
            assert(digits_value(seq!['1']) == 1);
        } else if i == 8 {
            assert(seq!['F', '2'].drop_first() =~= seq!['2']);
            assert(digits_value(Seq::<char>::empty()) == 0);
            assert(seq!['2'].drop_last() =~= Seq::<char>::empty());
            assert(digits_value(seq!['2']) == 2);
            assert(seq!['F', '2'].drop_first() =~= seq!['2']);
            assert(digits_value(Seq::<char>::empty()) == 0);
            assert(seq!['2'].drop_last() =~= Seq::<char>::empty());
            assert(digits_value(seq!['2']) == 2);
        } else if i == 9 {
            assert(seq!['F', '3'].drop_first() =~= seq!['3']);
            assert(digits_value(Seq::<char>::empty()) == 0);
            assert(seq!['3'].drop_last() =~= Seq::<char>::empty());
            assert(digits_value(seq!['3']) == 3);
            assert(seq!['F', '3'].drop_first() =~= seq!['3']);
            assert(digits_value(Seq::<char>::empty()) == 0);
            assert(seq!['3'].drop_last() =~= Seq::<char>::empty());
            assert(digits_value(seq!['3']) == 3);
        } else if i == 10 {
            assert(seq!['F', '4'].drop_first() =~= seq!['4']);
            assert(digits_value(Seq::<char>::empty()) == 0);
            assert(seq!['4'].drop_last() =~= Seq::<char>::empty());
            assert(digits_value(seq!['4']) == 4);
            assert(seq!['F', '4'].drop_first() =~= seq!['4']);
            assert(digits_value(Seq::<char>::empty()) == 0);
            assert(seq!['4'].drop_last() =~= Seq::<char>::empty());
            assert(digits_value(seq!['4']) == 4);
        } else if i == 11 {
        } else if i == 12 {
        } else if i == 13 {
        } else if i == 14 {
        } else if i == 15 {
        } else if i == 16 {
        } else if i == 17 {
        } else if i == 18 {
        } else if i == 19 {
        } else if i == 20 {
        } else if i == 21 {
        } else if i == 22 {
        } else if i == 23 {
        } else if i == 24 {
        } else if i == 25 {
            assert(seq!['F'].drop_first() =~= Seq::<char>::empty());
            assert(seq!['F'].drop_first() =~= Seq::<char>::empty());
        } else if i == 26 {
        } else if i == 27 {
        } else if i == 28 {
        } else if i == 29 {
        } else if i == 30 {
        } else if i == 31 {
        } else if i == 32 {
        } else if i == 33 {
        } else if i == 34 {
        } else if i == 35 {
        } else if i == 36 {
        } else if i == 37 {
        } else if i == 38 {
        } else if i == 39 {
        } else if i == 40 {
        } else if i == 41 {
        } else if i == 42 {
        } else if i == 43 {
        } else if i == 44 {
        } else if i == 45 {
        } else if i == 46 {
        } else if i == 47 {
        } else if i == 48 {
        } else if i == 49 {
        } else if i == 50 {
        } else if i == 51 {
        }
    }
}

proof fn lemma_nc1020_alias(model: MachineModel, h: HostKey, a: Seq<char>, j: int, k0: int)
    requires
        layout_spec(model) == layout_nc1020_spec(),
        0 <= j < nc1020_parts().len(),
        0 <= k0 < nc1020_parts()[j].len(),
        nc1020_parts()[j][k0] == a,
        a.len() > 0,
        forall|kv: KeyView| #[trigger] key_matches(model, h, kv) == has_part(key_parts(kv), a),
    ensures
        host_key_id(model, h) == Some(layout_key_id(model, j)),
        key_parts(layout_spec(model)[j]) == nc1020_parts()[j],
{
    lemma_nc1020_parts();
    lemma_nc1020_owner();
    let keys = layout_spec(model);
    assert(keys.len() == nc1020_parts().len());
    assert(key_parts(keys[j]) == nc1020_parts()[j]);
    assert(key_parts(keys[j])[k0] == a);
    assert(key_matches(model, h, keys[j]));
    assert(nc1020_owner(a) == j);
    assert forall|i: int| 0 <= i < keys.len() && key_matches(model, h, #[trigger] keys[i]) implies i == j by {
        assert(key_parts(keys[i]) == nc1020_parts()[i]);
        let k = choose|k: int| 0 <= k < key_parts(keys[i]).len() && key_parts(keys[i])[k] == a;
        assert(nc1020_parts()[i][k] == a);
    }
    lemma_unique_match(model, h, j);
}

proof fn lemma_nc1020_function_key_two(model: MachineModel)
    requires
        layout_spec(model) == layout_nc1020_spec(),
    ensures
        host_key_id(model, HostKey::Function(2)) == Some(layout_key_id(model, 8)),
{
    lemma_nc1020_parts();
    lemma_nc1020_function_two();
    let keys = layout_spec(model);
    let h = HostKey::Function(2);
    assert(keys.len() == nc1020_parts().len());
    assert(key_parts(keys[8]) == nc1020_parts()[8]);
    assert(is_function_part(key_parts(keys[8])[0], 2));
    assert(key_matches(model, h, keys[8]));
    assert forall|i: int| 0 <= i < keys.len() && key_matches(model, h, #[trigger] keys[i]) implies i == 8 by {
        assert(key_parts(keys[i]) == nc1020_parts()[i]);
        let k = choose|k: int| 0 <= k < key_parts(keys[i]).len() && is_function_part(#[trigger] key_parts(keys[i])[k], 2);
        assert(is_function_part(nc1020_parts()[i][k], 2));
    }
    lemma_unique_match(model, h, 8);
}

/// The index of the NC1020 key at a matrix position, or -1.
pub open spec fn nc1020_at(row: u8, col: u8) -> int {
    if row == 3 && col == 1 {
        0
    } else if row == 4 && col == 1 {
        1
    } else if row == 5 && col == 1 {
        2
    } else if row == 2 && col == 1 {
        3
    } else if row == 1 && col == 1 {
        4
    } else if row == 0 && col == 1 {
        5
    } else if row == 6 && col == 1 {
        6
    } else if row == 0 && col == 2 {
        7
    } else if row == 1 && col == 2 {
        8
    } else if row == 2 && col == 2 {
        9
    } else if row == 3 && col == 2 {
        10
    } else if row == 7 && col == 1 {
        11
    } else if row == 0 && col == 4 {
        12
    } else if row == 1 && col == 4 {
        13
    } else if row == 2 && col == 4 {
        14
    } else if row == 3 && col == 4 {
        15
    } else if row == 4 && col == 4 {
        16
    } else if row == 5 && col == 4 {
        17
    } else if row == 6 && col == 4 {
        18
    } else if row == 7 && col == 4 {
        19
    } else if row == 0 && col == 3 {
        20
    } else if row == 4 && col == 3 {
        21
    } else if row == 0 && col == 5 {
        22
    } else if row == 1 && col == 5 {
        23
    } else if row == 2 && col == 5 {
        24
    } else if row == 3 && col == 5 {
        25
    } else if row == 4 && col == 5 {
        26
    } else if row == 5 && col == 5 {
        27
    } else if row == 6 && col == 5 {
        28
    } else if row == 7 && col == 5 {
        29
    } else if row == 1 && col == 3 {
        30
    } else if row == 5 && col == 3 {
        31
    } else if row == 0 && col == 6 {
        32
    } else if row == 1 && col == 6 {
        33
    } else if row == 2 && col == 6 {
        34
    } else if row == 3 && col == 6 {
        35
    } else if row == 4 && col == 6 {
        36
    } else if row == 5 && col == 6 {
        37
    } else if row == 6 && col == 6 {
        38
    } else if row == 7 && col == 6 {
        39
    } else if row == 2 && col == 3 {
        40
    } else if row == 6 && col == 3 {
        41
    } else if row == 0 && col == 7 {
        42
    } else if row == 1 && col == 7 {
        43
    } else if row == 2 && col == 7 {
        44
    } else if row == 3 && col == 7 {
        45
    } else if row == 4 && col == 7 {
        46
    } else if row == 5 && col == 7 {
        47
    } else if row == 6 && col == 7 {
        48
    } else if row == 7 && col == 7 {
        49
    } else if row == 3 && col == 3 {
        50
    } else if row == 7 && col == 3 {
        51
    } else {
        -1
    }
}

/// The index of the NC1020 key at a display position, or -1.
pub open spec fn nc1020_placed(drow: u8, dcol: u8) -> int {
    if drow == 0 && dcol == 0 {
        0
    } else if drow == 0 && dcol == 1 {
        1
    } else if drow == 0 && dcol == 2 {
        2
    } else if drow == 0 && dcol == 3 {
        3
    } else if drow == 0 && dcol == 4 {
        4
    } else if drow == 0 && dcol == 5 {
        5
    } else if drow == 0 && dcol == 6 {
        6
    } else if drow == 1 && dcol == 2 {
        7
    } else if drow == 1 && dcol == 3 {
        8
    } else if drow == 1 && dcol == 4 {
        9
    } else if drow == 1 && dcol == 5 {
        10
    } else if drow == 1 && dcol == 8 {
        11
    } else if drow == 2 && dcol == 0 {
        12
    } else if drow == 2 && dcol == 1 {
        13
    } else if drow == 2 && dcol == 2 {
        14
    } else if drow == 2 && dcol == 3 {
        15
    } else if drow == 2 && dcol == 4 {
        16
    } else if drow == 2 && dcol == 5 {
        17
    } else if drow == 2 && dcol == 6 {
        18
    } else if drow == 2 && dcol == 7 {
        19
    } else if drow == 2 && dcol == 8 {
        20
    } else if drow == 2 && dcol == 9 {
        21
    } else if drow == 3 && dcol == 0 {
        22
    } else if drow == 3 && dcol == 1 {
        23
    } else if drow == 3 && dcol == 2 {
        24
    } else if drow == 3 && dcol == 3 {
        25
    } else if drow == 3 && dcol == 4 {
        26
    } else if drow == 3 && dcol == 5 {
        27
    } else if drow == 3 && dcol == 6 {
        28
    } else if drow == 3 && dcol == 7 {
        29
    } else if drow == 3 && dcol == 8 {
        30
    } else if drow == 3 && dcol == 9 {
        31
    } else if drow == 4 && dcol == 0 {
        32
    } else if drow == 4 && dcol == 1 {
        33
    } else if drow == 4 && dcol == 2 {
        34
    } else if drow == 4 && dcol == 3 {
        35
    } else if drow == 4 && dcol == 4 {
        36
    } else if drow == 4 && dcol == 5 {
        37
    } else if drow == 4 && dcol == 6 {
        38
    } else if drow == 4 && dcol == 7 {
        39
    } else if drow == 4 && dcol == 8 {
        40
    } else if drow == 4 && dcol == 9 {
        41
    } else if drow == 5 && dcol == 0 {
        42
    } else if drow == 5 && dcol == 1 {
        43
    } else if drow == 5 && dcol == 2 {
        44
    } else if drow == 5 && dcol == 3 {
        45
    } else if drow == 5 && dcol == 4 {
        46
    } else if drow == 5 && dcol == 5 {
        47
    } else if drow == 5 && dcol == 6 {
        48
    } else if drow == 5 && dcol == 7 {
        49
    } else if drow == 5 && dcol == 8 {
        50
    } else if drow == 5 && dcol == 9 {
        51
    } else {
        -1
    }
}

proof fn lemma_nc1020_shape()
    ensures
        layout_nc1020_spec().len() == 52,
        forall|i: int| 0 <= i < layout_nc1020_spec().len() ==> {
            let k = #[trigger] layout_nc1020_spec()[i];
            &&& k.drow < 6 && k.dcol < 10 && k.row < 8 && k.col < 8
            &&& nc1020_at(k.row, k.col) == i
            &&& nc1020_placed(k.drow, k.dcol) == i
        },
{
    let keys = layout_nc1020_spec();
    assert forall|i: int| 0 <= i < keys.len() implies {
        let k = #[trigger] keys[i];
        &&& k.drow < 6 && k.dcol < 10 && k.row < 8 && k.col < 8
        &&& nc1020_at(k.row, k.col) == i
        &&& nc1020_placed(k.drow, k.dcol) == i
    } by {
        if i == 0 {
            assert(nc1020_at(3, 1) == 0);
            assert(nc1020_placed(0, 0) == 0);
        } else if i == 1 {
            assert(nc1020_at(4, 1) == 1);
            assert(nc1020_placed(0, 1) == 1);
        } else if i == 2 {
            assert(nc1020_at(5, 1) == 2);
            assert(nc1020_placed(0, 2) == 2);
        } else if i == 3 {
            assert(nc1020_at(2, 1) == 3);
            assert(nc1020_placed(0, 3) == 3);
        } else if i == 4 {
            assert(nc1020_at(1, 1) == 4);
            assert(nc1020_placed(0, 4) == 4);
        } else if i == 5 {
            assert(nc1020_at(0, 1) == 5);
            assert(nc1020_placed(0, 5) == 5);
        } else if i == 6 {
            assert(nc1020_at(6, 1) == 6);
            assert(nc1020_placed(0, 6) == 6);
        } else if i == 7 {
            assert(nc1020_at(0, 2) == 7);
            assert(nc1020_placed(1, 2) == 7);
        } else if i == 8 {
            assert(nc1020_at(1, 2) == 8);
            assert(nc1020_placed(1, 3) == 8);
        } else if i == 9 {
            assert(nc1020_at(2, 2) == 9);
            assert(nc1020_placed(1, 4) == 9);
        } else if i == 10 {
            assert(nc1020_at(3, 2) == 10);
            assert(nc1020_placed(1, 5) == 10);
        } else if i == 11 {
            assert(nc1020_at(7, 1) == 11);
            assert(nc1020_placed(1, 8) == 11);
        } else if i == 12 {
            assert(nc1020_at(0, 4) == 12);
            assert(nc1020_placed(2, 0) == 12);
        } else if i == 13 {
            assert(nc1020_at(1, 4) == 13);
            assert(nc1020_placed(2, 1) == 13);
        } else if i == 14 {
            assert(nc1020_at(2, 4) == 14);
            assert(nc1020_placed(2, 2) == 14);
        } else if i == 15 {
            assert(nc1020_at(3, 4) == 15);
            assert(nc1020_placed(2, 3) == 15);
        } else if i == 16 {
            assert(nc1020_at(4, 4) == 16);
            assert(nc1020_placed(2, 4) == 16);
        } else if i == 17 {
            assert(nc1020_at(5, 4) == 17);
            assert(nc1020_placed(2, 5) == 17);
        } else if i == 18 {
            assert(nc1020_at(6, 4) == 18);
            assert(nc1020_placed(2, 6) == 18);
        } else if i == 19 {
            assert(nc1020_at(7, 4) == 19);
            assert(nc1020_placed(2, 7) == 19);
        } else if i == 20 {
            assert(nc1020_at(0, 3) == 20);
            assert(nc1020_placed(2, 8) == 20);
        } else if i == 21 {
            assert(nc1020_at(4, 3) == 21);
            assert(nc1020_placed(2, 9) == 21);
        } else if i == 22 {
            assert(nc1020_at(0, 5) == 22);
            assert(nc1020_placed(3, 0) == 22);
        } else if i == 23 {
            assert(nc1020_at(1, 5) == 23);
            assert(nc1020_placed(3, 1) == 23);
        } else if i == 24 {
            assert(nc1020_at(2, 5) == 24);
            assert(nc1020_placed(3, 2) == 24);
        } else if i == 25 {
            assert(nc1020_at(3, 5) == 25);
            assert(nc1020_placed(3, 3) == 25);
        } else if i == 26 {
            assert(nc1020_at(4, 5) == 26);
            assert(nc1020_placed(3, 4) == 26);
        } else if i == 27 {
            assert(nc1020_at(5, 5) == 27);
            assert(nc1020_placed(3, 5) == 27);
        } else if i == 28 {
            assert(nc1020_at(6, 5) == 28);
            assert(nc1020_placed(3, 6) == 28);
        } else if i == 29 {
            assert(nc1020_at(7, 5) == 29);
            assert(nc1020_placed(3, 7) == 29);
        } else if i == 30 {
            assert(nc1020_at(1, 3) == 30);
            assert(nc1020_placed(3, 8) == 30);
        } else if i == 31 {
            assert(nc1020_at(5, 3) == 31);
            assert(nc1020_placed(3, 9) == 31);
        } else if i == 32 {
            assert(nc1020_at(0, 6) == 32);
            assert(nc1020_placed(4, 0) == 32);
        } else if i == 33 {
            assert(nc1020_at(1, 6) == 33);
            assert(nc1020_placed(4, 1) == 33);
        } else if i == 34 {
            assert(nc1020_at(2, 6) == 34);
            assert(nc1020_placed(4, 2) == 34);
        } else if i == 35 {
            assert(nc1020_at(3, 6) == 35);
            assert(nc1020_placed(4, 3) == 35);
        } else if i == 36 {
            assert(nc1020_at(4, 6) == 36);
            assert(nc1020_placed(4, 4) == 36);
        } else if i == 37 {
            assert(nc1020_at(5, 6) == 37);
            assert(nc1020_placed(4, 5) == 37);
        } else if i == 38 {
            assert(nc1020_at(6, 6) == 38);
            assert(nc1020_placed(4, 6) == 38);
        } else if i == 39 {
            assert(nc1020_at(7, 6) == 39);
            assert(nc1020_placed(4, 7) == 39);
        } else if i == 40 {
            assert(nc1020_at(2, 3) == 40);
            assert(nc1020_placed(4, 8) == 40);
        } else if i == 41 {
            assert(nc1020_at(6, 3) == 41);
            assert(nc1020_placed(4, 9) == 41);
        } else if i == 42 {
            assert(nc1020_at(0, 7) == 42);
            assert(nc1020_placed(5, 0) == 42);
        } else if i == 43 {
            assert(nc1020_at(1, 7) == 43);
            assert(nc1020_placed(5, 1) == 43);
        } else if i == 44 {
            assert(nc1020_at(2, 7) == 44);
            assert(nc1020_placed(5, 2) == 44);
        } else if i == 45 {
            assert(nc1020_at(3, 7) == 45);
            assert(nc1020_placed(5, 3) == 45);
        } else if i == 46 {
            assert(nc1020_at(4, 7) == 46);
            assert(nc1020_placed(5, 4) == 46);
        } else if i == 47 {
            assert(nc1020_at(5, 7) == 47);
            assert(nc1020_placed(5, 5) == 47);
        } else if i == 48 {
            assert(nc1020_at(6, 7) == 48);
            assert(nc1020_placed(5, 6) == 48);
        } else if i == 49 {
            assert(nc1020_at(7, 7) == 49);
            assert(nc1020_placed(5, 7) == 49);
        } else if i == 50 {
            assert(nc1020_at(3, 3) == 50);
            assert(nc1020_placed(5, 8) == 50);
        } else if i == 51 {
            assert(nc1020_at(7, 3) == 51);
            assert(nc1020_placed(5, 9) == 51);
        }
    }
}

/// The legend parts of each NC2000 key, in layout order.
pub open spec fn nc2000_parts() -> Seq<Seq<Seq<char>>> {
    seq![
        seq![seq!['D', 'I', 'C', 'T'], seq!['F', '5']],
        seq![seq!['C', 'A', 'R', 'D'], seq!['F', '6']],
        seq![seq!['C', 'A', 'L', 'C'], seq!['F', '7']],
        seq![seq!['M', 'E', 'M', 'O'], seq!['F', '8']],
        seq![seq!['D', 'A', 'T', 'A'], seq!['F', '9']],
        seq![seq!['T', 'I', 'M', 'E'], seq!['F', '1', '0']],
        seq![seq!['N', 'E', 'T'], seq!['F', '1', '1']],
        seq![seq!['F', '1'], seq!['F', '1']],
        seq![seq!['F', '2'], seq!['F', '2']],
        seq![seq!['F', '3'], seq!['F', '3']],
        seq![seq!['F', '4'], seq!['F', '4']],
        seq![seq!['O', 'N'], seq!['F', '1', '2']],
        seq![seq!['Q'], seq!['Q']],
        seq![seq!['W'], seq!['W']],
        seq![seq!['E'], seq!['E']],
        seq![seq!['R'], seq!['R']],
        seq![seq!['T'], seq!['T'], seq!['7']],
        seq![seq!['Y'], seq!['Y'], seq!['8']],
        seq![seq!['U'], seq!['U'], seq!['9']],
        seq![seq!['I'], seq!['I']],
        seq![seq!['O'], seq!['O']],
        seq![seq!['P'], seq!['P']],
        seq![seq!['A'], seq!['A']],
        seq![seq!['S'], seq!['S']],
        seq![seq!['D'], seq!['D']],
        seq![seq!['F'], seq!['F']],
        seq![seq!['G'], seq!['G'], seq!['4']],
        seq![seq!['H'], seq!['H'], seq!['5']],
        seq![seq!['J'], seq!['J'], seq!['6']],
        seq![seq!['K'], seq!['K']],
        seq![seq!['L'], seq!['L']],
        seq![seq!['E', 'N', 'T'], seq!['E', 'N', 'T']],
        seq![seq!['Z'], seq!['Z']],
        seq![seq!['X'], seq!['X']],
        seq![seq!['C'], seq!['C']],
        seq![seq!['V'], seq!['V']],
        seq![seq!['B'], seq!['B'], seq!['1']],
        seq![seq!['N'], seq!['N'], seq!['2']],
        seq![seq!['M'], seq!['M'], seq!['3']],
        seq![seq!['P', 'G', 'U', 'P'], seq!['P', 'G', 'U', 'P']],
        seq![seq!['U', 'P'], seq!['U', 'P']],
        seq![seq!['P', 'G', 'D', 'N'], seq!['P', 'G', 'D', 'N']],
        seq![seq!['H', 'E', 'L', 'P'], Seq::<char>::empty()],
        seq![seq!['S', 'H', 'I', 'F', 'T'], Seq::<char>::empty()],
        seq![seq!['I', 'M', 'E'], Seq::<char>::empty()],
        seq![seq!['E', 'S', 'C'], seq!['E', 'S', 'C']],
        seq![seq!['0'], seq!['0']],
        seq![seq!['.'], seq!['.']],
        seq![seq!['S', 'P', 'C'], seq!['S', 'P', 'C']],
        seq![seq!['L', 'T'], seq!['L', 'T']],
        seq![seq!['D', 'N'], seq!['D', 'N']],
        seq![seq!['R', 'T'], seq!['R', 'T']],
    ]
}

proof fn lemma_nc2000_parts()
    ensures
        forall|i: int| 0 <= i < layout_nc2000_spec().len() ==> key_parts(#[trigger] layout_nc2000_spec()[i]) == nc2000_parts()[i],
{
    let keys = layout_nc2000_spec();
    let table = nc2000_parts();
    assert forall|i: int| 0 <= i < keys.len() implies key_parts(#[trigger] keys[i]) == table[i] by {
        if i == 0 {
            lemma_split_parts_single(seq!['D', 'I', 'C', 'T']);
            lemma_split_parts_single(seq!['F', '5']);
            assert(key_parts(keys[i]) =~= table[i]);
        } else if i == 1 {
            lemma_split_parts_single(seq!['C', 'A', 'R', 'D']);
            lemma_split_parts_single(seq!['F', '6']);
            assert(key_parts(keys[i]) =~= table[i]);
        } else if i == 2 {
            lemma_split_parts_single(seq!['C', 'A', 'L', 'C']);
            lemma_split_parts_single(seq!['F', '7']);
            assert(key_parts(keys[i]) =~= table[i]);
        } else if i == 3 {
            lemma_split_parts_single(seq!['M', 'E', 'M', 'O']);
            lemma_split_parts_single(seq!['F', '8']);
            assert(key_parts(keys[i]) =~= table[i]);
        } else if i == 4 {
            lemma_split_parts_single(seq!['D', 'A', 'T', 'A']);
            lemma_split_parts_single(seq!['F', '9']);
            assert(key_parts(keys[i]) =~= table[i]);
        } else if i == 5 {
            lemma_split_parts_single(seq!['T', 'I', 'M', 'E']);
            lemma_split_parts_single(seq!['F', '1', '0']);
            assert(key_parts(keys[i]) =~= table[i]);
        } else if i == 6 {
            lemma_split_parts_single(seq!['N', 'E', 'T']);
            lemma_split_parts_single(seq!['F', '1', '1']);
            assert(key_parts(keys[i]) =~= table[i]);
        } else if i == 7 {
            lemma_split_parts_single(seq!['F', '1']);
            lemma_split_parts_single(seq!['F', '1']);
            assert(key_parts(keys[i]) =~= table[i]);
        } else if i == 8 {
            lemma_split_parts_single(seq!['F', '2']);
            lemma_split_parts_single(seq!['F', '2']);
            assert(key_parts(keys[i]) =~= table[i]);
        } else if i == 9 {
            lemma_split_parts_single(seq!['F', '3']);
            lemma_split_parts_single(seq!['F', '3']);
            assert(key_parts(keys[i]) =~= table[i]);
        } else if i == 10 {
            lemma_split_parts_single(seq!['F', '4']);
            lemma_split_parts_single(seq!['F', '4']);
            assert(key_parts(keys[i]) =~= table[i]);
        } else if i == 11 {
            lemma_split_parts_single(seq!['O', 'N']);
            lemma_split_parts_single(seq!['F', '1', '2']);
            assert(key_parts(keys[i]) =~= table[i]);
        } else if i == 12 {
            lemma_split_parts_single(seq!['Q']);
            lemma_split_parts_single(seq!['Q']);
            assert(key_parts(keys[i]) =~= table[i]);
        } else if i == 13 {
            lemma_split_parts_single(seq!['W']);
            lemma_split_parts_single(seq!['W']);
            assert(key_parts(keys[i]) =~= table[i]);
        } else if i == 14 {
            lemma_split_parts_single(seq!['E']);
            lemma_split_parts_single(seq!['E']);
            assert(key_parts(keys[i]) =~= table[i]);
        } else if i == 15 {
            lemma_split_parts_single(seq!['R']);
            lemma_split_parts_single(seq!['R']);
            assert(key_parts(keys[i]) =~= table[i]);
        } else if i == 16 {
            lemma_split_parts_single(seq!['T']);
            lemma_split_parts_pair(seq!['T'], seq!['7']);
            assert(seq!['T', '/', '7'] =~= seq!['T'] + seq!['/'] + seq!['7']);
            assert(key_parts(keys[i]) =~= table[i]);
        } else if i == 17 {
            lemma_split_parts_single(seq!['Y']);
            lemma_split_parts_pair(seq!['Y'], seq!['8']);
            assert(seq!['Y', '/', '8'] =~= seq!['Y'] + seq!['/'] + seq!['8']);
            assert(key_parts(keys[i]) =~= table[i]);
        } else if i == 18 {
            lemma_split_parts_single(seq!['U']);
            lemma_split_parts_pair(seq!['U'], seq!['9']);
            assert(seq!['U', '/', '9'] =~= seq!['U'] + seq!['/'] + seq!['9']);
            assert(key_parts(keys[i]) =~= table[i]);
        } else if i == 19 {
            lemma_split_parts_single(seq!['I']);
            lemma_split_parts_single(seq!['I']);
            assert(key_parts(keys[i]) =~= table[i]);
        } else if i == 20 {
            lemma_split_parts_single(seq!['O']);
            lemma_split_parts_single(seq!['O']);
            assert(key_parts(keys[i]) =~= table[i]);
        } else if i == 21 {
            lemma_split_parts_single(seq!['P']);
            lemma_split_parts_single(seq!['P']);
            assert(key_parts(keys[i]) =~= table[i]);
        } else if i == 22 {
            lemma_split_parts_single(seq!['A']);
            lemma_split_parts_single(seq!['A']);
            assert(key_parts(keys[i]) =~= table[i]);
        } else if i == 23 {
            lemma_split_parts_single(seq!['S']);
            lemma_split_parts_single(seq!['S']);
            assert(key_parts(keys[i]) =~= table[i]);
        } else if i == 24 {
            lemma_split_parts_single(seq!['D']);
            lemma_split_parts_single(seq!['D']);
            assert(key_parts(keys[i]) =~= table[i]);
        } else if i == 25 {
            lemma_split_parts_single(seq!['F']);
            lemma_split_parts_single(seq!['F']);
            assert(key_parts(keys[i]) =~= table[i]);
        } else if i == 26 {
            lemma_split_parts_single(seq!['G']);
            lemma_split_parts_pair(seq!['G'], seq!['4']);
            assert(seq!['G', '/', '4'] =~= seq!['G'] + seq!['/'] + seq!['4']);
            assert(key_parts(keys[i]) =~= table[i]);
        } else if i == 27 {
            lemma_split_parts_single(seq!['H']);
            lemma_split_parts_pair(seq!['H'], seq!['5']);
            assert(seq!['H', '/', '5'] =~= seq!['H'] + seq!['/'] + seq!['5']);
            assert(key_parts(keys[i]) =~= table[i]);
        } else if i == 28 {
            lemma_split_parts_single(seq!['J']);
            lemma_split_parts_pair(seq!['J'], seq!['6']);
            assert(seq!['J', '/', '6'] =~= seq!['J'] + seq!['/'] + seq!['6']);
            assert(key_parts(keys[i]) =~= table[i]);
        } else if i == 29 {
            lemma_split_parts_single(seq!['K']);
            lemma_split_parts_single(seq!['K']);
            assert(key_parts(keys[i]) =~= table[i]);
        } else if i == 30 {
            lemma_split_parts_single(seq!['L']);
            lemma_split_parts_single(seq!['L']);
            assert(key_parts(keys[i]) =~= table[i]);
        } else if i == 31 {
            lemma_split_parts_single(seq!['E', 'N', 'T']);
            lemma_split_parts_single(seq!['E', 'N', 'T']);
            assert(key_parts(keys[i]) =~= table[i]);
        } else if i == 32 {
            lemma_split_parts_single(seq!['Z']);
            lemma_split_parts_single(seq!['Z']);
            assert(key_parts(keys[i]) =~= table[i]);
        } else if i == 33 {
            lemma_split_parts_single(seq!['X']);
            lemma_split_parts_single(seq!['X']);
            assert(key_parts(keys[i]) =~= table[i]);
        } else if i == 34 {
            lemma_split_parts_single(seq!['C']);
            lemma_split_parts_single(seq!['C']);
            assert(key_parts(keys[i]) =~= table[i]);
        } else if i == 35 {
            lemma_split_parts_single(seq!['V']);
            lemma_split_parts_single(seq!['V']);
            assert(key_parts(keys[i]) =~= table[i]);
        } else if i == 36 {
            lemma_split_parts_single(seq!['B']);
            lemma_split_parts_pair(seq!['B'], seq!['1']);
            assert(seq!['B', '/', '1'] =~= seq!['B'] + seq!['/'] + seq!['1']);
            assert(key_parts(keys[i]) =~= table[i]);
        } else if i == 37 {
            lemma_split_parts_single(seq!['N']);
            lemma_split_parts_pair(seq!['N'], seq!['2']);
            assert(seq!['N', '/', '2'] =~= seq!['N'] + seq!['/'] + seq!['2']);
            assert(key_parts(keys[i]) =~= table[i]);
        } else if i == 38 {
            lemma_split_parts_single(seq!['M']);
            lemma_split_parts_pair(seq!['M'], seq!['3']);
            assert(seq!['M', '/', '3'] =~= seq!['M'] + seq!['/'] + seq!['3']);
            assert(key_parts(keys[i]) =~= table[i]);
        } else if i == 39 {
            lemma_split_parts_single(seq!['P', 'G', 'U', 'P']);
            lemma_split_parts_single(seq!['P', 'G', 'U', 'P']);
            assert(key_parts(keys[i]) =~= table[i]);
        } else if i == 40 {
            lemma_split_parts_single(seq!['U', 'P']);
            lemma_split_parts_single(seq!['U', 'P']);
            assert(key_parts(keys[i]) =~= table[i]);
        } else if i == 41 {
            lemma_split_parts_single(seq!['P', 'G', 'D', 'N']);
            lemma_split_parts_single(seq!['P', 'G', 'D', 'N']);
            assert(key_parts(keys[i]) =~= table[i]);
        } else if i == 42 {
            lemma_split_parts_single(seq!['H', 'E', 'L', 'P']);
            lemma_split_parts_single(Seq::<char>::empty());
            assert(key_parts(keys[i]) =~= table[i]);
        } else if i == 43 {
            lemma_split_parts_single(seq!['S', 'H', 'I', 'F', 'T']);
            lemma_split_parts_single(Seq::<char>::empty());
            assert(key_parts(keys[i]) =~= table[i]);
        } else if i == 44 {
            lemma_split_parts_single(seq!['I', 'M', 'E']);
            lemma_split_parts_single(Seq::<char>::empty());
            assert(key_parts(keys[i]) =~= table[i]);
        } else if i == 45 {
            lemma_split_parts_single(seq!['E', 'S', 'C']);
            lemma_split_parts_single(seq!['E', 'S', 'C']);
            assert(key_parts(keys[i]) =~= table[i]);
        } else if i == 46 {
            lemma_split_parts_single(seq!['0']);
            lemma_split_parts_single(seq!['0']);
            assert(key_parts(keys[i]) =~= table[i]);
        } else if i == 47 {
            lemma_split_parts_single(seq!['.']);
            lemma_split_parts_single(seq!['.']);
            assert(key_parts(keys[i]) =~= table[i]);
        } else if i == 48 {
            lemma_split_parts_single(seq!['S', 'P', 'C']);
            lemma_split_parts_single(seq!['S', 'P', 'C']);
            assert(key_parts(keys[i]) =~= table[i]);
        } else if i == 49 {
            lemma_split_parts_single(seq!['L', 'T']);
            lemma_split_parts_single(seq!['L', 'T']);
            assert(key_parts(keys[i]) =~= table[i]);
        } else if i == 50 {
            lemma_split_parts_single(seq!['D', 'N']);
            lemma_split_parts_single(seq!['D', 'N']);
            assert(key_parts(keys[i]) =~= table[i]);
        } else if i == 51 {
            lemma_split_parts_single(seq!['R', 'T']);
            lemma_split_parts_single(seq!['R', 'T']);
            assert(key_parts(keys[i]) =~= table[i]);
        }
    }
}

/// The index of the NC2000 key carrying a legend part, or -1.
pub open spec fn nc2000_owner(part: Seq<char>) -> int {
    if part.len() == 4 && part[0] == 'D' && part[1] == 'I' && part[2] == 'C' && part[3] == 'T' {
        0
    } else if part.len() == 2 && part[0] == 'F' && part[1] == '5' {
        0
    } else if part.len() == 4 && part[0] == 'C' && part[1] == 'A' && part[2] == 'R' && part[3] == 'D' {
        1
    } else if part.len() == 2 && part[0] == 'F' && part[1] == '6' {
        1
    } else if part.len() == 4 && part[0] == 'C' && part[1] == 'A' && part[2] == 'L' && part[3] == 'C' {
        2
    } else if part.len() == 2 && part[0] == 'F' && part[1] == '7' {
        2
    } else if part.len() == 4 && part[0] == 'M' && part[1] == 'E' && part[2] == 'M' && part[3] == 'O' {
        3
    } else if part.len() == 2 && part[0] == 'F' && part[1] == '8' {
        3
    } else if part.len() == 4 && part[0] == 'D' && part[1] == 'A' && part[2] == 'T' && part[3] == 'A' {
        4
    } else if part.len() == 2 && part[0] == 'F' && part[1] == '9' {
        4
    } else if part.len() == 4 && part[0] == 'T' && part[1] == 'I' && part[2] == 'M' && part[3] == 'E' {
        5
    } else if part.len() == 3 && part[0] == 'F' && part[1] == '1' && part[2] == '0' {
        5
    } else if part.len() == 3 && part[0] == 'N' && part[1] == 'E' && part[2] == 'T' {
        6
    } else if part.len() == 3 && part[0] == 'F' && part[1] == '1' && part[2] == '1' {
        6
    } else if part.len() == 2 && part[0] == 'F' && part[1] == '1' {
        7
    } else if part.len() == 2 && part[0] == 'F' && part[1] == '2' {
        8
    } else if part.len() == 2 && part[0] == 'F' && part[1] == '3' {
        9
    } else if part.len() == 2 && part[0] == 'F' && part[1] == '4' {
        10
    } else if part.len() == 2 && part[0] == 'O' && part[1] == 'N' {
        11
    } else if part.len() == 3 && part[0] == 'F' && part[1] == '1' && part[2] == '2' {
        11
    } else if part.len() == 1 && part[0] == 'Q' {
        12
    } else if part.len() == 1 && part[0] == 'W' {
        13
    } else if part.len() == 1 && part[0] == 'E' {
        14
    } else if part.len() == 1 && part[0] == 'R' {
        15
    } else if part.len() == 1 && part[0] == 'T' {
        16
    } else if part.len() == 1 && part[0] == '7' {
        16
    } else if part.len() == 1 && part[0] == 'Y' {
        17
    } else if part.len() == 1 && part[0] == '8' {
        17
    } else if part.len() == 1 && part[0] == 'U' {
        18
    } else if part.len() == 1 && part[0] == '9' {
        18
    } else if part.len() == 1 && part[0] == 'I' {
        19
    } else if part.len() == 1 && part[0] == 'O' {
        20
    } else if part.len() == 1 && part[0] == 'P' {
        21
    } else if part.len() == 1 && part[0] == 'A' {
        22
    } else if part.len() == 1 && part[0] == 'S' {
        23
    } else if part.len() == 1 && part[0] == 'D' {
        24
    } else if part.len() == 1 && part[0] == 'F' {
        25
    } else if part.len() == 1 && part[0] == 'G' {
        26
    } else if part.len() == 1 && part[0] == '4' {
        26
    } else if part.len() == 1 && part[0] == 'H' {
        27
    } else if part.len() == 1 && part[0] == '5' {
        27
    } else if part.len() == 1 && part[0] == 'J' {
        28
    } else if part.len() == 1 && part[0] == '6' {
        28
    } else if part.len() == 1 && part[0] == 'K' {
        29
    } else if part.len() == 1 && part[0] == 'L' {
        30
    } else if part.len() == 3 && part[0] == 'E' && part[1] == 'N' && part[2] == 'T' {
        31
    } else if part.len() == 1 && part[0] == 'Z' {
        32
    } else if part.len() == 1 && part[0] == 'X' {
        33
    } else if part.len() == 1 && part[0] == 'C' {
        34
    } else if part.len() == 1 && part[0] == 'V' {
        35
    } else if part.len() == 1 && part[0] == 'B' {
        36
    } else if part.len() == 1 && part[0] == '1' {
        36
    } else if part.len() == 1 && part[0] == 'N' {
        37
    } else if part.len() == 1 && part[0] == '2' {
        37
    } else if part.len() == 1 && part[0] == 'M' {
        38
    } else if part.len() == 1 && part[0] == '3' {
        38
    } else if part.len() == 4 && part[0] == 'P' && part[1] == 'G' && part[2] == 'U' && part[3] == 'P' {
        39
    } else if part.len() == 2 && part[0] == 'U' && part[1] == 'P' {
        40
    } else if part.len() == 4 && part[0] == 'P' && part[1] == 'G' && part[2] == 'D' && part[3] == 'N' {
        41
    } else if part.len() == 4 && part[0] == 'H' && part[1] == 'E' && part[2] == 'L' && part[3] == 'P' {
        42
    } else if part.len() == 5 && part[0] == 'S' && part[1] == 'H' && part[2] == 'I' && part[3] == 'F' && part[4] == 'T' {
        43
    } else if part.len() == 3 && part[0] == 'I' && part[1] == 'M' && part[2] == 'E' {
        44
    } else if part.len() == 3 && part[0] == 'E' && part[1] == 'S' && part[2] == 'C' {
        45
    } else if part.len() == 1 && part[0] == '0' {
        46
    } else if part.len() == 1 && part[0] == '.' {
        47
    } else if part.len() == 3 && part[0] == 'S' && part[1] == 'P' && part[2] == 'C' {
        48
    } else if part.len() == 2 && part[0] == 'L' && part[1] == 'T' {
        49
    } else if part.len() == 2 && part[0] == 'D' && part[1] == 'N' {
        50
    } else if part.len() == 2 && part[0] == 'R' && part[1] == 'T' {
        51
    } else {
        -1
    }
}

proof fn lemma_nc2000_owner()
    ensures
        forall|i: int, k: int|
            0 <= i < nc2000_parts().len() && 0 <= k < nc2000_parts()[i].len() && (#[trigger] nc2000_parts()[i][k]).len() > 0 ==> nc2000_owner(nc2000_parts()[i][k]) == i,
{
    let table = nc2000_parts();
    assert forall|i: int, k: int| 0 <= i < table.len() && 0 <= k < table[i].len() && (#[trigger] table[i][k]).len() > 0 implies nc2000_owner(table[i][k]) == i by {
        if i == 0 {
            assert(nc2000_owner(seq!['D', 'I', 'C', 'T']) == 0);
            assert(nc2000_owner(seq!['F', '5']) == 0);
        } else if i == 1 {
            assert(nc2000_owner(seq!['C', 'A', 'R', 'D']) == 1);
            assert(nc2000_owner(seq!['F', '6']) == 1);
        } else if i == 2 {
            assert(nc2000_owner(seq!['C', 'A', 'L', 'C']) == 2);
            assert(nc2000_owner(seq!['F', '7']) == 2);
        } else if i == 3 {
            assert(nc2000_owner(seq!['M', 'E', 'M', 'O']) == 3);
            assert(nc2000_owner(seq!['F', '8']) == 3);
        } else if i == 4 {
            assert(nc2000_owner(seq!['D', 'A', 'T', 'A']) == 4);
            assert(nc2000_owner(seq!['F', '9']) == 4);
        } else if i == 5 {
            assert(nc2000_owner(seq!['T', 'I', 'M', 'E']) == 5);
            assert(nc2000_owner(seq!['F', '1', '0']) == 5);
        } else if i == 6 {
            assert(nc2000_owner(seq!['N', 'E', 'T']) == 6);
            assert(nc2000_owner(seq!['F', '1', '1']) == 6);
        } else if i == 7 {
            assert(nc2000_owner(seq!['F', '1']) == 7);
            assert(nc2000_owner(seq!['F', '1']) == 7);
        } else if i == 8 {
            assert(nc2000_owner(seq!['F', '2']) == 8);
            assert(nc2000_owner(seq!['F', '2']) == 8);
        } else if i == 9 {
            assert(nc2000_owner(seq!['F', '3']) == 9);
            assert(nc2000_owner(seq!['F', '3']) == 9);
        } else if i == 10 {
            assert(nc2000_owner(seq!['F', '4']) == 10);
            assert(nc2000_owner(seq!['F', '4']) == 10);
        } else if i == 11 {
            assert(nc2000_owner(seq!['O', 'N']) == 11);
            assert(nc2000_owner(seq!['F', '1', '2']) == 11);
        } else if i == 12 {
            assert(nc2000_owner(seq!['Q']) == 12);
            assert(nc2000_owner(seq!['Q']) == 12);
        } else if i == 13 {
            assert(nc2000_owner(seq!['W']) == 13);
            assert(nc2000_owner(seq!['W']) == 13);
        } else if i == 14 {
            assert(nc2000_owner(seq!['E']) == 14);
            assert(nc2000_owner(seq!['E']) == 14);
        } else if i == 15 {
            assert(nc2000_owner(seq!['R']) == 15);
            assert(nc2000_owner(seq!['R']) == 15);
        } else if i == 16 {
            assert(nc2000_owner(seq!['T']) == 16);
            assert(nc2000_owner(seq!['T']) == 16);
            assert(nc2000_owner(seq!['7']) == 16);
        } else if i == 17 {
            assert(nc2000_owner(seq!['Y']) == 17);
            assert(nc2000_owner(seq!['Y']) == 17);
            assert(nc2000_owner(seq!['8']) == 17);
        } else if i == 18 {
            assert(nc2000_owner(seq!['U']) == 18);
            assert(nc2000_owner(seq!['U']) == 18);
            assert(nc2000_owner(seq!['9']) == 18);
        } else if i == 19 {
            assert(nc2000_owner(seq!['I']) == 19);
            assert(nc2000_owner(seq!['I']) == 19);
        } else if i == 20 {
            assert(nc2000_owner(seq!['O']) == 20);
            assert(nc2000_owner(seq!['O']) == 20);
        } else if i == 21 {
            assert(nc2000_owner(seq!['P']) == 21);
            assert(nc2000_owner(seq!['P']) == 21);
        } else if i == 22 {
            assert(nc2000_owner(seq!['A']) == 22);
            assert(nc2000_owner(seq!['A']) == 22);
        } else if i == 23 {
            assert(nc2000_owner(seq!['S']) == 23);
            assert(nc2000_owner(seq!['S']) == 23);
        } else if i == 24 {
            assert(nc2000_owner(seq!['D']) == 24);
            assert(nc2000_owner(seq!['D']) == 24);
        } else if i == 25 {
            assert(nc2000_owner(seq!['F']) == 25);
            assert(nc2000_owner(seq!['F']) == 25);
        } else if i == 26 {
            assert(nc2000_owner(seq!['G']) == 26);
            assert(nc2000_owner(seq!['G']) == 26);
            assert(nc2000_owner(seq!['4']) == 26);
        } else if i == 27 {
            assert(nc2000_owner(seq!['H']) == 27);
            assert(nc2000_owner(seq!['H']) == 27);
            assert(nc2000_owner(seq!['5']) == 27);
        } else if i == 28 {
            assert(nc2000_owner(seq!['J']) == 28);
            assert(nc2000_owner(seq!['J']) == 28);
            assert(nc2000_owner(seq!['6']) == 28);
        } else if i == 29 {
            assert(nc2000_owner(seq!['K']) == 29);
            assert(nc2000_owner(seq!['K']) == 29);
        } else if i == 30 {
            assert(nc2000_owner(seq!['L']) == 30);
            assert(nc2000_owner(seq!['L']) == 30);
        } else if i == 31 {
            assert(nc2000_owner(seq!['E', 'N', 'T']) == 31);
            assert(nc2000_owner(seq!['E', 'N', 'T']) == 31);
        } else if i == 32 {
            assert(nc2000_owner(seq!['Z']) == 32);
            assert(nc2000_owner(seq!['Z']) == 32);
        } else if i == 33 {
            assert(nc2000_owner(seq!['X']) == 33);
            assert(nc2000_owner(seq!['X']) == 33);
        } else if i == 34 {
            assert(nc2000_owner(seq!['C']) == 34);
            assert(nc2000_owner(seq!['C']) == 34);
        } else if i == 35 {
            assert(nc2000_owner(seq!['V']) == 35);
            assert(nc2000_owner(seq!['V']) == 35);
        } else if i == 36 {
            assert(nc2000_owner(seq!['B']) == 36);
            assert(nc2000_owner(seq!['B']) == 36);
            assert(nc2000_owner(seq!['1']) == 36);
        } else if i == 37 {
            assert(nc2000_owner(seq!['N']) == 37);
            assert(nc2000_owner(seq!['N']) == 37);
            assert(nc2000_owner(seq!['2']) == 37);
        } else if i == 38 {
            assert(nc2000_owner(seq!['M']) == 38);
            assert(nc2000_owner(seq!['M']) == 38);
            assert(nc2000_owner(seq!['3']) == 38);
        } else if i == 39 {
            assert(nc2000_owner(seq!['P', 'G', 'U', 'P']) == 39);
            assert(nc2000_owner(seq!['P', 'G', 'U', 'P']) == 39);
        } else if i == 40 {
            assert(nc2000_owner(seq!['U', 'P']) == 40);
            assert(nc2000_owner(seq!['U', 'P']) == 40);
        } else if i == 41 {
            assert(nc2000_owner(seq!['P', 'G', 'D', 'N']) == 41);
            assert(nc2000_owner(seq!['P', 'G', 'D', 'N']) == 41);
        } else if i == 42 {
            assert(nc2000_owner(seq!['H', 'E', 'L', 'P']) == 42);
        } else if i == 43 {
            assert(nc2000_owner(seq!['S', 'H', 'I', 'F', 'T']) == 43);
        } else if i == 44 {
            assert(nc2000_owner(seq!['I', 'M', 'E']) == 44);
        } else if i == 45 {
            assert(nc2000_owner(seq!['E', 'S', 'C']) == 45);
            assert(nc2000_owner(seq!['E', 'S', 'C']) == 45);
        } else if i == 46 {
            assert(nc2000_owner(seq!['0']) == 46);
            assert(nc2000_owner(seq!['0']) == 46);
        } else if i == 47 {
            assert(nc2000_owner(seq!['.']) == 47);
            assert(nc2000_owner(seq!['.']) == 47);
        } else if i == 48 {
            assert(nc2000_owner(seq!['S', 'P', 'C']) == 48);
            assert(nc2000_owner(seq!['S', 'P', 'C']) == 48);
        } else if i == 49 {
            assert(nc2000_owner(seq!['L', 'T']) == 49);
            assert(nc2000_owner(seq!['L', 'T']) == 49);
        } else if i == 50 {
            assert(nc2000_owner(seq!['D', 'N']) == 50);
            assert(nc2000_owner(seq!['D', 'N']) == 50);
        } else if i == 51 {
            assert(nc2000_owner(seq!['R', 'T']) == 51);
            assert(nc2000_owner(seq!['R', 'T']) == 51);
        }
    }
}

proof fn lemma_nc2000_function_two()
    ensures
        forall|i: int, k: int|
            0 <= i < nc2000_parts().len() && 0 <= k < nc2000_parts()[i].len() && is_function_part(#[trigger] nc2000_parts()[i][k], 2) ==> i == 8,
        is_function_part(nc2000_parts()[8][0], 2),
{
    let table = nc2000_parts();
    assert(seq!['F', '2'].drop_first() =~= seq!['2']);
    assert(digits_value(Seq::<char>::empty()) == 0);
    assert(seq!['2'].drop_last() =~= Seq::<char>::empty());
    assert(digits_value(seq!['2']) == 2);
    assert forall|i: int, k: int| 0 <= i < table.len() && 0 <= k < table[i].len() && is_function_part(#[trigger] table[i][k], 2) implies i == 8 by {
        if i == 0 {
            assert(seq!['F', '5'].drop_first() =~= seq!['5']);
            assert(digits_value(Seq::<char>::empty()) == 0);
            assert(seq!['5'].drop_last() =~= Seq::<char>::empty());
            assert(digits_value(seq!['5']) == 5);
        } else if i == 1 {
            assert(seq!['F', '6'].drop_first() =~= seq!['6']);
            assert(digits_value(Seq::<char>::empty()) == 0);
            assert(seq!['6'].drop_last() =~= Seq::<char>::empty());
            assert(digits_value(seq!['6']) == 6);
        } else if i == 2 {
            assert(seq!['F', '7'].drop_first() =~= seq!['7']);
            assert(digits_value(Seq::<char>::empty()) == 0);
            assert(seq!['7'].drop_last() =~= Seq::<char>::empty());
            assert(digits_value(seq!['7']) == 7);
        } else if i == 3 {
            assert(seq!['F', '8'].drop_first() =~= seq!['8']);
            assert(digits_value(Seq::<char>::empty()) == 0);
            assert(seq!['8'].drop_last() =~= Seq::<char>::empty());
            assert(digits_value(seq!['8']) == 8);
        } else if i == 4 {
            assert(seq!['F', '9'].drop_first() =~= seq!['9']);
            assert(digits_value(Seq::<char>::empty()) == 0);
            assert(seq!['9'].drop_last() =~= Seq::<char>::empty());
            assert(digits_value(seq!['9']) == 9);
        } else if i == 5 {
            assert(seq!['F', '1', '0'].drop_first() =~= seq!['1', '0']);
            assert(digits_value(Seq::<char>::empty()) == 0);
            assert(seq!['1'].drop_last() =~= Seq::<char>::empty());
            assert(digits_value(seq!['1']) == 1);
            assert(seq!['1', '0'].drop_last() =~= seq!['1']);
            assert(digits_value(seq!['1', '0']) == 10);
        } else if i == 6 {
            assert(seq!['F', '1', '1'].drop_first() =~= seq!['1', '1']);
            assert(digits_value(Seq::<char>::empty()) == 0);
            assert(seq!['1'].drop_last() =~= Seq::<char>::empty());
            assert(digits_value(seq!['1']) == 1);
            assert(seq!['1', '1'].drop_last() =~= seq!['1']);
            assert(digits_value(seq!['1', '1']) == 11);
        } else if i == 7 {
            assert(seq!['F', '1'].drop_first() =~= seq!['1']);
            assert(digits_value(Seq::<char>::empty()) == 0);
            assert(seq!['1'].drop_last() =~= Seq::<char>::empty());
            assert(digits_value(seq!['1']) == 1);
            assert(seq!['F', '1'].drop_first() =~= seq!['1']);
            assert(digits_value(Seq::<char>::empty()) == 0);
            assert(seq!['1'].drop_last() =~= Seq::<char>::empty());
            assert(digits_value(seq!['1']) == 1);
        } else if i == 8 {
            assert(seq!['F', '2'].drop_first() =~= seq!['2']);
            assert(digits_value(Seq::<char>::empty()) == 0);
            assert(seq!['2'].drop_last() =~= Seq::<char>::empty());
            assert(digits_value(seq!['2']) == 2);
            assert(seq!['F', '2'].drop_first() =~= seq!['2']);
            assert(digits_value(Seq::<char>::empty()) == 0);
            assert(seq!['2'].drop_last() =~= Seq::<char>::empty());
            assert(digits_value(seq!['2']) == 2);
        } else if i == 9 {
            assert(seq!['F', '3'].drop_first() =~= seq!['3']);
            assert(digits_value(Seq::<char>::empty()) == 0);
            assert(seq!['3'].drop_last() =~= Seq::<char>::empty());
            assert(digits_value(seq!['3']) == 3);
            assert(seq!['F', '3'].drop_first() =~= seq!['3']);
            assert(digits_value(Seq::<char>::empty()) == 0);
            assert(seq!['3'].drop_last() =~= Seq::<char>::empty());
            assert(digits_value(seq!['3']) == 3);
        } else if i == 10 {
            assert(seq!['F', '4'].drop_first() =~= seq!['4']);
            assert(digits_value(Seq::<char>::empty()) == 0);
            assert(seq!['4'].drop_last() =~= Seq::<char>::empty());
            assert(digits_value(seq!['4']) == 4);
            assert(seq!['F', '4'].drop_first() =~= seq!['4']);
            assert(digits_value(Seq::<char>::empty()) == 0);
            assert(seq!['4'].drop_last() =~= Seq::<char>::empty());
            assert(digits_value(seq!['4']) == 4);
        } else if i == 11 {
            assert(seq!['F', '1', '2'].drop_first() =~= seq!['1', '2']);
            assert(digits_value(Seq::<char>::empty()) == 0);
            assert(seq!['1'].drop_last() =~= Seq::<char>::empty());
            assert(digits_value(seq!['1']) == 1);
            assert(seq!['1', '2'].drop_last() =~= seq!['1']);
            assert(digits_value(seq!['1', '2']) == 12);
        } else if i == 12 {
        } else if i == 13 {
        } else if i == 14 {
        } else if i == 15 {
        } else if i == 16 {
        } else if i == 17 {
        } else if i == 18 {
        } else if i == 19 {
        } else if i == 20 {
        } else if i == 21 {
        } else if i == 22 {
        } else if i == 23 {
        } else if i == 24 {
        } else if i == 25 {
            assert(seq!['F'].drop_first() =~= Seq::<char>::empty());
            assert(seq!['F'].drop_first() =~= Seq::<char>::empty());
        } else if i == 26 {
        } else if i == 27 {
        } else if i == 28 {
        } else if i == 29 {
        } else if i == 30 {
        } else if i == 31 {
        } else if i == 32 {
        } else if i == 33 {
        } else if i == 34 {
        } else if i == 35 {
        } else if i == 36 {
        } else if i == 37 {
        } else if i == 38 {
        } else if i == 39 {
        } else if i == 40 {
        } else if i == 41 {
        } else if i == 42 {
        } else if i == 43 {
        } else if i == 44 {
        } else if i == 45 {
        } else if i == 46 {
        } else if i == 47 {
        } else if i == 48 {
        } else if i == 49 {
        } else if i == 50 {
        } else if i == 51 {
        }
    }
}

proof fn lemma_nc2000_alias(model: MachineModel, h: HostKey, a: Seq<char>, j: int, k0: int)
    requires
        layout_spec(model) == layout_nc2000_spec(),
        0 <= j < nc2000_parts().len(),
        0 <= k0 < nc2000_parts()[j].len(),
        nc2000_parts()[j][k0] == a,
        a.len() > 0,
        forall|kv: KeyView| #[trigger] key_matches(model, h, kv) == has_part(key_parts(kv), a),
    ensures
        host_key_id(model, h) == Some(layout_key_id(model, j)),
        key_parts(layout_spec(model)[j]) == nc2000_parts()[j],
{
    lemma_nc2000_parts();
    lemma_nc2000_owner();
    let keys = layout_spec(model);
    assert(keys.len() == nc2000_parts().len());
    assert(key_parts(keys[j]) == nc2000_parts()[j]);
    assert(key_parts(keys[j])[k0] == a);
    assert(key_matches(model, h, keys[j]));
    assert(nc2000_owner(a) == j);
    assert forall|i: int| 0 <= i < keys.len() && key_matches(model, h, #[trigger] keys[i]) implies i == j by {
        assert(key_parts(keys[i]) == nc2000_parts()[i]);
        let k = choose|k: int| 0 <= k < key_parts(keys[i]).len() && key_parts(keys[i])[k] == a;
        assert(nc2000_parts()[i][k] == a);
    }
    lemma_unique_match(model, h, j);
}

proof fn lemma_nc2000_function_key_two(model: MachineModel)
    requires
        layout_spec(model) == layout_nc2000_spec(),
    ensures
        host_key_id(model, HostKey::Function(2)) == Some(layout_key_id(model, 8)),
{
    lemma_nc2000_parts();
    lemma_nc2000_function_two();
    let keys = layout_spec(model);
    let h = HostKey::Function(2);
    assert(keys.len() == nc2000_parts().len());
    assert(key_parts(keys[8]) == nc2000_parts()[8]);
    assert(is_function_part(key_parts(keys[8])[0], 2));
    assert(key_matches(model, h, keys[8]));
    assert forall|i: int| 0 <= i < keys.len() && key_matches(model, h, #[trigger] keys[i]) implies i == 8 by {
        assert(key_parts(keys[i]) == nc2000_parts()[i]);
        let k = choose|k: int| 0 <= k < key_parts(keys[i]).len() && is_function_part(#[trigger] key_parts(keys[i])[k], 2);
        assert(is_function_part(nc2000_parts()[i][k], 2));
    }
    lemma_unique_match(model, h, 8);
}

/// The index of the NC2000 key at a matrix position, or -1.
pub open spec fn nc2000_at(row: u8, col: u8) -> int {
    if row == 3 && col == 1 {
        0
    } else if row == 4 && col == 1 {
        1
    } else if row == 5 && col == 1 {
        2
    } else if row == 2 && col == 1 {
        3
    } else if row == 1 && col == 1 {
        4
    } else if row == 0 && col == 1 {
        5
    } else if row == 6 && col == 1 {
        6
    } else if row == 0 && col == 2 {
        7
    } else if row == 1 && col == 2 {
        8
    } else if row == 2 && col == 2 {
        9
    } else if row == 3 && col == 2 {
        10
    } else if row == 0 && col == 0 {
        11
    } else if row == 0 && col == 4 {
        12
    } else if row == 1 && col == 4 {
        13
    } else if row == 2 && col == 4 {
        14
    } else if row == 3 && col == 4 {
        15
    } else if row == 4 && col == 4 {
        16
    } else if row == 5 && col == 4 {
        17
    } else if row == 6 && col == 4 {
        18
    } else if row == 7 && col == 4 {
        19
    } else if row == 0 && col == 3 {
        20
    } else if row == 4 && col == 3 {
        21
    } else if row == 0 && col == 5 {
        22
    } else if row == 1 && col == 5 {
        23
    } else if row == 2 && col == 5 {
        24
    } else if row == 3 && col == 5 {
        25
    } else if row == 4 && col == 5 {
        26
    } else if row == 5 && col == 5 {
        27
    } else if row == 6 && col == 5 {
        28
    } else if row == 7 && col == 5 {
        29
    } else if row == 1 && col == 3 {
        30
    } else if row == 5 && col == 3 {
        31
    } else if row == 0 && col == 6 {
        32
    } else if row == 1 && col == 6 {
        33
    } else if row == 2 && col == 6 {
        34
    } else if row == 3 && col == 6 {
        35
    } else if row == 4 && col == 6 {
        36
    } else if row == 5 && col == 6 {
        37
    } else if row == 6 && col == 6 {
        38
    } else if row == 7 && col == 6 {
        39
    } else if row == 2 && col == 3 {
        40
    } else if row == 6 && col == 3 {
        41
    } else if row == 0 && col == 7 {
        42
    } else if row == 1 && col == 7 {
        43
    } else if row == 2 && col == 7 {
        44
    } else if row == 3 && col == 7 {
        45
    } else if row == 4 && col == 7 {
        46
    } else if row == 5 && col == 7 {
        47
    } else if row == 6 && col == 7 {
        48
    } else if row == 7 && col == 7 {
        49
    } else if row == 3 && col == 3 {
        50
    } else if row == 7 && col == 3 {
        51
    } else {
        -1
    }
}

/// The index of the NC2000 key at a display position, or -1.
pub open spec fn nc2000_placed(drow: u8, dcol: u8) -> int {
    if drow == 0 && dcol == 0 {
        0
    } else if drow == 0 && dcol == 1 {
        1
    } else if drow == 0 && dcol == 2 {
        2
    } else if drow == 0 && dcol == 3 {
        3
    } else if drow == 0 && dcol == 4 {
        4
    } else if drow == 0 && dcol == 5 {
        5
    } else if drow == 0 && dcol == 6 {
        6
    } else if drow == 1 && dcol == 2 {
        7
    } else if drow == 1 && dcol == 3 {
        8
    } else if drow == 1 && dcol == 4 {
        9
    } else if drow == 1 && dcol == 5 {
        10
    } else if drow == 1 && dcol == 8 {
        11
    } else if drow == 2 && dcol == 0 {
        12
    } else if drow == 2 && dcol == 1 {
        13
    } else if drow == 2 && dcol == 2 {
        14
    } else if drow == 2 && dcol == 3 {
        15
    } else if drow == 2 && dcol == 4 {
        16
    } else if drow == 2 && dcol == 5 {
        17
    } else if drow == 2 && dcol == 6 {
        18
    } else if drow == 2 && dcol == 7 {
        19
    } else if drow == 2 && dcol == 8 {
        20
    } else if drow == 2 && dcol == 9 {
        21
    } else if drow == 3 && dcol == 0 {
        22
    } else if drow == 3 && dcol == 1 {
        23
    } else if drow == 3 && dcol == 2 {
        24
    } else if drow == 3 && dcol == 3 {
        25
    } else if drow == 3 && dcol == 4 {
        26
    } else if drow == 3 && dcol == 5 {
        27
    } else if drow == 3 && dcol == 6 {
        28
    } else if drow == 3 && dcol == 7 {
        29
    } else if drow == 3 && dcol == 8 {
        30
    } else if drow == 3 && dcol == 9 {
        31
    } else if drow == 4 && dcol == 0 {
        32
    } else if drow == 4 && dcol == 1 {
        33
    } else if drow == 4 && dcol == 2 {
        34
    } else if drow == 4 && dcol == 3 {
        35
    } else if drow == 4 && dcol == 4 {
        36
    } else if drow == 4 && dcol == 5 {
        37
    } else if drow == 4 && dcol == 6 {
        38
    } else if drow == 4 && dcol == 7 {
        39
    } else if drow == 4 && dcol == 8 {
        40
    } else if drow == 4 && dcol == 9 {
        41
    } else if drow == 5 && dcol == 0 {
        42
    } else if drow == 5 && dcol == 1 {
        43
    } else if drow == 5 && dcol == 2 {
        44
    } else if drow == 5 && dcol == 3 {
        45
    } else if drow == 5 && dcol == 4 {
        46
    } else if drow == 5 && dcol == 5 {
        47
    } else if drow == 5 && dcol == 6 {
        48
    } else if drow == 5 && dcol == 7 {
        49
    } else if drow == 5 && dcol == 8 {
        50
    } else if drow == 5 && dcol == 9 {
        51
    } else {
        -1
    }
}

proof fn lemma_nc2000_shape()
    ensures
        layout_nc2000_spec().len() == 52,
        forall|i: int| 0 <= i < layout_nc2000_spec().len() ==> {
            let k = #[trigger] layout_nc2000_spec()[i];
            &&& k.drow < 6 && k.dcol < 10 && k.row < 8 && k.col < 8
            &&& nc2000_at(k.row, k.col) == i
            &&& nc2000_placed(k.drow, k.dcol) == i
        },
{
    let keys = layout_nc2000_spec();
    assert forall|i: int| 0 <= i < keys.len() implies {
        let k = #[trigger] keys[i];
        &&& k.drow < 6 && k.dcol < 10 && k.row < 8 && k.col < 8
        &&& nc2000_at(k.row, k.col) == i
        &&& nc2000_placed(k.drow, k.dcol) == i
    } by {
        if i == 0 {
            assert(nc2000_at(3, 1) == 0);
            assert(nc2000_placed(0, 0) == 0);
        } else if i == 1 {
            assert(nc2000_at(4, 1) == 1);
            assert(nc2000_placed(0, 1) == 1);
        } else if i == 2 {
            assert(nc2000_at(5, 1) == 2);
            assert(nc2000_placed(0, 2) == 2);
        } else if i == 3 {
            assert(nc2000_at(2, 1) == 3);
            assert(nc2000_placed(0, 3) == 3);
        } else if i == 4 {
            assert(nc2000_at(1, 1) == 4);
            assert(nc2000_placed(0, 4) == 4);
        } else if i == 5 {
            assert(nc2000_at(0, 1) == 5);
            assert(nc2000_placed(0, 5) == 5);
        } else if i == 6 {
            assert(nc2000_at(6, 1) == 6);
            assert(nc2000_placed(0, 6) == 6);
        } else if i == 7 {
            assert(nc2000_at(0, 2) == 7);
            assert(nc2000_placed(1, 2) == 7);
        } else if i == 8 {
            assert(nc2000_at(1, 2) == 8);
            assert(nc2000_placed(1, 3) == 8);
        } else if i == 9 {
            assert(nc2000_at(2, 2) == 9);
            assert(nc2000_placed(1, 4) == 9);
        } else if i == 10 {
            assert(nc2000_at(3, 2) == 10);
            assert(nc2000_placed(1, 5) == 10);
        } else if i == 11 {
            assert(nc2000_at(0, 0) == 11);
            assert(nc2000_placed(1, 8) == 11);
        } else if i == 12 {
            assert(nc2000_at(0, 4) == 12);
            assert(nc2000_placed(2, 0) == 12);
        } else if i == 13 {
            assert(nc2000_at(1, 4) == 13);
            assert(nc2000_placed(2, 1) == 13);
        } else if i == 14 {
            assert(nc2000_at(2, 4) == 14);
            assert(nc2000_placed(2, 2) == 14);
        } else if i == 15 {
            assert(nc2000_at(3, 4) == 15);
            assert(nc2000_placed(2, 3) == 15);
        } else if i == 16 {
            assert(nc2000_at(4, 4) == 16);
            assert(nc2000_placed(2, 4) == 16);
        } else if i == 17 {
            assert(nc2000_at(5, 4) == 17);
            assert(nc2000_placed(2, 5) == 17);
        } else if i == 18 {
            assert(nc2000_at(6, 4) == 18);
            assert(nc2000_placed(2, 6) == 18);
        } else if i == 19 {
            assert(nc2000_at(7, 4) == 19);
            assert(nc2000_placed(2, 7) == 19);
        } else if i == 20 {
            assert(nc2000_at(0, 3) == 20);
            assert(nc2000_placed(2, 8) == 20);
        } else if i == 21 {
            assert(nc2000_at(4, 3) == 21);
            assert(nc2000_placed(2, 9) == 21);
        } else if i == 22 {
            assert(nc2000_at(0, 5) == 22);
            assert(nc2000_placed(3, 0) == 22);
        } else if i == 23 {
            assert(nc2000_at(1, 5) == 23);
            assert(nc2000_placed(3, 1) == 23);
        } else if i == 24 {
            assert(nc2000_at(2, 5) == 24);
            assert(nc2000_placed(3, 2) == 24);
        } else if i == 25 {
            assert(nc2000_at(3, 5) == 25);
            assert(nc2000_placed(3, 3) == 25);
        } else if i == 26 {
            assert(nc2000_at(4, 5) == 26);
            assert(nc2000_placed(3, 4) == 26);
        } else if i == 27 {
            assert(nc2000_at(5, 5) == 27);
            assert(nc2000_placed(3, 5) == 27);
        } else if i == 28 {
            assert(nc2000_at(6, 5) == 28);
            assert(nc2000_placed(3, 6) == 28);
        } else if i == 29 {
            assert(nc2000_at(7, 5) == 29);
            assert(nc2000_placed(3, 7) == 29);
        } else if i == 30 {
            assert(nc2000_at(1, 3) == 30);
            assert(nc2000_placed(3, 8) == 30);
        } else if i == 31 {
            assert(nc2000_at(5, 3) == 31);
            assert(nc2000_placed(3, 9) == 31);
        } else if i == 32 {
            assert(nc2000_at(0, 6) == 32);
            assert(nc2000_placed(4, 0) == 32);
        } else if i == 33 {
            assert(nc2000_at(1, 6) == 33);
            assert(nc2000_placed(4, 1) == 33);
        } else if i == 34 {
            assert(nc2000_at(2, 6) == 34);
            assert(nc2000_placed(4, 2) == 34);
        } else if i == 35 {
            assert(nc2000_at(3, 6) == 35);
            assert(nc2000_placed(4, 3) == 35);
        } else if i == 36 {
            assert(nc2000_at(4, 6) == 36);
            assert(nc2000_placed(4, 4) == 36);
        } else if i == 37 {
            assert(nc2000_at(5, 6) == 37);
            assert(nc2000_placed(4, 5) == 37);
        } else if i == 38 {
            assert(nc2000_at(6, 6) == 38);
            assert(nc2000_placed(4, 6) == 38);
        } else if i == 39 {
            assert(nc2000_at(7, 6) == 39);
            assert(nc2000_placed(4, 7) == 39);
        } else if i == 40 {
            assert(nc2000_at(2, 3) == 40);
            assert(nc2000_placed(4, 8) == 40);
        } else if i == 41 {
            assert(nc2000_at(6, 3) == 41);
            assert(nc2000_placed(4, 9) == 41);
        } else if i == 42 {
            assert(nc2000_at(0, 7) == 42);
            assert(nc2000_placed(5, 0) == 42);
        } else if i == 43 {
            assert(nc2000_at(1, 7) == 43);
            assert(nc2000_placed(5, 1) == 43);
        } else if i == 44 {
            assert(nc2000_at(2, 7) == 44);
            assert(nc2000_placed(5, 2) == 44);
        } else if i == 45 {
            assert(nc2000_at(3, 7) == 45);
            assert(nc2000_placed(5, 3) == 45);
        } else if i == 46 {
            assert(nc2000_at(4, 7) == 46);
            assert(nc2000_placed(5, 4) == 46);
        } else if i == 47 {
            assert(nc2000_at(5, 7) == 47);
            assert(nc2000_placed(5, 5) == 47);
        } else if i == 48 {
            assert(nc2000_at(6, 7) == 48);
            assert(nc2000_placed(5, 6) == 48);
        } else if i == 49 {
            assert(nc2000_at(7, 7) == 49);
            assert(nc2000_placed(5, 7) == 49);
        } else if i == 50 {
            assert(nc2000_at(3, 3) == 50);
            assert(nc2000_placed(5, 8) == 50);
        } else if i == 51 {
            assert(nc2000_at(7, 3) == 51);
            assert(nc2000_placed(5, 9) == 51);
        }
    }
}

/// The legend parts of each NC3000 key, in layout order.
pub open spec fn nc3000_parts() -> Seq<Seq<Seq<char>>> {
    seq![
        seq![seq!['G', 'A', 'M', 'E'], seq!['F', '5']],
        seq![seq!['C', 'A', 'L', 'C'], seq!['F', '6']],
        seq![seq!['T', 'I', 'M', 'E'], seq!['F', '7']],
        seq![seq!['D', 'I', 'C', 'T'], seq!['F', '9']],
        seq![seq!['L', 'E', 'X'], seq!['F', '1', '0']],
        seq![seq!['S', 'T', 'U', 'D', 'Y'], seq!['F', '1', '1']],
        seq![seq!['F', '1'], seq!['F', '1']],
        seq![seq!['F', '2'], seq!['F', '2']],
        seq![seq!['F', '3'], seq!['F', '3']],
        seq![seq!['F', '4'], seq!['F', '4']],
        seq![seq!['P', 'W', 'R'], seq!['F', '1', '2']],
        seq![seq!['Q'], seq!['Q']],
        seq![seq!['W'], seq!['W']],
        seq![seq!['E'], seq!['E']],
        seq![seq!['R'], seq!['R']],
        seq![seq!['T'], seq!['T'], seq!['7']],
        seq![seq!['Y'], seq!['Y'], seq!['8']],
        seq![seq!['U'], seq!['U'], seq!['9']],
        seq![seq!['I'], seq!['I']],
        seq![seq!['O'], seq!['O']],
        seq![seq!['P'], seq!['P']],
        seq![seq!['A'], seq!['A']],
        seq![seq!['S'], seq!['S']],
        seq![seq!['D'], seq!['D']],
        seq![seq!['F'], seq!['F']],
        seq![seq!['G'], seq!['G'], seq!['4']],
        seq![seq!['H'], seq!['H'], seq!['5']],
        seq![seq!['J'], seq!['J'], seq!['6']],
        seq![seq!['K'], seq!['K']],
        seq![seq!['L'], seq!['L']],
        seq![seq!['E', 'N', 'T'], seq!['E', 'N', 'T']],
        seq![seq!['Z'], seq!['Z']],
        seq![seq!['X'], seq!['X']],
        seq![seq!['C'], seq!['C']],
        seq![seq!['V'], seq!['V']],
        seq![seq!['B'], seq!['B'], seq!['1']],
        seq![seq!['N'], seq!['N'], seq!['2']],
        seq![seq!['M'], seq!['M'], seq!['3']],
        seq![seq!['P', 'G', 'U', 'P'], seq!['P', 'G', 'U', 'P']],
        seq![seq!['U', 'P'], seq!['U', 'P']],
        seq![seq!['P', 'G', 'D', 'N'], seq!['P', 'G', 'D', 'N']],
        seq![seq!['H', 'E', 'L', 'P'], Seq::<char>::empty()],
        seq![seq!['S', 'H', 'I', 'F', 'T'], Seq::<char>::empty()],
        seq![seq!['I', 'M', 'E'], Seq::<char>::empty()],
        seq![seq!['E', 'S', 'C'], seq!['E', 'S', 'C']],
        seq![seq!['0'], seq!['0']],
        seq![seq!['.'], seq!['.']],
        seq![seq!['S', 'P', 'C'], seq!['S', 'P', 'C']],
        seq![seq!['L', 'T'], seq!['L', 'T']],
        seq![seq!['D', 'N'], seq!['D', 'N']],
        seq![seq!['R', 'T'], seq!['R', 'T']],
    ]
}

proof fn lemma_nc3000_parts()
    ensures
        forall|i: int| 0 <= i < layout_nc3000_spec().len() ==> key_parts(#[trigger] layout_nc3000_spec()[i]) == nc3000_parts()[i],
{
    let keys = layout_nc3000_spec();
    let table = nc3000_parts();
    assert forall|i: int| 0 <= i < keys.len() implies key_parts(#[trigger] keys[i]) == table[i] by {
        if i == 0 {
            lemma_split_parts_single(seq!['G', 'A', 'M', 'E']);
            lemma_split_parts_single(seq!['F', '5']);
            assert(key_parts(keys[i]) =~= table[i]);
        } else if i == 1 {
            lemma_split_parts_single(seq!['C', 'A', 'L', 'C']);
            lemma_split_parts_single(seq!['F', '6']);
            assert(key_parts(keys[i]) =~= table[i]);
        } else if i == 2 {
            lemma_split_parts_single(seq!['T', 'I', 'M', 'E']);
            lemma_split_parts_single(seq!['F', '7']);
            assert(key_parts(keys[i]) =~= table[i]);
        } else if i == 3 {
            lemma_split_parts_single(seq!['D', 'I', 'C', 'T']);
            lemma_split_parts_single(seq!['F', '9']);
            assert(key_parts(keys[i]) =~= table[i]);
        } else if i == 4 {
            lemma_split_parts_single(seq!['L', 'E', 'X']);
            lemma_split_parts_single(seq!['F', '1', '0']);
            assert(key_parts(keys[i]) =~= table[i]);
        } else if i == 5 {
            lemma_split_parts_single(seq!['S', 'T', 'U', 'D', 'Y']);
            lemma_split_parts_single(seq!['F', '1', '1']);
            assert(key_parts(keys[i]) =~= table[i]);
        } else if i == 6 {
            lemma_split_parts_single(seq!['F', '1']);
            lemma_split_parts_single(seq!['F', '1']);
            assert(key_parts(keys[i]) =~= table[i]);
        } else if i == 7 {
            lemma_split_parts_single(seq!['F', '2']);
            lemma_split_parts_single(seq!['F', '2']);
            assert(key_parts(keys[i]) =~= table[i]);
        } else if i == 8 {
            lemma_split_parts_single(seq!['F', '3']);
            lemma_split_parts_single(seq!['F', '3']);
            assert(key_parts(keys[i]) =~= table[i]);
        } else if i == 9 {
            lemma_split_parts_single(seq!['F', '4']);
            lemma_split_parts_single(seq!['F', '4']);
            assert(key_parts(keys[i]) =~= table[i]);
        } else if i == 10 {
            lemma_split_parts_single(seq!['P', 'W', 'R']);
            lemma_split_parts_single(seq!['F', '1', '2']);
            assert(key_parts(keys[i]) =~= table[i]);
        } else if i == 11 {
            lemma_split_parts_single(seq!['Q']);
            lemma_split_parts_single(seq!['Q']);
            assert(key_parts(keys[i]) =~= table[i]);
        } else if i == 12 {
            lemma_split_parts_single(seq!['W']);
            lemma_split_parts_single(seq!['W']);
            assert(key_parts(keys[i]) =~= table[i]);
        } else if i == 13 {
            lemma_split_parts_single(seq!['E']);
            lemma_split_parts_single(seq!['E']);
            assert(key_parts(keys[i]) =~= table[i]);
        } else if i == 14 {
            lemma_split_parts_single(seq!['R']);
            lemma_split_parts_single(seq!['R']);
            assert(key_parts(keys[i]) =~= table[i]);
        } else if i == 15 {
            lemma_split_parts_single(seq!['T']);
            lemma_split_parts_pair(seq!['T'], seq!['7']);
            assert(seq!['T', '/', '7'] =~= seq!['T'] + seq!['/'] + seq!['7']);
            assert(key_parts(keys[i]) =~= table[i]);
        } else if i == 16 {
            lemma_split_parts_single(seq!['Y']);
            lemma_split_parts_pair(seq!['Y'], seq!['8']);
            assert(seq!['Y', '/', '8'] =~= seq!['Y'] + seq!['/'] + seq!['8']);
            assert(key_parts(keys[i]) =~= table[i]);
        } else if i == 17 {
            lemma_split_parts_single(seq!['U']);
            lemma_split_parts_pair(seq!['U'], seq!['9']);
            assert(seq!['U', '/', '9'] =~= seq!['U'] + seq!['/'] + seq!['9']);
            assert(key_parts(keys[i]) =~= table[i]);
        } else if i == 18 {
            lemma_split_parts_single(seq!['I']);
            lemma_split_parts_single(seq!['I']);
            assert(key_parts(keys[i]) =~= table[i]);
        } else if i == 19 {
            lemma_split_parts_single(seq!['O']);
            lemma_split_parts_single(seq!['O']);
            assert(key_parts(keys[i]) =~= table[i]);
        } else if i == 20 {
            lemma_split_parts_single(seq!['P']);
            lemma_split_parts_single(seq!['P']);
            assert(key_parts(keys[i]) =~= table[i]);
        } else if i == 21 {
            lemma_split_parts_single(seq!['A']);
            lemma_split_parts_single(seq!['A']);
            assert(key_parts(keys[i]) =~= table[i]);
        } else if i == 22 {
            lemma_split_parts_single(seq!['S']);
            lemma_split_parts_single(seq!['S']);
            assert(key_parts(keys[i]) =~= table[i]);
        } else if i == 23 {
            lemma_split_parts_single(seq!['D']);
            lemma_split_parts_single(seq!['D']);
            assert(key_parts(keys[i]) =~= table[i]);
        } else if i == 24 {
            lemma_split_parts_single(seq!['F']);
            lemma_split_parts_single(seq!['F']);
            assert(key_parts(keys[i]) =~= table[i]);
        } else if i == 25 {
            lemma_split_parts_single(seq!['G']);
            lemma_split_parts_pair(seq!['G'], seq!['4']);
            assert(seq!['G', '/', '4'] =~= seq!['G'] + seq!['/'] + seq!['4']);
            assert(key_parts(keys[i]) =~= table[i]);
        } else if i == 26 {
            lemma_split_parts_single(seq!['H']);
            lemma_split_parts_pair(seq!['H'], seq!['5']);
            assert(seq!['H', '/', '5'] =~= seq!['H'] + seq!['/'] + seq!['5']);
            assert(key_parts(keys[i]) =~= table[i]);
        } else if i == 27 {
            lemma_split_parts_single(seq!['J']);
            lemma_split_parts_pair(seq!['J'], seq!['6']);
            assert(seq!['J', '/', '6'] =~= seq!['J'] + seq!['/'] + seq!['6']);
            assert(key_parts(keys[i]) =~= table[i]);
        } else if i == 28 {
            lemma_split_parts_single(seq!['K']);
            lemma_split_parts_single(seq!['K']);
            assert(key_parts(keys[i]) =~= table[i]);
        } else if i == 29 {
            lemma_split_parts_single(seq!['L']);
            lemma_split_parts_single(seq!['L']);
            assert(key_parts(keys[i]) =~= table[i]);
        } else if i == 30 {
            lemma_split_parts_single(seq!['E', 'N', 'T']);
            lemma_split_parts_single(seq!['E', 'N', 'T']);
            assert(key_parts(keys[i]) =~= table[i]);
        } else if i == 31 {
            lemma_split_parts_single(seq!['Z']);
            lemma_split_parts_single(seq!['Z']);
            assert(key_parts(keys[i]) =~= table[i]);
        } else if i == 32 {
            lemma_split_parts_single(seq!['X']);
            lemma_split_parts_single(seq!['X']);
            assert(key_parts(keys[i]) =~= table[i]);
        } else if i == 33 {
            lemma_split_parts_single(seq!['C']);
            lemma_split_parts_single(seq!['C']);
            assert(key_parts(keys[i]) =~= table[i]);
        } else if i == 34 {
            lemma_split_parts_single(seq!['V']);
            lemma_split_parts_single(seq!['V']);
            assert(key_parts(keys[i]) =~= table[i]);
        } else if i == 35 {
            lemma_split_parts_single(seq!['B']);
            lemma_split_parts_pair(seq!['B'], seq!['1']);
            assert(seq!['B', '/', '1'] =~= seq!['B'] + seq!['/'] + seq!['1']);
            assert(key_parts(keys[i]) =~= table[i]);
        } else if i == 36 {
            lemma_split_parts_single(seq!['N']);
            lemma_split_parts_pair(seq!['N'], seq!['2']);
            assert(seq!['N', '/', '2'] =~= seq!['N'] + seq!['/'] + seq!['2']);
            assert(key_parts(keys[i]) =~= table[i]);
        } else if i == 37 {
            lemma_split_parts_single(seq!['M']);
            lemma_split_parts_pair(seq!['M'], seq!['3']);
            assert(seq!['M', '/', '3'] =~= seq!['M'] + seq!['/'] + seq!['3']);
            assert(key_parts(keys[i]) =~= table[i]);
        } else if i == 38 {
            lemma_split_parts_single(seq!['P', 'G', 'U', 'P']);
            lemma_split_parts_single(seq!['P', 'G', 'U', 'P']);
            assert(key_parts(keys[i]) =~= table[i]);
        } else if i == 39 {
            lemma_split_parts_single(seq!['U', 'P']);
            lemma_split_parts_single(seq!['U', 'P']);
            assert(key_parts(keys[i]) =~= table[i]);
        } else if i == 40 {
            lemma_split_parts_single(seq!['P', 'G', 'D', 'N']);
            lemma_split_parts_single(seq!['P', 'G', 'D', 'N']);
            assert(key_parts(keys[i]) =~= table[i]);
        } else if i == 41 {
            lemma_split_parts_single(seq!['H', 'E', 'L', 'P']);
            lemma_split_parts_single(Seq::<char>::empty());
            assert(key_parts(keys[i]) =~= table[i]);
        } else if i == 42 {
            lemma_split_parts_single(seq!['S', 'H', 'I', 'F', 'T']);
            lemma_split_parts_single(Seq::<char>::empty());
            assert(key_parts(keys[i]) =~= table[i]);
        } else if i == 43 {
            lemma_split_parts_single(seq!['I', 'M', 'E']);
            lemma_split_parts_single(Seq::<char>::empty());
            assert(key_parts(keys[i]) =~= table[i]);
        } else if i == 44 {
            lemma_split_parts_single(seq!['E', 'S', 'C']);
            lemma_split_parts_single(seq!['E', 'S', 'C']);
            assert(key_parts(keys[i]) =~= table[i]);
        } else if i == 45 {
            lemma_split_parts_single(seq!['0']);
            lemma_split_parts_single(seq!['0']);
            assert(key_parts(keys[i]) =~= table[i]);
        } else if i == 46 {
            lemma_split_parts_single(seq!['.']);
            lemma_split_parts_single(seq!['.']);
            assert(key_parts(keys[i]) =~= table[i]);
        } else if i == 47 {
            lemma_split_parts_single(seq!['S', 'P', 'C']);
            lemma_split_parts_single(seq!['S', 'P', 'C']);
            assert(key_parts(keys[i]) =~= table[i]);
        } else if i == 48 {
            lemma_split_parts_single(seq!['L', 'T']);
            lemma_split_parts_single(seq!['L', 'T']);
            assert(key_parts(keys[i]) =~= table[i]);
        } else if i == 49 {
            lemma_split_parts_single(seq!['D', 'N']);
            lemma_split_parts_single(seq!['D', 'N']);
            assert(key_parts(keys[i]) =~= table[i]);
        } else if i == 50 {
            lemma_split_parts_single(seq!['R', 'T']);
            lemma_split_parts_single(seq!['R', 'T']);
            assert(key_parts(keys[i]) =~= table[i]);
        }
    }
}

/// The index of the NC3000 key carrying a legend part, or -1.
pub open spec fn nc3000_owner(part: Seq<char>) -> int {
    if part.len() == 4 && part[0] == 'G' && part[1] == 'A' && part[2] == 'M' && part[3] == 'E' {
        0
    } else if part.len() == 2 && part[0] == 'F' && part[1] == '5' {
        0
    } else if part.len() == 4 && part[0] == 'C' && part[1] == 'A' && part[2] == 'L' && part[3] == 'C' {
        1
    } else if part.len() == 2 && part[0] == 'F' && part[1] == '6' {
        1
    } else if part.len() == 4 && part[0] == 'T' && part[1] == 'I' && part[2] == 'M' && part[3] == 'E' {
        2
    } else if part.len() == 2 && part[0] == 'F' && part[1] == '7' {
        2
    } else if part.len() == 4 && part[0] == 'D' && part[1] == 'I' && part[2] == 'C' && part[3] == 'T' {
        3
    } else if part.len() == 2 && part[0] == 'F' && part[1] == '9' {
        3
    } else if part.len() == 3 && part[0] == 'L' && part[1] == 'E' && part[2] == 'X' {
        4
    } else if part.len() == 3 && part[0] == 'F' && part[1] == '1' && part[2] == '0' {
        4
    } else if part.len() == 5 && part[0] == 'S' && part[1] == 'T' && part[2] == 'U' && part[3] == 'D' && part[4] == 'Y' {
        5
    } else if part.len() == 3 && part[0] == 'F' && part[1] == '1' && part[2] == '1' {
        5
    } else if part.len() == 2 && part[0] == 'F' && part[1] == '1' {
        6
    } else if part.len() == 2 && part[0] == 'F' && part[1] == '2' {
        7
    } else if part.len() == 2 && part[0] == 'F' && part[1] == '3' {
        8
    } else if part.len() == 2 && part[0] == 'F' && part[1] == '4' {
        9
    } else if part.len() == 3 && part[0] == 'P' && part[1] == 'W' && part[2] == 'R' {
        10
    } else if part.len() == 3 && part[0] == 'F' && part[1] == '1' && part[2] == '2' {
        10
    } else if part.len() == 1 && part[0] == 'Q' {
        11
    } else if part.len() == 1 && part[0] == 'W' {
        12
    } else if part.len() == 1 && part[0] == 'E' {
        13
    } else if part.len() == 1 && part[0] == 'R' {
        14
    } else if part.len() == 1 && part[0] == 'T' {
        15
    } else if part.len() == 1 && part[0] == '7' {
        15
    } else if part.len() == 1 && part[0] == 'Y' {
        16
    } else if part.len() == 1 && part[0] == '8' {
        16
    } else if part.len() == 1 && part[0] == 'U' {
        17
    } else if part.len() == 1 && part[0] == '9' {
        17
    } else if part.len() == 1 && part[0] == 'I' {
        18
    } else if part.len() == 1 && part[0] == 'O' {
        19
    } else if part.len() == 1 && part[0] == 'P' {
        20
    } else if part.len() == 1 && part[0] == 'A' {
        21
    } else if part.len() == 1 && part[0] == 'S' {
        22
    } else if part.len() == 1 && part[0] == 'D' {
        23
    } else if part.len() == 1 && part[0] == 'F' {
        24
    } else if part.len() == 1 && part[0] == 'G' {
        25
    } else if part.len() == 1 && part[0] == '4' {
        25
    } else if part.len() == 1 && part[0] == 'H' {
        26
    } else if part.len() == 1 && part[0] == '5' {
        26
    } else if part.len() == 1 && part[0] == 'J' {
        27
    } else if part.len() == 1 && part[0] == '6' {
        27
    } else if part.len() == 1 && part[0] == 'K' {
        28
    } else if part.len() == 1 && part[0] == 'L' {
        29
    } else if part.len() == 3 && part[0] == 'E' && part[1] == 'N' && part[2] == 'T' {
        30
    } else if part.len() == 1 && part[0] == 'Z' {
        31
    } else if part.len() == 1 && part[0] == 'X' {
        32
    } else if part.len() == 1 && part[0] == 'C' {
        33
    } else if part.len() == 1 && part[0] == 'V' {
        34
    } else if part.len() == 1 && part[0] == 'B' {
        35
    } else if part.len() == 1 && part[0] == '1' {
        35
    } else if part.len() == 1 && part[0] == 'N' {
        36
    } else if part.len() == 1 && part[0] == '2' {
        36
    } else if part.len() == 1 && part[0] == 'M' {
        37
    } else if part.len() == 1 && part[0] == '3' {
        37
    } else if part.len() == 4 && part[0] == 'P' && part[1] == 'G' && part[2] == 'U' && part[3] == 'P' {
        38
    } else if part.len() == 2 && part[0] == 'U' && part[1] == 'P' {
        39
    } else if part.len() == 4 && part[0] == 'P' && part[1] == 'G' && part[2] == 'D' && part[3] == 'N' {
        40
    } else if part.len() == 4 && part[0] == 'H' && part[1] == 'E' && part[2] == 'L' && part[3] == 'P' {
        41
    } else if part.len() == 5 && part[0] == 'S' && part[1] == 'H' && part[2] == 'I' && part[3] == 'F' && part[4] == 'T' {
        42
    } else if part.len() == 3 && part[0] == 'I' && part[1] == 'M' && part[2] == 'E' {
        43
    } else if part.len() == 3 && part[0] == 'E' && part[1] == 'S' && part[2] == 'C' {
        44
    } else if part.len() == 1 && part[0] == '0' {
        45
    } else if part.len() == 1 && part[0] == '.' {
        46
    } else if part.len() == 3 && part[0] == 'S' && part[1] == 'P' && part[2] == 'C' {
        47
    } else if part.len() == 2 && part[0] == 'L' && part[1] == 'T' {
        48
    } else if part.len() == 2 && part[0] == 'D' && part[1] == 'N' {
        49
    } else if part.len() == 2 && part[0] == 'R' && part[1] == 'T' {
        50
    } else {
        -1
    }
}

proof fn lemma_nc3000_owner()
    ensures
        forall|i: int, k: int|
            0 <= i < nc3000_parts().len() && 0 <= k < nc3000_parts()[i].len() && (#[trigger] nc3000_parts()[i][k]).len() > 0 ==> nc3000_owner(nc3000_parts()[i][k]) == i,
{
    let table = nc3000_parts();
    assert forall|i: int, k: int| 0 <= i < table.len() && 0 <= k < table[i].len() && (#[trigger] table[i][k]).len() > 0 implies nc3000_owner(table[i][k]) == i by {
        if i == 0 {
            assert(nc3000_owner(seq!['G', 'A', 'M', 'E']) == 0);
            assert(nc3000_owner(seq!['F', '5']) == 0);
        } else if i == 1 {
            assert(nc3000_owner(seq!['C', 'A', 'L', 'C']) == 1);
            assert(nc3000_owner(seq!['F', '6']) == 1);
        } else if i == 2 {
            assert(nc3000_owner(seq!['T', 'I', 'M', 'E']) == 2);
            assert(nc3000_owner(seq!['F', '7']) == 2);
        } else if i == 3 {
            assert(nc3000_owner(seq!['D', 'I', 'C', 'T']) == 3);
            assert(nc3000_owner(seq!['F', '9']) == 3);
        } else if i == 4 {
            assert(nc3000_owner(seq!['L', 'E', 'X']) == 4);
            assert(nc3000_owner(seq!['F', '1', '0']) == 4);
        } else if i == 5 {
            assert(nc3000_owner(seq!['S', 'T', 'U', 'D', 'Y']) == 5);
            assert(nc3000_owner(seq!['F', '1', '1']) == 5);
        } else if i == 6 {
            assert(nc3000_owner(seq!['F', '1']) == 6);
            assert(nc3000_owner(seq!['F', '1']) == 6);
        } else if i == 7 {
            assert(nc3000_owner(seq!['F', '2']) == 7);
            assert(nc3000_owner(seq!['F', '2']) == 7);
        } else if i == 8 {
            assert(nc3000_owner(seq!['F', '3']) == 8);
            assert(nc3000_owner(seq!['F', '3']) == 8);
        } else if i == 9 {
            assert(nc3000_owner(seq!['F', '4']) == 9);
            assert(nc3000_owner(seq!['F', '4']) == 9);
        } else if i == 10 {
            assert(nc3000_owner(seq!['P', 'W', 'R']) == 10);
            assert(nc3000_owner(seq!['F', '1', '2']) == 10);
        } else if i == 11 {
            assert(nc3000_owner(seq!['Q']) == 11);
            assert(nc3000_owner(seq!['Q']) == 11);
        } else if i == 12 {
            assert(nc3000_owner(seq!['W']) == 12);
            assert(nc3000_owner(seq!['W']) == 12);
        } else if i == 13 {
            assert(nc3000_owner(seq!['E']) == 13);
            assert(nc3000_owner(seq!['E']) == 13);
        } else if i == 14 {
            assert(nc3000_owner(seq!['R']) == 14);
            assert(nc3000_owner(seq!['R']) == 14);
        } else if i == 15 {
            assert(nc3000_owner(seq!['T']) == 15);
            assert(nc3000_owner(seq!['T']) == 15);
            assert(nc3000_owner(seq!['7']) == 15);
        } else if i == 16 {
            assert(nc3000_owner(seq!['Y']) == 16);
            assert(nc3000_owner(seq!['Y']) == 16);
            assert(nc3000_owner(seq!['8']) == 16);
        } else if i == 17 {
            assert(nc3000_owner(seq!['U']) == 17);
            assert(nc3000_owner(seq!['U']) == 17);
            assert(nc3000_owner(seq!['9']) == 17);
        } else if i == 18 {
            assert(nc3000_owner(seq!['I']) == 18);
            assert(nc3000_owner(seq!['I']) == 18);
        } else if i == 19 {
            assert(nc3000_owner(seq!['O']) == 19);
            assert(nc3000_owner(seq!['O']) == 19);
        } else if i == 20 {
            assert(nc3000_owner(seq!['P']) == 20);
            assert(nc3000_owner(seq!['P']) == 20);
        } else if i == 21 {
            assert(nc3000_owner(seq!['A']) == 21);
            assert(nc3000_owner(seq!['A']) == 21);
        } else if i == 22 {
            assert(nc3000_owner(seq!['S']) == 22);
            assert(nc3000_owner(seq!['S']) == 22);
        } else if i == 23 {
            assert(nc3000_owner(seq!['D']) == 23);
            assert(nc3000_owner(seq!['D']) == 23);
        } else if i == 24 {
            assert(nc3000_owner(seq!['F']) == 24);
            assert(nc3000_owner(seq!['F']) == 24);
        } else if i == 25 {
            assert(nc3000_owner(seq!['G']) == 25);
            assert(nc3000_owner(seq!['G']) == 25);
            assert(nc3000_owner(seq!['4']) == 25);
        } else if i == 26 {
            assert(nc3000_owner(seq!['H']) == 26);
            assert(nc3000_owner(seq!['H']) == 26);
            assert(nc3000_owner(seq!['5']) == 26);
        } else if i == 27 {
            assert(nc3000_owner(seq!['J']) == 27);
            assert(nc3000_owner(seq!['J']) == 27);
            assert(nc3000_owner(seq!['6']) == 27);
        } else if i == 28 {
            assert(nc3000_owner(seq!['K']) == 28);
            assert(nc3000_owner(seq!['K']) == 28);
        } else if i == 29 {
            assert(nc3000_owner(seq!['L']) == 29);
            assert(nc3000_owner(seq!['L']) == 29);
        } else if i == 30 {
            assert(nc3000_owner(seq!['E', 'N', 'T']) == 30);
            assert(nc3000_owner(seq!['E', 'N', 'T']) == 30);
        } else if i == 31 {
            assert(nc3000_owner(seq!['Z']) == 31);
            assert(nc3000_owner(seq!['Z']) == 31);
        } else if i == 32 {
            assert(nc3000_owner(seq!['X']) == 32);
            assert(nc3000_owner(seq!['X']) == 32);
        } else if i == 33 {
            assert(nc3000_owner(seq!['C']) == 33);
            assert(nc3000_owner(seq!['C']) == 33);
        } else if i == 34 {
            assert(nc3000_owner(seq!['V']) == 34);
            assert(nc3000_owner(seq!['V']) == 34);
        } else if i == 35 {
            assert(nc3000_owner(seq!['B']) == 35);
            assert(nc3000_owner(seq!['B']) == 35);
            assert(nc3000_owner(seq!['1']) == 35);
        } else if i == 36 {
            assert(nc3000_owner(seq!['N']) == 36);
            assert(nc3000_owner(seq!['N']) == 36);
            assert(nc3000_owner(seq!['2']) == 36);
        } else if i == 37 {
            assert(nc3000_owner(seq!['M']) == 37);
            assert(nc3000_owner(seq!['M']) == 37);
            assert(nc3000_owner(seq!['3']) == 37);
        } else if i == 38 {
            assert(nc3000_owner(seq!['P', 'G', 'U', 'P']) == 38);
            assert(nc3000_owner(seq!['P', 'G', 'U', 'P']) == 38);
        } else if i == 39 {
            assert(nc3000_owner(seq!['U', 'P']) == 39);
            assert(nc3000_owner(seq!['U', 'P']) == 39);
        } else if i == 40 {
            assert(nc3000_owner(seq!['P', 'G', 'D', 'N']) == 40);
            assert(nc3000_owner(seq!['P', 'G', 'D', 'N']) == 40);
        } else if i == 41 {
            assert(nc3000_owner(seq!['H', 'E', 'L', 'P']) == 41);
        } else if i == 42 {
            assert(nc3000_owner(seq!['S', 'H', 'I', 'F', 'T']) == 42);
        } else if i == 43 {
            assert(nc3000_owner(seq!['I', 'M', 'E']) == 43);
        } else if i == 44 {
            assert(nc3000_owner(seq!['E', 'S', 'C']) == 44);
            assert(nc3000_owner(seq!['E', 'S', 'C']) == 44);
        } else if i == 45 {
            assert(nc3000_owner(seq!['0']) == 45);
            assert(nc3000_owner(seq!['0']) == 45);
        } else if i == 46 {
            assert(nc3000_owner(seq!['.']) == 46);
            assert(nc3000_owner(seq!['.']) == 46);
        } else if i == 47 {
            assert(nc3000_owner(seq!['S', 'P', 'C']) == 47);
            assert(nc3000_owner(seq!['S', 'P', 'C']) == 47);
        } else if i == 48 {
            assert(nc3000_owner(seq!['L', 'T']) == 48);
            assert(nc3000_owner(seq!['L', 'T']) == 48);
        } else if i == 49 {
            assert(nc3000_owner(seq!['D', 'N']) == 49);
            assert(nc3000_owner(seq!['D', 'N']) == 49);
        } else if i == 50 {
            assert(nc3000_owner(seq!['R', 'T']) == 50);
            assert(nc3000_owner(seq!['R', 'T']) == 50);
        }
    }
}

proof fn lemma_nc3000_function_two()
    ensures
        forall|i: int, k: int|
            0 <= i < nc3000_parts().len() && 0 <= k < nc3000_parts()[i].len() && is_function_part(#[trigger] nc3000_parts()[i][k], 2) ==> i == 7,
        is_function_part(nc3000_parts()[7][0], 2),
{
    let table = nc3000_parts();
    assert(seq!['F', '2'].drop_first() =~= seq!['2']);
    assert(digits_value(Seq::<char>::empty()) == 0);
    assert(seq!['2'].drop_last() =~= Seq::<char>::empty());
    assert(digits_value(seq!['2']) == 2);
    assert forall|i: int, k: int| 0 <= i < table.len() && 0 <= k < table[i].len() && is_function_part(#[trigger] table[i][k], 2) implies i == 7 by {
        if i == 0 {
            assert(seq!['F', '5'].drop_first() =~= seq!['5']);
            assert(digits_value(Seq::<char>::empty()) == 0);
            assert(seq!['5'].drop_last() =~= Seq::<char>::empty());
            assert(digits_value(seq!['5']) == 5);
        } else if i == 1 {
            assert(seq!['F', '6'].drop_first() =~= seq!['6']);
            assert(digits_value(Seq::<char>::empty()) == 0);
            assert(seq!['6'].drop_last() =~= Seq::<char>::empty());
            assert(digits_value(seq!['6']) == 6);
        } else if i == 2 {
            assert(seq!['F', '7'].drop_first() =~= seq!['7']);
            assert(digits_value(Seq::<char>::empty()) == 0);
            assert(seq!['7'].drop_last() =~= Seq::<char>::empty());
            assert(digits_value(seq!['7']) == 7);
        } else if i == 3 {
            assert(seq!['F', '9'].drop_first() =~= seq!['9']);
            assert(digits_value(Seq::<char>::empty()) == 0);
            assert(seq!['9'].drop_last() =~= Seq::<char>::empty());
            assert(digits_value(seq!['9']) == 9);
        } else if i == 4 {
            assert(seq!['F', '1', '0'].drop_first() =~= seq!['1', '0']);
            assert(digits_value(Seq::<char>::empty()) == 0);
            assert(seq!['1'].drop_last() =~= Seq::<char>::empty());
            assert(digits_value(seq!['1']) == 1);
            assert(seq!['1', '0'].drop_last() =~= seq!['1']);
            assert(digits_value(seq!['1', '0']) == 10);
        } else if i == 5 {
            assert(seq!['F', '1', '1'].drop_first() =~= seq!['1', '1']);
            assert(digits_value(Seq::<char>::empty()) == 0);
            assert(seq!['1'].drop_last() =~= Seq::<char>::empty());
            assert(digits_value(seq!['1']) == 1);
            assert(seq!['1', '1'].drop_last() =~= seq!['1']);
            assert(digits_value(seq!['1', '1']) == 11);
        } else if i == 6 {
            assert(seq!['F', '1'].drop_first() =~= seq!['1']);
            assert(digits_value(Seq::<char>::empty()) == 0);
            assert(seq!['1'].drop_last() =~= Seq::<char>::empty());
            assert(digits_value(seq!['1']) == 1);
            assert(seq!['F', '1'].drop_first() =~= seq!['1']);
            assert(digits_value(Seq::<char>::empty()) == 0);
            assert(seq!['1'].drop_last() =~= Seq::<char>::empty());
            assert(digits_value(seq!['1']) == 1);
        } else if i == 7 {
            assert(seq!['F', '2'].drop_first() =~= seq!['2']);
            assert(digits_value(Seq::<char>::empty()) == 0);
            assert(seq!['2'].drop_last() =~= Seq::<char>::empty());
            assert(digits_value(seq!['2']) == 2);
            assert(seq!['F', '2'].drop_first() =~= seq!['2']);
            assert(digits_value(Seq::<char>::empty()) == 0);
            assert(seq!['2'].drop_last() =~= Seq::<char>::empty());
            assert(digits_value(seq!['2']) == 2);
        } else if i == 8 {
            assert(seq!['F', '3'].drop_first() =~= seq!['3']);
            assert(digits_value(Seq::<char>::empty()) == 0);
            assert(seq!['3'].drop_last() =~= Seq::<char>::empty());
            assert(digits_value(seq!['3']) == 3);
            assert(seq!['F', '3'].drop_first() =~= seq!['3']);
            assert(digits_value(Seq::<char>::empty()) == 0);
            assert(seq!['3'].drop_last() =~= Seq::<char>::empty());
            assert(digits_value(seq!['3']) == 3);
        } else if i == 9 {
            assert(seq!['F', '4'].drop_first() =~= seq!['4']);
            assert(digits_value(Seq::<char>::empty()) == 0);
            assert(seq!['4'].drop_last() =~= Seq::<char>::empty());
            assert(digits_value(seq!['4']) == 4);
            assert(seq!['F', '4'].drop_first() =~= seq!['4']);
            assert(digits_value(Seq::<char>::empty()) == 0);
            assert(seq!['4'].drop_last() =~= Seq::<char>::empty());
            assert(digits_value(seq!['4']) == 4);
        } else if i == 10 {
            assert(seq!['F', '1', '2'].drop_first() =~= seq!['1', '2']);
            assert(digits_value(Seq::<char>::empty()) == 0);
            assert(seq!['1'].drop_last() =~= Seq::<char>::empty());
            assert(digits_value(seq!['1']) == 1);
            assert(seq!['1', '2'].drop_last() =~= seq!['1']);
            assert(digits_value(seq!['1', '2']) == 12);
        } else if i == 11 {
        } else if i == 12 {
        } else if i == 13 {
        } else if i == 14 {
        } else if i == 15 {
        } else if i == 16 {
        } else if i == 17 {
        } else if i == 18 {
        } else if i == 19 {
        } else if i == 20 {
        } else if i == 21 {
        } else if i == 22 {
        } else if i == 23 {
        } else if i == 24 {
            assert(seq!['F'].drop_first() =~= Seq::<char>::empty());
            assert(seq!['F'].drop_first() =~= Seq::<char>::empty());
        } else if i == 25 {
        } else if i == 26 {
        } else if i == 27 {
        } else if i == 28 {
        } else if i == 29 {
        } else if i == 30 {
        } else if i == 31 {
        } else if i == 32 {
        } else if i == 33 {
        } else if i == 34 {
        } else if i == 35 {
        } else if i == 36 {
        } else if i == 37 {
        } else if i == 38 {
        } else if i == 39 {
        } else if i == 40 {
        } else if i == 41 {
        } else if i == 42 {
        } else if i == 43 {
        } else if i == 44 {
        } else if i == 45 {
        } else if i == 46 {
        } else if i == 47 {
        } else if i == 48 {
        } else if i == 49 {
        } else if i == 50 {
        }
    }
}

proof fn lemma_nc3000_alias(model: MachineModel, h: HostKey, a: Seq<char>, j: int, k0: int)
    requires
        layout_spec(model) == layout_nc3000_spec(),
        0 <= j < nc3000_parts().len(),
        0 <= k0 < nc3000_parts()[j].len(),
        nc3000_parts()[j][k0] == a,
        a.len() > 0,
        forall|kv: KeyView| #[trigger] key_matches(model, h, kv) == has_part(key_parts(kv), a),
    ensures
        host_key_id(model, h) == Some(layout_key_id(model, j)),
        key_parts(layout_spec(model)[j]) == nc3000_parts()[j],
{
    lemma_nc3000_parts();
    lemma_nc3000_owner();
    let keys = layout_spec(model);
    assert(keys.len() == nc3000_parts().len());
    assert(key_parts(keys[j]) == nc3000_parts()[j]);
    assert(key_parts(keys[j])[k0] == a);
    assert(key_matches(model, h, keys[j]));
    assert(nc3000_owner(a) == j);
    assert forall|i: int| 0 <= i < keys.len() && key_matches(model, h, #[trigger] keys[i]) implies i == j by {
        assert(key_parts(keys[i]) == nc3000_parts()[i]);
        let k = choose|k: int| 0 <= k < key_parts(keys[i]).len() && key_parts(keys[i])[k] == a;
        assert(nc3000_parts()[i][k] == a);
    }
    lemma_unique_match(model, h, j);
}

proof fn lemma_nc3000_function_key_two(model: MachineModel)
    requires
        layout_spec(model) == layout_nc3000_spec(),
    ensures
        host_key_id(model, HostKey::Function(2)) == Some(layout_key_id(model, 7)),
{
    lemma_nc3000_parts();
    lemma_nc3000_function_two();
    let keys = layout_spec(model);
    let h = HostKey::Function(2);
    assert(keys.len() == nc3000_parts().len());
    assert(key_parts(keys[7]) == nc3000_parts()[7]);
    assert(is_function_part(key_parts(keys[7])[0], 2));
    assert(key_matches(model, h, keys[7]));
    assert forall|i: int| 0 <= i < keys.len() && key_matches(model, h, #[trigger] keys[i]) implies i == 7 by {
        assert(key_parts(keys[i]) == nc3000_parts()[i]);
        let k = choose|k: int| 0 <= k < key_parts(keys[i]).len() && is_function_part(#[trigger] key_parts(keys[i])[k], 2);
        assert(is_function_part(nc3000_parts()[i][k], 2));
    }
    lemma_unique_match(model, h, 7);
}

/// The index of the NC3000 key at a matrix position, or -1.
pub open spec fn nc3000_at(row: u8, col: u8) -> int {
    if row == 1 && col == 0 {
        0
    } else if row == 2 && col == 0 {
        1
    } else if row == 3 && col == 0 {
        2
    } else if row == 5 && col == 0 {
        3
    } else if row == 6 && col == 0 {
        4
    } else if row == 7 && col == 0 {
        5
    } else if row == 0 && col == 2 {
        6
    } else if row == 1 && col == 2 {
        7
    } else if row == 2 && col == 2 {
        8
    } else if row == 3 && col == 2 {
        9
    } else if row == 0 && col == 0 {
        10
    } else if row == 0 && col == 4 {
        11
    } else if row == 1 && col == 4 {
        12
    } else if row == 2 && col == 4 {
        13
    } else if row == 3 && col == 4 {
        14
    } else if row == 4 && col == 4 {
        15
    } else if row == 5 && col == 4 {
        16
    } else if row == 6 && col == 4 {
        17
    } else if row == 7 && col == 4 {
        18
    } else if row == 0 && col == 3 {
        19
    } else if row == 4 && col == 3 {
        20
    } else if row == 0 && col == 5 {
        21
    } else if row == 1 && col == 5 {
        22
    } else if row == 2 && col == 5 {
        23
    } else if row == 3 && col == 5 {
        24
    } else if row == 4 && col == 5 {
        25
    } else if row == 5 && col == 5 {
        26
    } else if row == 6 && col == 5 {
        27
    } else if row == 7 && col == 5 {
        28
    } else if row == 1 && col == 3 {
        29
    } else if row == 5 && col == 3 {
        30
    } else if row == 0 && col == 6 {
        31
    } else if row == 1 && col == 6 {
        32
    } else if row == 2 && col == 6 {
        33
    } else if row == 3 && col == 6 {
        34
    } else if row == 4 && col == 6 {
        35
    } else if row == 5 && col == 6 {
        36
    } else if row == 6 && col == 6 {
        37
    } else if row == 7 && col == 6 {
        38
    } else if row == 2 && col == 3 {
        39
    } else if row == 6 && col == 3 {
        40
    } else if row == 0 && col == 7 {
        41
    } else if row == 1 && col == 7 {
        42
    } else if row == 2 && col == 7 {
        43
    } else if row == 3 && col == 7 {
        44
    } else if row == 4 && col == 7 {
        45
    } else if row == 5 && col == 7 {
        46
    } else if row == 6 && col == 7 {
        47
    } else if row == 7 && col == 7 {
        48
    } else if row == 3 && col == 3 {
        49
    } else if row == 7 && col == 3 {
        50
    } else {
        -1
    }
}

/// The index of the NC3000 key at a display position, or -1.
pub open spec fn nc3000_placed(drow: u8, dcol: u8) -> int {
    if drow == 0 && dcol == 0 {
        0
    } else if drow == 0 && dcol == 1 {
        1
    } else if drow == 0 && dcol == 2 {
        2
    } else if drow == 0 && dcol == 3 {
        3
    } else if drow == 0 && dcol == 4 {
        4
    } else if drow == 0 && dcol == 5 {
        5
    } else if drow == 1 && dcol == 2 {
        6
    } else if drow == 1 && dcol == 3 {
        7
    } else if drow == 1 && dcol == 4 {
        8
    } else if drow == 1 && dcol == 5 {
        9
    } else if drow == 1 && dcol == 8 {
        10
    } else if drow == 2 && dcol == 0 {
        11
    } else if drow == 2 && dcol == 1 {
        12
    } else if drow == 2 && dcol == 2 {
        13
    } else if drow == 2 && dcol == 3 {
        14
    } else if drow == 2 && dcol == 4 {
        15
    } else if drow == 2 && dcol == 5 {
        16
    } else if drow == 2 && dcol == 6 {
        17
    } else if drow == 2 && dcol == 7 {
        18
    } else if drow == 2 && dcol == 8 {
        19
    } else if drow == 2 && dcol == 9 {
        20
    } else if drow == 3 && dcol == 0 {
        21
    } else if drow == 3 && dcol == 1 {
        22
    } else if drow == 3 && dcol == 2 {
        23
    } else if drow == 3 && dcol == 3 {
        24
    } else if drow == 3 && dcol == 4 {
        25
    } else if drow == 3 && dcol == 5 {
        26
    } else if drow == 3 && dcol == 6 {
        27
    } else if drow == 3 && dcol == 7 {
        28
    } else if drow == 3 && dcol == 8 {
        29
    } else if drow == 3 && dcol == 9 {
        30
    } else if drow == 4 && dcol == 0 {
        31
    } else if drow == 4 && dcol == 1 {
        32
    } else if drow == 4 && dcol == 2 {
        33
    } else if drow == 4 && dcol == 3 {
        34
    } else if drow == 4 && dcol == 4 {
        35
    } else if drow == 4 && dcol == 5 {
        36
    } else if drow == 4 && dcol == 6 {
        37
    } else if drow == 4 && dcol == 7 {
        38
    } else if drow == 4 && dcol == 8 {
        39
    } else if drow == 4 && dcol == 9 {
        40
    } else if drow == 5 && dcol == 0 {
        41
    } else if drow == 5 && dcol == 1 {
        42
    } else if drow == 5 && dcol == 2 {
        43
    } else if drow == 5 && dcol == 3 {
        44
    } else if drow == 5 && dcol == 4 {
        45
    } else if drow == 5 && dcol == 5 {
        46
    } else if drow == 5 && dcol == 6 {
        47
    } else if drow == 5 && dcol == 7 {
        48
    } else if drow == 5 && dcol == 8 {
        49
    } else if drow == 5 && dcol == 9 {
        50
    } else {
        -1
    }
}

proof fn lemma_nc3000_shape()
    ensures
        layout_nc3000_spec().len() == 51,
        forall|i: int| 0 <= i < layout_nc3000_spec().len() ==> {
            let k = #[trigger] layout_nc3000_spec()[i];
            &&& k.drow < 6 && k.dcol < 10 && k.row < 8 && k.col < 8
            &&& nc3000_at(k.row, k.col) == i
            &&& nc3000_placed(k.drow, k.dcol) == i
        },
{
    let keys = layout_nc3000_spec();
    assert forall|i: int| 0 <= i < keys.len() implies {
        let k = #[trigger] keys[i];
        &&& k.drow < 6 && k.dcol < 10 && k.row < 8 && k.col < 8
        &&& nc3000_at(k.row, k.col) == i
        &&& nc3000_placed(k.drow, k.dcol) == i
    } by {
        if i == 0 {
            assert(nc3000_at(1, 0) == 0);
            assert(nc3000_placed(0, 0) == 0);
        } else if i == 1 {
            assert(nc3000_at(2, 0) == 1);
            assert(nc3000_placed(0, 1) == 1);
        } else if i == 2 {
            assert(nc3000_at(3, 0) == 2);
            assert(nc3000_placed(0, 2) == 2);
        } else if i == 3 {
            assert(nc3000_at(5, 0) == 3);
            assert(nc3000_placed(0, 3) == 3);
        } else if i == 4 {
            assert(nc3000_at(6, 0) == 4);
            assert(nc3000_placed(0, 4) == 4);
        } else if i == 5 {
            assert(nc3000_at(7, 0) == 5);
            assert(nc3000_placed(0, 5) == 5);
        } else if i == 6 {
            assert(nc3000_at(0, 2) == 6);
            assert(nc3000_placed(1, 2) == 6);
        } else if i == 7 {
            assert(nc3000_at(1, 2) == 7);
            assert(nc3000_placed(1, 3) == 7);
        } else if i == 8 {
            assert(nc3000_at(2, 2) == 8);
            assert(nc3000_placed(1, 4) == 8);
        } else if i == 9 {
            assert(nc3000_at(3, 2) == 9);
            assert(nc3000_placed(1, 5) == 9);
        } else if i == 10 {
            assert(nc3000_at(0, 0) == 10);
            assert(nc3000_placed(1, 8) == 10);
        } else if i == 11 {
            assert(nc3000_at(0, 4) == 11);
            assert(nc3000_placed(2, 0) == 11);
        } else if i == 12 {
            assert(nc3000_at(1, 4) == 12);
            assert(nc3000_placed(2, 1) == 12);
        } else if i == 13 {
            assert(nc3000_at(2, 4) == 13);
            assert(nc3000_placed(2, 2) == 13);
        } else if i == 14 {
            assert(nc3000_at(3, 4) == 14);
            assert(nc3000_placed(2, 3) == 14);
        } else if i == 15 {
            assert(nc3000_at(4, 4) == 15);
            assert(nc3000_placed(2, 4) == 15);
        } else if i == 16 {
            assert(nc3000_at(5, 4) == 16);
            assert(nc3000_placed(2, 5) == 16);
        } else if i == 17 {
            assert(nc3000_at(6, 4) == 17);
            assert(nc3000_placed(2, 6) == 17);
        } else if i == 18 {
            assert(nc3000_at(7, 4) == 18);
            assert(nc3000_placed(2, 7) == 18);
        } else if i == 19 {
            assert(nc3000_at(0, 3) == 19);
            assert(nc3000_placed(2, 8) == 19);
        } else if i == 20 {
            assert(nc3000_at(4, 3) == 20);
            assert(nc3000_placed(2, 9) == 20);
        } else if i == 21 {
            assert(nc3000_at(0, 5) == 21);
            assert(nc3000_placed(3, 0) == 21);
        } else if i == 22 {
            assert(nc3000_at(1, 5) == 22);
            assert(nc3000_placed(3, 1) == 22);
        } else if i == 23 {
            assert(nc3000_at(2, 5) == 23);
            assert(nc3000_placed(3, 2) == 23);
        } else if i == 24 {
            assert(nc3000_at(3, 5) == 24);
            assert(nc3000_placed(3, 3) == 24);
        } else if i == 25 {
            assert(nc3000_at(4, 5) == 25);
            assert(nc3000_placed(3, 4) == 25);
        } else if i == 26 {
            assert(nc3000_at(5, 5) == 26);
            assert(nc3000_placed(3, 5) == 26);
        } else if i == 27 {
            assert(nc3000_at(6, 5) == 27);
            assert(nc3000_placed(3, 6) == 27);
        } else if i == 28 {
            assert(nc3000_at(7, 5) == 28);
            assert(nc3000_placed(3, 7) == 28);
        } else if i == 29 {
            assert(nc3000_at(1, 3) == 29);
            assert(nc3000_placed(3, 8) == 29);
        } else if i == 30 {
            assert(nc3000_at(5, 3) == 30);
            assert(nc3000_placed(3, 9) == 30);
        } else if i == 31 {
            assert(nc3000_at(0, 6) == 31);
            assert(nc3000_placed(4, 0) == 31);
        } else if i == 32 {
            assert(nc3000_at(1, 6) == 32);
            assert(nc3000_placed(4, 1) == 32);
        } else if i == 33 {
            assert(nc3000_at(2, 6) == 33);
            assert(nc3000_placed(4, 2) == 33);
        } else if i == 34 {
            assert(nc3000_at(3, 6) == 34);
            assert(nc3000_placed(4, 3) == 34);
        } else if i == 35 {
            assert(nc3000_at(4, 6) == 35);
            assert(nc3000_placed(4, 4) == 35);
        } else if i == 36 {
            assert(nc3000_at(5, 6) == 36);
            assert(nc3000_placed(4, 5) == 36);
        } else if i == 37 {
            assert(nc3000_at(6, 6) == 37);
            assert(nc3000_placed(4, 6) == 37);
        } else if i == 38 {
            assert(nc3000_at(7, 6) == 38);
            assert(nc3000_placed(4, 7) == 38);
        } else if i == 39 {
            assert(nc3000_at(2, 3) == 39);
            assert(nc3000_placed(4, 8) == 39);
        } else if i == 40 {
            assert(nc3000_at(6, 3) == 40);
            assert(nc3000_placed(4, 9) == 40);
        } else if i == 41 {
            assert(nc3000_at(0, 7) == 41);
            assert(nc3000_placed(5, 0) == 41);
        } else if i == 42 {
            assert(nc3000_at(1, 7) == 42);
            assert(nc3000_placed(5, 1) == 42);
        } else if i == 43 {
            assert(nc3000_at(2, 7) == 43);
            assert(nc3000_placed(5, 2) == 43);
        } else if i == 44 {
            assert(nc3000_at(3, 7) == 44);
            assert(nc3000_placed(5, 3) == 44);
        } else if i == 45 {
            assert(nc3000_at(4, 7) == 45);
            assert(nc3000_placed(5, 4) == 45);
        } else if i == 46 {
            assert(nc3000_at(5, 7) == 46);
            assert(nc3000_placed(5, 5) == 46);
        } else if i == 47 {
            assert(nc3000_at(6, 7) == 47);
            assert(nc3000_placed(5, 6) == 47);
        } else if i == 48 {
            assert(nc3000_at(7, 7) == 48);
            assert(nc3000_placed(5, 7) == 48);
        } else if i == 49 {
            assert(nc3000_at(3, 3) == 49);
            assert(nc3000_placed(5, 8) == 49);
        } else if i == 50 {
            assert(nc3000_at(7, 3) == 50);
            assert(nc3000_placed(5, 9) == 50);
        }
    }
}

/// The legend parts of each PC1000 key, in layout order.
pub open spec fn pc1000_parts() -> Seq<Seq<Seq<char>>> {
    seq![
        seq![seq!['D', 'I', 'C', 'T'], seq!['F', '5']],
        seq![seq!['C', 'A', 'R', 'D'], seq!['F', '6']],
        seq![seq!['C', 'A', 'L', 'C'], seq!['F', '7']],
        seq![seq!['M', 'E', 'M', 'O'], seq!['F', '8']],
        seq![seq!['D', 'A', 'T', 'A'], seq!['F', '9']],
        seq![seq!['T', 'I', 'M', 'E'], seq!['F', '1', '0']],
        seq![seq!['N', 'E', 'T'], seq!['F', '1', '1']],
        seq![seq!['F', '1'], seq!['F', '1']],
        seq![seq!['F', '2'], seq!['F', '2']],
        seq![seq!['F', '3'], seq!['F', '3']],
        seq![seq!['F', '4'], seq!['F', '4']],
        seq![seq!['O', 'N'], seq!['F', '1', '2']],
        seq![seq!['Q'], seq!['Q']],
        seq![seq!['W'], seq!['W']],
        seq![seq!['E'], seq!['E']],
        seq![seq!['R'], seq!['R']],
        seq![seq!['T'], seq!['T'], seq!['7']],
        seq![seq!['Y'], seq!['Y'], seq!['8']],
        seq![seq!['U'], seq!['U'], seq!['9']],
        seq![seq!['I'], seq!['I']],
        seq![seq!['O'], seq!['O']],
        seq![seq!['P'], seq!['P']],
        seq![seq!['A'], seq!['A']],
        seq![seq!['S'], seq!['S']],
        seq![seq!['D'], seq!['D']],
        seq![seq!['F'], seq!['F']],
        seq![seq!['G'], seq!['G'], seq!['4']],
        seq![seq!['H'], seq!['H'], seq!['5']],
        seq![seq!['J'], seq!['J'], seq!['6']],
        seq![seq!['K'], seq!['K']],
        seq![seq!['L'], seq!['L']],
        seq![seq!['E', 'N', 'T'], seq!['E', 'N', 'T']],
        seq![seq!['Z'], seq!['Z']],
        seq![seq!['X'], seq!['X']],
        seq![seq!['C'], seq!['C']],
        seq![seq!['V'], seq!['V']],
        seq![seq!['B'], seq!['B'], seq!['1']],
        seq![seq!['N'], seq!['N'], seq!['2']],
        seq![seq!['M'], seq!['M'], seq!['3']],
        seq![seq!['P', 'G', 'U', 'P'], seq!['P', 'G', 'U', 'P']],
        seq![seq!['U', 'P'], seq!['U', 'P']],
        seq![seq!['P', 'G', 'D', 'N'], seq!['P', 'G', 'D', 'N']],
        seq![seq!['H', 'E', 'L', 'P'], Seq::<char>::empty()],
        seq![seq!['S', 'H', 'I', 'F', 'T'], Seq::<char>::empty()],
        seq![seq!['I', 'M', 'E'], Seq::<char>::empty()],
        seq![seq!['E', 'S', 'C'], seq!['E', 'S', 'C']],
        seq![seq!['0'], seq!['0']],
        seq![seq!['.'], seq!['.']],
        seq![seq!['S', 'P', 'C'], seq!['S', 'P', 'C']],
        seq![seq!['L', 'T'], seq!['L', 'T']],
        seq![seq!['D', 'N'], seq!['D', 'N']],
        seq![seq!['R', 'T'], seq!['R', 'T']],
    ]
}

proof fn lemma_pc1000_parts()
    ensures
        forall|i: int| 0 <= i < layout_pc1000_spec().len() ==> key_parts(#[trigger] layout_pc1000_spec()[i]) == pc1000_parts()[i],
{
    let keys = layout_pc1000_spec();
    let table = pc1000_parts();
    assert forall|i: int| 0 <= i < keys.len() implies key_parts(#[trigger] keys[i]) == table[i] by {
        if i == 0 {
            lemma_split_parts_single(seq!['D', 'I', 'C', 'T']);
            lemma_split_parts_single(seq!['F', '5']);
            assert(key_parts(keys[i]) =~= table[i]);
        } else if i == 1 {
            lemma_split_parts_single(seq!['C', 'A', 'R', 'D']);
            lemma_split_parts_single(seq!['F', '6']);
            assert(key_parts(keys[i]) =~= table[i]);
        } else if i == 2 {
            lemma_split_parts_single(seq!['C', 'A', 'L', 'C']);
            lemma_split_parts_single(seq!['F', '7']);
            assert(key_parts(keys[i]) =~= table[i]);
        } else if i == 3 {
            lemma_split_parts_single(seq!['M', 'E', 'M', 'O']);
            lemma_split_parts_single(seq!['F', '8']);
            assert(key_parts(keys[i]) =~= table[i]);
        } else if i == 4 {
            lemma_split_parts_single(seq!['D', 'A', 'T', 'A']);
            lemma_split_parts_single(seq!['F', '9']);
            assert(key_parts(keys[i]) =~= table[i]);
        } else if i == 5 {
            lemma_split_parts_single(seq!['T', 'I', 'M', 'E']);
            lemma_split_parts_single(seq!['F', '1', '0']);
            assert(key_parts(keys[i]) =~= table[i]);
        } else if i == 6 {
            lemma_split_parts_single(seq!['N', 'E', 'T']);
            lemma_split_parts_single(seq!['F', '1', '1']);
            assert(key_parts(keys[i]) =~= table[i]);
        } else if i == 7 {
            lemma_split_parts_single(seq!['F', '1']);
            lemma_split_parts_single(seq!['F', '1']);
            assert(key_parts(keys[i]) =~= table[i]);
        } else if i == 8 {
            lemma_split_parts_single(seq!['F', '2']);
            lemma_split_parts_single(seq!['F', '2']);
            assert(key_parts(keys[i]) =~= table[i]);
        } else if i == 9 {
            lemma_split_parts_single(seq!['F', '3']);
            lemma_split_parts_single(seq!['F', '3']);
            assert(key_parts(keys[i]) =~= table[i]);
        } else if i == 10 {
            lemma_split_parts_single(seq!['F', '4']);
            lemma_split_parts_single(seq!['F', '4']);
            assert(key_parts(keys[i]) =~= table[i]);
        } else if i == 11 {
            lemma_split_parts_single(seq!['O', 'N']);
            lemma_split_parts_single(seq!['F', '1', '2']);
            assert(key_parts(keys[i]) =~= table[i]);
        } else if i == 12 {
            lemma_split_parts_single(seq!['Q']);
            lemma_split_parts_single(seq!['Q']);
            assert(key_parts(keys[i]) =~= table[i]);
        } else if i == 13 {
            lemma_split_parts_single(seq!['W']);
            lemma_split_parts_single(seq!['W']);
            assert(key_parts(keys[i]) =~= table[i]);
        } else if i == 14 {
            lemma_split_parts_single(seq!['E']);
            lemma_split_parts_single(seq!['E']);
            assert(key_parts(keys[i]) =~= table[i]);
        } else if i == 15 {
            lemma_split_parts_single(seq!['R']);
            lemma_split_parts_single(seq!['R']);
            assert(key_parts(keys[i]) =~= table[i]);
        } else if i == 16 {
            lemma_split_parts_single(seq!['T']);
            lemma_split_parts_pair(seq!['T'], seq!['7']);
            assert(seq!['T', '/', '7'] =~= seq!['T'] + seq!['/'] + seq!['7']);
            assert(key_parts(keys[i]) =~= table[i]);
        } else if i == 17 {
            lemma_split_parts_single(seq!['Y']);
            lemma_split_parts_pair(seq!['Y'], seq!['8']);
            assert(seq!['Y', '/', '8'] =~= seq!['Y'] + seq!['/'] + seq!['8']);
            assert(key_parts(keys[i]) =~= table[i]);
        } else if i == 18 {
            lemma_split_parts_single(seq!['U']);
            lemma_split_parts_pair(seq!['U'], seq!['9']);
            assert(seq!['U', '/', '9'] =~= seq!['U'] + seq!['/'] + seq!['9']);
            assert(key_parts(keys[i]) =~= table[i]);
        } else if i == 19 {
            lemma_split_parts_single(seq!['I']);
            lemma_split_parts_single(seq!['I']);
            assert(key_parts(keys[i]) =~= table[i]);
        } else if i == 20 {
            lemma_split_parts_single(seq!['O']);
            lemma_split_parts_single(seq!['O']);
            assert(key_parts(keys[i]) =~= table[i]);
        } else if i == 21 {
            lemma_split_parts_single(seq!['P']);
            lemma_split_parts_single(seq!['P']);
            assert(key_parts(keys[i]) =~= table[i]);
        } else if i == 22 {
            lemma_split_parts_single(seq!['A']);
            lemma_split_parts_single(seq!['A']);
            assert(key_parts(keys[i]) =~= table[i]);
        } else if i == 23 {
            lemma_split_parts_single(seq!['S']);
            lemma_split_parts_single(seq!['S']);
            assert(key_parts(keys[i]) =~= table[i]);
        } else if i == 24 {
            lemma_split_parts_single(seq!['D']);
            lemma_split_parts_single(seq!['D']);
            assert(key_parts(keys[i]) =~= table[i]);
        } else if i == 25 {
            lemma_split_parts_single(seq!['F']);
            lemma_split_parts_single(seq!['F']);
            assert(key_parts(keys[i]) =~= table[i]);
        } else if i == 26 {
            lemma_split_parts_single(seq!['G']);
            lemma_split_parts_pair(seq!['G'], seq!['4']);
            assert(seq!['G', '/', '4'] =~= seq!['G'] + seq!['/'] + seq!['4']);
            assert(key_parts(keys[i]) =~= table[i]);
        } else if i == 27 {
            lemma_split_parts_single(seq!['H']);
            lemma_split_parts_pair(seq!['H'], seq!['5']);
            assert(seq!['H', '/', '5'] =~= seq!['H'] + seq!['/'] + seq!['5']);
            assert(key_parts(keys[i]) =~= table[i]);
        } else if i == 28 {
            lemma_split_parts_single(seq!['J']);
            lemma_split_parts_pair(seq!['J'], seq!['6']);
            assert(seq!['J', '/', '6'] =~= seq!['J'] + seq!['/'] + seq!['6']);
            assert(key_parts(keys[i]) =~= table[i]);
        } else if i == 29 {
            lemma_split_parts_single(seq!['K']);
            lemma_split_parts_single(seq!['K']);
            assert(key_parts(keys[i]) =~= table[i]);
        } else if i == 30 {
            lemma_split_parts_single(seq!['L']);
            lemma_split_parts_single(seq!['L']);
            assert(key_parts(keys[i]) =~= table[i]);
        } else if i == 31 {
            lemma_split_parts_single(seq!['E', 'N', 'T']);
            lemma_split_parts_single(seq!['E', 'N', 'T']);
            assert(key_parts(keys[i]) =~= table[i]);
        } else if i == 32 {
            lemma_split_parts_single(seq!['Z']);
            lemma_split_parts_single(seq!['Z']);
            assert(key_parts(keys[i]) =~= table[i]);
        } else if i == 33 {
            lemma_split_parts_single(seq!['X']);
            lemma_split_parts_single(seq!['X']);
            assert(key_parts(keys[i]) =~= table[i]);
        } else if i == 34 {
            lemma_split_parts_single(seq!['C']);
            lemma_split_parts_single(seq!['C']);
            assert(key_parts(keys[i]) =~= table[i]);
        } else if i == 35 {
            lemma_split_parts_single(seq!['V']);
            lemma_split_parts_single(seq!['V']);
            assert(key_parts(keys[i]) =~= table[i]);
        } else if i == 36 {
            lemma_split_parts_single(seq!['B']);
            lemma_split_parts_pair(seq!['B'], seq!['1']);
            assert(seq!['B', '/', '1'] =~= seq!['B'] + seq!['/'] + seq!['1']);
            assert(key_parts(keys[i]) =~= table[i]);
        } else if i == 37 {
            lemma_split_parts_single(seq!['N']);
            lemma_split_parts_pair(seq!['N'], seq!['2']);
            assert(seq!['N', '/', '2'] =~= seq!['N'] + seq!['/'] + seq!['2']);
            assert(key_parts(keys[i]) =~= table[i]);
        } else if i == 38 {
            lemma_split_parts_single(seq!['M']);
            lemma_split_parts_pair(seq!['M'], seq!['3']);
            assert(seq!['M', '/', '3'] =~= seq!['M'] + seq!['/'] + seq!['3']);
            assert(key_parts(keys[i]) =~= table[i]);
        } else if i == 39 {
            lemma_split_parts_single(seq!['P', 'G', 'U', 'P']);
            lemma_split_parts_single(seq!['P', 'G', 'U', 'P']);
            assert(key_parts(keys[i]) =~= table[i]);
        } else if i == 40 {
            lemma_split_parts_single(seq!['U', 'P']);
            lemma_split_parts_single(seq!['U', 'P']);
            assert(key_parts(keys[i]) =~= table[i]);
        } else if i == 41 {
            lemma_split_parts_single(seq!['P', 'G', 'D', 'N']);
            lemma_split_parts_single(seq!['P', 'G', 'D', 'N']);
            assert(key_parts(keys[i]) =~= table[i]);
        } else if i == 42 {
            lemma_split_parts_single(seq!['H', 'E', 'L', 'P']);
            lemma_split_parts_single(Seq::<char>::empty());
            assert(key_parts(keys[i]) =~= table[i]);
        } else if i == 43 {
            lemma_split_parts_single(seq!['S', 'H', 'I', 'F', 'T']);
            lemma_split_parts_single(Seq::<char>::empty());
            assert(key_parts(keys[i]) =~= table[i]);
        } else if i == 44 {
            lemma_split_parts_single(seq!['I', 'M', 'E']);
            lemma_split_parts_single(Seq::<char>::empty());
            assert(key_parts(keys[i]) =~= table[i]);
        } else if i == 45 {
            lemma_split_parts_single(seq!['E', 'S', 'C']);
            lemma_split_parts_single(seq!['E', 'S', 'C']);
            assert(key_parts(keys[i]) =~= table[i]);
        } else if i == 46 {
            lemma_split_parts_single(seq!['0']);
            lemma_split_parts_single(seq!['0']);
            assert(key_parts(keys[i]) =~= table[i]);
        } else if i == 47 {
            lemma_split_parts_single(seq!['.']);
            lemma_split_parts_single(seq!['.']);
            assert(key_parts(keys[i]) =~= table[i]);
        } else if i == 48 {
            lemma_split_parts_single(seq!['S', 'P', 'C']);
            lemma_split_parts_single(seq!['S', 'P', 'C']);
            assert(key_parts(keys[i]) =~= table[i]);
        } else if i == 49 {
            lemma_split_parts_single(seq!['L', 'T']);
            lemma_split_parts_single(seq!['L', 'T']);
            assert(key_parts(keys[i]) =~= table[i]);
        } else if i == 50 {
            lemma_split_parts_single(seq!['D', 'N']);
            lemma_split_parts_single(seq!['D', 'N']);
            assert(key_parts(keys[i]) =~= table[i]);
        } else if i == 51 {
            lemma_split_parts_single(seq!['R', 'T']);
            lemma_split_parts_single(seq!['R', 'T']);
            assert(key_parts(keys[i]) =~= table[i]);
        }
    }
}

/// The index of the PC1000 key carrying a legend part, or -1.
pub open spec fn pc1000_owner(part: Seq<char>) -> int {
    if part.len() == 4 && part[0] == 'D' && part[1] == 'I' && part[2] == 'C' && part[3] == 'T' {
        0
    } else if part.len() == 2 && part[0] == 'F' && part[1] == '5' {
        0
    } else if part.len() == 4 && part[0] == 'C' && part[1] == 'A' && part[2] == 'R' && part[3] == 'D' {
        1
    } else if part.len() == 2 && part[0] == 'F' && part[1] == '6' {
        1
    } else if part.len() == 4 && part[0] == 'C' && part[1] == 'A' && part[2] == 'L' && part[3] == 'C' {
        2
    } else if part.len() == 2 && part[0] == 'F' && part[1] == '7' {
        2
    } else if part.len() == 4 && part[0] == 'M' && part[1] == 'E' && part[2] == 'M' && part[3] == 'O' {
        3
    } else if part.len() == 2 && part[0] == 'F' && part[1] == '8' {
        3
    } else if part.len() == 4 && part[0] == 'D' && part[1] == 'A' && part[2] == 'T' && part[3] == 'A' {
        4
    } else if part.len() == 2 && part[0] == 'F' && part[1] == '9' {
        4
    } else if part.len() == 4 && part[0] == 'T' && part[1] == 'I' && part[2] == 'M' && part[3] == 'E' {
        5
    } else if part.len() == 3 && part[0] == 'F' && part[1] == '1' && part[2] == '0' {
        5
    } else if part.len() == 3 && part[0] == 'N' && part[1] == 'E' && part[2] == 'T' {
        6
    } else if part.len() == 3 && part[0] == 'F' && part[1] == '1' && part[2] == '1' {
        6
    } else if part.len() == 2 && part[0] == 'F' && part[1] == '1' {
        7
    } else if part.len() == 2 && part[0] == 'F' && part[1] == '2' {
        8
    } else if part.len() == 2 && part[0] == 'F' && part[1] == '3' {
        9
    } else if part.len() == 2 && part[0] == 'F' && part[1] == '4' {
        10
    } else if part.len() == 2 && part[0] == 'O' && part[1] == 'N' {
        11
    } else if part.len() == 3 && part[0] == 'F' && part[1] == '1' && part[2] == '2' {
        11
    } else if part.len() == 1 && part[0] == 'Q' {
        12
    } else if part.len() == 1 && part[0] == 'W' {
        13
    } else if part.len() == 1 && part[0] == 'E' {
        14
    } else if part.len() == 1 && part[0] == 'R' {
        15
    } else if part.len() == 1 && part[0] == 'T' {
        16
    } else if part.len() == 1 && part[0] == '7' {
        16
    } else if part.len() == 1 && part[0] == 'Y' {
        17
    } else if part.len() == 1 && part[0] == '8' {
        17
    } else if part.len() == 1 && part[0] == 'U' {
        18
    } else if part.len() == 1 && part[0] == '9' {
        18
    } else if part.len() == 1 && part[0] == 'I' {
        19
    } else if part.len() == 1 && part[0] == 'O' {
        20
    } else if part.len() == 1 && part[0] == 'P' {
        21
    } else if part.len() == 1 && part[0] == 'A' {
        22
    } else if part.len() == 1 && part[0] == 'S' {
        23
    } else if part.len() == 1 && part[0] == 'D' {
        24
    } else if part.len() == 1 && part[0] == 'F' {
        25
    } else if part.len() == 1 && part[0] == 'G' {
        26
    } else if part.len() == 1 && part[0] == '4' {
        26
    } else if part.len() == 1 && part[0] == 'H' {
        27
    } else if part.len() == 1 && part[0] == '5' {
        27
    } else if part.len() == 1 && part[0] == 'J' {
        28
    } else if part.len() == 1 && part[0] == '6' {
        28
    } else if part.len() == 1 && part[0] == 'K' {
        29
    } else if part.len() == 1 && part[0] == 'L' {
        30
    } else if part.len() == 3 && part[0] == 'E' && part[1] == 'N' && part[2] == 'T' {
        31
    } else if part.len() == 1 && part[0] == 'Z' {
        32
    } else if part.len() == 1 && part[0] == 'X' {
        33
    } else if part.len() == 1 && part[0] == 'C' {
        34
    } else if part.len() == 1 && part[0] == 'V' {
        35
    } else if part.len() == 1 && part[0] == 'B' {
        36
    } else if part.len() == 1 && part[0] == '1' {
        36
    } else if part.len() == 1 && part[0] == 'N' {
        37
    } else if part.len() == 1 && part[0] == '2' {
        37
    } else if part.len() == 1 && part[0] == 'M' {
        38
    } else if part.len() == 1 && part[0] == '3' {
        38
    } else if part.len() == 4 && part[0] == 'P' && part[1] == 'G' && part[2] == 'U' && part[3] == 'P' {
        39
    } else if part.len() == 2 && part[0] == 'U' && part[1] == 'P' {
        40
    } else if part.len() == 4 && part[0] == 'P' && part[1] == 'G' && part[2] == 'D' && part[3] == 'N' {
        41
    } else if part.len() == 4 && part[0] == 'H' && part[1] == 'E' && part[2] == 'L' && part[3] == 'P' {
        42
    } else if part.len() == 5 && part[0] == 'S' && part[1] == 'H' && part[2] == 'I' && part[3] == 'F' && part[4] == 'T' {
        43
    } else if part.len() == 3 && part[0] == 'I' && part[1] == 'M' && part[2] == 'E' {
        44
    } else if part.len() == 3 && part[0] == 'E' && part[1] == 'S' && part[2] == 'C' {
        45
    } else if part.len() == 1 && part[0] == '0' {
        46
    } else if part.len() == 1 && part[0] == '.' {
        47
    } else if part.len() == 3 && part[0] == 'S' && part[1] == 'P' && part[2] == 'C' {
        48
    } else if part.len() == 2 && part[0] == 'L' && part[1] == 'T' {
        49
    } else if part.len() == 2 && part[0] == 'D' && part[1] == 'N' {
        50
    } else if part.len() == 2 && part[0] == 'R' && part[1] == 'T' {
        51
    } else {
        -1
    }
}

proof fn lemma_pc1000_owner()
    ensures
        forall|i: int, k: int|
            0 <= i < pc1000_parts().len() && 0 <= k < pc1000_parts()[i].len() && (#[trigger] pc1000_parts()[i][k]).len() > 0 ==> pc1000_owner(pc1000_parts()[i][k]) == i,
{
    let table = pc1000_parts();
    assert forall|i: int, k: int| 0 <= i < table.len() && 0 <= k < table[i].len() && (#[trigger] table[i][k]).len() > 0 implies pc1000_owner(table[i][k]) == i by {
        if i == 0 {
            assert(pc1000_owner(seq!['D', 'I', 'C', 'T']) == 0);
            assert(pc1000_owner(seq!['F', '5']) == 0);
        } else if i == 1 {
            assert(pc1000_owner(seq!['C', 'A', 'R', 'D']) == 1);
            assert(pc1000_owner(seq!['F', '6']) == 1);
        } else if i == 2 {
            assert(pc1000_owner(seq!['C', 'A', 'L', 'C']) == 2);
            assert(pc1000_owner(seq!['F', '7']) == 2);
        } else if i == 3 {
            assert(pc1000_owner(seq!['M', 'E', 'M', 'O']) == 3);
            assert(pc1000_owner(seq!['F', '8']) == 3);
        } else if i == 4 {
            assert(pc1000_owner(seq!['D', 'A', 'T', 'A']) == 4);
            assert(pc1000_owner(seq!['F', '9']) == 4);
        } else if i == 5 {
            assert(pc1000_owner(seq!['T', 'I', 'M', 'E']) == 5);
            assert(pc1000_owner(seq!['F', '1', '0']) == 5);
        } else if i == 6 {
            assert(pc1000_owner(seq!['N', 'E', 'T']) == 6);
            assert(pc1000_owner(seq!['F', '1', '1']) == 6);
        } else if i == 7 {
            assert(pc1000_owner(seq!['F', '1']) == 7);
            assert(pc1000_owner(seq!['F', '1']) == 7);
        } else if i == 8 {
            assert(pc1000_owner(seq!['F', '2']) == 8);
            assert(pc1000_owner(seq!['F', '2']) == 8);
        } else if i == 9 {
            assert(pc1000_owner(seq!['F', '3']) == 9);
            assert(pc1000_owner(seq!['F', '3']) == 9);
        } else if i == 10 {
            assert(pc1000_owner(seq!['F', '4']) == 10);
            assert(pc1000_owner(seq!['F', '4']) == 10);
        } else if i == 11 {
            assert(pc1000_owner(seq!['O', 'N']) == 11);
            assert(pc1000_owner(seq!['F', '1', '2']) == 11);
        } else if i == 12 {
            assert(pc1000_owner(seq!['Q']) == 12);
            assert(pc1000_owner(seq!['Q']) == 12);
        } else if i == 13 {
            assert(pc1000_owner(seq!['W']) == 13);
            assert(pc1000_owner(seq!['W']) == 13);
        } else if i == 14 {
            assert(pc1000_owner(seq!['E']) == 14);
            assert(pc1000_owner(seq!['E']) == 14);
        } else if i == 15 {
            assert(pc1000_owner(seq!['R']) == 15);
            assert(pc1000_owner(seq!['R']) == 15);
        } else if i == 16 {
            assert(pc1000_owner(seq!['T']) == 16);
            assert(pc1000_owner(seq!['T']) == 16);
            assert(pc1000_owner(seq!['7']) == 16);
        } else if i == 17 {
            assert(pc1000_owner(seq!['Y']) == 17);
            assert(pc1000_owner(seq!['Y']) == 17);
            assert(pc1000_owner(seq!['8']) == 17);
        } else if i == 18 {
            assert(pc1000_owner(seq!['U']) == 18);
            assert(pc1000_owner(seq!['U']) == 18);
            assert(pc1000_owner(seq!['9']) == 18);
        } else if i == 19 {
            assert(pc1000_owner(seq!['I']) == 19);
            assert(pc1000_owner(seq!['I']) == 19);
        } else if i == 20 {
            assert(pc1000_owner(seq!['O']) == 20);
            assert(pc1000_owner(seq!['O']) == 20);
        } else if i == 21 {
            assert(pc1000_owner(seq!['P']) == 21);
            assert(pc1000_owner(seq!['P']) == 21);
        } else if i == 22 {
            assert(pc1000_owner(seq!['A']) == 22);
            assert(pc1000_owner(seq!['A']) == 22);
        } else if i == 23 {
            assert(pc1000_owner(seq!['S']) == 23);
            assert(pc1000_owner(seq!['S']) == 23);
        } else if i == 24 {
            assert(pc1000_owner(seq!['D']) == 24);
            assert(pc1000_owner(seq!['D']) == 24);
        } else if i == 25 {
            assert(pc1000_owner(seq!['F']) == 25);
            assert(pc1000_owner(seq!['F']) == 25);
        } else if i == 26 {
            assert(pc1000_owner(seq!['G']) == 26);
            assert(pc1000_owner(seq!['G']) == 26);
            assert(pc1000_owner(seq!['4']) == 26);
        } else if i == 27 {
            assert(pc1000_owner(seq!['H']) == 27);
            assert(pc1000_owner(seq!['H']) == 27);
            assert(pc1000_owner(seq!['5']) == 27);
        } else if i == 28 {
            assert(pc1000_owner(seq!['J']) == 28);
            assert(pc1000_owner(seq!['J']) == 28);
            assert(pc1000_owner(seq!['6']) == 28);
        } else if i == 29 {
            assert(pc1000_owner(seq!['K']) == 29);
            assert(pc1000_owner(seq!['K']) == 29);
        } else if i == 30 {
            assert(pc1000_owner(seq!['L']) == 30);
            assert(pc1000_owner(seq!['L']) == 30);
        } else if i == 31 {
            assert(pc1000_owner(seq!['E', 'N', 'T']) == 31);
            assert(pc1000_owner(seq!['E', 'N', 'T']) == 31);
        } else if i == 32 {
            assert(pc1000_owner(seq!['Z']) == 32);
            assert(pc1000_owner(seq!['Z']) == 32);
        } else if i == 33 {
            assert(pc1000_owner(seq!['X']) == 33);
            assert(pc1000_owner(seq!['X']) == 33);
        } else if i == 34 {
            assert(pc1000_owner(seq!['C']) == 34);
            assert(pc1000_owner(seq!['C']) == 34);
        } else if i == 35 {
            assert(pc1000_owner(seq!['V']) == 35);
            assert(pc1000_owner(seq!['V']) == 35);
        } else if i == 36 {
            assert(pc1000_owner(seq!['B']) == 36);
            assert(pc1000_owner(seq!['B']) == 36);
            assert(pc1000_owner(seq!['1']) == 36);
        } else if i == 37 {
            assert(pc1000_owner(seq!['N']) == 37);
            assert(pc1000_owner(seq!['N']) == 37);
            assert(pc1000_owner(seq!['2']) == 37);
        } else if i == 38 {
            assert(pc1000_owner(seq!['M']) == 38);
            assert(pc1000_owner(seq!['M']) == 38);
            assert(pc1000_owner(seq!['3']) == 38);
        } else if i == 39 {
            assert(pc1000_owner(seq!['P', 'G', 'U', 'P']) == 39);
            assert(pc1000_owner(seq!['P', 'G', 'U', 'P']) == 39);
        } else if i == 40 {
            assert(pc1000_owner(seq!['U', 'P']) == 40);
            assert(pc1000_owner(seq!['U', 'P']) == 40);
        } else if i == 41 {
            assert(pc1000_owner(seq!['P', 'G', 'D', 'N']) == 41);
            assert(pc1000_owner(seq!['P', 'G', 'D', 'N']) == 41);
        } else if i == 42 {
            assert(pc1000_owner(seq!['H', 'E', 'L', 'P']) == 42);
        } else if i == 43 {
            assert(pc1000_owner(seq!['S', 'H', 'I', 'F', 'T']) == 43);
        } else if i == 44 {
            assert(pc1000_owner(seq!['I', 'M', 'E']) == 44);
        } else if i == 45 {
            assert(pc1000_owner(seq!['E', 'S', 'C']) == 45);
            assert(pc1000_owner(seq!['E', 'S', 'C']) == 45);
        } else if i == 46 {
            assert(pc1000_owner(seq!['0']) == 46);
            assert(pc1000_owner(seq!['0']) == 46);
        } else if i == 47 {
            assert(pc1000_owner(seq!['.']) == 47);
            assert(pc1000_owner(seq!['.']) == 47);
        } else if i == 48 {
            assert(pc1000_owner(seq!['S', 'P', 'C']) == 48);
            assert(pc1000_owner(seq!['S', 'P', 'C']) == 48);
        } else if i == 49 {
            assert(pc1000_owner(seq!['L', 'T']) == 49);
            assert(pc1000_owner(seq!['L', 'T']) == 49);
        } else if i == 50 {
            assert(pc1000_owner(seq!['D', 'N']) == 50);
            assert(pc1000_owner(seq!['D', 'N']) == 50);
        } else if i == 51 {
            assert(pc1000_owner(seq!['R', 'T']) == 51);
            assert(pc1000_owner(seq!['R', 'T']) == 51);
        }
    }
}

proof fn lemma_pc1000_function_two()
    ensures
        forall|i: int, k: int|
            0 <= i < pc1000_parts().len() && 0 <= k < pc1000_parts()[i].len() && is_function_part(#[trigger] pc1000_parts()[i][k], 2) ==> i == 8,
        is_function_part(pc1000_parts()[8][0], 2),
{
    let table = pc1000_parts();
    assert(seq!['F', '2'].drop_first() =~= seq!['2']);
    assert(digits_value(Seq::<char>::empty()) == 0);
    assert(seq!['2'].drop_last() =~= Seq::<char>::empty());
    assert(digits_value(seq!['2']) == 2);
    assert forall|i: int, k: int| 0 <= i < table.len() && 0 <= k < table[i].len() && is_function_part(#[trigger] table[i][k], 2) implies i == 8 by {
        if i == 0 {
            assert(seq!['F', '5'].drop_first() =~= seq!['5']);
            assert(digits_value(Seq::<char>::empty()) == 0);
            assert(seq!['5'].drop_last() =~= Seq::<char>::empty());
            assert(digits_value(seq!['5']) == 5);
        } else if i == 1 {
            assert(seq!['F', '6'].drop_first() =~= seq!['6']);
            assert(digits_value(Seq::<char>::empty()) == 0);
            assert(seq!['6'].drop_last() =~= Seq::<char>::empty());
            assert(digits_value(seq!['6']) == 6);
        } else if i == 2 {
            assert(seq!['F', '7'].drop_first() =~= seq!['7']);
            assert(digits_value(Seq::<char>::empty()) == 0);
            assert(seq!['7'].drop_last() =~= Seq::<char>::empty());
            assert(digits_value(seq!['7']) == 7);
        } else if i == 3 {
            assert(seq!['F', '8'].drop_first() =~= seq!['8']);
            assert(digits_value(Seq::<char>::empty()) == 0);
            assert(seq!['8'].drop_last() =~= Seq::<char>::empty());
            assert(digits_value(seq!['8']) == 8);
        } else if i == 4 {
            assert(seq!['F', '9'].drop_first() =~= seq!['9']);
            assert(digits_value(Seq::<char>::empty()) == 0);
            assert(seq!['9'].drop_last() =~= Seq::<char>::empty());
            assert(digits_value(seq!['9']) == 9);
        } else if i == 5 {
            assert(seq!['F', '1', '0'].drop_first() =~= seq!['1', '0']);
            assert(digits_value(Seq::<char>::empty()) == 0);
            assert(seq!['1'].drop_last() =~= Seq::<char>::empty());
            assert(digits_value(seq!['1']) == 1);
            assert(seq!['1', '0'].drop_last() =~= seq!['1']);
            assert(digits_value(seq!['1', '0']) == 10);
        } else if i == 6 {
            assert(seq!['F', '1', '1'].drop_first() =~= seq!['1', '1']);
            assert(digits_value(Seq::<char>::empty()) == 0);
            assert(seq!['1'].drop_last() =~= Seq::<char>::empty());
            assert(digits_value(seq!['1']) == 1);
            assert(seq!['1', '1'].drop_last() =~= seq!['1']);
            assert(digits_value(seq!['1', '1']) == 11);
        } else if i == 7 {
            assert(seq!['F', '1'].drop_first() =~= seq!['1']);
            assert(digits_value(Seq::<char>::empty()) == 0);
            assert(seq!['1'].drop_last() =~= Seq::<char>::empty());
            assert(digits_value(seq!['1']) == 1);
            assert(seq!['F', '1'].drop_first() =~= seq!['1']);
            assert(digits_value(Seq::<char>::empty()) == 0);
            assert(seq!['1'].drop_last() =~= Seq::<char>::empty());
            assert(digits_value(seq!['1']) == 1);
        } else if i == 8 {
            assert(seq!['F', '2'].drop_first() =~= seq!['2']);
            assert(digits_value(Seq::<char>::empty()) == 0);
            assert(seq!['2'].drop_last() =~= Seq::<char>::empty());
            assert(digits_value(seq!['2']) == 2);
            assert(seq!['F', '2'].drop_first() =~= seq!['2']);
            assert(digits_value(Seq::<char>::empty()) == 0);
            assert(seq!['2'].drop_last() =~= Seq::<char>::empty());
            assert(digits_value(seq!['2']) == 2);
        } else if i == 9 {
            assert(seq!['F', '3'].drop_first() =~= seq!['3']);
            assert(digits_value(Seq::<char>::empty()) == 0);
            assert(seq!['3'].drop_last() =~= Seq::<char>::empty());
            assert(digits_value(seq!['3']) == 3);
            assert(seq!['F', '3'].drop_first() =~= seq!['3']);
            assert(digits_value(Seq::<char>::empty()) == 0);
            assert(seq!['3'].drop_last() =~= Seq::<char>::empty());
            assert(digits_value(seq!['3']) == 3);
        } else if i == 10 {
            assert(seq!['F', '4'].drop_first() =~= seq!['4']);
            assert(digits_value(Seq::<char>::empty()) == 0);
            assert(seq!['4'].drop_last() =~= Seq::<char>::empty());
            assert(digits_value(seq!['4']) == 4);
            assert(seq!['F', '4'].drop_first() =~= seq!['4']);
            assert(digits_value(Seq::<char>::empty()) == 0);
            assert(seq!['4'].drop_last() =~= Seq::<char>::empty());
            assert(digits_value(seq!['4']) == 4);
        } else if i == 11 {
            assert(seq!['F', '1', '2'].drop_first() =~= seq!['1', '2']);
            assert(digits_value(Seq::<char>::empty()) == 0);
            assert(seq!['1'].drop_last() =~= Seq::<char>::empty());
            assert(digits_value(seq!['1']) == 1);
            assert(seq!['1', '2'].drop_last() =~= seq!['1']);
            assert(digits_value(seq!['1', '2']) == 12);
        } else if i == 12 {
        } else if i == 13 {
        } else if i == 14 {
        } else if i == 15 {
        } else if i == 16 {
        } else if i == 17 {
        } else if i == 18 {
        } else if i == 19 {
        } else if i == 20 {
        } else if i == 21 {
        } else if i == 22 {
        } else if i == 23 {
        } else if i == 24 {
        } else if i == 25 {
            assert(seq!['F'].drop_first() =~= Seq::<char>::empty());
            assert(seq!['F'].drop_first() =~= Seq::<char>::empty());
        } else if i == 26 {
        } else if i == 27 {
        } else if i == 28 {
        } else if i == 29 {
        } else if i == 30 {
        } else if i == 31 {
        } else if i == 32 {
        } else if i == 33 {
        } else if i == 34 {
        } else if i == 35 {
        } else if i == 36 {
        } else if i == 37 {
        } else if i == 38 {
        } else if i == 39 {
        } else if i == 40 {
        } else if i == 41 {
        } else if i == 42 {
        } else if i == 43 {
        } else if i == 44 {
        } else if i == 45 {
        } else if i == 46 {
        } else if i == 47 {
        } else if i == 48 {
        } else if i == 49 {
        } else if i == 50 {
        } else if i == 51 {
        }
    }
}

proof fn lemma_pc1000_alias(model: MachineModel, h: HostKey, a: Seq<char>, j: int, k0: int)
    requires
        layout_spec(model) == layout_pc1000_spec(),
        0 <= j < pc1000_parts().len(),
        0 <= k0 < pc1000_parts()[j].len(),
        pc1000_parts()[j][k0] == a,
        a.len() > 0,
        forall|kv: KeyView| #[trigger] key_matches(model, h, kv) == has_part(key_parts(kv), a),
    ensures
        host_key_id(model, h) == Some(layout_key_id(model, j)),
        key_parts(layout_spec(model)[j]) == pc1000_parts()[j],
{
    lemma_pc1000_parts();
    lemma_pc1000_owner();
    let keys = layout_spec(model);
    assert(keys.len() == pc1000_parts().len());
    assert(key_parts(keys[j]) == pc1000_parts()[j]);
    assert(key_parts(keys[j])[k0] == a);
    assert(key_matches(model, h, keys[j]));
    assert(pc1000_owner(a) == j);
    assert forall|i: int| 0 <= i < keys.len() && key_matches(model, h, #[trigger] keys[i]) implies i == j by {
        assert(key_parts(keys[i]) == pc1000_parts()[i]);
        let k = choose|k: int| 0 <= k < key_parts(keys[i]).len() && key_parts(keys[i])[k] == a;
        assert(pc1000_parts()[i][k] == a);
    }
    lemma_unique_match(model, h, j);
}

proof fn lemma_pc1000_function_key_two(model: MachineModel)
    requires
        layout_spec(model) == layout_pc1000_spec(),
    ensures
        host_key_id(model, HostKey::Function(2)) == Some(layout_key_id(model, 8)),
{
    lemma_pc1000_parts();
    lemma_pc1000_function_two();
    let keys = layout_spec(model);
    let h = HostKey::Function(2);
    assert(keys.len() == pc1000_parts().len());
    assert(key_parts(keys[8]) == pc1000_parts()[8]);
    assert(is_function_part(key_parts(keys[8])[0], 2));
    assert(key_matches(model, h, keys[8]));
    assert forall|i: int| 0 <= i < keys.len() && key_matches(model, h, #[trigger] keys[i]) implies i == 8 by {
        assert(key_parts(keys[i]) == pc1000_parts()[i]);
        let k = choose|k: int| 0 <= k < key_parts(keys[i]).len() && is_function_part(#[trigger] key_parts(keys[i])[k], 2);
        assert(is_function_part(pc1000_parts()[i][k], 2));
    }
    lemma_unique_match(model, h, 8);
}

/// The index of the PC1000 key at a matrix position, or -1.
pub open spec fn pc1000_at(row: u8, col: u8) -> int {
    if row == 1 && col == 0 {
        0
    } else if row == 1 && col == 1 {
        1
    } else if row == 1 && col == 2 {
        2
    } else if row == 1 && col == 3 {
        3
    } else if row == 1 && col == 4 {
        4
    } else if row == 1 && col == 5 {
        5
    } else if row == 1 && col == 6 {
        6
    } else if row == 7 && col == 2 {
        7
    } else if row == 7 && col == 3 {
        8
    } else if row == 7 && col == 4 {
        9
    } else if row == 7 && col == 5 {
        10
    } else if row == 0 && col == 0 {
        11
    } else if row == 5 && col == 0 {
        12
    } else if row == 5 && col == 1 {
        13
    } else if row == 5 && col == 2 {
        14
    } else if row == 5 && col == 3 {
        15
    } else if row == 5 && col == 4 {
        16
    } else if row == 5 && col == 5 {
        17
    } else if row == 5 && col == 6 {
        18
    } else if row == 5 && col == 7 {
        19
    } else if row == 6 && col == 0 {
        20
    } else if row == 6 && col == 4 {
        21
    } else if row == 4 && col == 0 {
        22
    } else if row == 4 && col == 1 {
        23
    } else if row == 4 && col == 2 {
        24
    } else if row == 4 && col == 3 {
        25
    } else if row == 4 && col == 4 {
        26
    } else if row == 4 && col == 5 {
        27
    } else if row == 4 && col == 6 {
        28
    } else if row == 4 && col == 7 {
        29
    } else if row == 6 && col == 1 {
        30
    } else if row == 6 && col == 5 {
        31
    } else if row == 3 && col == 0 {
        32
    } else if row == 3 && col == 1 {
        33
    } else if row == 3 && col == 2 {
        34
    } else if row == 3 && col == 3 {
        35
    } else if row == 3 && col == 4 {
        36
    } else if row == 3 && col == 5 {
        37
    } else if row == 3 && col == 6 {
        38
    } else if row == 3 && col == 7 {
        39
    } else if row == 6 && col == 2 {
        40
    } else if row == 6 && col == 6 {
        41
    } else if row == 2 && col == 0 {
        42
    } else if row == 2 && col == 1 {
        43
    } else if row == 2 && col == 2 {
        44
    } else if row == 2 && col == 3 {
        45
    } else if row == 2 && col == 4 {
        46
    } else if row == 2 && col == 5 {
        47
    } else if row == 2 && col == 6 {
        48
    } else if row == 2 && col == 7 {
        49
    } else if row == 6 && col == 3 {
        50
    } else if row == 6 && col == 7 {
        51
    } else {
        -1
    }
}

/// The index of the PC1000 key at a display position, or -1.
pub open spec fn pc1000_placed(drow: u8, dcol: u8) -> int {
    if drow == 0 && dcol == 0 {
        0
    } else if drow == 0 && dcol == 1 {
        1
    } else if drow == 0 && dcol == 2 {
        2
    } else if drow == 0 && dcol == 3 {
        3
    } else if drow == 0 && dcol == 4 {
        4
    } else if drow == 0 && dcol == 5 {
        5
    } else if drow == 0 && dcol == 6 {
        6
    } else if drow == 1 && dcol == 2 {
        7
    } else if drow == 1 && dcol == 3 {
        8
    } else if drow == 1 && dcol == 4 {
        9
    } else if drow == 1 && dcol == 5 {
        10
    } else if drow == 1 && dcol == 8 {
        11
    } else if drow == 2 && dcol == 0 {
        12
    } else if drow == 2 && dcol == 1 {
        13
    } else if drow == 2 && dcol == 2 {
        14
    } else if drow == 2 && dcol == 3 {
        15
    } else if drow == 2 && dcol == 4 {
        16
    } else if drow == 2 && dcol == 5 {
        17
    } else if drow == 2 && dcol == 6 {
        18
    } else if drow == 2 && dcol == 7 {
        19
    } else if drow == 2 && dcol == 8 {
        20
    } else if drow == 2 && dcol == 9 {
        21
    } else if drow == 3 && dcol == 0 {
        22
    } else if drow == 3 && dcol == 1 {
        23
    } else if drow == 3 && dcol == 2 {
        24
    } else if drow == 3 && dcol == 3 {
        25
    } else if drow == 3 && dcol == 4 {
        26
    } else if drow == 3 && dcol == 5 {
        27
    } else if drow == 3 && dcol == 6 {
        28
    } else if drow == 3 && dcol == 7 {
        29
    } else if drow == 3 && dcol == 8 {
        30
    } else if drow == 3 && dcol == 9 {
        31
    } else if drow == 4 && dcol == 0 {
        32
    } else if drow == 4 && dcol == 1 {
        33
    } else if drow == 4 && dcol == 2 {
        34
    } else if drow == 4 && dcol == 3 {
        35
    } else if drow == 4 && dcol == 4 {
        36
    } else if drow == 4 && dcol == 5 {
        37
    } else if drow == 4 && dcol == 6 {
        38
    } else if drow == 4 && dcol == 7 {
        39
    } else if drow == 4 && dcol == 8 {
        40
    } else if drow == 4 && dcol == 9 {
        41
    } else if drow == 5 && dcol == 0 {
        42
    } else if drow == 5 && dcol == 1 {
        43
    } else if drow == 5 && dcol == 2 {
        44
    } else if drow == 5 && dcol == 3 {
        45
    } else if drow == 5 && dcol == 4 {
        46
    } else if drow == 5 && dcol == 5 {
        47
    } else if drow == 5 && dcol == 6 {
        48
    } else if drow == 5 && dcol == 7 {
        49
    } else if drow == 5 && dcol == 8 {
        50
    } else if drow == 5 && dcol == 9 {
        51
    } else {
        -1
    }
}

proof fn lemma_pc1000_shape()
    ensures
        layout_pc1000_spec().len() == 52,
        forall|i: int| 0 <= i < layout_pc1000_spec().len() ==> {
            let k = #[trigger] layout_pc1000_spec()[i];
            &&& k.drow < 6 && k.dcol < 10 && k.row < 8 && k.col < 8
            &&& pc1000_at(k.row, k.col) == i
            &&& pc1000_placed(k.drow, k.dcol) == i
        },
{
    let keys = layout_pc1000_spec();
    assert forall|i: int| 0 <= i < keys.len() implies {
        let k = #[trigger] keys[i];
        &&& k.drow < 6 && k.dcol < 10 && k.row < 8 && k.col < 8
        &&& pc1000_at(k.row, k.col) == i
        &&& pc1000_placed(k.drow, k.dcol) == i
    } by {
        if i == 0 {
            assert(pc1000_at(1, 0) == 0);
            assert(pc1000_placed(0, 0) == 0);
        } else if i == 1 {
            assert(pc1000_at(1, 1) == 1);
            assert(pc1000_placed(0, 1) == 1);
        } else if i == 2 {
            assert(pc1000_at(1, 2) == 2);
            assert(pc1000_placed(0, 2) == 2);
        } else if i == 3 {
            assert(pc1000_at(1, 3) == 3);
            assert(pc1000_placed(0, 3) == 3);
        } else if i == 4 {
            assert(pc1000_at(1, 4) == 4);
            assert(pc1000_placed(0, 4) == 4);
        } else if i == 5 {
            assert(pc1000_at(1, 5) == 5);
            assert(pc1000_placed(0, 5) == 5);
        } else if i == 6 {
            assert(pc1000_at(1, 6) == 6);
            assert(pc1000_placed(0, 6) == 6);
        } else if i == 7 {
            assert(pc1000_at(7, 2) == 7);
            assert(pc1000_placed(1, 2) == 7);
        } else if i == 8 {
            assert(pc1000_at(7, 3) == 8);
            assert(pc1000_placed(1, 3) == 8);
        } else if i == 9 {
            assert(pc1000_at(7, 4) == 9);
            assert(pc1000_placed(1, 4) == 9);
        } else if i == 10 {
            assert(pc1000_at(7, 5) == 10);
            assert(pc1000_placed(1, 5) == 10);
        } else if i == 11 {
            assert(pc1000_at(0, 0) == 11);
            assert(pc1000_placed(1, 8) == 11);
        } else if i == 12 {
            assert(pc1000_at(5, 0) == 12);
            assert(pc1000_placed(2, 0) == 12);
        } else if i == 13 {
            assert(pc1000_at(5, 1) == 13);
            assert(pc1000_placed(2, 1) == 13);
        } else if i == 14 {
            assert(pc1000_at(5, 2) == 14);
            assert(pc1000_placed(2, 2) == 14);
        } else if i == 15 {
            assert(pc1000_at(5, 3) == 15);
            assert(pc1000_placed(2, 3) == 15);
        } else if i == 16 {
            assert(pc1000_at(5, 4) == 16);
            assert(pc1000_placed(2, 4) == 16);
        } else if i == 17 {
            assert(pc1000_at(5, 5) == 17);
            assert(pc1000_placed(2, 5) == 17);
        } else if i == 18 {
            assert(pc1000_at(5, 6) == 18);
            assert(pc1000_placed(2, 6) == 18);
        } else if i == 19 {
            assert(pc1000_at(5, 7) == 19);
            assert(pc1000_placed(2, 7) == 19);
        } else if i == 20 {
            assert(pc1000_at(6, 0) == 20);
            assert(pc1000_placed(2, 8) == 20);
        } else if i == 21 {
            assert(pc1000_at(6, 4) == 21);
            assert(pc1000_placed(2, 9) == 21);
        } else if i == 22 {
            assert(pc1000_at(4, 0) == 22);
            assert(pc1000_placed(3, 0) == 22);
        } else if i == 23 {
            assert(pc1000_at(4, 1) == 23);
            assert(pc1000_placed(3, 1) == 23);
        } else if i == 24 {
            assert(pc1000_at(4, 2) == 24);
            assert(pc1000_placed(3, 2) == 24);
        } else if i == 25 {
            assert(pc1000_at(4, 3) == 25);
            assert(pc1000_placed(3, 3) == 25);
        } else if i == 26 {
            assert(pc1000_at(4, 4) == 26);
            assert(pc1000_placed(3, 4) == 26);
        } else if i == 27 {
            assert(pc1000_at(4, 5) == 27);
            assert(pc1000_placed(3, 5) == 27);
        } else if i == 28 {
            assert(pc1000_at(4, 6) == 28);
            assert(pc1000_placed(3, 6) == 28);
        } else if i == 29 {
            assert(pc1000_at(4, 7) == 29);
            assert(pc1000_placed(3, 7) == 29);
        } else if i == 30 {
            assert(pc1000_at(6, 1) == 30);
            assert(pc1000_placed(3, 8) == 30);
        } else if i == 31 {
            assert(pc1000_at(6, 5) == 31);
            assert(pc1000_placed(3, 9) == 31);
        } else if i == 32 {
            assert(pc1000_at(3, 0) == 32);
            assert(pc1000_placed(4, 0) == 32);
        } else if i == 33 {
            assert(pc1000_at(3, 1) == 33);
            assert(pc1000_placed(4, 1) == 33);
        } else if i == 34 {
            assert(pc1000_at(3, 2) == 34);
            assert(pc1000_placed(4, 2) == 34);
        } else if i == 35 {
            assert(pc1000_at(3, 3) == 35);
            assert(pc1000_placed(4, 3) == 35);
        } else if i == 36 {
            assert(pc1000_at(3, 4) == 36);
            assert(pc1000_placed(4, 4) == 36);
        } else if i == 37 {
            assert(pc1000_at(3, 5) == 37);
            assert(pc1000_placed(4, 5) == 37);
        } else if i == 38 {
            assert(pc1000_at(3, 6) == 38);
            assert(pc1000_placed(4, 6) == 38);
        } else if i == 39 {
            assert(pc1000_at(3, 7) == 39);
            assert(pc1000_placed(4, 7) == 39);
        } else if i == 40 {
            assert(pc1000_at(6, 2) == 40);
            assert(pc1000_placed(4, 8) == 40);
        } else if i == 41 {
            assert(pc1000_at(6, 6) == 41);
            assert(pc1000_placed(4, 9) == 41);
        } else if i == 42 {
            assert(pc1000_at(2, 0) == 42);
            assert(pc1000_placed(5, 0) == 42);
        } else if i == 43 {
            assert(pc1000_at(2, 1) == 43);
            assert(pc1000_placed(5, 1) == 43);
        } else if i == 44 {
            assert(pc1000_at(2, 2) == 44);
            assert(pc1000_placed(5, 2) == 44);
        } else if i == 45 {
            assert(pc1000_at(2, 3) == 45);
            assert(pc1000_placed(5, 3) == 45);
        } else if i == 46 {
            assert(pc1000_at(2, 4) == 46);
            assert(pc1000_placed(5, 4) == 46);
        } else if i == 47 {
            assert(pc1000_at(2, 5) == 47);
            assert(pc1000_placed(5, 5) == 47);
        } else if i == 48 {
            assert(pc1000_at(2, 6) == 48);
            assert(pc1000_placed(5, 6) == 48);
        } else if i == 49 {
            assert(pc1000_at(2, 7) == 49);
            assert(pc1000_placed(5, 7) == 49);
        } else if i == 50 {
            assert(pc1000_at(6, 3) == 50);
            assert(pc1000_placed(5, 8) == 50);
        } else if i == 51 {
            assert(pc1000_at(6, 7) == 51);
            assert(pc1000_placed(5, 9) == 51);
        }
    }
}

proof fn lemma_letter_matches(model: MachineModel, c: char)
    requires
        'A' <= c <= 'Z',
    ensures
        forall|kv: KeyView| #[trigger] key_matches(model, HostKey::Letter(c), kv) == has_part(key_parts(kv), seq![c]),
{
    assert(ascii_upper(c) == c);
}

proof fn lemma_digit_matches(model: MachineModel, d: u8, c: char)
    requires
        d <= 9,
        c as int == '0' as int + d,
    ensures
        forall|kv: KeyView| #[trigger] key_matches(model, HostKey::Digit(d), kv) == has_part(key_parts(kv), seq![c]),
{
    assert(((('0' as u32) + (d as u32)) as char) == c);
}

proof fn lemma_fixed_matches(model: MachineModel, h: HostKey)
    requires
        fixed_alias(model, h) is Some,
        !(h is Letter),
        !(h is Digit),
        !(h is Function),
    ensures
        forall|kv: KeyView| #[trigger] key_matches(model, h, kv) == has_part(key_parts(kv), fixed_alias(model, h).unwrap()),
{
}

#[verifier::spinoff_prover]
proof fn lemma_nc1020_letters(model: MachineModel, c: char)
    requires
        layout_spec(model) == layout_nc1020_spec(),
        'A' <= c <= 'Z',
    ensures
        operates_key_labelled(model, HostKey::Letter(c), seq![c]),
        host_key_id(model, HostKey::Letter(ascii_lower(c))) == host_key_id(model, HostKey::Letter(c)),
{
    lemma_letter_matches(model, c);
    if c == 'A' {
        lemma_nc1020_alias(model, HostKey::Letter(c), seq![c], 22, 0);
        assert(key_parts(layout_spec(model)[22]) == nc1020_parts()[22]);
        assert(key_parts(layout_spec(model)[22])[0] == seq![c]);
        assert(host_key_id(model, HostKey::Letter(c)) == Some(layout_key_id(model, 22)));
    } else if c == 'B' {
        lemma_nc1020_alias(model, HostKey::Letter(c), seq![c], 36, 0);
        assert(key_parts(layout_spec(model)[36]) == nc1020_parts()[36]);
        assert(key_parts(layout_spec(model)[36])[0] == seq![c]);
        assert(host_key_id(model, HostKey::Letter(c)) == Some(layout_key_id(model, 36)));
    } else if c == 'C' {
        lemma_nc1020_alias(model, HostKey::Letter(c), seq![c], 34, 0);
        assert(key_parts(layout_spec(model)[34]) == nc1020_parts()[34]);
        assert(key_parts(layout_spec(model)[34])[0] == seq![c]);
        assert(host_key_id(model, HostKey::Letter(c)) == Some(layout_key_id(model, 34)));
    } else if c == 'D' {
        lemma_nc1020_alias(model, HostKey::Letter(c), seq![c], 24, 0);
        assert(key_parts(layout_spec(model)[24]) == nc1020_parts()[24]);
        assert(key_parts(layout_spec(model)[24])[0] == seq![c]);
        assert(host_key_id(model, HostKey::Letter(c)) == Some(layout_key_id(model, 24)));
    } else if c == 'E' {
        lemma_nc1020_alias(model, HostKey::Letter(c), seq![c], 14, 0);
        assert(key_parts(layout_spec(model)[14]) == nc1020_parts()[14]);
        assert(key_parts(layout_spec(model)[14])[0] == seq![c]);
        assert(host_key_id(model, HostKey::Letter(c)) == Some(layout_key_id(model, 14)));
    } else if c == 'F' {
        lemma_nc1020_alias(model, HostKey::Letter(c), seq![c], 25, 0);
        assert(key_parts(layout_spec(model)[25]) == nc1020_parts()[25]);
        assert(key_parts(layout_spec(model)[25])[0] == seq![c]);
        assert(host_key_id(model, HostKey::Letter(c)) == Some(layout_key_id(model, 25)));
    } else if c == 'G' {
        lemma_nc1020_alias(model, HostKey::Letter(c), seq![c], 26, 0);
        assert(key_parts(layout_spec(model)[26]) == nc1020_parts()[26]);
        assert(key_parts(layout_spec(model)[26])[0] == seq![c]);
        assert(host_key_id(model, HostKey::Letter(c)) == Some(layout_key_id(model, 26)));
    } else if c == 'H' {
        lemma_nc1020_alias(model, HostKey::Letter(c), seq![c], 27, 0);
        assert(key_parts(layout_spec(model)[27]) == nc1020_parts()[27]);
        assert(key_parts(layout_spec(model)[27])[0] == seq![c]);
        assert(host_key_id(model, HostKey::Letter(c)) == Some(layout_key_id(model, 27)));
    } else if c == 'I' {
        lemma_nc1020_alias(model, HostKey::Letter(c), seq![c], 19, 0);
        assert(key_parts(layout_spec(model)[19]) == nc1020_parts()[19]);
        assert(key_parts(layout_spec(model)[19])[0] == seq![c]);
        assert(host_key_id(model, HostKey::Letter(c)) == Some(layout_key_id(model, 19)));
    } else if c == 'J' {
        lemma_nc1020_alias(model, HostKey::Letter(c), seq![c], 28, 0);
        assert(key_parts(layout_spec(model)[28]) == nc1020_parts()[28]);
        assert(key_parts(layout_spec(model)[28])[0] == seq![c]);
        assert(host_key_id(model, HostKey::Letter(c)) == Some(layout_key_id(model, 28)));
    } else if c == 'K' {
        lemma_nc1020_alias(model, HostKey::Letter(c), seq![c], 29, 0);
        assert(key_parts(layout_spec(model)[29]) == nc1020_parts()[29]);
        assert(key_parts(layout_spec(model)[29])[0] == seq![c]);
        assert(host_key_id(model, HostKey::Letter(c)) == Some(layout_key_id(model, 29)));
    } else if c == 'L' {
        lemma_nc1020_alias(model, HostKey::Letter(c), seq![c], 30, 0);
        assert(key_parts(layout_spec(model)[30]) == nc1020_parts()[30]);
        assert(key_parts(layout_spec(model)[30])[0] == seq![c]);
        assert(host_key_id(model, HostKey::Letter(c)) == Some(layout_key_id(model, 30)));
    } else if c == 'M' {
        lemma_nc1020_alias(model, HostKey::Letter(c), seq![c], 38, 0);
        assert(key_parts(layout_spec(model)[38]) == nc1020_parts()[38]);
        assert(key_parts(layout_spec(model)[38])[0] == seq![c]);
        assert(host_key_id(model, HostKey::Letter(c)) == Some(layout_key_id(model, 38)));
    } else if c == 'N' {
        lemma_nc1020_alias(model, HostKey::Letter(c), seq![c], 37, 0);
        assert(key_parts(layout_spec(model)[37]) == nc1020_parts()[37]);
        assert(key_parts(layout_spec(model)[37])[0] == seq![c]);
        assert(host_key_id(model, HostKey::Letter(c)) == Some(layout_key_id(model, 37)));
    } else if c == 'O' {
        lemma_nc1020_alias(model, HostKey::Letter(c), seq![c], 20, 0);
        assert(key_parts(layout_spec(model)[20]) == nc1020_parts()[20]);
        assert(key_parts(layout_spec(model)[20])[0] == seq![c]);
        assert(host_key_id(model, HostKey::Letter(c)) == Some(layout_key_id(model, 20)));
    } else if c == 'P' {
        lemma_nc1020_alias(model, HostKey::Letter(c), seq![c], 21, 0);
        assert(key_parts(layout_spec(model)[21]) == nc1020_parts()[21]);
        assert(key_parts(layout_spec(model)[21])[0] == seq![c]);
        assert(host_key_id(model, HostKey::Letter(c)) == Some(layout_key_id(model, 21)));
    } else if c == 'Q' {
        lemma_nc1020_alias(model, HostKey::Letter(c), seq![c], 12, 0);
        assert(key_parts(layout_spec(model)[12]) == nc1020_parts()[12]);
        assert(key_parts(layout_spec(model)[12])[0] == seq![c]);
        assert(host_key_id(model, HostKey::Letter(c)) == Some(layout_key_id(model, 12)));
    } else if c == 'R' {
        lemma_nc1020_alias(model, HostKey::Letter(c), seq![c], 15, 0);
        assert(key_parts(layout_spec(model)[15]) == nc1020_parts()[15]);
        assert(key_parts(layout_spec(model)[15])[0] == seq![c]);
        assert(host_key_id(model, HostKey::Letter(c)) == Some(layout_key_id(model, 15)));
    } else if c == 'S' {
        lemma_nc1020_alias(model, HostKey::Letter(c), seq![c], 23, 0);
        assert(key_parts(layout_spec(model)[23]) == nc1020_parts()[23]);
        assert(key_parts(layout_spec(model)[23])[0] == seq![c]);
        assert(host_key_id(model, HostKey::Letter(c)) == Some(layout_key_id(model, 23)));
    } else if c == 'T' {
        lemma_nc1020_alias(model, HostKey::Letter(c), seq![c], 16, 0);
        assert(key_parts(layout_spec(model)[16]) == nc1020_parts()[16]);
        assert(key_parts(layout_spec(model)[16])[0] == seq![c]);
        assert(host_key_id(model, HostKey::Letter(c)) == Some(layout_key_id(model, 16)));
    } else if c == 'U' {
        lemma_nc1020_alias(model, HostKey::Letter(c), seq![c], 18, 0);
        assert(key_parts(layout_spec(model)[18]) == nc1020_parts()[18]);
        assert(key_parts(layout_spec(model)[18])[0] == seq![c]);
        assert(host_key_id(model, HostKey::Letter(c)) == Some(layout_key_id(model, 18)));
    } else if c == 'V' {
        lemma_nc1020_alias(model, HostKey::Letter(c), seq![c], 35, 0);
        assert(key_parts(layout_spec(model)[35]) == nc1020_parts()[35]);
        assert(key_parts(layout_spec(model)[35])[0] == seq![c]);
        assert(host_key_id(model, HostKey::Letter(c)) == Some(layout_key_id(model, 35)));
    } else if c == 'W' {
        lemma_nc1020_alias(model, HostKey::Letter(c), seq![c], 13, 0);
        assert(key_parts(layout_spec(model)[13]) == nc1020_parts()[13]);
        assert(key_parts(layout_spec(model)[13])[0] == seq![c]);
        assert(host_key_id(model, HostKey::Letter(c)) == Some(layout_key_id(model, 13)));
    } else if c == 'X' {
        lemma_nc1020_alias(model, HostKey::Letter(c), seq![c], 33, 0);
        assert(key_parts(layout_spec(model)[33]) == nc1020_parts()[33]);
        assert(key_parts(layout_spec(model)[33])[0] == seq![c]);
        assert(host_key_id(model, HostKey::Letter(c)) == Some(layout_key_id(model, 33)));
    } else if c == 'Y' {
        lemma_nc1020_alias(model, HostKey::Letter(c), seq![c], 17, 0);
        assert(key_parts(layout_spec(model)[17]) == nc1020_parts()[17]);
        assert(key_parts(layout_spec(model)[17])[0] == seq![c]);
        assert(host_key_id(model, HostKey::Letter(c)) == Some(layout_key_id(model, 17)));
    } else if c == 'Z' {
        lemma_nc1020_alias(model, HostKey::Letter(c), seq![c], 32, 0);
        assert(key_parts(layout_spec(model)[32]) == nc1020_parts()[32]);
        assert(key_parts(layout_spec(model)[32])[0] == seq![c]);
        assert(host_key_id(model, HostKey::Letter(c)) == Some(layout_key_id(model, 32)));
    }
    lemma_letters_ignore_case(model, ascii_lower(c));
    assert(ascii_upper(ascii_lower(c)) == c);
}

#[verifier::spinoff_prover]
proof fn lemma_nc2000_letters(model: MachineModel, c: char)
    requires
        layout_spec(model) == layout_nc2000_spec(),
        'A' <= c <= 'Z',
    ensures
        operates_key_labelled(model, HostKey::Letter(c), seq![c]),
        host_key_id(model, HostKey::Letter(ascii_lower(c))) == host_key_id(model, HostKey::Letter(c)),
{
    lemma_letter_matches(model, c);
    if c == 'A' {
        lemma_nc2000_alias(model, HostKey::Letter(c), seq![c], 22, 0);
        assert(key_parts(layout_spec(model)[22]) == nc2000_parts()[22]);
        assert(key_parts(layout_spec(model)[22])[0] == seq![c]);
        assert(host_key_id(model, HostKey::Letter(c)) == Some(layout_key_id(model, 22)));
    } else if c == 'B' {
        lemma_nc2000_alias(model, HostKey::Letter(c), seq![c], 36, 0);
        assert(key_parts(layout_spec(model)[36]) == nc2000_parts()[36]);
        assert(key_parts(layout_spec(model)[36])[0] == seq![c]);
        assert(host_key_id(model, HostKey::Letter(c)) == Some(layout_key_id(model, 36)));
    } else if c == 'C' {
        lemma_nc2000_alias(model, HostKey::Letter(c), seq![c], 34, 0);
        assert(key_parts(layout_spec(model)[34]) == nc2000_parts()[34]);
        assert(key_parts(layout_spec(model)[34])[0] == seq![c]);
        assert(host_key_id(model, HostKey::Letter(c)) == Some(layout_key_id(model, 34)));
    } else if c == 'D' {
        lemma_nc2000_alias(model, HostKey::Letter(c), seq![c], 24, 0);
        assert(key_parts(layout_spec(model)[24]) == nc2000_parts()[24]);
        assert(key_parts(layout_spec(model)[24])[0] == seq![c]);
        assert(host_key_id(model, HostKey::Letter(c)) == Some(layout_key_id(model, 24)));
    } else if c == 'E' {
        lemma_nc2000_alias(model, HostKey::Letter(c), seq![c], 14, 0);
        assert(key_parts(layout_spec(model)[14]) == nc2000_parts()[14]);
        assert(key_parts(layout_spec(model)[14])[0] == seq![c]);
        assert(host_key_id(model, HostKey::Letter(c)) == Some(layout_key_id(model, 14)));
    } else if c == 'F' {
        lemma_nc2000_alias(model, HostKey::Letter(c), seq![c], 25, 0);
        assert(key_parts(layout_spec(model)[25]) == nc2000_parts()[25]);
        assert(key_parts(layout_spec(model)[25])[0] == seq![c]);
        assert(host_key_id(model, HostKey::Letter(c)) == Some(layout_key_id(model, 25)));
    } else if c == 'G' {
        lemma_nc2000_alias(model, HostKey::Letter(c), seq![c], 26, 0);
        assert(key_parts(layout_spec(model)[26]) == nc2000_parts()[26]);
        assert(key_parts(layout_spec(model)[26])[0] == seq![c]);
        assert(host_key_id(model, HostKey::Letter(c)) == Some(layout_key_id(model, 26)));
    } else if c == 'H' {
        lemma_nc2000_alias(model, HostKey::Letter(c), seq![c], 27, 0);
        assert(key_parts(layout_spec(model)[27]) == nc2000_parts()[27]);
        assert(key_parts(layout_spec(model)[27])[0] == seq![c]);
        assert(host_key_id(model, HostKey::Letter(c)) == Some(layout_key_id(model, 27)));
    } else if c == 'I' {
        lemma_nc2000_alias(model, HostKey::Letter(c), seq![c], 19, 0);
        assert(key_parts(layout_spec(model)[19]) == nc2000_parts()[19]);
        assert(key_parts(layout_spec(model)[19])[0] == seq![c]);
        assert(host_key_id(model, HostKey::Letter(c)) == Some(layout_key_id(model, 19)));
    } else if c == 'J' {
        lemma_nc2000_alias(model, HostKey::Letter(c), seq![c], 28, 0);
        assert(key_parts(layout_spec(model)[28]) == nc2000_parts()[28]);
        assert(key_parts(layout_spec(model)[28])[0] == seq![c]);
        assert(host_key_id(model, HostKey::Letter(c)) == Some(layout_key_id(model, 28)));
    } else if c == 'K' {
        lemma_nc2000_alias(model, HostKey::Letter(c), seq![c], 29, 0);
        assert(key_parts(layout_spec(model)[29]) == nc2000_parts()[29]);
        assert(key_parts(layout_spec(model)[29])[0] == seq![c]);
        assert(host_key_id(model, HostKey::Letter(c)) == Some(layout_key_id(model, 29)));
    } else if c == 'L' {
        lemma_nc2000_alias(model, HostKey::Letter(c), seq![c], 30, 0);
        assert(key_parts(layout_spec(model)[30]) == nc2000_parts()[30]);
        assert(key_parts(layout_spec(model)[30])[0] == seq![c]);
        assert(host_key_id(model, HostKey::Letter(c)) == Some(layout_key_id(model, 30)));
    } else if c == 'M' {
        lemma_nc2000_alias(model, HostKey::Letter(c), seq![c], 38, 0);
        assert(key_parts(layout_spec(model)[38]) == nc2000_parts()[38]);
        assert(key_parts(layout_spec(model)[38])[0] == seq![c]);
        assert(host_key_id(model, HostKey::Letter(c)) == Some(layout_key_id(model, 38)));
    } else if c == 'N' {
        lemma_nc2000_alias(model, HostKey::Letter(c), seq![c], 37, 0);
        assert(key_parts(layout_spec(model)[37]) == nc2000_parts()[37]);
        assert(key_parts(layout_spec(model)[37])[0] == seq![c]);
        assert(host_key_id(model, HostKey::Letter(c)) == Some(layout_key_id(model, 37)));
    } else if c == 'O' {
        lemma_nc2000_alias(model, HostKey::Letter(c), seq![c], 20, 0);
        assert(key_parts(layout_spec(model)[20]) == nc2000_parts()[20]);
        assert(key_parts(layout_spec(model)[20])[0] == seq![c]);
        assert(host_key_id(model, HostKey::Letter(c)) == Some(layout_key_id(model, 20)));
    } else if c == 'P' {
        lemma_nc2000_alias(model, HostKey::Letter(c), seq![c], 21, 0);
        assert(key_parts(layout_spec(model)[21]) == nc2000_parts()[21]);
        assert(key_parts(layout_spec(model)[21])[0] == seq![c]);
        assert(host_key_id(model, HostKey::Letter(c)) == Some(layout_key_id(model, 21)));
    } else if c == 'Q' {
        lemma_nc2000_alias(model, HostKey::Letter(c), seq![c], 12, 0);
        assert(key_parts(layout_spec(model)[12]) == nc2000_parts()[12]);
        assert(key_parts(layout_spec(model)[12])[0] == seq![c]);
        assert(host_key_id(model, HostKey::Letter(c)) == Some(layout_key_id(model, 12)));
    } else if c == 'R' {
        lemma_nc2000_alias(model, HostKey::Letter(c), seq![c], 15, 0);
        assert(key_parts(layout_spec(model)[15]) == nc2000_parts()[15]);
        assert(key_parts(layout_spec(model)[15])[0] == seq![c]);
        assert(host_key_id(model, HostKey::Letter(c)) == Some(layout_key_id(model, 15)));
    } else if c == 'S' {
        lemma_nc2000_alias(model, HostKey::Letter(c), seq![c], 23, 0);
        assert(key_parts(layout_spec(model)[23]) == nc2000_parts()[23]);
        assert(key_parts(layout_spec(model)[23])[0] == seq![c]);
        assert(host_key_id(model, HostKey::Letter(c)) == Some(layout_key_id(model, 23)));
    } else if c == 'T' {
        lemma_nc2000_alias(model, HostKey::Letter(c), seq![c], 16, 0);
        assert(key_parts(layout_spec(model)[16]) == nc2000_parts()[16]);
        assert(key_parts(layout_spec(model)[16])[0] == seq![c]);
        assert(host_key_id(model, HostKey::Letter(c)) == Some(layout_key_id(model, 16)));
    } else if c == 'U' {
        lemma_nc2000_alias(model, HostKey::Letter(c), seq![c], 18, 0);
        assert(key_parts(layout_spec(model)[18]) == nc2000_parts()[18]);
        assert(key_parts(layout_spec(model)[18])[0] == seq![c]);
        assert(host_key_id(model, HostKey::Letter(c)) == Some(layout_key_id(model, 18)));
    } else if c == 'V' {
        lemma_nc2000_alias(model, HostKey::Letter(c), seq![c], 35, 0);
        assert(key_parts(layout_spec(model)[35]) == nc2000_parts()[35]);
        assert(key_parts(layout_spec(model)[35])[0] == seq![c]);
        assert(host_key_id(model, HostKey::Letter(c)) == Some(layout_key_id(model, 35)));
    } else if c == 'W' {
        lemma_nc2000_alias(model, HostKey::Letter(c), seq![c], 13, 0);
        assert(key_parts(layout_spec(model)[13]) == nc2000_parts()[13]);
        assert(key_parts(layout_spec(model)[13])[0] == seq![c]);
        assert(host_key_id(model, HostKey::Letter(c)) == Some(layout_key_id(model, 13)));
    } else if c == 'X' {
        lemma_nc2000_alias(model, HostKey::Letter(c), seq![c], 33, 0);
        assert(key_parts(layout_spec(model)[33]) == nc2000_parts()[33]);
        assert(key_parts(layout_spec(model)[33])[0] == seq![c]);
        assert(host_key_id(model, HostKey::Letter(c)) == Some(layout_key_id(model, 33)));
    } else if c == 'Y' {
        lemma_nc2000_alias(model, HostKey::Letter(c), seq![c], 17, 0);
        assert(key_parts(layout_spec(model)[17]) == nc2000_parts()[17]);
        assert(key_parts(layout_spec(model)[17])[0] == seq![c]);
        assert(host_key_id(model, HostKey::Letter(c)) == Some(layout_key_id(model, 17)));
    } else if c == 'Z' {
        lemma_nc2000_alias(model, HostKey::Letter(c), seq![c], 32, 0);
        assert(key_parts(layout_spec(model)[32]) == nc2000_parts()[32]);
        assert(key_parts(layout_spec(model)[32])[0] == seq![c]);
        assert(host_key_id(model, HostKey::Letter(c)) == Some(layout_key_id(model, 32)));
    }
    lemma_letters_ignore_case(model, ascii_lower(c));
    assert(ascii_upper(ascii_lower(c)) == c);
}

#[verifier::spinoff_prover]
proof fn lemma_nc3000_letters(model: MachineModel, c: char)
    requires
        layout_spec(model) == layout_nc3000_spec(),
        'A' <= c <= 'Z',
    ensures
        operates_key_labelled(model, HostKey::Letter(c), seq![c]),
        host_key_id(model, HostKey::Letter(ascii_lower(c))) == host_key_id(model, HostKey::Letter(c)),
{
    lemma_letter_matches(model, c);
    if c == 'A' {
        lemma_nc3000_alias(model, HostKey::Letter(c), seq![c], 21, 0);
        assert(key_parts(layout_spec(model)[21]) == nc3000_parts()[21]);
        assert(key_parts(layout_spec(model)[21])[0] == seq![c]);
        assert(host_key_id(model, HostKey::Letter(c)) == Some(layout_key_id(model, 21)));
    } else if c == 'B' {
        lemma_nc3000_alias(model, HostKey::Letter(c), seq![c], 35, 0);
        assert(key_parts(layout_spec(model)[35]) == nc3000_parts()[35]);
        assert(key_parts(layout_spec(model)[35])[0] == seq![c]);
        assert(host_key_id(model, HostKey::Letter(c)) == Some(layout_key_id(model, 35)));
    } else if c == 'C' {
        lemma_nc3000_alias(model, HostKey::Letter(c), seq![c], 33, 0);
        assert(key_parts(layout_spec(model)[33]) == nc3000_parts()[33]);
        assert(key_parts(layout_spec(model)[33])[0] == seq![c]);
        assert(host_key_id(model, HostKey::Letter(c)) == Some(layout_key_id(model, 33)));
    } else if c == 'D' {
        lemma_nc3000_alias(model, HostKey::Letter(c), seq![c], 23, 0);
        assert(key_parts(layout_spec(model)[23]) == nc3000_parts()[23]);
        assert(key_parts(layout_spec(model)[23])[0] == seq![c]);
        assert(host_key_id(model, HostKey::Letter(c)) == Some(layout_key_id(model, 23)));
    } else if c == 'E' {
        lemma_nc3000_alias(model, HostKey::Letter(c), seq![c], 13, 0);
        assert(key_parts(layout_spec(model)[13]) == nc3000_parts()[13]);
        assert(key_parts(layout_spec(model)[13])[0] == seq![c]);
        assert(host_key_id(model, HostKey::Letter(c)) == Some(layout_key_id(model, 13)));
    } else if c == 'F' {
        lemma_nc3000_alias(model, HostKey::Letter(c), seq![c], 24, 0);
        assert(key_parts(layout_spec(model)[24]) == nc3000_parts()[24]);
        assert(key_parts(layout_spec(model)[24])[0] == seq![c]);
        assert(host_key_id(model, HostKey::Letter(c)) == Some(layout_key_id(model, 24)));
    } else if c == 'G' {
        lemma_nc3000_alias(model, HostKey::Letter(c), seq![c], 25, 0);
        assert(key_parts(layout_spec(model)[25]) == nc3000_parts()[25]);
        assert(key_parts(layout_spec(model)[25])[0] == seq![c]);
        assert(host_key_id(model, HostKey::Letter(c)) == Some(layout_key_id(model, 25)));
    } else if c == 'H' {
        lemma_nc3000_alias(model, HostKey::Letter(c), seq![c], 26, 0);
        assert(key_parts(layout_spec(model)[26]) == nc3000_parts()[26]);
        assert(key_parts(layout_spec(model)[26])[0] == seq![c]);
        assert(host_key_id(model, HostKey::Letter(c)) == Some(layout_key_id(model, 26)));
    } else if c == 'I' {
        lemma_nc3000_alias(model, HostKey::Letter(c), seq![c], 18, 0);
        assert(key_parts(layout_spec(model)[18]) == nc3000_parts()[18]);
        assert(key_parts(layout_spec(model)[18])[0] == seq![c]);
        assert(host_key_id(model, HostKey::Letter(c)) == Some(layout_key_id(model, 18)));
    } else if c == 'J' {
        lemma_nc3000_alias(model, HostKey::Letter(c), seq![c], 27, 0);
        assert(key_parts(layout_spec(model)[27]) == nc3000_parts()[27]);
        assert(key_parts(layout_spec(model)[27])[0] == seq![c]);
        assert(host_key_id(model, HostKey::Letter(c)) == Some(layout_key_id(model, 27)));
    } else if c == 'K' {
        lemma_nc3000_alias(model, HostKey::Letter(c), seq![c], 28, 0);
        assert(key_parts(layout_spec(model)[28]) == nc3000_parts()[28]);
        assert(key_parts(layout_spec(model)[28])[0] == seq![c]);
        assert(host_key_id(model, HostKey::Letter(c)) == Some(layout_key_id(model, 28)));
    } else if c == 'L' {
        lemma_nc3000_alias(model, HostKey::Letter(c), seq![c], 29, 0);
        assert(key_parts(layout_spec(model)[29]) == nc3000_parts()[29]);
        assert(key_parts(layout_spec(model)[29])[0] == seq![c]);
        assert(host_key_id(model, HostKey::Letter(c)) == Some(layout_key_id(model, 29)));
    } else if c == 'M' {
        lemma_nc3000_alias(model, HostKey::Letter(c), seq![c], 37, 0);
        assert(key_parts(layout_spec(model)[37]) == nc3000_parts()[37]);
        assert(key_parts(layout_spec(model)[37])[0] == seq![c]);
        assert(host_key_id(model, HostKey::Letter(c)) == Some(layout_key_id(model, 37)));
    } else if c == 'N' {
        lemma_nc3000_alias(model, HostKey::Letter(c), seq![c], 36, 0);
        assert(key_parts(layout_spec(model)[36]) == nc3000_parts()[36]);
        assert(key_parts(layout_spec(model)[36])[0] == seq![c]);
        assert(host_key_id(model, HostKey::Letter(c)) == Some(layout_key_id(model, 36)));
    } else if c == 'O' {
        lemma_nc3000_alias(model, HostKey::Letter(c), seq![c], 19, 0);
        assert(key_parts(layout_spec(model)[19]) == nc3000_parts()[19]);
        assert(key_parts(layout_spec(model)[19])[0] == seq![c]);
        assert(host_key_id(model, HostKey::Letter(c)) == Some(layout_key_id(model, 19)));
    } else if c == 'P' {
        lemma_nc3000_alias(model, HostKey::Letter(c), seq![c], 20, 0);
        assert(key_parts(layout_spec(model)[20]) == nc3000_parts()[20]);
        assert(key_parts(layout_spec(model)[20])[0] == seq![c]);
        assert(host_key_id(model, HostKey::Letter(c)) == Some(layout_key_id(model, 20)));
    } else if c == 'Q' {
        lemma_nc3000_alias(model, HostKey::Letter(c), seq![c], 11, 0);
        assert(key_parts(layout_spec(model)[11]) == nc3000_parts()[11]);
        assert(key_parts(layout_spec(model)[11])[0] == seq![c]);
        assert(host_key_id(model, HostKey::Letter(c)) == Some(layout_key_id(model, 11)));
    } else if c == 'R' {
        lemma_nc3000_alias(model, HostKey::Letter(c), seq![c], 14, 0);
        assert(key_parts(layout_spec(model)[14]) == nc3000_parts()[14]);
        assert(key_parts(layout_spec(model)[14])[0] == seq![c]);
        assert(host_key_id(model, HostKey::Letter(c)) == Some(layout_key_id(model, 14)));
    } else if c == 'S' {
        lemma_nc3000_alias(model, HostKey::Letter(c), seq![c], 22, 0);
        assert(key_parts(layout_spec(model)[22]) == nc3000_parts()[22]);
        assert(key_parts(layout_spec(model)[22])[0] == seq![c]);
        assert(host_key_id(model, HostKey::Letter(c)) == Some(layout_key_id(model, 22)));
    } else if c == 'T' {
        lemma_nc3000_alias(model, HostKey::Letter(c), seq![c], 15, 0);
        assert(key_parts(layout_spec(model)[15]) == nc3000_parts()[15]);
        assert(key_parts(layout_spec(model)[15])[0] == seq![c]);
        assert(host_key_id(model, HostKey::Letter(c)) == Some(layout_key_id(model, 15)));
    } else if c == 'U' {
        lemma_nc3000_alias(model, HostKey::Letter(c), seq![c], 17, 0);
        assert(key_parts(layout_spec(model)[17]) == nc3000_parts()[17]);
        assert(key_parts(layout_spec(model)[17])[0] == seq![c]);
        assert(host_key_id(model, HostKey::Letter(c)) == Some(layout_key_id(model, 17)));
    } else if c == 'V' {
        lemma_nc3000_alias(model, HostKey::Letter(c), seq![c], 34, 0);
        assert(key_parts(layout_spec(model)[34]) == nc3000_parts()[34]);
        assert(key_parts(layout_spec(model)[34])[0] == seq![c]);
        assert(host_key_id(model, HostKey::Letter(c)) == Some(layout_key_id(model, 34)));
    } else if c == 'W' {
        lemma_nc3000_alias(model, HostKey::Letter(c), seq![c], 12, 0);
        assert(key_parts(layout_spec(model)[12]) == nc3000_parts()[12]);
        assert(key_parts(layout_spec(model)[12])[0] == seq![c]);
        assert(host_key_id(model, HostKey::Letter(c)) == Some(layout_key_id(model, 12)));
    } else if c == 'X' {
        lemma_nc3000_alias(model, HostKey::Letter(c), seq![c], 32, 0);
        assert(key_parts(layout_spec(model)[32]) == nc3000_parts()[32]);
        assert(key_parts(layout_spec(model)[32])[0] == seq![c]);
        assert(host_key_id(model, HostKey::Letter(c)) == Some(layout_key_id(model, 32)));
    } else if c == 'Y' {
        lemma_nc3000_alias(model, HostKey::Letter(c), seq![c], 16, 0);
        assert(key_parts(layout_spec(model)[16]) == nc3000_parts()[16]);
        assert(key_parts(layout_spec(model)[16])[0] == seq![c]);
        assert(host_key_id(model, HostKey::Letter(c)) == Some(layout_key_id(model, 16)));
    } else if c == 'Z' {
        lemma_nc3000_alias(model, HostKey::Letter(c), seq![c], 31, 0);
        assert(key_parts(layout_spec(model)[31]) == nc3000_parts()[31]);
        assert(key_parts(layout_spec(model)[31])[0] == seq![c]);
        assert(host_key_id(model, HostKey::Letter(c)) == Some(layout_key_id(model, 31)));
    }
    lemma_letters_ignore_case(model, ascii_lower(c));
    assert(ascii_upper(ascii_lower(c)) == c);
}

#[verifier::spinoff_prover]
proof fn lemma_pc1000_letters(model: MachineModel, c: char)
    requires
        layout_spec(model) == layout_pc1000_spec(),
        'A' <= c <= 'Z',
    ensures
        operates_key_labelled(model, HostKey::Letter(c), seq![c]),
        host_key_id(model, HostKey::Letter(ascii_lower(c))) == host_key_id(model, HostKey::Letter(c)),
{
    lemma_letter_matches(model, c);
    if c == 'A' {
        lemma_pc1000_alias(model, HostKey::Letter(c), seq![c], 22, 0);
        assert(key_parts(layout_spec(model)[22]) == pc1000_parts()[22]);
        assert(key_parts(layout_spec(model)[22])[0] == seq![c]);
        assert(host_key_id(model, HostKey::Letter(c)) == Some(layout_key_id(model, 22)));
    } else if c == 'B' {
        lemma_pc1000_alias(model, HostKey::Letter(c), seq![c], 36, 0);
        assert(key_parts(layout_spec(model)[36]) == pc1000_parts()[36]);
        assert(key_parts(layout_spec(model)[36])[0] == seq![c]);
        assert(host_key_id(model, HostKey::Letter(c)) == Some(layout_key_id(model, 36)));
    } else if c == 'C' {
        lemma_pc1000_alias(model, HostKey::Letter(c), seq![c], 34, 0);
        assert(key_parts(layout_spec(model)[34]) == pc1000_parts()[34]);
        assert(key_parts(layout_spec(model)[34])[0] == seq![c]);
        assert(host_key_id(model, HostKey::Letter(c)) == Some(layout_key_id(model, 34)));
    } else if c == 'D' {
        lemma_pc1000_alias(model, HostKey::Letter(c), seq![c], 24, 0);
        assert(key_parts(layout_spec(model)[24]) == pc1000_parts()[24]);
        assert(key_parts(layout_spec(model)[24])[0] == seq![c]);
        assert(host_key_id(model, HostKey::Letter(c)) == Some(layout_key_id(model, 24)));
    } else if c == 'E' {
        lemma_pc1000_alias(model, HostKey::Letter(c), seq![c], 14, 0);
        assert(key_parts(layout_spec(model)[14]) == pc1000_parts()[14]);
        assert(key_parts(layout_spec(model)[14])[0] == seq![c]);
        assert(host_key_id(model, HostKey::Letter(c)) == Some(layout_key_id(model, 14)));
    } else if c == 'F' {
        lemma_pc1000_alias(model, HostKey::Letter(c), seq![c], 25, 0);
        assert(key_parts(layout_spec(model)[25]) == pc1000_parts()[25]);
        assert(key_parts(layout_spec(model)[25])[0] == seq![c]);
        assert(host_key_id(model, HostKey::Letter(c)) == Some(layout_key_id(model, 25)));
    } else if c == 'G' {
        lemma_pc1000_alias(model, HostKey::Letter(c), seq![c], 26, 0);
        assert(key_parts(layout_spec(model)[26]) == pc1000_parts()[26]);
        assert(key_parts(layout_spec(model)[26])[0] == seq![c]);
        assert(host_key_id(model, HostKey::Letter(c)) == Some(layout_key_id(model, 26)));
    } else if c == 'H' {
        lemma_pc1000_alias(model, HostKey::Letter(c), seq![c], 27, 0);
        assert(key_parts(layout_spec(model)[27]) == pc1000_parts()[27]);
        assert(key_parts(layout_spec(model)[27])[0] == seq![c]);
        assert(host_key_id(model, HostKey::Letter(c)) == Some(layout_key_id(model, 27)));
    } else if c == 'I' {
        lemma_pc1000_alias(model, HostKey::Letter(c), seq![c], 19, 0);
        assert(key_parts(layout_spec(model)[19]) == pc1000_parts()[19]);
        assert(key_parts(layout_spec(model)[19])[0] == seq![c]);
        assert(host_key_id(model, HostKey::Letter(c)) == Some(layout_key_id(model, 19)));
    } else if c == 'J' {
        lemma_pc1000_alias(model, HostKey::Letter(c), seq![c], 28, 0);
        assert(key_parts(layout_spec(model)[28]) == pc1000_parts()[28]);
        assert(key_parts(layout_spec(model)[28])[0] == seq![c]);
        assert(host_key_id(model, HostKey::Letter(c)) == Some(layout_key_id(model, 28)));
    } else if c == 'K' {
        lemma_pc1000_alias(model, HostKey::Letter(c), seq![c], 29, 0);
        assert(key_parts(layout_spec(model)[29]) == pc1000_parts()[29]);
        assert(key_parts(layout_spec(model)[29])[0] == seq![c]);
        assert(host_key_id(model, HostKey::Letter(c)) == Some(layout_key_id(model, 29)));
    } else if c == 'L' {
        lemma_pc1000_alias(model, HostKey::Letter(c), seq![c], 30, 0);
        assert(key_parts(layout_spec(model)[30]) == pc1000_parts()[30]);
        assert(key_parts(layout_spec(model)[30])[0] == seq![c]);
        assert(host_key_id(model, HostKey::Letter(c)) == Some(layout_key_id(model, 30)));
    } else if c == 'M' {
        lemma_pc1000_alias(model, HostKey::Letter(c), seq![c], 38, 0);
        assert(key_parts(layout_spec(model)[38]) == pc1000_parts()[38]);
        assert(key_parts(layout_spec(model)[38])[0] == seq![c]);
        assert(host_key_id(model, HostKey::Letter(c)) == Some(layout_key_id(model, 38)));
    } else if c == 'N' {
        lemma_pc1000_alias(model, HostKey::Letter(c), seq![c], 37, 0);
        assert(key_parts(layout_spec(model)[37]) == pc1000_parts()[37]);
        assert(key_parts(layout_spec(model)[37])[0] == seq![c]);
        assert(host_key_id(model, HostKey::Letter(c)) == Some(layout_key_id(model, 37)));
    } else if c == 'O' {
        lemma_pc1000_alias(model, HostKey::Letter(c), seq![c], 20, 0);
        assert(key_parts(layout_spec(model)[20]) == pc1000_parts()[20]);
        assert(key_parts(layout_spec(model)[20])[0] == seq![c]);
        assert(host_key_id(model, HostKey::Letter(c)) == Some(layout_key_id(model, 20)));
    } else if c == 'P' {
        lemma_pc1000_alias(model, HostKey::Letter(c), seq![c], 21, 0);
        assert(key_parts(layout_spec(model)[21]) == pc1000_parts()[21]);
        assert(key_parts(layout_spec(model)[21])[0] == seq![c]);
        assert(host_key_id(model, HostKey::Letter(c)) == Some(layout_key_id(model, 21)));
    } else if c == 'Q' {
        lemma_pc1000_alias(model, HostKey::Letter(c), seq![c], 12, 0);
        assert(key_parts(layout_spec(model)[12]) == pc1000_parts()[12]);
        assert(key_parts(layout_spec(model)[12])[0] == seq![c]);
        assert(host_key_id(model, HostKey::Letter(c)) == Some(layout_key_id(model, 12)));
    } else if c == 'R' {
        lemma_pc1000_alias(model, HostKey::Letter(c), seq![c], 15, 0);
        assert(key_parts(layout_spec(model)[15]) == pc1000_parts()[15]);
        assert(key_parts(layout_spec(model)[15])[0] == seq![c]);
        assert(host_key_id(model, HostKey::Letter(c)) == Some(layout_key_id(model, 15)));
    } else if c == 'S' {
        lemma_pc1000_alias(model, HostKey::Letter(c), seq![c], 23, 0);
        assert(key_parts(layout_spec(model)[23]) == pc1000_parts()[23]);
        assert(key_parts(layout_spec(model)[23])[0] == seq![c]);
        assert(host_key_id(model, HostKey::Letter(c)) == Some(layout_key_id(model, 23)));
    } else if c == 'T' {
        lemma_pc1000_alias(model, HostKey::Letter(c), seq![c], 16, 0);
        assert(key_parts(layout_spec(model)[16]) == pc1000_parts()[16]);
        assert(key_parts(layout_spec(model)[16])[0] == seq![c]);
        assert(host_key_id(model, HostKey::Letter(c)) == Some(layout_key_id(model, 16)));
    } else if c == 'U' {
        lemma_pc1000_alias(model, HostKey::Letter(c), seq![c], 18, 0);
        assert(key_parts(layout_spec(model)[18]) == pc1000_parts()[18]);
        assert(key_parts(layout_spec(model)[18])[0] == seq![c]);
        assert(host_key_id(model, HostKey::Letter(c)) == Some(layout_key_id(model, 18)));
    } else if c == 'V' {
        lemma_pc1000_alias(model, HostKey::Letter(c), seq![c], 35, 0);
        assert(key_parts(layout_spec(model)[35]) == pc1000_parts()[35]);
        assert(key_parts(layout_spec(model)[35])[0] == seq![c]);
        assert(host_key_id(model, HostKey::Letter(c)) == Some(layout_key_id(model, 35)));
    } else if c == 'W' {
        lemma_pc1000_alias(model, HostKey::Letter(c), seq![c], 13, 0);
        assert(key_parts(layout_spec(model)[13]) == pc1000_parts()[13]);
        assert(key_parts(layout_spec(model)[13])[0] == seq![c]);
        assert(host_key_id(model, HostKey::Letter(c)) == Some(layout_key_id(model, 13)));
    } else if c == 'X' {
        lemma_pc1000_alias(model, HostKey::Letter(c), seq![c], 33, 0);
        assert(key_parts(layout_spec(model)[33]) == pc1000_parts()[33]);
        assert(key_parts(layout_spec(model)[33])[0] == seq![c]);
        assert(host_key_id(model, HostKey::Letter(c)) == Some(layout_key_id(model, 33)));
    } else if c == 'Y' {
        lemma_pc1000_alias(model, HostKey::Letter(c), seq![c], 17, 0);
        assert(key_parts(layout_spec(model)[17]) == pc1000_parts()[17]);
        assert(key_parts(layout_spec(model)[17])[0] == seq![c]);
        assert(host_key_id(model, HostKey::Letter(c)) == Some(layout_key_id(model, 17)));
    } else if c == 'Z' {
        lemma_pc1000_alias(model, HostKey::Letter(c), seq![c], 32, 0);
        assert(key_parts(layout_spec(model)[32]) == pc1000_parts()[32]);
        assert(key_parts(layout_spec(model)[32])[0] == seq![c]);
        assert(host_key_id(model, HostKey::Letter(c)) == Some(layout_key_id(model, 32)));
    }
    lemma_letters_ignore_case(model, ascii_lower(c));
    assert(ascii_upper(ascii_lower(c)) == c);
}

/// Law: every letter key, in either case, operates the layout key whose
/// first legend is that letter, on every model.
pub proof fn lemma_letters_operate_their_key(model: MachineModel, c: char)
    requires
        'A' <= c <= 'Z',
    ensures
        operates_key_labelled(model, HostKey::Letter(c), seq![c]),
        host_key_id(model, HostKey::Letter(ascii_lower(c))) == host_key_id(model, HostKey::Letter(c)),
{
    match model {
        MachineModel::Nc1020 => lemma_nc1020_letters(model, c),
        MachineModel::Nc2000 => lemma_nc2000_letters(model, c),
        MachineModel::Nc3000 => lemma_nc3000_letters(model, c),
        MachineModel::Pc1000 => lemma_pc1000_letters(model, c),
        MachineModel::Cc800 => lemma_pc1000_letters(model, c),
    }
}

#[verifier::spinoff_prover]
proof fn lemma_nc1020_digits(model: MachineModel, d: u8)
    requires
        layout_spec(model) == layout_nc1020_spec(),
        d <= 9,
    ensures
        1 <= d ==> host_key_id(model, HostKey::Digit(d)) is Some && host_key_id(model, HostKey::Digit(d)) == host_key_id(model, HostKey::Letter(digit_letter(d))),
        d == 0 ==> operates_key_labelled(model, HostKey::Digit(0), seq!['0']),
{
    if d == 0 {
        lemma_digit_matches(model, 0, '0');
        lemma_nc1020_alias(model, HostKey::Digit(0), seq!['0'], 46, 0);
        assert(key_parts(layout_spec(model)[46]) == nc1020_parts()[46]);
        assert(key_parts(layout_spec(model)[46])[0] == seq!['0']);
        assert(host_key_id(model, HostKey::Digit(0)) == Some(layout_key_id(model, 46)));
    } else if d == 1 {
        lemma_digit_matches(model, 1, '1');
        lemma_nc1020_alias(model, HostKey::Digit(1), seq!['1'], 36, 1);
        lemma_letter_matches(model, 'B');
        lemma_nc1020_alias(model, HostKey::Letter('B'), seq!['B'], 36, 0);
    } else if d == 2 {
        lemma_digit_matches(model, 2, '2');
        lemma_nc1020_alias(model, HostKey::Digit(2), seq!['2'], 37, 1);
        lemma_letter_matches(model, 'N');
        lemma_nc1020_alias(model, HostKey::Letter('N'), seq!['N'], 37, 0);
    } else if d == 3 {
        lemma_digit_matches(model, 3, '3');
        lemma_nc1020_alias(model, HostKey::Digit(3), seq!['3'], 38, 1);
        lemma_letter_matches(model, 'M');
        lemma_nc1020_alias(model, HostKey::Letter('M'), seq!['M'], 38, 0);
    } else if d == 4 {
        lemma_digit_matches(model, 4, '4');
        lemma_nc1020_alias(model, HostKey::Digit(4), seq!['4'], 26, 1);
        lemma_letter_matches(model, 'G');
        lemma_nc1020_alias(model, HostKey::Letter('G'), seq!['G'], 26, 0);
    } else if d == 5 {
        lemma_digit_matches(model, 5, '5');
        lemma_nc1020_alias(model, HostKey::Digit(5), seq!['5'], 27, 1);
        lemma_letter_matches(model, 'H');
        lemma_nc1020_alias(model, HostKey::Letter('H'), seq!['H'], 27, 0);
    } else if d == 6 {
        lemma_digit_matches(model, 6, '6');
        lemma_nc1020_alias(model, HostKey::Digit(6), seq!['6'], 28, 1);
        lemma_letter_matches(model, 'J');
        lemma_nc1020_alias(model, HostKey::Letter('J'), seq!['J'], 28, 0);
    } else if d == 7 {
        lemma_digit_matches(model, 7, '7');
        lemma_nc1020_alias(model, HostKey::Digit(7), seq!['7'], 16, 1);
        lemma_letter_matches(model, 'T');
        lemma_nc1020_alias(model, HostKey::Letter('T'), seq!['T'], 16, 0);
    } else if d == 8 {
        lemma_digit_matches(model, 8, '8');
        lemma_nc1020_alias(model, HostKey::Digit(8), seq!['8'], 17, 1);
        lemma_letter_matches(model, 'Y');
        lemma_nc1020_alias(model, HostKey::Letter('Y'), seq!['Y'], 17, 0);
    } else if d == 9 {
        lemma_digit_matches(model, 9, '9');
        lemma_nc1020_alias(model, HostKey::Digit(9), seq!['9'], 18, 1);
        lemma_letter_matches(model, 'U');
        lemma_nc1020_alias(model, HostKey::Letter('U'), seq!['U'], 18, 0);
    }
}

#[verifier::spinoff_prover]
proof fn lemma_nc2000_digits(model: MachineModel, d: u8)
    requires
        layout_spec(model) == layout_nc2000_spec(),
        d <= 9,
    ensures
        1 <= d ==> host_key_id(model, HostKey::Digit(d)) is Some && host_key_id(model, HostKey::Digit(d)) == host_key_id(model, HostKey::Letter(digit_letter(d))),
        d == 0 ==> operates_key_labelled(model, HostKey::Digit(0), seq!['0']),
{
    if d == 0 {
        lemma_digit_matches(model, 0, '0');
        lemma_nc2000_alias(model, HostKey::Digit(0), seq!['0'], 46, 0);
        assert(key_parts(layout_spec(model)[46]) == nc2000_parts()[46]);
        assert(key_parts(layout_spec(model)[46])[0] == seq!['0']);
        assert(host_key_id(model, HostKey::Digit(0)) == Some(layout_key_id(model, 46)));
    } else if d == 1 {
        lemma_digit_matches(model, 1, '1');
        lemma_nc2000_alias(model, HostKey::Digit(1), seq!['1'], 36, 2);
        lemma_letter_matches(model, 'B');
        lemma_nc2000_alias(model, HostKey::Letter('B'), seq!['B'], 36, 0);
    } else if d == 2 {
        lemma_digit_matches(model, 2, '2');
        lemma_nc2000_alias(model, HostKey::Digit(2), seq!['2'], 37, 2);
        lemma_letter_matches(model, 'N');
        lemma_nc2000_alias(model, HostKey::Letter('N'), seq!['N'], 37, 0);
    } else if d == 3 {
        lemma_digit_matches(model, 3, '3');
        lemma_nc2000_alias(model, HostKey::Digit(3), seq!['3'], 38, 2);
        lemma_letter_matches(model, 'M');
        lemma_nc2000_alias(model, HostKey::Letter('M'), seq!['M'], 38, 0);
    } else if d == 4 {
        lemma_digit_matches(model, 4, '4');
        lemma_nc2000_alias(model, HostKey::Digit(4), seq!['4'], 26, 2);
        lemma_letter_matches(model, 'G');
        lemma_nc2000_alias(model, HostKey::Letter('G'), seq!['G'], 26, 0);
    } else if d == 5 {
        lemma_digit_matches(model, 5, '5');
        lemma_nc2000_alias(model, HostKey::Digit(5), seq!['5'], 27, 2);
        lemma_letter_matches(model, 'H');
        lemma_nc2000_alias(model, HostKey::Letter('H'), seq!['H'], 27, 0);
    } else if d == 6 {
        lemma_digit_matches(model, 6, '6');
        lemma_nc2000_alias(model, HostKey::Digit(6), seq!['6'], 28, 2);
        lemma_letter_matches(model, 'J');
        lemma_nc2000_alias(model, HostKey::Letter('J'), seq!['J'], 28, 0);
    } else if d == 7 {
        lemma_digit_matches(model, 7, '7');
        lemma_nc2000_alias(model, HostKey::Digit(7), seq!['7'], 16, 2);
        lemma_letter_matches(model, 'T');
        lemma_nc2000_alias(model, HostKey::Letter('T'), seq!['T'], 16, 0);
    } else if d == 8 {
        lemma_digit_matches(model, 8, '8');
        lemma_nc2000_alias(model, HostKey::Digit(8), seq!['8'], 17, 2);
        lemma_letter_matches(model, 'Y');
        lemma_nc2000_alias(model, HostKey::Letter('Y'), seq!['Y'], 17, 0);
    } else if d == 9 {
        lemma_digit_matches(model, 9, '9');
        lemma_nc2000_alias(model, HostKey::Digit(9), seq!['9'], 18, 2);
        lemma_letter_matches(model, 'U');
        lemma_nc2000_alias(model, HostKey::Letter('U'), seq!['U'], 18, 0);
    }
}

#[verifier::spinoff_prover]
proof fn lemma_nc3000_digits(model: MachineModel, d: u8)
    requires
        layout_spec(model) == layout_nc3000_spec(),
        d <= 9,
    ensures
        1 <= d ==> host_key_id(model, HostKey::Digit(d)) is Some && host_key_id(model, HostKey::Digit(d)) == host_key_id(model, HostKey::Letter(digit_letter(d))),
        d == 0 ==> operates_key_labelled(model, HostKey::Digit(0), seq!['0']),
{
    if d == 0 {
        lemma_digit_matches(model, 0, '0');
        lemma_nc3000_alias(model, HostKey::Digit(0), seq!['0'], 45, 0);
        assert(key_parts(layout_spec(model)[45]) == nc3000_parts()[45]);
        assert(key_parts(layout_spec(model)[45])[0] == seq!['0']);
        assert(host_key_id(model, HostKey::Digit(0)) == Some(layout_key_id(model, 45)));
    } else if d == 1 {
        lemma_digit_matches(model, 1, '1');
        lemma_nc3000_alias(model, HostKey::Digit(1), seq!['1'], 35, 2);
        lemma_letter_matches(model, 'B');
        lemma_nc3000_alias(model, HostKey::Letter('B'), seq!['B'], 35, 0);
    } else if d == 2 {
        lemma_digit_matches(model, 2, '2');
        lemma_nc3000_alias(model, HostKey::Digit(2), seq!['2'], 36, 2);
        lemma_letter_matches(model, 'N');
        lemma_nc3000_alias(model, HostKey::Letter('N'), seq!['N'], 36, 0);
    } else if d == 3 {
        lemma_digit_matches(model, 3, '3');
        lemma_nc3000_alias(model, HostKey::Digit(3), seq!['3'], 37, 2);
        lemma_letter_matches(model, 'M');
        lemma_nc3000_alias(model, HostKey::Letter('M'), seq!['M'], 37, 0);
    } else if d == 4 {
        lemma_digit_matches(model, 4, '4');
        lemma_nc3000_alias(model, HostKey::Digit(4), seq!['4'], 25, 2);
        lemma_letter_matches(model, 'G');
        lemma_nc3000_alias(model, HostKey::Letter('G'), seq!['G'], 25, 0);
    } else if d == 5 {
        lemma_digit_matches(model, 5, '5');
        lemma_nc3000_alias(model, HostKey::Digit(5), seq!['5'], 26, 2);
        lemma_letter_matches(model, 'H');
        lemma_nc3000_alias(model, HostKey::Letter('H'), seq!['H'], 26, 0);
    } else if d == 6 {
        lemma_digit_matches(model, 6, '6');
        lemma_nc3000_alias(model, HostKey::Digit(6), seq!['6'], 27, 2);
        lemma_letter_matches(model, 'J');
        lemma_nc3000_alias(model, HostKey::Letter('J'), seq!['J'], 27, 0);
    } else if d == 7 {
        lemma_digit_matches(model, 7, '7');
        lemma_nc3000_alias(model, HostKey::Digit(7), seq!['7'], 15, 2);
        lemma_letter_matches(model, 'T');
        lemma_nc3000_alias(model, HostKey::Letter('T'), seq!['T'], 15, 0);
    } else if d == 8 {
        lemma_digit_matches(model, 8, '8');
        lemma_nc3000_alias(model, HostKey::Digit(8), seq!['8'], 16, 2);
        lemma_letter_matches(model, 'Y');
        lemma_nc3000_alias(model, HostKey::Letter('Y'), seq!['Y'], 16, 0);
    } else if d == 9 {
        lemma_digit_matches(model, 9, '9');
        lemma_nc3000_alias(model, HostKey::Digit(9), seq!['9'], 17, 2);
        lemma_letter_matches(model, 'U');
        lemma_nc3000_alias(model, HostKey::Letter('U'), seq!['U'], 17, 0);
    }
}

#[verifier::spinoff_prover]
proof fn lemma_pc1000_digits(model: MachineModel, d: u8)
    requires
        layout_spec(model) == layout_pc1000_spec(),
        d <= 9,
    ensures
        1 <= d ==> host_key_id(model, HostKey::Digit(d)) is Some && host_key_id(model, HostKey::Digit(d)) == host_key_id(model, HostKey::Letter(digit_letter(d))),
        d == 0 ==> operates_key_labelled(model, HostKey::Digit(0), seq!['0']),
{
    if d == 0 {
        lemma_digit_matches(model, 0, '0');
        lemma_pc1000_alias(model, HostKey::Digit(0), seq!['0'], 46, 0);
        assert(key_parts(layout_spec(model)[46]) == pc1000_parts()[46]);
        assert(key_parts(layout_spec(model)[46])[0] == seq!['0']);
        assert(host_key_id(model, HostKey::Digit(0)) == Some(layout_key_id(model, 46)));
    } else if d == 1 {
        lemma_digit_matches(model, 1, '1');
        lemma_pc1000_alias(model, HostKey::Digit(1), seq!['1'], 36, 2);
        lemma_letter_matches(model, 'B');
        lemma_pc1000_alias(model, HostKey::Letter('B'), seq!['B'], 36, 0);
    } else if d == 2 {
        lemma_digit_matches(model, 2, '2');
        lemma_pc1000_alias(model, HostKey::Digit(2), seq!['2'], 37, 2);
        lemma_letter_matches(model, 'N');
        lemma_pc1000_alias(model, HostKey::Letter('N'), seq!['N'], 37, 0);
    } else if d == 3 {
        lemma_digit_matches(model, 3, '3');
        lemma_pc1000_alias(model, HostKey::Digit(3), seq!['3'], 38, 2);
        lemma_letter_matches(model, 'M');
        lemma_pc1000_alias(model, HostKey::Letter('M'), seq!['M'], 38, 0);
    } else if d == 4 {
        lemma_digit_matches(model, 4, '4');
        lemma_pc1000_alias(model, HostKey::Digit(4), seq!['4'], 26, 2);
        lemma_letter_matches(model, 'G');
        lemma_pc1000_alias(model, HostKey::Letter('G'), seq!['G'], 26, 0);
    } else if d == 5 {
        lemma_digit_matches(model, 5, '5');
        lemma_pc1000_alias(model, HostKey::Digit(5), seq!['5'], 27, 2);
        lemma_letter_matches(model, 'H');
        lemma_pc1000_alias(model, HostKey::Letter('H'), seq!['H'], 27, 0);
    } else if d == 6 {
        lemma_digit_matches(model, 6, '6');
        lemma_pc1000_alias(model, HostKey::Digit(6), seq!['6'], 28, 2);
        lemma_letter_matches(model, 'J');
        lemma_pc1000_alias(model, HostKey::Letter('J'), seq!['J'], 28, 0);
    } else if d == 7 {
        lemma_digit_matches(model, 7, '7');
        lemma_pc1000_alias(model, HostKey::Digit(7), seq!['7'], 16, 2);
        lemma_letter_matches(model, 'T');
        lemma_pc1000_alias(model, HostKey::Letter('T'), seq!['T'], 16, 0);
    } else if d == 8 {
        lemma_digit_matches(model, 8, '8');
        lemma_pc1000_alias(model, HostKey::Digit(8), seq!['8'], 17, 2);
        lemma_letter_matches(model, 'Y');
        lemma_pc1000_alias(model, HostKey::Letter('Y'), seq!['Y'], 17, 0);
    } else if d == 9 {
        lemma_digit_matches(model, 9, '9');
        lemma_pc1000_alias(model, HostKey::Digit(9), seq!['9'], 18, 2);
        lemma_letter_matches(model, 'U');
        lemma_pc1000_alias(model, HostKey::Letter('U'), seq!['U'], 18, 0);
    }
}

/// Law: each digit key from 1 to 9 operates the same key as the letter that
/// shares its key cap, and 0 operates the key labelled 0, on every model.
pub proof fn lemma_digits_operate_their_key(model: MachineModel, d: u8)
    requires
        d <= 9,
    ensures
        1 <= d ==> host_key_id(model, HostKey::Digit(d)) is Some && host_key_id(model, HostKey::Digit(d)) == host_key_id(model, HostKey::Letter(digit_letter(d))),
        d == 0 ==> operates_key_labelled(model, HostKey::Digit(0), seq!['0']),
{
    match model {
        MachineModel::Nc1020 => lemma_nc1020_digits(model, d),
        MachineModel::Nc2000 => lemma_nc2000_digits(model, d),
        MachineModel::Nc3000 => lemma_nc3000_digits(model, d),
        MachineModel::Pc1000 => lemma_pc1000_digits(model, d),
        MachineModel::Cc800 => lemma_pc1000_digits(model, d),
    }
}

#[verifier::spinoff_prover]
proof fn lemma_nc1020_named_keys(model: MachineModel)
    requires
        layout_spec(model) == layout_nc1020_spec(),
    ensures
        operates_key_labelled(model, HostKey::Return, seq!['E', 'N', 'T']),
        operates_key_labelled(model, HostKey::Escape, seq!['E', 'S', 'C']),
        operates_key_labelled(model, HostKey::Space, seq!['S', 'P', 'C']),
        operates_key_labelled(model, HostKey::LeftBracket, seq!['H', 'E', 'L', 'P']),
        operates_key_labelled(model, HostKey::RightBracket, seq!['S', 'H', 'I', 'F', 'T']),
        operates_key_labelled(model, HostKey::Backslash, seq!['I', 'M', 'E']),
        operates_key_carrying(model, HostKey::Period, seq!['.']),
        host_key_id(model, HostKey::Backspace) is Some,
        host_key_id(model, HostKey::Backspace) == host_key_id(model, HostKey::Function(2)),
{
    lemma_fixed_matches(model, HostKey::Return);
    lemma_nc1020_alias(model, HostKey::Return, seq!['E', 'N', 'T'], 31, 0);
    assert(key_parts(layout_spec(model)[31]) == nc1020_parts()[31]);
    assert(key_parts(layout_spec(model)[31])[0] == seq!['E', 'N', 'T']);
    assert(host_key_id(model, HostKey::Return) == Some(layout_key_id(model, 31)));
    lemma_fixed_matches(model, HostKey::Escape);
    lemma_nc1020_alias(model, HostKey::Escape, seq!['E', 'S', 'C'], 45, 0);
    assert(key_parts(layout_spec(model)[45]) == nc1020_parts()[45]);
    assert(key_parts(layout_spec(model)[45])[0] == seq!['E', 'S', 'C']);
    assert(host_key_id(model, HostKey::Escape) == Some(layout_key_id(model, 45)));
    lemma_fixed_matches(model, HostKey::Space);
    lemma_nc1020_alias(model, HostKey::Space, seq!['S', 'P', 'C'], 48, 0);
    assert(key_parts(layout_spec(model)[48]) == nc1020_parts()[48]);
    assert(key_parts(layout_spec(model)[48])[0] == seq!['S', 'P', 'C']);
    assert(host_key_id(model, HostKey::Space) == Some(layout_key_id(model, 48)));
    lemma_fixed_matches(model, HostKey::LeftBracket);
    lemma_nc1020_alias(model, HostKey::LeftBracket, seq!['H', 'E', 'L', 'P'], 42, 0);
    assert(key_parts(layout_spec(model)[42]) == nc1020_parts()[42]);
    assert(key_parts(layout_spec(model)[42])[0] == seq!['H', 'E', 'L', 'P']);
    assert(host_key_id(model, HostKey::LeftBracket) == Some(layout_key_id(model, 42)));
    lemma_fixed_matches(model, HostKey::RightBracket);
    lemma_nc1020_alias(model, HostKey::RightBracket, seq!['S', 'H', 'I', 'F', 'T'], 43, 0);
    assert(key_parts(layout_spec(model)[43]) == nc1020_parts()[43]);
    assert(key_parts(layout_spec(model)[43])[0] == seq!['S', 'H', 'I', 'F', 'T']);
    assert(host_key_id(model, HostKey::RightBracket) == Some(layout_key_id(model, 43)));
    lemma_fixed_matches(model, HostKey::Backslash);
    lemma_nc1020_alias(model, HostKey::Backslash, seq!['I', 'M', 'E'], 44, 0);
    assert(key_parts(layout_spec(model)[44]) == nc1020_parts()[44]);
    assert(key_parts(layout_spec(model)[44])[0] == seq!['I', 'M', 'E']);
    assert(host_key_id(model, HostKey::Backslash) == Some(layout_key_id(model, 44)));
    lemma_fixed_matches(model, HostKey::Period);
    lemma_nc1020_alias(model, HostKey::Period, seq!['.'], 47, 1);
    assert(key_parts(layout_spec(model)[47]) == nc1020_parts()[47]);
    assert(key_parts(layout_spec(model)[47])[1] == seq!['.']);
    assert(host_key_id(model, HostKey::Period) == Some(layout_key_id(model, 47)));
    lemma_fixed_matches(model, HostKey::Backspace);
    lemma_nc1020_alias(model, HostKey::Backspace, seq!['F', '2'], 8, 0);
    lemma_nc1020_function_key_two(model);
}

#[verifier::spinoff_prover]
proof fn lemma_nc2000_named_keys(model: MachineModel)
    requires
        layout_spec(model) == layout_nc2000_spec(),
    ensures
        operates_key_labelled(model, HostKey::Return, seq!['E', 'N', 'T']),
        operates_key_labelled(model, HostKey::Escape, seq!['E', 'S', 'C']),
        operates_key_labelled(model, HostKey::Space, seq!['S', 'P', 'C']),
        operates_key_labelled(model, HostKey::LeftBracket, seq!['H', 'E', 'L', 'P']),
        operates_key_labelled(model, HostKey::RightBracket, seq!['S', 'H', 'I', 'F', 'T']),
        operates_key_labelled(model, HostKey::Backslash, seq!['I', 'M', 'E']),
        operates_key_carrying(model, HostKey::Period, seq!['.']),
        host_key_id(model, HostKey::Backspace) is Some,
        host_key_id(model, HostKey::Backspace) == host_key_id(model, HostKey::Function(2)),
{
    lemma_fixed_matches(model, HostKey::Return);
    lemma_nc2000_alias(model, HostKey::Return, seq!['E', 'N', 'T'], 31, 0);
    assert(key_parts(layout_spec(model)[31]) == nc2000_parts()[31]);
    assert(key_parts(layout_spec(model)[31])[0] == seq!['E', 'N', 'T']);
    assert(host_key_id(model, HostKey::Return) == Some(layout_key_id(model, 31)));
    lemma_fixed_matches(model, HostKey::Escape);
    lemma_nc2000_alias(model, HostKey::Escape, seq!['E', 'S', 'C'], 45, 0);
    assert(key_parts(layout_spec(model)[45]) == nc2000_parts()[45]);
    assert(key_parts(layout_spec(model)[45])[0] == seq!['E', 'S', 'C']);
    assert(host_key_id(model, HostKey::Escape) == Some(layout_key_id(model, 45)));
    lemma_fixed_matches(model, HostKey::Space);
    lemma_nc2000_alias(model, HostKey::Space, seq!['S', 'P', 'C'], 48, 0);
    assert(key_parts(layout_spec(model)[48]) == nc2000_parts()[48]);
    assert(key_parts(layout_spec(model)[48])[0] == seq!['S', 'P', 'C']);
    assert(host_key_id(model, HostKey::Space) == Some(layout_key_id(model, 48)));
    lemma_fixed_matches(model, HostKey::LeftBracket);
    lemma_nc2000_alias(model, HostKey::LeftBracket, seq!['H', 'E', 'L', 'P'], 42, 0);
    assert(key_parts(layout_spec(model)[42]) == nc2000_parts()[42]);
    assert(key_parts(layout_spec(model)[42])[0] == seq!['H', 'E', 'L', 'P']);
    assert(host_key_id(model, HostKey::LeftBracket) == Some(layout_key_id(model, 42)));
    lemma_fixed_matches(model, HostKey::RightBracket);
    lemma_nc2000_alias(model, HostKey::RightBracket, seq!['S', 'H', 'I', 'F', 'T'], 43, 0);
    assert(key_parts(layout_spec(model)[43]) == nc2000_parts()[43]);
    assert(key_parts(layout_spec(model)[43])[0] == seq!['S', 'H', 'I', 'F', 'T']);
    assert(host_key_id(model, HostKey::RightBracket) == Some(layout_key_id(model, 43)));
    lemma_fixed_matches(model, HostKey::Backslash);
    lemma_nc2000_alias(model, HostKey::Backslash, seq!['I', 'M', 'E'], 44, 0);
    assert(key_parts(layout_spec(model)[44]) == nc2000_parts()[44]);
    assert(key_parts(layout_spec(model)[44])[0] == seq!['I', 'M', 'E']);
    assert(host_key_id(model, HostKey::Backslash) == Some(layout_key_id(model, 44)));
    lemma_fixed_matches(model, HostKey::Period);
    lemma_nc2000_alias(model, HostKey::Period, seq!['.'], 47, 0);
    assert(key_parts(layout_spec(model)[47]) == nc2000_parts()[47]);
    assert(key_parts(layout_spec(model)[47])[0] == seq!['.']);
    assert(host_key_id(model, HostKey::Period) == Some(layout_key_id(model, 47)));
    lemma_fixed_matches(model, HostKey::Backspace);
    lemma_nc2000_alias(model, HostKey::Backspace, seq!['F', '2'], 8, 0);
    lemma_nc2000_function_key_two(model);
}

#[verifier::spinoff_prover]
proof fn lemma_nc3000_named_keys(model: MachineModel)
    requires
        layout_spec(model) == layout_nc3000_spec(),
    ensures
        operates_key_labelled(model, HostKey::Return, seq!['E', 'N', 'T']),
        operates_key_labelled(model, HostKey::Escape, seq!['E', 'S', 'C']),
        operates_key_labelled(model, HostKey::Space, seq!['S', 'P', 'C']),
        operates_key_labelled(model, HostKey::LeftBracket, seq!['H', 'E', 'L', 'P']),
        operates_key_labelled(model, HostKey::RightBracket, seq!['S', 'H', 'I', 'F', 'T']),
        operates_key_labelled(model, HostKey::Backslash, seq!['I', 'M', 'E']),
        operates_key_carrying(model, HostKey::Period, seq!['.']),
        host_key_id(model, HostKey::Backspace) is Some,
        host_key_id(model, HostKey::Backspace) == host_key_id(model, HostKey::Function(2)),
{
    lemma_fixed_matches(model, HostKey::Return);
    lemma_nc3000_alias(model, HostKey::Return, seq!['E', 'N', 'T'], 30, 0);
    assert(key_parts(layout_spec(model)[30]) == nc3000_parts()[30]);
    assert(key_parts(layout_spec(model)[30])[0] == seq!['E', 'N', 'T']);
    assert(host_key_id(model, HostKey::Return) == Some(layout_key_id(model, 30)));
    lemma_fixed_matches(model, HostKey::Escape);
    lemma_nc3000_alias(model, HostKey::Escape, seq!['E', 'S', 'C'], 44, 0);
    assert(key_parts(layout_spec(model)[44]) == nc3000_parts()[44]);
    assert(key_parts(layout_spec(model)[44])[0] == seq!['E', 'S', 'C']);
    assert(host_key_id(model, HostKey::Escape) == Some(layout_key_id(model, 44)));
    lemma_fixed_matches(model, HostKey::Space);
    lemma_nc3000_alias(model, HostKey::Space, seq!['S', 'P', 'C'], 47, 0);
    assert(key_parts(layout_spec(model)[47]) == nc3000_parts()[47]);
    assert(key_parts(layout_spec(model)[47])[0] == seq!['S', 'P', 'C']);
    assert(host_key_id(model, HostKey::Space) == Some(layout_key_id(model, 47)));
    lemma_fixed_matches(model, HostKey::LeftBracket);
    lemma_nc3000_alias(model, HostKey::LeftBracket, seq!['H', 'E', 'L', 'P'], 41, 0);
    assert(key_parts(layout_spec(model)[41]) == nc3000_parts()[41]);
    assert(key_parts(layout_spec(model)[41])[0] == seq!['H', 'E', 'L', 'P']);
    assert(host_key_id(model, HostKey::LeftBracket) == Some(layout_key_id(model, 41)));
    lemma_fixed_matches(model, HostKey::RightBracket);
    lemma_nc3000_alias(model, HostKey::RightBracket, seq!['S', 'H', 'I', 'F', 'T'], 42, 0);
    assert(key_parts(layout_spec(model)[42]) == nc3000_parts()[42]);
    assert(key_parts(layout_spec(model)[42])[0] == seq!['S', 'H', 'I', 'F', 'T']);
    assert(host_key_id(model, HostKey::RightBracket) == Some(layout_key_id(model, 42)));
    lemma_fixed_matches(model, HostKey::Backslash);
    lemma_nc3000_alias(model, HostKey::Backslash, seq!['I', 'M', 'E'], 43, 0);
    assert(key_parts(layout_spec(model)[43]) == nc3000_parts()[43]);
    assert(key_parts(layout_spec(model)[43])[0] == seq!['I', 'M', 'E']);
    assert(host_key_id(model, HostKey::Backslash) == Some(layout_key_id(model, 43)));
    lemma_fixed_matches(model, HostKey::Period);
    lemma_nc3000_alias(model, HostKey::Period, seq!['.'], 46, 0);
    assert(key_parts(layout_spec(model)[46]) == nc3000_parts()[46]);
    assert(key_parts(layout_spec(model)[46])[0] == seq!['.']);
    assert(host_key_id(model, HostKey::Period) == Some(layout_key_id(model, 46)));
    lemma_fixed_matches(model, HostKey::Backspace);
    lemma_nc3000_alias(model, HostKey::Backspace, seq!['F', '2'], 7, 0);
    lemma_nc3000_function_key_two(model);
}

#[verifier::spinoff_prover]
proof fn lemma_pc1000_named_keys(model: MachineModel)
    requires
        layout_spec(model) == layout_pc1000_spec(),
    ensures
        operates_key_labelled(model, HostKey::Return, seq!['E', 'N', 'T']),
        operates_key_labelled(model, HostKey::Escape, seq!['E', 'S', 'C']),
        operates_key_labelled(model, HostKey::Space, seq!['S', 'P', 'C']),
        operates_key_labelled(model, HostKey::LeftBracket, seq!['H', 'E', 'L', 'P']),
        operates_key_labelled(model, HostKey::RightBracket, seq!['S', 'H', 'I', 'F', 'T']),
        operates_key_labelled(model, HostKey::Backslash, seq!['I', 'M', 'E']),
        operates_key_carrying(model, HostKey::Period, seq!['.']),
        host_key_id(model, HostKey::Backspace) is Some,
        host_key_id(model, HostKey::Backspace) == host_key_id(model, HostKey::Function(2)),
{
    lemma_fixed_matches(model, HostKey::Return);
    lemma_pc1000_alias(model, HostKey::Return, seq!['E', 'N', 'T'], 31, 0);
    assert(key_parts(layout_spec(model)[31]) == pc1000_parts()[31]);
    assert(key_parts(layout_spec(model)[31])[0] == seq!['E', 'N', 'T']);
    assert(host_key_id(model, HostKey::Return) == Some(layout_key_id(model, 31)));
    lemma_fixed_matches(model, HostKey::Escape);
    lemma_pc1000_alias(model, HostKey::Escape, seq!['E', 'S', 'C'], 45, 0);
    assert(key_parts(layout_spec(model)[45]) == pc1000_parts()[45]);
    assert(key_parts(layout_spec(model)[45])[0] == seq!['E', 'S', 'C']);
    assert(host_key_id(model, HostKey::Escape) == Some(layout_key_id(model, 45)));
    lemma_fixed_matches(model, HostKey::Space);
    lemma_pc1000_alias(model, HostKey::Space, seq!['S', 'P', 'C'], 48, 0);
    assert(key_parts(layout_spec(model)[48]) == pc1000_parts()[48]);
    assert(key_parts(layout_spec(model)[48])[0] == seq!['S', 'P', 'C']);
    assert(host_key_id(model, HostKey::Space) == Some(layout_key_id(model, 48)));
    lemma_fixed_matches(model, HostKey::LeftBracket);
    lemma_pc1000_alias(model, HostKey::LeftBracket, seq!['H', 'E', 'L', 'P'], 42, 0);
    assert(key_parts(layout_spec(model)[42]) == pc1000_parts()[42]);
    assert(key_parts(layout_spec(model)[42])[0] == seq!['H', 'E', 'L', 'P']);
    assert(host_key_id(model, HostKey::LeftBracket) == Some(layout_key_id(model, 42)));
    lemma_fixed_matches(model, HostKey::RightBracket);
    lemma_pc1000_alias(model, HostKey::RightBracket, seq!['S', 'H', 'I', 'F', 'T'], 43, 0);
    assert(key_parts(layout_spec(model)[43]) == pc1000_parts()[43]);
    assert(key_parts(layout_spec(model)[43])[0] == seq!['S', 'H', 'I', 'F', 'T']);
    assert(host_key_id(model, HostKey::RightBracket) == Some(layout_key_id(model, 43)));
    lemma_fixed_matches(model, HostKey::Backslash);
    lemma_pc1000_alias(model, HostKey::Backslash, seq!['I', 'M', 'E'], 44, 0);
    assert(key_parts(layout_spec(model)[44]) == pc1000_parts()[44]);
    assert(key_parts(layout_spec(model)[44])[0] == seq!['I', 'M', 'E']);
    assert(host_key_id(model, HostKey::Backslash) == Some(layout_key_id(model, 44)));
    lemma_fixed_matches(model, HostKey::Period);
    lemma_pc1000_alias(model, HostKey::Period, seq!['.'], 47, 0);
    assert(key_parts(layout_spec(model)[47]) == pc1000_parts()[47]);
    assert(key_parts(layout_spec(model)[47])[0] == seq!['.']);
    assert(host_key_id(model, HostKey::Period) == Some(layout_key_id(model, 47)));
    lemma_fixed_matches(model, HostKey::Backspace);
    lemma_pc1000_alias(model, HostKey::Backspace, seq!['F', '2'], 8, 0);
    lemma_pc1000_function_key_two(model);
}

/// Law: on every model Return, Escape and Space operate the keys labelled
/// ENT, ESC and SPC; `[`, `]` and `\\` those labelled HELP, SHIFT and IME;
/// `.` the key carrying the dot; and Backspace the same key as F2.
pub proof fn lemma_named_keys_operate_their_key(model: MachineModel)
    ensures
        operates_key_labelled(model, HostKey::Return, seq!['E', 'N', 'T']),
        operates_key_labelled(model, HostKey::Escape, seq!['E', 'S', 'C']),
        operates_key_labelled(model, HostKey::Space, seq!['S', 'P', 'C']),
        operates_key_labelled(model, HostKey::LeftBracket, seq!['H', 'E', 'L', 'P']),
        operates_key_labelled(model, HostKey::RightBracket, seq!['S', 'H', 'I', 'F', 'T']),
        operates_key_labelled(model, HostKey::Backslash, seq!['I', 'M', 'E']),
        operates_key_carrying(model, HostKey::Period, seq!['.']),
        host_key_id(model, HostKey::Backspace) is Some,
        host_key_id(model, HostKey::Backspace) == host_key_id(model, HostKey::Function(2)),
{
    match model {
        MachineModel::Nc1020 => lemma_nc1020_named_keys(model),
        MachineModel::Nc2000 => lemma_nc2000_named_keys(model),
        MachineModel::Nc3000 => lemma_nc3000_named_keys(model),
        MachineModel::Pc1000 => lemma_pc1000_named_keys(model),
        MachineModel::Cc800 => lemma_pc1000_named_keys(model),
    }
}

#[verifier::spinoff_prover]
proof fn lemma_nc1020_arrow_keys(model: MachineModel)
    requires
        layout_spec(model) == layout_nc1020_spec(),
    ensures
        operates_key_labelled(model, HostKey::Up, seq!['U', 'P']),
        operates_key_labelled(model, HostKey::Down, seq!['D', 'N']),
        operates_key_labelled(model, HostKey::Left, seq!['L', 'T']),
        operates_key_labelled(model, HostKey::Right, seq!['R', 'T']),
        operates_key_labelled(model, HostKey::PageUp, seq!['P', 'G', 'U', 'P']),
        operates_key_labelled(model, HostKey::PageDown, seq!['P', 'G', 'D', 'N']),
{
    lemma_fixed_matches(model, HostKey::Up);
    lemma_nc1020_alias(model, HostKey::Up, seq!['U', 'P'], 40, 0);
    assert(key_parts(layout_spec(model)[40]) == nc1020_parts()[40]);
    assert(key_parts(layout_spec(model)[40])[0] == seq!['U', 'P']);
    assert(host_key_id(model, HostKey::Up) == Some(layout_key_id(model, 40)));
    lemma_fixed_matches(model, HostKey::Down);
    lemma_nc1020_alias(model, HostKey::Down, seq!['D', 'N'], 50, 0);
    assert(key_parts(layout_spec(model)[50]) == nc1020_parts()[50]);
    assert(key_parts(layout_spec(model)[50])[0] == seq!['D', 'N']);
    assert(host_key_id(model, HostKey::Down) == Some(layout_key_id(model, 50)));
    lemma_fixed_matches(model, HostKey::Left);
    lemma_nc1020_alias(model, HostKey::Left, seq!['L', 'T'], 49, 0);
    assert(key_parts(layout_spec(model)[49]) == nc1020_parts()[49]);
    assert(key_parts(layout_spec(model)[49])[0] == seq!['L', 'T']);
    assert(host_key_id(model, HostKey::Left) == Some(layout_key_id(model, 49)));
    lemma_fixed_matches(model, HostKey::Right);
    lemma_nc1020_alias(model, HostKey::Right, seq!['R', 'T'], 51, 0);
    assert(key_parts(layout_spec(model)[51]) == nc1020_parts()[51]);
    assert(key_parts(layout_spec(model)[51])[0] == seq!['R', 'T']);
    assert(host_key_id(model, HostKey::Right) == Some(layout_key_id(model, 51)));
    lemma_fixed_matches(model, HostKey::PageUp);
    lemma_nc1020_alias(model, HostKey::PageUp, seq!['P', 'G', 'U', 'P'], 39, 0);
    assert(key_parts(layout_spec(model)[39]) == nc1020_parts()[39]);
    assert(key_parts(layout_spec(model)[39])[0] == seq!['P', 'G', 'U', 'P']);
    assert(host_key_id(model, HostKey::PageUp) == Some(layout_key_id(model, 39)));
    lemma_fixed_matches(model, HostKey::PageDown);
    lemma_nc1020_alias(model, HostKey::PageDown, seq!['P', 'G', 'D', 'N'], 41, 0);
    assert(key_parts(layout_spec(model)[41]) == nc1020_parts()[41]);
    assert(key_parts(layout_spec(model)[41])[0] == seq!['P', 'G', 'D', 'N']);
    assert(host_key_id(model, HostKey::PageDown) == Some(layout_key_id(model, 41)));
}

#[verifier::spinoff_prover]
proof fn lemma_nc2000_arrow_keys(model: MachineModel)
    requires
        layout_spec(model) == layout_nc2000_spec(),
    ensures
        operates_key_labelled(model, HostKey::Up, seq!['U', 'P']),
        operates_key_labelled(model, HostKey::Down, seq!['D', 'N']),
        operates_key_labelled(model, HostKey::Left, seq!['L', 'T']),
        operates_key_labelled(model, HostKey::Right, seq!['R', 'T']),
        operates_key_labelled(model, HostKey::PageUp, seq!['P', 'G', 'U', 'P']),
        operates_key_labelled(model, HostKey::PageDown, seq!['P', 'G', 'D', 'N']),
{
    lemma_fixed_matches(model, HostKey::Up);
    lemma_nc2000_alias(model, HostKey::Up, seq!['U', 'P'], 40, 0);
    assert(key_parts(layout_spec(model)[40]) == nc2000_parts()[40]);
    assert(key_parts(layout_spec(model)[40])[0] == seq!['U', 'P']);
    assert(host_key_id(model, HostKey::Up) == Some(layout_key_id(model, 40)));
    lemma_fixed_matches(model, HostKey::Down);
    lemma_nc2000_alias(model, HostKey::Down, seq!['D', 'N'], 50, 0);
    assert(key_parts(layout_spec(model)[50]) == nc2000_parts()[50]);
    assert(key_parts(layout_spec(model)[50])[0] == seq!['D', 'N']);
    assert(host_key_id(model, HostKey::Down) == Some(layout_key_id(model, 50)));
    lemma_fixed_matches(model, HostKey::Left);
    lemma_nc2000_alias(model, HostKey::Left, seq!['L', 'T'], 49, 0);
    assert(key_parts(layout_spec(model)[49]) == nc2000_parts()[49]);
    assert(key_parts(layout_spec(model)[49])[0] == seq!['L', 'T']);
    assert(host_key_id(model, HostKey::Left) == Some(layout_key_id(model, 49)));
    lemma_fixed_matches(model, HostKey::Right);
    lemma_nc2000_alias(model, HostKey::Right, seq!['R', 'T'], 51, 0);
    assert(key_parts(layout_spec(model)[51]) == nc2000_parts()[51]);
    assert(key_parts(layout_spec(model)[51])[0] == seq!['R', 'T']);
    assert(host_key_id(model, HostKey::Right) == Some(layout_key_id(model, 51)));
    lemma_fixed_matches(model, HostKey::PageUp);
    lemma_nc2000_alias(model, HostKey::PageUp, seq!['P', 'G', 'U', 'P'], 39, 0);
    assert(key_parts(layout_spec(model)[39]) == nc2000_parts()[39]);
    assert(key_parts(layout_spec(model)[39])[0] == seq!['P', 'G', 'U', 'P']);
    assert(host_key_id(model, HostKey::PageUp) == Some(layout_key_id(model, 39)));
    lemma_fixed_matches(model, HostKey::PageDown);
    lemma_nc2000_alias(model, HostKey::PageDown, seq!['P', 'G', 'D', 'N'], 41, 0);
    assert(key_parts(layout_spec(model)[41]) == nc2000_parts()[41]);
    assert(key_parts(layout_spec(model)[41])[0] == seq!['P', 'G', 'D', 'N']);
    assert(host_key_id(model, HostKey::PageDown) == Some(layout_key_id(model, 41)));
}

#[verifier::spinoff_prover]
proof fn lemma_nc3000_arrow_keys(model: MachineModel)
    requires
        layout_spec(model) == layout_nc3000_spec(),
    ensures
        operates_key_labelled(model, HostKey::Up, seq!['U', 'P']),
        operates_key_labelled(model, HostKey::Down, seq!['D', 'N']),
        operates_key_labelled(model, HostKey::Left, seq!['L', 'T']),
        operates_key_labelled(model, HostKey::Right, seq!['R', 'T']),
        operates_key_labelled(model, HostKey::PageUp, seq!['P', 'G', 'U', 'P']),
        operates_key_labelled(model, HostKey::PageDown, seq!['P', 'G', 'D', 'N']),
{
    lemma_fixed_matches(model, HostKey::Up);
    lemma_nc3000_alias(model, HostKey::Up, seq!['U', 'P'], 39, 0);
    assert(key_parts(layout_spec(model)[39]) == nc3000_parts()[39]);
    assert(key_parts(layout_spec(model)[39])[0] == seq!['U', 'P']);
    assert(host_key_id(model, HostKey::Up) == Some(layout_key_id(model, 39)));
    lemma_fixed_matches(model, HostKey::Down);
    lemma_nc3000_alias(model, HostKey::Down, seq!['D', 'N'], 49, 0);
    assert(key_parts(layout_spec(model)[49]) == nc3000_parts()[49]);
    assert(key_parts(layout_spec(model)[49])[0] == seq!['D', 'N']);
    assert(host_key_id(model, HostKey::Down) == Some(layout_key_id(model, 49)));
    lemma_fixed_matches(model, HostKey::Left);
    lemma_nc3000_alias(model, HostKey::Left, seq!['L', 'T'], 48, 0);
    assert(key_parts(layout_spec(model)[48]) == nc3000_parts()[48]);
    assert(key_parts(layout_spec(model)[48])[0] == seq!['L', 'T']);
    assert(host_key_id(model, HostKey::Left) == Some(layout_key_id(model, 48)));
    lemma_fixed_matches(model, HostKey::Right);
    lemma_nc3000_alias(model, HostKey::Right, seq!['R', 'T'], 50, 0);
    assert(key_parts(layout_spec(model)[50]) == nc3000_parts()[50]);
    assert(key_parts(layout_spec(model)[50])[0] == seq!['R', 'T']);
    assert(host_key_id(model, HostKey::Right) == Some(layout_key_id(model, 50)));
    lemma_fixed_matches(model, HostKey::PageUp);
    lemma_nc3000_alias(model, HostKey::PageUp, seq!['P', 'G', 'U', 'P'], 38, 0);
    assert(key_parts(layout_spec(model)[38]) == nc3000_parts()[38]);
    assert(key_parts(layout_spec(model)[38])[0] == seq!['P', 'G', 'U', 'P']);
    assert(host_key_id(model, HostKey::PageUp) == Some(layout_key_id(model, 38)));
    lemma_fixed_matches(model, HostKey::PageDown);
    lemma_nc3000_alias(model, HostKey::PageDown, seq!['P', 'G', 'D', 'N'], 40, 0);
    assert(key_parts(layout_spec(model)[40]) == nc3000_parts()[40]);
    assert(key_parts(layout_spec(model)[40])[0] == seq!['P', 'G', 'D', 'N']);
    assert(host_key_id(model, HostKey::PageDown) == Some(layout_key_id(model, 40)));
}

#[verifier::spinoff_prover]
proof fn lemma_pc1000_arrow_keys(model: MachineModel)
    requires
        layout_spec(model) == layout_pc1000_spec(),
    ensures
        operates_key_labelled(model, HostKey::Up, seq!['U', 'P']),
        operates_key_labelled(model, HostKey::Down, seq!['D', 'N']),
        operates_key_labelled(model, HostKey::Left, seq!['L', 'T']),
        operates_key_labelled(model, HostKey::Right, seq!['R', 'T']),
        operates_key_labelled(model, HostKey::PageUp, seq!['P', 'G', 'U', 'P']),
        operates_key_labelled(model, HostKey::PageDown, seq!['P', 'G', 'D', 'N']),
{
    lemma_fixed_matches(model, HostKey::Up);
    lemma_pc1000_alias(model, HostKey::Up, seq!['U', 'P'], 40, 0);
    assert(key_parts(layout_spec(model)[40]) == pc1000_parts()[40]);
    assert(key_parts(layout_spec(model)[40])[0] == seq!['U', 'P']);
    assert(host_key_id(model, HostKey::Up) == Some(layout_key_id(model, 40)));
    lemma_fixed_matches(model, HostKey::Down);
    lemma_pc1000_alias(model, HostKey::Down, seq!['D', 'N'], 50, 0);
    assert(key_parts(layout_spec(model)[50]) == pc1000_parts()[50]);
    assert(key_parts(layout_spec(model)[50])[0] == seq!['D', 'N']);
    assert(host_key_id(model, HostKey::Down) == Some(layout_key_id(model, 50)));
    lemma_fixed_matches(model, HostKey::Left);
    lemma_pc1000_alias(model, HostKey::Left, seq!['L', 'T'], 49, 0);
    assert(key_parts(layout_spec(model)[49]) == pc1000_parts()[49]);
    assert(key_parts(layout_spec(model)[49])[0] == seq!['L', 'T']);
    assert(host_key_id(model, HostKey::Left) == Some(layout_key_id(model, 49)));
    lemma_fixed_matches(model, HostKey::Right);
    lemma_pc1000_alias(model, HostKey::Right, seq!['R', 'T'], 51, 0);
    assert(key_parts(layout_spec(model)[51]) == pc1000_parts()[51]);
    assert(key_parts(layout_spec(model)[51])[0] == seq!['R', 'T']);
    assert(host_key_id(model, HostKey::Right) == Some(layout_key_id(model, 51)));
    lemma_fixed_matches(model, HostKey::PageUp);
    lemma_pc1000_alias(model, HostKey::PageUp, seq!['P', 'G', 'U', 'P'], 39, 0);
    assert(key_parts(layout_spec(model)[39]) == pc1000_parts()[39]);
    assert(key_parts(layout_spec(model)[39])[0] == seq!['P', 'G', 'U', 'P']);
    assert(host_key_id(model, HostKey::PageUp) == Some(layout_key_id(model, 39)));
    lemma_fixed_matches(model, HostKey::PageDown);
    lemma_pc1000_alias(model, HostKey::PageDown, seq!['P', 'G', 'D', 'N'], 41, 0);
    assert(key_parts(layout_spec(model)[41]) == pc1000_parts()[41]);
    assert(key_parts(layout_spec(model)[41])[0] == seq!['P', 'G', 'D', 'N']);
    assert(host_key_id(model, HostKey::PageDown) == Some(layout_key_id(model, 41)));
}

/// Law: on every model the arrow keys operate the keys labelled UP, DN, LT
/// and RT, and Page Up and Page Down those labelled PGUP and PGDN.
pub proof fn lemma_arrow_keys_operate_their_key(model: MachineModel)
    ensures
        operates_key_labelled(model, HostKey::Up, seq!['U', 'P']),
        operates_key_labelled(model, HostKey::Down, seq!['D', 'N']),
        operates_key_labelled(model, HostKey::Left, seq!['L', 'T']),
        operates_key_labelled(model, HostKey::Right, seq!['R', 'T']),
        operates_key_labelled(model, HostKey::PageUp, seq!['P', 'G', 'U', 'P']),
        operates_key_labelled(model, HostKey::PageDown, seq!['P', 'G', 'D', 'N']),
{
    match model {
        MachineModel::Nc1020 => lemma_nc1020_arrow_keys(model),
        MachineModel::Nc2000 => lemma_nc2000_arrow_keys(model),
        MachineModel::Nc3000 => lemma_nc3000_arrow_keys(model),
        MachineModel::Pc1000 => lemma_pc1000_arrow_keys(model),
        MachineModel::Cc800 => lemma_pc1000_arrow_keys(model),
    }
}

#[verifier::spinoff_prover]
#[verifier::rlimit(80)]
proof fn lemma_nc1020_numeric_legends(model: MachineModel)
    requires
        layout_spec(model) == layout_nc1020_spec(),
    ensures
        forall|i: int| 0 <= i < layout_spec(model).len() && (#[trigger] numeric_legend_spec(layout_spec(model)[i].drow, layout_spec(model)[i].dcol)) is Some ==> has_part(key_parts(layout_spec(model)[i]), numeric_legend_spec(layout_spec(model)[i].drow, layout_spec(model)[i].dcol).unwrap()@),
{
    reveal_strlit("0");
    reveal_strlit("1");
    reveal_strlit("2");
    reveal_strlit("3");
    reveal_strlit("4");
    reveal_strlit("5");
    reveal_strlit("6");
    reveal_strlit("7");
    reveal_strlit("8");
    reveal_strlit("9");
    reveal_strlit(".");
    lemma_nc1020_shape();
    lemma_nc1020_parts();
    let keys = layout_spec(model);
    assert forall|i: int| 0 <= i < keys.len() && (#[trigger] numeric_legend_spec(keys[i].drow, keys[i].dcol)) is Some implies has_part(key_parts(keys[i]), numeric_legend_spec(keys[i].drow, keys[i].dcol).unwrap()@) by {
        let k = keys[i];
        assert(nc1020_placed(k.drow, k.dcol) == i);
        if k.drow == 2 && k.dcol == 4 {
            assert(i == 16);
            assert(key_parts(keys[i]) == nc1020_parts()[16]);
            assert(key_parts(keys[i])[1] == seq!['7']);
            assert(numeric_legend_spec(k.drow, k.dcol).unwrap()@ == seq!['7']);
            assert(0 <= 1 < key_parts(keys[i]).len());
            assert(has_part(key_parts(keys[i]), seq!['7']));
        } else if k.drow == 2 && k.dcol == 5 {
            assert(i == 17);
            assert(key_parts(keys[i]) == nc1020_parts()[17]);
            assert(key_parts(keys[i])[1] == seq!['8']);
            assert(numeric_legend_spec(k.drow, k.dcol).unwrap()@ == seq!['8']);
            assert(0 <= 1 < key_parts(keys[i]).len());
            assert(has_part(key_parts(keys[i]), seq!['8']));
        } else if k.drow == 2 && k.dcol == 6 {
            assert(i == 18);
            assert(key_parts(keys[i]) == nc1020_parts()[18]);
            assert(key_parts(keys[i])[1] == seq!['9']);
            assert(numeric_legend_spec(k.drow, k.dcol).unwrap()@ == seq!['9']);
            assert(0 <= 1 < key_parts(keys[i]).len());
            assert(has_part(key_parts(keys[i]), seq!['9']));
        } else if k.drow == 3 && k.dcol == 4 {
            assert(i == 26);
            assert(key_parts(keys[i]) == nc1020_parts()[26]);
            assert(key_parts(keys[i])[1] == seq!['4']);
            assert(numeric_legend_spec(k.drow, k.dcol).unwrap()@ == seq!['4']);
            assert(0 <= 1 < key_parts(keys[i]).len());
            assert(has_part(key_parts(keys[i]), seq!['4']));
        } else if k.drow == 3 && k.dcol == 5 {
            assert(i == 27);
            assert(key_parts(keys[i]) == nc1020_parts()[27]);
            assert(key_parts(keys[i])[1] == seq!['5']);
            assert(numeric_legend_spec(k.drow, k.dcol).unwrap()@ == seq!['5']);
            assert(0 <= 1 < key_parts(keys[i]).len());
            assert(has_part(key_parts(keys[i]), seq!['5']));
        } else if k.drow == 3 && k.dcol == 6 {
            assert(i == 28);
            assert(key_parts(keys[i]) == nc1020_parts()[28]);
            assert(key_parts(keys[i])[1] == seq!['6']);
            assert(numeric_legend_spec(k.drow, k.dcol).unwrap()@ == seq!['6']);
            assert(0 <= 1 < key_parts(keys[i]).len());
            assert(has_part(key_parts(keys[i]), seq!['6']));
        } else if k.drow == 4 && k.dcol == 4 {
            assert(i == 36);
            assert(key_parts(keys[i]) == nc1020_parts()[36]);
            assert(key_parts(keys[i])[1] == seq!['1']);
            assert(numeric_legend_spec(k.drow, k.dcol).unwrap()@ == seq!['1']);
            assert(0 <= 1 < key_parts(keys[i]).len());
            assert(has_part(key_parts(keys[i]), seq!['1']));
        } else if k.drow == 4 && k.dcol == 5 {
            assert(i == 37);
            assert(key_parts(keys[i]) == nc1020_parts()[37]);
            assert(key_parts(keys[i])[1] == seq!['2']);
            assert(numeric_legend_spec(k.drow, k.dcol).unwrap()@ == seq!['2']);
            assert(0 <= 1 < key_parts(keys[i]).len());
            assert(has_part(key_parts(keys[i]), seq!['2']));
        } else if k.drow == 4 && k.dcol == 6 {
            assert(i == 38);
            assert(key_parts(keys[i]) == nc1020_parts()[38]);
            assert(key_parts(keys[i])[1] == seq!['3']);
            assert(numeric_legend_spec(k.drow, k.dcol).unwrap()@ == seq!['3']);
            assert(0 <= 1 < key_parts(keys[i]).len());
            assert(has_part(key_parts(keys[i]), seq!['3']));
        } else if k.drow == 5 && k.dcol == 4 {
            assert(i == 46);
            assert(key_parts(keys[i]) == nc1020_parts()[46]);
            assert(key_parts(keys[i])[0] == seq!['0']);
            assert(numeric_legend_spec(k.drow, k.dcol).unwrap()@ == seq!['0']);
            assert(0 <= 0 < key_parts(keys[i]).len());
            assert(has_part(key_parts(keys[i]), seq!['0']));
        } else if k.drow == 5 && k.dcol == 5 {
            assert(i == 47);
            assert(key_parts(keys[i]) == nc1020_parts()[47]);
            assert(key_parts(keys[i])[1] == seq!['.']);
            assert(numeric_legend_spec(k.drow, k.dcol).unwrap()@ == seq!['.']);
            assert(0 <= 1 < key_parts(keys[i]).len());
            assert(has_part(key_parts(keys[i]), seq!['.']));
        }
    }
}

#[verifier::spinoff_prover]
#[verifier::rlimit(80)]
proof fn lemma_nc2000_numeric_legends(model: MachineModel)
    requires
        layout_spec(model) == layout_nc2000_spec(),
    ensures
        forall|i: int| 0 <= i < layout_spec(model).len() && (#[trigger] numeric_legend_spec(layout_spec(model)[i].drow, layout_spec(model)[i].dcol)) is Some ==> has_part(key_parts(layout_spec(model)[i]), numeric_legend_spec(layout_spec(model)[i].drow, layout_spec(model)[i].dcol).unwrap()@),
{
    reveal_strlit("0");
    reveal_strlit("1");
    reveal_strlit("2");
    reveal_strlit("3");
    reveal_strlit("4");
    reveal_strlit("5");
    reveal_strlit("6");
    reveal_strlit("7");
    reveal_strlit("8");
    reveal_strlit("9");
    reveal_strlit(".");
    lemma_nc2000_shape();
    lemma_nc2000_parts();
    let keys = layout_spec(model);
    assert forall|i: int| 0 <= i < keys.len() && (#[trigger] numeric_legend_spec(keys[i].drow, keys[i].dcol)) is Some implies has_part(key_parts(keys[i]), numeric_legend_spec(keys[i].drow, keys[i].dcol).unwrap()@) by {
        let k = keys[i];
        assert(nc2000_placed(k.drow, k.dcol) == i);
        if k.drow == 2 && k.dcol == 4 {
            assert(i == 16);
            assert(key_parts(keys[i]) == nc2000_parts()[16]);
            assert(key_parts(keys[i])[2] == seq!['7']);
            assert(numeric_legend_spec(k.drow, k.dcol).unwrap()@ == seq!['7']);
            assert(0 <= 2 < key_parts(keys[i]).len());
            assert(has_part(key_parts(keys[i]), seq!['7']));
        } else if k.drow == 2 && k.dcol == 5 {
            assert(i == 17);
            assert(key_parts(keys[i]) == nc2000_parts()[17]);
            assert(key_parts(keys[i])[2] == seq!['8']);
            assert(numeric_legend_spec(k.drow, k.dcol).unwrap()@ == seq!['8']);
            assert(0 <= 2 < key_parts(keys[i]).len());
            assert(has_part(key_parts(keys[i]), seq!['8']));
        } else if k.drow == 2 && k.dcol == 6 {
            assert(i == 18);
            assert(key_parts(keys[i]) == nc2000_parts()[18]);
            assert(key_parts(keys[i])[2] == seq!['9']);
            assert(numeric_legend_spec(k.drow, k.dcol).unwrap()@ == seq!['9']);
            assert(0 <= 2 < key_parts(keys[i]).len());
            assert(has_part(key_parts(keys[i]), seq!['9']));
        } else if k.drow == 3 && k.dcol == 4 {
            assert(i == 26);
            assert(key_parts(keys[i]) == nc2000_parts()[26]);
            assert(key_parts(keys[i])[2] == seq!['4']);
            assert(numeric_legend_spec(k.drow, k.dcol).unwrap()@ == seq!['4']);
            assert(0 <= 2 < key_parts(keys[i]).len());
            assert(has_part(key_parts(keys[i]), seq!['4']));
        } else if k.drow == 3 && k.dcol == 5 {
            assert(i == 27);
            assert(key_parts(keys[i]) == nc2000_parts()[27]);
            assert(key_parts(keys[i])[2] == seq!['5']);
            assert(numeric_legend_spec(k.drow, k.dcol).unwrap()@ == seq!['5']);
            assert(0 <= 2 < key_parts(keys[i]).len());
            assert(has_part(key_parts(keys[i]), seq!['5']));
        } else if k.drow == 3 && k.dcol == 6 {
            assert(i == 28);
            assert(key_parts(keys[i]) == nc2000_parts()[28]);
            assert(key_parts(keys[i])[2] == seq!['6']);
            assert(numeric_legend_spec(k.drow, k.dcol).unwrap()@ == seq!['6']);
            assert(0 <= 2 < key_parts(keys[i]).len());
            assert(has_part(key_parts(keys[i]), seq!['6']));
        } else if k.drow == 4 && k.dcol == 4 {
            assert(i == 36);
            assert(key_parts(keys[i]) == nc2000_parts()[36]);
            assert(key_parts(keys[i])[2] == seq!['1']);
            assert(numeric_legend_spec(k.drow, k.dcol).unwrap()@ == seq!['1']);
            assert(0 <= 2 < key_parts(keys[i]).len());
            assert(has_part(key_parts(keys[i]), seq!['1']));
        } else if k.drow == 4 && k.dcol == 5 {
            assert(i == 37);
            assert(key_parts(keys[i]) == nc2000_parts()[37]);
            assert(key_parts(keys[i])[2] == seq!['2']);
            assert(numeric_legend_spec(k.drow, k.dcol).unwrap()@ == seq!['2']);
            assert(0 <= 2 < key_parts(keys[i]).len());
            assert(has_part(key_parts(keys[i]), seq!['2']));
        } else if k.drow == 4 && k.dcol == 6 {
            assert(i == 38);
            assert(key_parts(keys[i]) == nc2000_parts()[38]);
            assert(key_parts(keys[i])[2] == seq!['3']);
            assert(numeric_legend_spec(k.drow, k.dcol).unwrap()@ == seq!['3']);
            assert(0 <= 2 < key_parts(keys[i]).len());
            assert(has_part(key_parts(keys[i]), seq!['3']));
        } else if k.drow == 5 && k.dcol == 4 {
            assert(i == 46);
            assert(key_parts(keys[i]) == nc2000_parts()[46]);
            assert(key_parts(keys[i])[0] == seq!['0']);
            assert(numeric_legend_spec(k.drow, k.dcol).unwrap()@ == seq!['0']);
            assert(0 <= 0 < key_parts(keys[i]).len());
            assert(has_part(key_parts(keys[i]), seq!['0']));
        } else if k.drow == 5 && k.dcol == 5 {
            assert(i == 47);
            assert(key_parts(keys[i]) == nc2000_parts()[47]);
            assert(key_parts(keys[i])[0] == seq!['.']);
            assert(numeric_legend_spec(k.drow, k.dcol).unwrap()@ == seq!['.']);
            assert(0 <= 0 < key_parts(keys[i]).len());
            assert(has_part(key_parts(keys[i]), seq!['.']));
        }
    }
}

#[verifier::spinoff_prover]
#[verifier::rlimit(80)]
proof fn lemma_nc3000_numeric_legends(model: MachineModel)
    requires
        layout_spec(model) == layout_nc3000_spec(),
    ensures
        forall|i: int| 0 <= i < layout_spec(model).len() && (#[trigger] numeric_legend_spec(layout_spec(model)[i].drow, layout_spec(model)[i].dcol)) is Some ==> has_part(key_parts(layout_spec(model)[i]), numeric_legend_spec(layout_spec(model)[i].drow, layout_spec(model)[i].dcol).unwrap()@),
{
    reveal_strlit("0");
    reveal_strlit("1");
    reveal_strlit("2");
    reveal_strlit("3");
    reveal_strlit("4");
    reveal_strlit("5");
    reveal_strlit("6");
    reveal_strlit("7");
    reveal_strlit("8");
    reveal_strlit("9");
    reveal_strlit(".");
    lemma_nc3000_shape();
    lemma_nc3000_parts();
    let keys = layout_spec(model);
    assert forall|i: int| 0 <= i < keys.len() && (#[trigger] numeric_legend_spec(keys[i].drow, keys[i].dcol)) is Some implies has_part(key_parts(keys[i]), numeric_legend_spec(keys[i].drow, keys[i].dcol).unwrap()@) by {
        let k = keys[i];
        assert(nc3000_placed(k.drow, k.dcol) == i);
        if k.drow == 2 && k.dcol == 4 {
            assert(i == 15);
            assert(key_parts(keys[i]) == nc3000_parts()[15]);
            assert(key_parts(keys[i])[2] == seq!['7']);
            assert(numeric_legend_spec(k.drow, k.dcol).unwrap()@ == seq!['7']);
            assert(0 <= 2 < key_parts(keys[i]).len());
            assert(has_part(key_parts(keys[i]), seq!['7']));
        } else if k.drow == 2 && k.dcol == 5 {
            assert(i == 16);
            assert(key_parts(keys[i]) == nc3000_parts()[16]);
            assert(key_parts(keys[i])[2] == seq!['8']);
            assert(numeric_legend_spec(k.drow, k.dcol).unwrap()@ == seq!['8']);
            assert(0 <= 2 < key_parts(keys[i]).len());
            assert(has_part(key_parts(keys[i]), seq!['8']));
        } else if k.drow == 2 && k.dcol == 6 {
            assert(i == 17);
            assert(key_parts(keys[i]) == nc3000_parts()[17]);
            assert(key_parts(keys[i])[2] == seq!['9']);
            assert(numeric_legend_spec(k.drow, k.dcol).unwrap()@ == seq!['9']);
            assert(0 <= 2 < key_parts(keys[i]).len());
            assert(has_part(key_parts(keys[i]), seq!['9']));
        } else if k.drow == 3 && k.dcol == 4 {
            assert(i == 25);
            assert(key_parts(keys[i]) == nc3000_parts()[25]);
            assert(key_parts(keys[i])[2] == seq!['4']);
            assert(numeric_legend_spec(k.drow, k.dcol).unwrap()@ == seq!['4']);
            assert(0 <= 2 < key_parts(keys[i]).len());
            assert(has_part(key_parts(keys[i]), seq!['4']));
        } else if k.drow == 3 && k.dcol == 5 {
            assert(i == 26);
            assert(key_parts(keys[i]) == nc3000_parts()[26]);
            assert(key_parts(keys[i])[2] == seq!['5']);
            assert(numeric_legend_spec(k.drow, k.dcol).unwrap()@ == seq!['5']);
            assert(0 <= 2 < key_parts(keys[i]).len());
            assert(has_part(key_parts(keys[i]), seq!['5']));
        } else if k.drow == 3 && k.dcol == 6 {
            assert(i == 27);
            assert(key_parts(keys[i]) == nc3000_parts()[27]);
            assert(key_parts(keys[i])[2] == seq!['6']);
            assert(numeric_legend_spec(k.drow, k.dcol).unwrap()@ == seq!['6']);
            assert(0 <= 2 < key_parts(keys[i]).len());
            assert(has_part(key_parts(keys[i]), seq!['6']));
        } else if k.drow == 4 && k.dcol == 4 {
            assert(i == 35);
            assert(key_parts(keys[i]) == nc3000_parts()[35]);
            assert(key_parts(keys[i])[2] == seq!['1']);
            assert(numeric_legend_spec(k.drow, k.dcol).unwrap()@ == seq!['1']);
            assert(0 <= 2 < key_parts(keys[i]).len());
            assert(has_part(key_parts(keys[i]), seq!['1']));
        } else if k.drow == 4 && k.dcol == 5 {
            assert(i == 36);
            assert(key_parts(keys[i]) == nc3000_parts()[36]);
            assert(key_parts(keys[i])[2] == seq!['2']);
            assert(numeric_legend_spec(k.drow, k.dcol).unwrap()@ == seq!['2']);
            assert(0 <= 2 < key_parts(keys[i]).len());
            assert(has_part(key_parts(keys[i]), seq!['2']));
        } else if k.drow == 4 && k.dcol == 6 {
            assert(i == 37);
            assert(key_parts(keys[i]) == nc3000_parts()[37]);
            assert(key_parts(keys[i])[2] == seq!['3']);
            assert(numeric_legend_spec(k.drow, k.dcol).unwrap()@ == seq!['3']);
            assert(0 <= 2 < key_parts(keys[i]).len());
            assert(has_part(key_parts(keys[i]), seq!['3']));
        } else if k.drow == 5 && k.dcol == 4 {
            assert(i == 45);
            assert(key_parts(keys[i]) == nc3000_parts()[45]);
            assert(key_parts(keys[i])[0] == seq!['0']);
            assert(numeric_legend_spec(k.drow, k.dcol).unwrap()@ == seq!['0']);
            assert(0 <= 0 < key_parts(keys[i]).len());
            assert(has_part(key_parts(keys[i]), seq!['0']));
        } else if k.drow == 5 && k.dcol == 5 {
            assert(i == 46);
            assert(key_parts(keys[i]) == nc3000_parts()[46]);
            assert(key_parts(keys[i])[0] == seq!['.']);
            assert(numeric_legend_spec(k.drow, k.dcol).unwrap()@ == seq!['.']);
            assert(0 <= 0 < key_parts(keys[i]).len());
            assert(has_part(key_parts(keys[i]), seq!['.']));
        }
    }
}

#[verifier::spinoff_prover]
#[verifier::rlimit(80)]
proof fn lemma_pc1000_numeric_legends(model: MachineModel)
    requires
        layout_spec(model) == layout_pc1000_spec(),
    ensures
        forall|i: int| 0 <= i < layout_spec(model).len() && (#[trigger] numeric_legend_spec(layout_spec(model)[i].drow, layout_spec(model)[i].dcol)) is Some ==> has_part(key_parts(layout_spec(model)[i]), numeric_legend_spec(layout_spec(model)[i].drow, layout_spec(model)[i].dcol).unwrap()@),
{
    reveal_strlit("0");
    reveal_strlit("1");
    reveal_strlit("2");
    reveal_strlit("3");
    reveal_strlit("4");
    reveal_strlit("5");
    reveal_strlit("6");
    reveal_strlit("7");
    reveal_strlit("8");
    reveal_strlit("9");
    reveal_strlit(".");
    lemma_pc1000_shape();
    lemma_pc1000_parts();
    let keys = layout_spec(model);
    assert forall|i: int| 0 <= i < keys.len() && (#[trigger] numeric_legend_spec(keys[i].drow, keys[i].dcol)) is Some implies has_part(key_parts(keys[i]), numeric_legend_spec(keys[i].drow, keys[i].dcol).unwrap()@) by {
        let k = keys[i];
        assert(pc1000_placed(k.drow, k.dcol) == i);
        if k.drow == 2 && k.dcol == 4 {
            assert(i == 16);
            assert(key_parts(keys[i]) == pc1000_parts()[16]);
            assert(key_parts(keys[i])[2] == seq!['7']);
            assert(numeric_legend_spec(k.drow, k.dcol).unwrap()@ == seq!['7']);
            assert(0 <= 2 < key_parts(keys[i]).len());
            assert(has_part(key_parts(keys[i]), seq!['7']));
        } else if k.drow == 2 && k.dcol == 5 {
            assert(i == 17);
            assert(key_parts(keys[i]) == pc1000_parts()[17]);
            assert(key_parts(keys[i])[2] == seq!['8']);
            assert(numeric_legend_spec(k.drow, k.dcol).unwrap()@ == seq!['8']);
            assert(0 <= 2 < key_parts(keys[i]).len());
            assert(has_part(key_parts(keys[i]), seq!['8']));
        } else if k.drow == 2 && k.dcol == 6 {
            assert(i == 18);
            assert(key_parts(keys[i]) == pc1000_parts()[18]);
            assert(key_parts(keys[i])[2] == seq!['9']);
            assert(numeric_legend_spec(k.drow, k.dcol).unwrap()@ == seq!['9']);
            assert(0 <= 2 < key_parts(keys[i]).len());
            assert(has_part(key_parts(keys[i]), seq!['9']));
        } else if k.drow == 3 && k.dcol == 4 {
            assert(i == 26);
            assert(key_parts(keys[i]) == pc1000_parts()[26]);
            assert(key_parts(keys[i])[2] == seq!['4']);
            assert(numeric_legend_spec(k.drow, k.dcol).unwrap()@ == seq!['4']);
            assert(0 <= 2 < key_parts(keys[i]).len());
            assert(has_part(key_parts(keys[i]), seq!['4']));
        } else if k.drow == 3 && k.dcol == 5 {
            assert(i == 27);
            assert(key_parts(keys[i]) == pc1000_parts()[27]);
            assert(key_parts(keys[i])[2] == seq!['5']);
            assert(numeric_legend_spec(k.drow, k.dcol).unwrap()@ == seq!['5']);
            assert(0 <= 2 < key_parts(keys[i]).len());
            assert(has_part(key_parts(keys[i]), seq!['5']));
        } else if k.drow == 3 && k.dcol == 6 {
            assert(i == 28);
            assert(key_parts(keys[i]) == pc1000_parts()[28]);
            assert(key_parts(keys[i])[2] == seq!['6']);
            assert(numeric_legend_spec(k.drow, k.dcol).unwrap()@ == seq!['6']);
            assert(0 <= 2 < key_parts(keys[i]).len());
            assert(has_part(key_parts(keys[i]), seq!['6']));
        } else if k.drow == 4 && k.dcol == 4 {
            assert(i == 36);
            assert(key_parts(keys[i]) == pc1000_parts()[36]);
            assert(key_parts(keys[i])[2] == seq!['1']);
            assert(numeric_legend_spec(k.drow, k.dcol).unwrap()@ == seq!['1']);
            assert(0 <= 2 < key_parts(keys[i]).len());
            assert(has_part(key_parts(keys[i]), seq!['1']));
        } else if k.drow == 4 && k.dcol == 5 {
            assert(i == 37);
            assert(key_parts(keys[i]) == pc1000_parts()[37]);
            assert(key_parts(keys[i])[2] == seq!['2']);
            assert(numeric_legend_spec(k.drow, k.dcol).unwrap()@ == seq!['2']);
            assert(0 <= 2 < key_parts(keys[i]).len());
            assert(has_part(key_parts(keys[i]), seq!['2']));
        } else if k.drow == 4 && k.dcol == 6 {
            assert(i == 38);
            assert(key_parts(keys[i]) == pc1000_parts()[38]);
            assert(key_parts(keys[i])[2] == seq!['3']);
            assert(numeric_legend_spec(k.drow, k.dcol).unwrap()@ == seq!['3']);
            assert(0 <= 2 < key_parts(keys[i]).len());
            assert(has_part(key_parts(keys[i]), seq!['3']));
        } else if k.drow == 5 && k.dcol == 4 {
            assert(i == 46);
            assert(key_parts(keys[i]) == pc1000_parts()[46]);
            assert(key_parts(keys[i])[0] == seq!['0']);
            assert(numeric_legend_spec(k.drow, k.dcol).unwrap()@ == seq!['0']);
            assert(0 <= 0 < key_parts(keys[i]).len());
            assert(has_part(key_parts(keys[i]), seq!['0']));
        } else if k.drow == 5 && k.dcol == 5 {
            assert(i == 47);
            assert(key_parts(keys[i]) == pc1000_parts()[47]);
            assert(key_parts(keys[i])[0] == seq!['.']);
            assert(numeric_legend_spec(k.drow, k.dcol).unwrap()@ == seq!['.']);
            assert(0 <= 0 < key_parts(keys[i]).len());
            assert(has_part(key_parts(keys[i]), seq!['.']));
        }
    }
}

/// Law: on every model the calculator legend drawn on a key's numeric
/// segment is a legend that key carries, so the digit shown is the digit the
/// key types.
pub proof fn lemma_numeric_legends_are_carried(model: MachineModel)
    ensures
        forall|i: int| 0 <= i < layout_spec(model).len() && (#[trigger] numeric_legend_spec(layout_spec(model)[i].drow, layout_spec(model)[i].dcol)) is Some ==> has_part(key_parts(layout_spec(model)[i]), numeric_legend_spec(layout_spec(model)[i].drow, layout_spec(model)[i].dcol).unwrap()@),
{
    match model {
        MachineModel::Nc1020 => lemma_nc1020_numeric_legends(model),
        MachineModel::Nc2000 => lemma_nc2000_numeric_legends(model),
        MachineModel::Nc3000 => lemma_nc3000_numeric_legends(model),
        MachineModel::Pc1000 => lemma_pc1000_numeric_legends(model),
        MachineModel::Cc800 => lemma_pc1000_numeric_legends(model),
    }
}

/// Law: in the desktop window, on every model, `=` works as Space, `,` as
/// Page Up and `/` as Page Down, and `[`, `]`, `\\` and `.` operate the same
/// keys as in the libretro core: HELP, SHIFT, IME and the dot.
pub proof fn lemma_window_punctuation(model: MachineModel)
    ensures
        window_key_id(model, MINIFB_KEY_EQUAL) == window_key_id(model, MINIFB_KEY_SPACE),
        window_key_id(model, MINIFB_KEY_COMMA) == window_key_id(model, MINIFB_KEY_PAGE_UP),
        window_key_id(model, MINIFB_KEY_SLASH) == window_key_id(model, MINIFB_KEY_PAGE_DOWN),
        window_key_id(model, MINIFB_KEY_LEFT_BRACKET) == host_key_id(model, HostKey::LeftBracket),
        window_key_id(model, MINIFB_KEY_RIGHT_BRACKET) == host_key_id(model, HostKey::RightBracket),
        window_key_id(model, MINIFB_KEY_BACKSLASH) == host_key_id(model, HostKey::Backslash),
        window_key_id(model, MINIFB_KEY_PERIOD) == host_key_id(model, HostKey::Period),
        operates_key_labelled(model, HostKey::LeftBracket, seq!['H', 'E', 'L', 'P']),
        operates_key_labelled(model, HostKey::RightBracket, seq!['S', 'H', 'I', 'F', 'T']),
        operates_key_labelled(model, HostKey::Backslash, seq!['I', 'M', 'E']),
        operates_key_carrying(model, HostKey::Period, seq!['.']),
{
    lemma_punctuation_aliases(model);
    lemma_named_keys_operate_their_key(model);
}

/// Law: every layout has 52 keys (51 on the NC3000), each inside the 6x10
/// display grid and the 8x8 matrix; no two keys share a matrix key ID or a
/// display position; and the CC800 uses the PC1000 layout.
pub proof fn lemma_layout_shape(model: MachineModel)
    ensures
        layout_spec(model).len() == if model == MachineModel::Nc3000 {
            51int
        } else {
            52int
        },
        forall|i: int|
            0 <= i < layout_spec(model).len() ==> {
                let k = #[trigger] layout_spec(model)[i];
                k.drow < 6 && k.dcol < 10 && k.row < 8 && k.col < 8
            },
        forall|i: int, j: int|
            0 <= i < layout_spec(model).len() && 0 <= j < layout_spec(model).len() && i != j ==> layout_key_id(model, i)
                != layout_key_id(model, j) && (layout_spec(model)[i].drow != layout_spec(model)[j].drow
                || layout_spec(model)[i].dcol != layout_spec(model)[j].dcol),
        layout_spec(MachineModel::Pc1000) == layout_spec(MachineModel::Cc800),
{
    let keys = layout_spec(model);
    match model {
        MachineModel::Nc1020 => {
            lemma_nc1020_shape();
            assert forall|i: int, j: int| 0 <= i < keys.len() && 0 <= j < keys.len() && i != j implies layout_key_id(model, i) != layout_key_id(model, j) && (keys[i].drow != keys[j].drow || keys[i].dcol != keys[j].dcol) by {
                let a = keys[i];
                let b = keys[j];
                lemma_key_id_arith(a.row, a.col);
                lemma_key_id_arith(b.row, b.col);
                assert(nc1020_at(a.row, a.col) == i && nc1020_at(b.row, b.col) == j);
                assert(nc1020_placed(a.drow, a.dcol) == i && nc1020_placed(b.drow, b.dcol) == j);
            }
        },
        MachineModel::Nc2000 => {
            lemma_nc2000_shape();
            assert forall|i: int, j: int| 0 <= i < keys.len() && 0 <= j < keys.len() && i != j implies layout_key_id(model, i) != layout_key_id(model, j) && (keys[i].drow != keys[j].drow || keys[i].dcol != keys[j].dcol) by {
                let a = keys[i];
                let b = keys[j];
                lemma_key_id_arith(a.row, a.col);
                lemma_key_id_arith(b.row, b.col);
                assert(nc2000_at(a.row, a.col) == i && nc2000_at(b.row, b.col) == j);
                assert(nc2000_placed(a.drow, a.dcol) == i && nc2000_placed(b.drow, b.dcol) == j);
            }
        },
        MachineModel::Nc3000 => {
            lemma_nc3000_shape();
            assert forall|i: int, j: int| 0 <= i < keys.len() && 0 <= j < keys.len() && i != j implies layout_key_id(model, i) != layout_key_id(model, j) && (keys[i].drow != keys[j].drow || keys[i].dcol != keys[j].dcol) by {
                let a = keys[i];
                let b = keys[j];
                lemma_key_id_arith(a.row, a.col);
                lemma_key_id_arith(b.row, b.col);
                assert(nc3000_at(a.row, a.col) == i && nc3000_at(b.row, b.col) == j);
                assert(nc3000_placed(a.drow, a.dcol) == i && nc3000_placed(b.drow, b.dcol) == j);
            }
        },
        MachineModel::Pc1000 => {
            lemma_pc1000_shape();
            assert forall|i: int, j: int| 0 <= i < keys.len() && 0 <= j < keys.len() && i != j implies layout_key_id(model, i) != layout_key_id(model, j) && (keys[i].drow != keys[j].drow || keys[i].dcol != keys[j].dcol) by {
                let a = keys[i];
                let b = keys[j];
                lemma_key_id_arith(a.row, a.col);
                lemma_key_id_arith(b.row, b.col);
                assert(pc1000_at(a.row, a.col) == i && pc1000_at(b.row, b.col) == j);
                assert(pc1000_placed(a.drow, a.dcol) == i && pc1000_placed(b.drow, b.dcol) == j);
            }
        },
        MachineModel::Cc800 => {
            lemma_pc1000_shape();
            assert forall|i: int, j: int| 0 <= i < keys.len() && 0 <= j < keys.len() && i != j implies layout_key_id(model, i) != layout_key_id(model, j) && (keys[i].drow != keys[j].drow || keys[i].dcol != keys[j].dcol) by {
                let a = keys[i];
                let b = keys[j];
                lemma_key_id_arith(a.row, a.col);
                lemma_key_id_arith(b.row, b.col);
                assert(pc1000_at(a.row, a.col) == i && pc1000_at(b.row, b.col) == j);
                assert(pc1000_placed(a.drow, a.dcol) == i && pc1000_placed(b.drow, b.dcol) == j);
            }
        },
    }
}

} // verus!
