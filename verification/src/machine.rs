use vstd::prelude::*;

verus! {

/// Number of positions in the 8x8 keypad matrix shared by every model.
pub const KEY_COUNT: usize = 64;

/// A supported Wenquxing hardware model.
#[derive(Clone, Copy, Debug, PartialEq, Eq, Hash, Structural)]
pub enum MachineModel {
    Nc1020,
    Pc1000,
    Cc800,
    Nc2000,
    Nc3000,
}

/// Every supported model, in declaration order.
pub open spec fn all_models() -> Seq<MachineModel> {
    seq![
        MachineModel::Nc1020,
        MachineModel::Pc1000,
        MachineModel::Cc800,
        MachineModel::Nc2000,
        MachineModel::Nc3000,
    ]
}

/// The canonical lower-case name of a model.
pub open spec fn model_name(model: MachineModel) -> Seq<char> {
    match model {
        MachineModel::Nc1020 => seq!['n', 'c', '1', '0', '2', '0'],
        MachineModel::Pc1000 => seq!['p', 'c', '1', '0', '0', '0'],
        MachineModel::Cc800 => seq!['c', 'c', '8', '0', '0'],
        MachineModel::Nc2000 => seq!['n', 'c', '2', '0', '0', '0'],
        MachineModel::Nc3000 => seq!['n', 'c', '3', '0', '0', '0'],
    }
}

/// The one-byte tag that identifies a model inside a save-state envelope.
pub open spec fn model_tag(model: MachineModel) -> u8 {
    match model {
        MachineModel::Nc1020 => 0,
        MachineModel::Pc1000 => 1,
        MachineModel::Cc800 => 2,
        MachineModel::Nc2000 => 3,
        MachineModel::Nc3000 => 4,
    }
}

/// ASCII lower-casing of one character; other characters are unchanged.
pub open spec fn ascii_lower(c: char) -> char {
    if 'A' <= c && c <= 'Z' {
        ((c as u32) + 32) as char
    } else {
        c
    }
}

/// ASCII upper-casing of one character; other characters are unchanged.
pub open spec fn ascii_upper(c: char) -> char {
    if 'a' <= c && c <= 'z' {
        ((c as u32) - 32) as char
    } else {
        c
    }
}

/// Two character strings that are equal ignoring ASCII case.
pub open spec fn eq_ignore_ascii_case(a: Seq<char>, b: Seq<char>) -> bool {
    &&& a.len() == b.len()
    &&& forall|i: int| 0 <= i < a.len() ==> ascii_lower(#[trigger] a[i]) == ascii_lower(b[i])
}

/// The model whose name equals `name` ignoring ASCII case, if any.
pub open spec fn model_named(name: Seq<char>) -> Option<MachineModel> {
    if eq_ignore_ascii_case(name, model_name(MachineModel::Nc1020)) {
        Some(MachineModel::Nc1020)
    } else if eq_ignore_ascii_case(name, model_name(MachineModel::Pc1000)) {
        Some(MachineModel::Pc1000)
    } else if eq_ignore_ascii_case(name, model_name(MachineModel::Cc800)) {
        Some(MachineModel::Cc800)
    } else if eq_ignore_ascii_case(name, model_name(MachineModel::Nc2000)) {
        Some(MachineModel::Nc2000)
    } else if eq_ignore_ascii_case(name, model_name(MachineModel::Nc3000)) {
        Some(MachineModel::Nc3000)
    } else {
        None
    }
}


/// Upper-casing a name in ASCII.
pub open spec fn ascii_uppercase(s: Seq<char>) -> Seq<char> {
    s.map_values(|c: char| ascii_upper(c))
}

/// Law: every model is found again from its own name, written in lower case
/// or in upper case, so a frontend option value always selects that model.
pub proof fn lemma_model_name_round_trip(model: MachineModel)
    ensures
        model_named(model_name(model)) == Some(model),
        model_named(ascii_uppercase(model_name(model))) == Some(model),
{
    let n = model_name(model);
    let u = ascii_uppercase(n);
    assert(eq_ignore_ascii_case(n, n));
    assert(eq_ignore_ascii_case(u, n));
    let names = seq![
        model_name(MachineModel::Nc1020),
        model_name(MachineModel::Pc1000),
        model_name(MachineModel::Cc800),
        model_name(MachineModel::Nc2000),
        model_name(MachineModel::Nc3000),
    ];
    assert(ascii_lower(model_name(MachineModel::Nc1020)[0]) != ascii_lower(model_name(MachineModel::Pc1000)[0]));
    assert(ascii_lower(model_name(MachineModel::Nc1020)[2]) != ascii_lower(model_name(MachineModel::Nc2000)[2]));
    assert(ascii_lower(model_name(MachineModel::Nc1020)[2]) != ascii_lower(model_name(MachineModel::Nc3000)[2]));
    assert(ascii_lower(model_name(MachineModel::Nc2000)[2]) != ascii_lower(model_name(MachineModel::Nc3000)[2]));
    assert(ascii_lower(u[0]) == ascii_lower(n[0]));
    assert(ascii_lower(u[2]) == ascii_lower(n[2]));
}

/// Law: distinct models carry distinct save-state tags.
pub proof fn lemma_model_tag_injective(a: MachineModel, b: MachineModel)
    ensures
        model_tag(a) == model_tag(b) <==> a == b,
{
}

/// ASCII upper-casing of one character.
pub(crate) fn ascii_upper_exec(c: char) -> (r: char)
    ensures
        r == ascii_upper(c),
{
    if 'a' <= c && c <= 'z' {
        let code: u32 = (c as u32) - 32;
        char_from_ascii(code)
    } else {
        c
    }
}

fn ascii_lower_exec(c: char) -> (r: char)
    ensures
        r == ascii_lower(c),
{
    if 'A' <= c && c <= 'Z' {
        let code: u32 = (c as u32) + 32;
        char_from_ascii(code)
    } else {
        c
    }
}

pub(crate) fn char_from_ascii(code: u32) -> (r: char)
    requires
        code < 128,
    ensures
        r == code as char,
{
    proof {
        assert(code as char as u32 == code);
    }
    let b: u8 = code as u8;
    b as char
}

fn matches_ignore_ascii_case(text: &str, name: &str) -> (r: bool)
    ensures
        r == eq_ignore_ascii_case(text@, name@),
{
    let n = text.unicode_len();
    if n != name.unicode_len() {
        return false;
    }
    let mut i: usize = 0;
    while i < n
        invariant
            n == text@.len(),
            n == name@.len(),
            i <= n,
            forall|j: int| 0 <= j < i ==> ascii_lower(#[trigger] text@[j]) == ascii_lower(name@[j]),
        decreases n - i,
    {
        let a = ascii_lower_exec(text.get_char(i));
        let b = ascii_lower_exec(name.get_char(i));
        if a != b {
            return false;
        }
        i = i + 1;
    }
    true
}

impl MachineModel {
    /// The canonical lower-case name, used for directories and the `--model` option.
    pub fn name(&self) -> (r: &'static str)
        ensures
            r@ == model_name(*self),
    {
        match self {
            MachineModel::Nc1020 => {
                proof {
                    reveal_strlit("nc1020");
                }
                "nc1020"
            },
            MachineModel::Pc1000 => {
                proof {
                    reveal_strlit("pc1000");
                }
                "pc1000"
            },
            MachineModel::Cc800 => {
                proof {
                    reveal_strlit("cc800");
                }
                "cc800"
            },
            MachineModel::Nc2000 => {
                proof {
                    reveal_strlit("nc2000");
                }
                "nc2000"
            },
            MachineModel::Nc3000 => {
                proof {
                    reveal_strlit("nc3000");
                }
                "nc3000"
            },
        }
    }

    /// The model named `name`, compared ignoring ASCII case.
    pub fn from_name(name: &str) -> (r: Option<MachineModel>)
        ensures
            r == model_named(name@),
    {
        let candidates = [
            MachineModel::Nc1020,
            MachineModel::Pc1000,
            MachineModel::Cc800,
            MachineModel::Nc2000,
            MachineModel::Nc3000,
        ];
        let mut i: usize = 0;
        while i < 5
            invariant
                i <= 5,
                candidates@ == all_models(),
                forall|j: int|
                    0 <= j < i ==> !eq_ignore_ascii_case(name@, model_name(#[trigger] all_models()[j])),
            decreases 5 - i,
        {
            let model = candidates[i];
            if matches_ignore_ascii_case(name, model.name()) {
                return Some(model);
            }
            i = i + 1;
        }
        None
    }
}

/// The save-state tag of a model.
pub fn machine_model_tag(model: MachineModel) -> (r: u8)
    ensures
        r == model_tag(model),
{
    match model {
        MachineModel::Nc1020 => 0,
        MachineModel::Pc1000 => 1,
        MachineModel::Cc800 => 2,
        MachineModel::Nc2000 => 3,
        MachineModel::Nc3000 => 4,
    }
}

/// The model selected by a frontend option value (its name, in any ASCII case).
pub fn model_from_option(value: &str) -> (r: Option<MachineModel>)
    ensures
        r == model_named(value@),
{
    MachineModel::from_name(value)
}

} // verus!
