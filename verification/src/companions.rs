//! Finding a firmware set from one of its files: the other files of the set
//! are the companions in the same directory, first those with the same stem,
//! else the only file with the wanted extension.

use vstd::prelude::*;
use crate::firmware::{FilePath, RomFiles, RomFilesView, in_dir, strings_view};
use crate::legend::{chars_equal, chars_of, parts_view};

verus! {

/// The position of the dot that starts a file name's extension, looking at
/// the first `n` characters: the last `'.'` after the first character.
pub open spec fn extension_dot(name: Seq<char>, n: nat) -> Option<int>
    decreases n,
{
    if n <= 1 {
        None
    } else if name[n - 1] == '.' {
        Some(n - 1)
    } else {
        extension_dot(name, (n - 1) as nat)
    }
}

/// The position of the dot that starts a file name's extension, if it has one.
pub open spec fn dot_of(name: Seq<char>) -> Option<int> {
    extension_dot(name, name.len())
}

/// A file name without its extension.
pub open spec fn file_stem(name: Seq<char>) -> Seq<char> {
    match dot_of(name) {
        Some(d) => name.take(d),
        None => name,
    }
}

/// Whether a file name has the extension `ext`.
pub open spec fn has_extension(name: Seq<char>, ext: Seq<char>) -> bool {
    match dot_of(name) {
        Some(d) => name.skip(d + 1) == ext,
        None => false,
    }
}

/// The names among the first `n` that have the extension `ext`, in order.
pub open spec fn names_with_extension(names: Seq<Seq<char>>, ext: Seq<char>, n: nat) -> Seq<Seq<char>>
    decreases n,
{
    if n == 0 {
        Seq::empty()
    } else {
        let earlier = names_with_extension(names, ext, (n - 1) as nat);
        if has_extension(names[n - 1], ext) {
            earlier.push(names[n - 1])
        } else {
            earlier
        }
    }
}

/// The file with extension `ext` that goes with a file of stem `stem`: the
/// file with the same stem, or else the only file with that extension.
pub open spec fn companion(names: Seq<Seq<char>>, stem: Seq<char>, ext: Seq<char>) -> Option<Seq<char>> {
    let same = stem + seq!['.'] + ext;
    if names.contains(same) {
        Some(same)
    } else {
        let matching = names_with_extension(names, ext, names.len());
        if matching.len() == 1 {
            Some(matching[0])
        } else {
            None
        }
    }
}

/// The first of two choices that exists.
pub open spec fn either(first: Option<Seq<char>>, second: Option<Seq<char>>) -> Option<Seq<char>> {
    if first is Some {
        first
    } else {
        second
    }
}

/// The firmware set found in `dir`, which holds the files `names`, next to
/// the file `content`: the ROM (`.bin`, else `.rom`), the NOR Flash (`.fls`,
/// else `.nor`), the NAND Flash (`.nand`) and the first NAND plane (`.nand0`).
pub open spec fn companion_files_spec(dir: Seq<Seq<char>>, content: Seq<char>, names: Seq<Seq<char>>) -> RomFilesView {
    let stem = file_stem(content);
    RomFilesView {
        rom: in_dir(dir, either(companion(names, stem, seq!['b', 'i', 'n']), companion(names, stem, seq!['r', 'o', 'm']))),
        nor: in_dir(dir, either(companion(names, stem, seq!['f', 'l', 's']), companion(names, stem, seq!['n', 'o', 'r']))),
        nand: in_dir(dir, companion(names, stem, seq!['n', 'a', 'n', 'd'])),
        nand0: in_dir(dir, companion(names, stem, seq!['n', 'a', 'n', 'd', '0'])),
    }
}

proof fn lemma_extension_dot_bounds(name: Seq<char>, n: nat)
    ensures
        extension_dot(name, n) matches Some(d) ==> 1 <= d < n,
    decreases n,
{
    if n > 1 {
        lemma_extension_dot_bounds(name, (n - 1) as nat);
    }
}

fn dot_position(name: &Vec<char>) -> (r: Option<usize>)
    ensures
        match r {
            Some(d) => dot_of(name@) == Some(d as int) && 1 <= d < name@.len(),
            None => dot_of(name@) is None,
        },
{
    let mut i = name.len();
    while i > 1
        invariant
            i <= name@.len(),
            extension_dot(name@, name@.len()) == extension_dot(name@, i as nat),
        decreases i,
    {
        if name[i - 1] == '.' {
            return Some(i - 1);
        }
        i = i - 1;
    }
    proof {
        lemma_extension_dot_bounds(name@, name@.len());
    }
    None
}

fn stem_of(name: &Vec<char>) -> (r: Vec<char>)
    ensures
        r@ == file_stem(name@),
{
    proof {
        lemma_extension_dot_bounds(name@, name@.len());
    }
    let end = match dot_position(name) {
        Some(d) => d,
        None => name.len(),
    };
    let mut r: Vec<char> = Vec::new();
    let mut i: usize = 0;
    while i < end
        invariant
            end <= name@.len(),
            i <= end,
            r@ == name@.take(i as int),
            file_stem(name@) == name@.take(end as int),
        decreases end - i,
    {
        r.push(name[i]);
        assert(name@.take(i + 1) =~= name@.take(i as int).push(name@[i as int]));
        i = i + 1;
    }
    r
}

fn extension_is(name: &Vec<char>, ext: &Vec<char>) -> (r: bool)
    ensures
        r == has_extension(name@, ext@),
{
    let d = match dot_position(name) {
        Some(d) => d,
        None => return false,
    };
    if name.len() - (d + 1) != ext.len() {
        assert(name@.skip(d + 1).len() != ext@.len());
        return false;
    }
    let start = d + 1;
    let n = name.len();
    let mut i: usize = 0;
    while i < ext.len()
        invariant
            n == name@.len(),
            start == d + 1,
            start + ext@.len() == name@.len(),
            d + 1 + ext@.len() == name@.len(),
            dot_of(name@) == Some(d as int),
            i <= ext@.len(),
            forall|j: int| 0 <= j < i ==> name@[d + 1 + j] == ext@[j],
        decreases ext@.len() - i,
    {
        assert(start + i < name@.len());
        let at: usize = start + i;
        if name[at] != ext[i] {
            assert(name@.skip(d + 1)[i as int] != ext@[i as int]);
            return false;
        }
        i = i + 1;
    }
    assert(name@.skip(d + 1) =~= ext@);
    true
}

/// The index of the companion of a file of stem `stem` with extension `ext`.
fn companion_index(names: &Vec<Vec<char>>, stem: &Vec<char>, ext: &Vec<char>) -> (r: Option<usize>)
    ensures
        match r {
            Some(i) => i < names@.len() && companion(parts_view(names@), stem@, ext@) == Some(names@[i as int]@),
            None => companion(parts_view(names@), stem@, ext@) is None,
        },
{
    let ghost view = parts_view(names@);
    let mut same: Vec<char> = Vec::new();
    let mut k: usize = 0;
    while k < stem.len()
        invariant
            k <= stem@.len(),
            same@ == stem@.take(k as int),
        decreases stem@.len() - k,
    {
        same.push(stem[k]);
        assert(stem@.take(k + 1) =~= stem@.take(k as int).push(stem@[k as int]));
        k = k + 1;
    }
    same.push('.');
    let mut k: usize = 0;
    while k < ext.len()
        invariant
            k <= ext@.len(),
            same@ == stem@ + seq!['.'] + ext@.take(k as int),
        decreases ext@.len() - k,
    {
        same.push(ext[k]);
        assert(ext@.take(k + 1) =~= ext@.take(k as int).push(ext@[k as int]));
        k = k + 1;
    }
    assert(ext@.take(ext@.len() as int) =~= ext@);
    let mut i: usize = 0;
    while i < names.len()
        invariant
            i <= names@.len(),
            view == parts_view(names@),
            same@ == stem@ + seq!['.'] + ext@,
            forall|j: int| 0 <= j < i ==> view[j] != same@,
        decreases names@.len() - i,
    {
        if chars_equal(&names[i], &same) {
            assert(view[i as int] == same@);
            return Some(i);
        }
        i = i + 1;
    }
    assert(!view.contains(same@));
    let mut count: usize = 0;
    let mut first: usize = 0;
    let mut i: usize = 0;
    while i < names.len()
        invariant
            i <= names@.len(),
            view == parts_view(names@),
            count == names_with_extension(view, ext@, i as nat).len(),
            count <= i,
            count >= 1 ==> first < i && names_with_extension(view, ext@, i as nat)[0] == view[first as int],
        decreases names@.len() - i,
    {
        assert(view[i as int] == names@[i as int]@);
        if extension_is(&names[i], ext) {
            if count == 0 {
                first = i;
            }
            count = count + 1;
        }
        i = i + 1;
    }
    if count == 1 {
        Some(first)
    } else {
        None
    }
}

/// The characters of each name.
fn names_chars(names: &Vec<String>) -> (r: Vec<Vec<char>>)
    ensures
        parts_view(r@) == strings_view(names@),
{
    let mut r: Vec<Vec<char>> = Vec::new();
    let mut i: usize = 0;
    while i < names.len()
        invariant
            i <= names@.len(),
            parts_view(r@) == strings_view(names@).take(i as int),
        decreases names@.len() - i,
    {
        let chars = chars_of(names[i].as_str());
        let ghost before = parts_view(r@);
        r.push(chars);
        assert(parts_view(r@) =~= before.push(chars@));
        assert(strings_view(names@).take(i + 1) =~= strings_view(names@).take(i as int).push(names@[i as int]@));
        i = i + 1;
    }
    assert(strings_view(names@).take(names@.len() as int) =~= strings_view(names@));
    r
}

fn companion_path(dir: &FilePath, names: &Vec<String>, chars: &Vec<Vec<char>>, stem: &Vec<char>, ext: &str) -> (r: Option<FilePath>)
    requires
        parts_view(chars@) == strings_view(names@),
    ensures
        match r {
            Some(p) => in_dir(dir@, companion(strings_view(names@), stem@, ext@)) == Some(p@),
            None => companion(strings_view(names@), stem@, ext@) is None,
        },
{
    let ext_chars = chars_of(ext);
    match companion_index(chars, stem, &ext_chars) {
        Some(i) => {
            assert(strings_view(names@)[i as int] == names@[i as int]@);
            Some(dir.join(names[i].as_str()))
        },
        None => None,
    }
}

fn first_path(first: Option<FilePath>, second: Option<FilePath>) -> (r: Option<FilePath>)
    ensures
        r == (if first is Some {
            first
        } else {
            second
        }),
{
    match first {
        Some(p) => Some(p),
        None => second,
    }
}

/// The firmware set found in `dir`, which holds the files `names`, next to
/// the file named `content`.
pub fn companion_files(dir: &FilePath, content: &String, names: &Vec<String>) -> (r: RomFiles)
    ensures
        r@ == companion_files_spec(dir@, content@, strings_view(names@)),
{
    proof {
        reveal_strlit("bin");
        reveal_strlit("rom");
        reveal_strlit("fls");
        reveal_strlit("nor");
        reveal_strlit("nand");
        reveal_strlit("nand0");
        assert("bin"@ =~= seq!['b', 'i', 'n']);
        assert("rom"@ =~= seq!['r', 'o', 'm']);
        assert("fls"@ =~= seq!['f', 'l', 's']);
        assert("nor"@ =~= seq!['n', 'o', 'r']);
        assert("nand"@ =~= seq!['n', 'a', 'n', 'd']);
        assert("nand0"@ =~= seq!['n', 'a', 'n', 'd', '0']);
    }
    let chars = names_chars(names);
    let content_chars = chars_of(content.as_str());
    let stem = stem_of(&content_chars);
    let bin = companion_path(dir, names, &chars, &stem, "bin");
    let rom_ext = companion_path(dir, names, &chars, &stem, "rom");
    let fls = companion_path(dir, names, &chars, &stem, "fls");
    let nor_ext = companion_path(dir, names, &chars, &stem, "nor");
    let nand = companion_path(dir, names, &chars, &stem, "nand");
    let nand0 = companion_path(dir, names, &chars, &stem, "nand0");
    let r = RomFiles::new(first_path(bin, rom_ext), first_path(fls, nor_ext), nand, nand0);
    assert(r@ =~~= companion_files_spec(dir@, content@, strings_view(names@)));
    r
}

} // verus!
