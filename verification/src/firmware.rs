//! Firmware file rules: where each model's dumps live in a system directory,
//! which storage options a model needs, where persistent sessions are kept,
//! and that a session file never replaces a firmware dump.

use vstd::prelude::*;
use crate::machine::{MachineModel, model_name};

verus! {

/// A file system path as the sequence of its components.
#[derive(Debug, PartialEq, Eq)]
pub struct FilePath {
    pub components: Vec<String>,
}

/// The component strings of a vector of strings.
pub open spec fn strings_view(v: Seq<String>) -> Seq<Seq<char>> {
    v.map_values(|s: String| s@)
}

impl View for FilePath {
    type V = Seq<Seq<char>>;

    open spec fn view(&self) -> Seq<Seq<char>> {
        strings_view(self.components@)
    }
}

impl Clone for FilePath {
    fn clone(&self) -> (r: Self)
        ensures
            r@ == self@,
    {
        let mut components: Vec<String> = Vec::new();
        let mut i: usize = 0;
        while i < self.components.len()
            invariant
                i <= self.components@.len(),
                strings_view(components@) == strings_view(self.components@).take(i as int),
            decreases self.components@.len() - i,
        {
            let ghost before = strings_view(components@);
            let item = self.components[i].clone();
            components.push(item);
            proof {
                assert(strings_view(components@) =~= before.push(item@));
                assert(strings_view(self.components@).take(i + 1) =~= strings_view(self.components@).take(
                    i as int,
                ).push(self@[i as int]));
            }
            i = i + 1;
        }
        assert(strings_view(self.components@).take(i as int) =~= strings_view(self.components@));
        FilePath { components }
    }
}

impl FilePath {
    /// A path made of the given components.
    pub fn new(components: Vec<String>) -> (r: FilePath)
        ensures
            r@ == strings_view(components@),
    {
        FilePath { components }
    }

    /// This path with `name` appended as a last component.
    pub fn join(&self, name: &str) -> (r: FilePath)
        ensures
            r@ == self@.push(name@),
    {
        let mut r = self.clone();
        let ghost before = r.components@;
        r.components.push(String::from_str(name));
        assert(strings_view(r.components@) =~= strings_view(before).push(name@));
        r
    }

    /// Whether two paths have the same components.
    pub fn same_as(&self, other: &FilePath) -> (r: bool)
        ensures
            r == (self@ == other@),
    {
        if self.components.len() != other.components.len() {
            assert(self@.len() != other@.len());
            return false;
        }
        let mut i: usize = 0;
        while i < self.components.len()
            invariant
                self.components@.len() == other.components@.len(),
                i <= self.components@.len(),
                forall|j: int| 0 <= j < i ==> self@[j] == other@[j],
            decreases self.components@.len() - i,
        {
            if self.components[i] != other.components[i] {
                assert(self@[i as int] != other@[i as int]);
                return false;
            }
            i = i + 1;
        }
        assert(self@ =~= other@);
        true
    }
}

/// The parts joined into one text with `separator` between neighbours.
pub open spec fn join_with(parts: Seq<Seq<char>>, separator: Seq<char>) -> Seq<char>
    decreases parts.len(),
{
    if parts.len() == 0 {
        Seq::empty()
    } else if parts.len() == 1 {
        parts[0]
    } else {
        join_with(parts.drop_last(), separator) + separator + parts.last()
    }
}

/// A path written with `/` between its components.
pub open spec fn path_text(path: Seq<Seq<char>>) -> Seq<char> {
    join_with(path, seq!['/'])
}

/// The texts of strings joined with `separator` between neighbours.
pub fn join_strings(parts: &Vec<String>, separator: &str) -> (r: String)
    ensures
        r@ == join_with(strings_view(parts@), separator@),
{
    let ghost views = strings_view(parts@);
    let mut r = String::new();
    let mut i: usize = 0;
    while i < parts.len()
        invariant
            i <= parts@.len(),
            views == strings_view(parts@),
            r@ == join_with(views.take(i as int), separator@),
        decreases parts@.len() - i,
    {
        let ghost before = r@;
        if i > 0 {
            r.append(separator);
        }
        r.append(parts[i].as_str());
        proof {
            assert(views.take(i + 1).drop_last() =~= views.take(i as int));
            assert(views[i as int] == parts@[i as int]@);
            if i == 0 {
                assert(r@ =~= views.take(1)[0]);
            } else {
                assert(r@ =~= before + separator@ + views.take(i + 1).last());
            }
        }
        i = i + 1;
    }
    assert(views.take(i as int) =~= views);
    r
}

impl FilePath {
    /// The path written with `/` between its components.
    pub fn display(&self) -> (r: String)
        ensures
            r@ == path_text(self@),
    {
        proof {
            reveal_strlit("/");
            assert("/"@ =~= seq!['/']);
        }
        join_strings(&self.components, "/")
    }
}

/// The storage options a firmware set can hold.
#[derive(Clone, Copy, Debug, PartialEq, Eq, Structural)]
pub enum FirmwareSlot {
    Rom,
    Nor,
    Nand,
    Nand0,
}

impl FirmwareSlot {
    /// The command-line option that sets this slot.
    pub fn option(&self) -> (r: &'static str)
        ensures
            r@ == slot_option(*self),
    {
        proof {
            reveal_strlit("--rom");
            reveal_strlit("--nor");
            reveal_strlit("--nand");
            reveal_strlit("--nand0");
        }
        match self {
            FirmwareSlot::Rom => "--rom",
            FirmwareSlot::Nor => "--nor",
            FirmwareSlot::Nand => "--nand",
            FirmwareSlot::Nand0 => "--nand0",
        }
    }
}

/// The command-line option of a slot.
pub open spec fn slot_option(slot: FirmwareSlot) -> Seq<char> {
    match slot {
        FirmwareSlot::Rom => seq!['-', '-', 'r', 'o', 'm'],
        FirmwareSlot::Nor => seq!['-', '-', 'n', 'o', 'r'],
        FirmwareSlot::Nand => seq!['-', '-', 'n', 'a', 'n', 'd'],
        FirmwareSlot::Nand0 => seq!['-', '-', 'n', 'a', 'n', 'd', '0'],
    }
}

/// The firmware dumps that start a machine.
#[derive(Debug, PartialEq, Eq)]
pub struct RomFiles {
    pub rom: Option<FilePath>,
    pub nor: Option<FilePath>,
    pub nand: Option<FilePath>,
    pub nand0: Option<FilePath>,
}

/// The view of an optional path.
pub open spec fn path_view(p: Option<FilePath>) -> Option<Seq<Seq<char>>> {
    match p {
        Some(path) => Some(path@),
        None => None,
    }
}

/// The paths of a firmware set, slot by slot.
#[verifier::ext_equal]
pub struct RomFilesView {
    pub rom: Option<Seq<Seq<char>>>,
    pub nor: Option<Seq<Seq<char>>>,
    pub nand: Option<Seq<Seq<char>>>,
    pub nand0: Option<Seq<Seq<char>>>,
}

impl View for RomFiles {
    type V = RomFilesView;

    open spec fn view(&self) -> RomFilesView {
        RomFilesView {
            rom: path_view(self.rom),
            nor: path_view(self.nor),
            nand: path_view(self.nand),
            nand0: path_view(self.nand0),
        }
    }
}

impl RomFilesView {
    /// The path configured for `slot`.
    pub open spec fn slot(self, slot: FirmwareSlot) -> Option<Seq<Seq<char>>> {
        match slot {
            FirmwareSlot::Rom => self.rom,
            FirmwareSlot::Nor => self.nor,
            FirmwareSlot::Nand => self.nand,
            FirmwareSlot::Nand0 => self.nand0,
        }
    }
}

/// The slots in the order in which a firmware set lists them.
pub open spec fn slot_order() -> Seq<FirmwareSlot> {
    seq![FirmwareSlot::Rom, FirmwareSlot::Nor, FirmwareSlot::Nand, FirmwareSlot::Nand0]
}

impl RomFiles {
    /// A firmware set from its four optional dumps.
    pub fn new(rom: Option<FilePath>, nor: Option<FilePath>, nand: Option<FilePath>, nand0: Option<FilePath>) -> (r: RomFiles)
        ensures
            r@ == (RomFilesView {
                rom: path_view(rom),
                nor: path_view(nor),
                nand: path_view(nand),
                nand0: path_view(nand0),
            }),
    {
        RomFiles { rom, nor, nand, nand0 }
    }

    /// The path configured for `slot`.
    pub fn slot(&self, slot: FirmwareSlot) -> (r: Option<&FilePath>)
        ensures
            match r {
                Some(p) => self@.slot(slot) == Some(p@),
                None => self@.slot(slot) is None,
            },
    {
        let p = match slot {
            FirmwareSlot::Rom => &self.rom,
            FirmwareSlot::Nor => &self.nor,
            FirmwareSlot::Nand => &self.nand,
            FirmwareSlot::Nand0 => &self.nand0,
        };
        match p {
            Some(path) => Some(path),
            None => None,
        }
    }
}

impl Default for RomFiles {
    fn default() -> (r: RomFiles)
        ensures
            r@ == (RomFilesView { rom: None, nor: None, nand: None, nand0: None }),
    {
        RomFiles { rom: None, nor: None, nand: None, nand0: None }
    }
}

/// The file names a model's firmware uses in its system directory, slot by
/// slot; the NC3000's first NAND plane is used only when its file exists.
pub open spec fn firmware_names(model: MachineModel, nand0_present: bool) -> (
    Option<Seq<char>>,
    Option<Seq<char>>,
    Option<Seq<char>>,
    Option<Seq<char>>,
) {
    match model {
        MachineModel::Nc1020 => (
            Some(seq!['o', 'b', 'j', '_', 'l', 'u', '.', 'b', 'i', 'n']),
            Some(seq!['n', 'c', '1', '0', '2', '0', '.', 'f', 'l', 's']),
            None,
            None,
        ),
        MachineModel::Pc1000 => (
            Some(seq!['p', 'c', '1', '0', '0', '0', '.', 'r', 'o', 'm']),
            Some(seq!['p', 'c', '1', '0', '0', '0', '.', 'n', 'o', 'r']),
            None,
            None,
        ),
        MachineModel::Cc800 => (
            Some(seq!['o', 'b', 'j', '.', 'b', 'i', 'n']),
            Some(seq!['c', 'c', '8', '0', '0', '.', 'f', 'l', 's']),
            None,
            None,
        ),
        MachineModel::Nc2000 => (
            None,
            Some(seq!['n', 'c', '2', '0', '0', '0', '.', 'n', 'o', 'r']),
            Some(seq!['n', 'c', '2', '0', '0', '0', '.', 'n', 'a', 'n', 'd']),
            Some(seq!['n', 'c', '2', '0', '0', '0', '.', 'n', 'a', 'n', 'd', '0']),
        ),
        MachineModel::Nc3000 => (
            None,
            Some(seq!['n', 'c', '3', '0', '0', '0', '.', 'n', 'o', 'r']),
            Some(seq!['n', 'c', '3', '0', '0', '0', '.', 'n', 'a', 'n', 'd']),
            if nand0_present {
                Some(seq!['n', 'c', '3', '0', '0', '0', '.', 'n', 'a', 'n', 'd', '0'])
            } else {
                None
            },
        ),
    }
}

/// The directory that holds a model's firmware inside a system directory.
pub open spec fn model_dir(system_dir: Seq<Seq<char>>, model: MachineModel) -> Seq<Seq<char>> {
    system_dir.push(seq!['W', 'Q', 'X', 'E', 'm', 'u']).push(model_name(model))
}

/// A file of the model directory, when the slot uses one.
pub open spec fn in_dir(dir: Seq<Seq<char>>, name: Option<Seq<char>>) -> Option<Seq<Seq<char>>> {
    match name {
        Some(n) => Some(dir.push(n)),
        None => None,
    }
}

/// The canonical firmware set of a model inside a system directory.
pub open spec fn firmware_files_spec(system_dir: Seq<Seq<char>>, model: MachineModel, nand0_present: bool) -> RomFilesView {
    let dir = model_dir(system_dir, model);
    let (rom, nor, nand, nand0) = firmware_names(model, nand0_present);
    RomFilesView { rom: in_dir(dir, rom), nor: in_dir(dir, nor), nand: in_dir(dir, nand), nand0: in_dir(dir, nand0) }
}

fn file_in(dir: &FilePath, name: Option<&'static str>) -> (r: Option<FilePath>)
    ensures
        path_view(r) == match name {
            Some(n) => Some(dir@.push(n@)),
            None => None,
        },
{
    match name {
        Some(n) => Some(dir.join(n)),
        None => None,
    }
}

/// The canonical firmware set of `model` in the frontend's system directory:
/// `<system>/WQXEmu/<model>/<file>`. `nand0_present` tells whether the
/// NC3000's optional first NAND plane file exists there.
pub fn firmware_files_for_model(system_dir: &FilePath, model: MachineModel, nand0_present: bool) -> (r: RomFiles)
    ensures
        r@ == firmware_files_spec(system_dir@, model, nand0_present),
{
    proof {
        reveal_strlit("WQXEmu");
        reveal_strlit("obj_lu.bin");
        reveal_strlit("nc1020.fls");
        reveal_strlit("pc1000.rom");
        reveal_strlit("pc1000.nor");
        reveal_strlit("obj.bin");
        reveal_strlit("cc800.fls");
        reveal_strlit("nc2000.nor");
        reveal_strlit("nc2000.nand");
        reveal_strlit("nc2000.nand0");
        reveal_strlit("nc3000.nor");
        reveal_strlit("nc3000.nand");
        reveal_strlit("nc3000.nand0");
    }
    let dir = system_dir.join("WQXEmu").join(model.name());
    let (rom, nor, nand, nand0): (Option<&'static str>, Option<&'static str>, Option<&'static str>, Option<&'static str>) =
        match model {
            MachineModel::Nc1020 => (Some("obj_lu.bin"), Some("nc1020.fls"), None, None),
            MachineModel::Pc1000 => (Some("pc1000.rom"), Some("pc1000.nor"), None, None),
            MachineModel::Cc800 => (Some("obj.bin"), Some("cc800.fls"), None, None),
            MachineModel::Nc2000 => (None, Some("nc2000.nor"), Some("nc2000.nand"), Some("nc2000.nand0")),
            MachineModel::Nc3000 => (
                None,
                Some("nc3000.nor"),
                Some("nc3000.nand"),
                if nand0_present {
                    Some("nc3000.nand0")
                } else {
                    None
                },
            ),
        };
    let r = RomFiles {
        rom: file_in(&dir, rom),
        nor: file_in(&dir, nor),
        nand: file_in(&dir, nand),
        nand0: file_in(&dir, nand0),
    };
    assert(r@ =~~= firmware_files_spec(system_dir@, model, nand0_present));
    r
}

/// The configured paths among the first `n` slots, in slot order, whose
/// file the caller found missing; `present` holds, in slot order, whether
/// each slot's file exists.
pub open spec fn missing_files(files: RomFilesView, present: Seq<bool>, n: nat) -> Seq<Seq<Seq<char>>>
    decreases n,
{
    if n == 0 {
        Seq::empty()
    } else {
        let earlier = missing_files(files, present, (n - 1) as nat);
        match files.slot(slot_order()[n - 1]) {
            Some(path) => if !present[n - 1] {
                earlier.push(path)
            } else {
                earlier
            },
            None => earlier,
        }
    }
}

/// The configured firmware paths, in slot order, whose file does not exist.
pub fn missing_required_firmware(files: &RomFiles, present: &[bool; 4]) -> (r: Vec<FilePath>)
    ensures
        strings_paths(r@) == missing_files(files@, present@, 4),
{
    let slots = [FirmwareSlot::Rom, FirmwareSlot::Nor, FirmwareSlot::Nand, FirmwareSlot::Nand0];
    let mut r: Vec<FilePath> = Vec::new();
    let mut i: usize = 0;
    while i < 4
        invariant
            i <= 4,
            slots@ == slot_order(),
            strings_paths(r@) == missing_files(files@, present@, i as nat),
        decreases 4 - i,
    {
        let ghost before = strings_paths(r@);
        match files.slot(slots[i]) {
            Some(path) => {
                if !present[i] {
                    r.push(path.clone());
                    assert(strings_paths(r@) =~= before.push(path@));
                }
            },
            None => {},
        }
        i = i + 1;
    }
    r
}

/// The views of a sequence of paths.
pub open spec fn strings_paths(v: Seq<FilePath>) -> Seq<Seq<Seq<char>>> {
    v.map_values(|p: FilePath| p@)
}

/// Why a firmware set does not suit a model.
#[derive(Clone, Copy, Debug, PartialEq, Eq, Structural)]
pub enum FirmwareError {
    /// The model needs a dump for this slot.
    Missing(MachineModel, FirmwareSlot),
    /// The model has no use for a dump in this slot.
    Unused(MachineModel, FirmwareSlot),
}

/// The rule a model applies to a slot: `Some(true)` when the slot is
/// required, `Some(false)` when it must stay empty, `None` when optional.
pub open spec fn slot_rule(model: MachineModel, slot: FirmwareSlot) -> Option<bool> {
    match (model, slot) {
        (MachineModel::Nc2000, FirmwareSlot::Rom) | (MachineModel::Nc3000, FirmwareSlot::Rom) => Some(false),
        (_, FirmwareSlot::Rom) => Some(true),
        (_, FirmwareSlot::Nor) => Some(true),
        (MachineModel::Nc2000, _) | (MachineModel::Nc3000, FirmwareSlot::Nand) => Some(true),
        (MachineModel::Nc3000, FirmwareSlot::Nand0) => None,
        _ => Some(false),
    }
}

/// The error a single slot raises under its model's rule.
pub open spec fn slot_problem(model: MachineModel, files: RomFilesView, slot: FirmwareSlot) -> Option<FirmwareError> {
    match slot_rule(model, slot) {
        Some(true) => if files.slot(slot) is None {
            Some(FirmwareError::Missing(model, slot))
        } else {
            None
        },
        Some(false) => if files.slot(slot) is Some {
            Some(FirmwareError::Unused(model, slot))
        } else {
            None
        },
        None => None,
    }
}

/// The outcome of checking a firmware set: the first slot, in slot order,
/// that breaks the model's rule.
pub open spec fn firmware_check(model: MachineModel, files: RomFilesView) -> Result<(), FirmwareError> {
    if let Some(e) = slot_problem(model, files, FirmwareSlot::Rom) {
        Err(e)
    } else if let Some(e) = slot_problem(model, files, FirmwareSlot::Nor) {
        Err(e)
    } else if let Some(e) = slot_problem(model, files, FirmwareSlot::Nand) {
        Err(e)
    } else if let Some(e) = slot_problem(model, files, FirmwareSlot::Nand0) {
        Err(e)
    } else {
        Ok(())
    }
}

fn check_slot(model: MachineModel, files: &RomFiles, slot: FirmwareSlot) -> (r: Option<FirmwareError>)
    ensures
        r == slot_problem(model, files@, slot),
{
    let configured = files.slot(slot).is_some();
    let rule: Option<bool> = match (model, slot) {
        (MachineModel::Nc2000, FirmwareSlot::Rom) | (MachineModel::Nc3000, FirmwareSlot::Rom) => Some(false),
        (_, FirmwareSlot::Rom) => Some(true),
        (_, FirmwareSlot::Nor) => Some(true),
        (MachineModel::Nc2000, _) | (MachineModel::Nc3000, FirmwareSlot::Nand) => Some(true),
        (MachineModel::Nc3000, FirmwareSlot::Nand0) => None,
        _ => Some(false),
    };
    match rule {
        Some(true) => if !configured {
            Some(FirmwareError::Missing(model, slot))
        } else {
            None
        },
        Some(false) => if configured {
            Some(FirmwareError::Unused(model, slot))
        } else {
            None
        },
        None => None,
    }
}

/// Check that a firmware set has every dump the model needs and none it
/// does not use: NC1020, PC1000 and CC800 take a ROM and a NOR dump; NC2000
/// takes NOR, NAND and the first NAND plane; NC3000 takes NOR and NAND, and
/// optionally the first NAND plane.
pub fn validate_firmware_files(model: MachineModel, files: &RomFiles) -> (r: Result<(), FirmwareError>)
    ensures
        r == firmware_check(model, files@),
{
    if let Some(e) = check_slot(model, files, FirmwareSlot::Rom) {
        return Err(e);
    }
    if let Some(e) = check_slot(model, files, FirmwareSlot::Nor) {
        return Err(e);
    }
    if let Some(e) = check_slot(model, files, FirmwareSlot::Nand) {
        return Err(e);
    }
    if let Some(e) = check_slot(model, files, FirmwareSlot::Nand0) {
        return Err(e);
    }
    Ok(())
}

/// The message of a firmware error.
pub open spec fn firmware_error_text(e: FirmwareError) -> Seq<char> {
    match e {
        FirmwareError::Missing(model, slot) => model_name(model) + " requires "@ + slot_option(slot) + " <PATH>"@,
        FirmwareError::Unused(model, slot) => model_name(model) + " does not use "@ + slot_option(slot),
    }
}

impl FirmwareError {
    /// The message shown for this error, e.g. `nc2000 requires --nand0 <PATH>`.
    pub fn message(&self) -> (r: String)
        ensures
            r@ == firmware_error_text(*self),
    {
        match self {
            FirmwareError::Missing(model, slot) => String::from_str(model.name()).concat(" requires ").concat(
                slot.option(),
            ).concat(" <PATH>"),
            FirmwareError::Unused(model, slot) => String::from_str(model.name()).concat(" does not use ").concat(
                slot.option(),
            ),
        }
    }
}

/// Law: the canonical firmware set of a model in a system directory always
/// suits that model, whether or not the NC3000's optional plane is present.
pub proof fn lemma_canonical_firmware_is_valid(system_dir: Seq<Seq<char>>, model: MachineModel, nand0_present: bool)
    ensures
        firmware_check(model, firmware_files_spec(system_dir, model, nand0_present)) == Ok::<(), FirmwareError>(()),
{
}

/// Law: a firmware set passes the check exactly when it has the dumps the
/// model takes and no other: every model needs a NOR dump; NC1020, PC1000
/// and CC800 need a ROM dump and take no NAND planes; NC2000 takes no ROM
/// and needs both NAND planes; NC3000 takes no ROM, needs the NAND dump and
/// may have the first NAND plane.
pub proof fn lemma_firmware_check_accepts_exactly_the_model_set(model: MachineModel, files: RomFilesView)
    ensures
        firmware_check(model, files) is Ok <==> {
            &&& files.nor is Some
            &&& match model {
                MachineModel::Nc2000 => files.rom is None && files.nand is Some && files.nand0 is Some,
                MachineModel::Nc3000 => files.rom is None && files.nand is Some,
                _ => files.rom is Some && files.nand is None && files.nand0 is None,
            }
        },
{
}

/// Law: a set with no ROM and a NOR dump but no NAND dump is refused for the
/// NC2000 and the NC3000 as missing its NAND dump.
pub proof fn lemma_missing_nand_is_reported(model: MachineModel, files: RomFilesView)
    requires
        model == MachineModel::Nc2000 || model == MachineModel::Nc3000,
        files.rom is None,
        files.nor is Some,
        files.nand is None,
    ensures
        firmware_check(model, files) == Err::<(), FirmwareError>(FirmwareError::Missing(model, FirmwareSlot::Nand)),
{
}

/// Law: whenever the check fails, the error names a slot that breaks the
/// model's needs: a missing dump is absent from the set, an unused one is
/// present.
pub proof fn lemma_firmware_errors_name_the_slot(model: MachineModel, files: RomFilesView)
    ensures
        firmware_check(model, files) matches Err(FirmwareError::Missing(m, slot)) ==> m == model && files.slot(slot) is None,
        firmware_check(model, files) matches Err(FirmwareError::Unused(m, slot)) ==> m == model && files.slot(slot) is Some,
{
}

/// A session file that would overwrite a firmware dump.
#[derive(Clone, Copy, Debug, PartialEq, Eq, Structural)]
pub enum StateFileError {
    /// The state path is the path of the dump in this slot.
    AliasesSource(FirmwareSlot),
}

/// The first slot, in slot order, whose dump path equals `state`.
pub open spec fn aliased_slot(state: Seq<Seq<char>>, sources: RomFilesView) -> Option<FirmwareSlot> {
    if sources.rom == Some(state) {
        Some(FirmwareSlot::Rom)
    } else if sources.nor == Some(state) {
        Some(FirmwareSlot::Nor)
    } else if sources.nand == Some(state) {
        Some(FirmwareSlot::Nand)
    } else if sources.nand0 == Some(state) {
        Some(FirmwareSlot::Nand0)
    } else {
        None
    }
}

/// The outcome of checking a session file path against the firmware dumps.
pub open spec fn state_file_check(state: Option<Seq<Seq<char>>>, sources: RomFilesView) -> Result<(), StateFileError> {
    match state {
        Some(path) => match aliased_slot(path, sources) {
            Some(slot) => Err(StateFileError::AliasesSource(slot)),
            None => Ok(()),
        },
        None => Ok(()),
    }
}

/// Check that the session file, if any, is none of the firmware dumps. The
/// caller gives both as normalized (absolute, resolved) paths.
pub fn validate_state_file_path(path: Option<&FilePath>, sources: &RomFiles) -> (r: Result<(), StateFileError>)
    ensures
        r == state_file_check(
            match path {
                Some(p) => Some(p@),
                None => None,
            },
            sources@,
        ),
{
    let state = match path {
        Some(p) => p,
        None => return Ok(()),
    };
    let slots = [FirmwareSlot::Rom, FirmwareSlot::Nor, FirmwareSlot::Nand, FirmwareSlot::Nand0];
    let mut i: usize = 0;
    while i < 4
        invariant
            i <= 4,
            slots@ == slot_order(),
            path == Some(state),
            forall|j: int| 0 <= j < i ==> sources@.slot(#[trigger] slot_order()[j]) != Some(state@),
        decreases 4 - i,
    {
        if let Some(source) = sources.slot(slots[i]) {
            if source.same_as(state) {
                proof {
                    let order = slot_order();
                    if i > 0 {
                        assert(sources@.slot(order[0]) != Some(state@));
                    }
                    if i > 1 {
                        assert(sources@.slot(order[1]) != Some(state@));
                    }
                    if i > 2 {
                        assert(sources@.slot(order[2]) != Some(state@));
                    }
                    assert(sources@.slot(slots@[i as int]) == Some(state@));
                }
                return Err(StateFileError::AliasesSource(slots[i]));
            }
        }
        i = i + 1;
    }
    proof {
        let order = slot_order();
        assert(sources@.slot(order[0]) != Some(state@));
        assert(sources@.slot(order[1]) != Some(state@));
        assert(sources@.slot(order[2]) != Some(state@));
        assert(sources@.slot(order[3]) != Some(state@));
    }
    Ok(())
}

/// Law: a session path is accepted exactly when it is none of the dump
/// paths, whichever slot holds it; a refusal names a slot whose dump has that
/// path. No session path at all is always accepted.
pub proof fn lemma_state_file_never_overwrites_a_dump(state: Option<Seq<Seq<char>>>, sources: RomFilesView)
    ensures
        state_file_check(state, sources) is Ok <==> match state {
            Some(p) => forall|slot: FirmwareSlot| #[trigger] sources.slot(slot) != Some(p),
            None => true,
        },
        state_file_check(state, sources) matches Err(StateFileError::AliasesSource(slot)) ==> state is Some
            && sources.slot(slot) == state,
{
    if let Some(p) = state {
        if state_file_check(state, sources) is Ok {
            assert forall|slot: FirmwareSlot| #[trigger] sources.slot(slot) != Some(p) by {
                match slot {
                    FirmwareSlot::Rom => {},
                    FirmwareSlot::Nor => {},
                    FirmwareSlot::Nand => {},
                    FirmwareSlot::Nand0 => {},
                }
            }
        } else {
            let slot = aliased_slot(p, sources).unwrap();
            assert(sources.slot(slot) == Some(p));
        }
    }
}

/// The hexadecimal digit character of a value below 16 (lower case).
pub open spec fn hex_char(d: u64) -> char {
    if d < 10 {
        (('0' as u64) + d) as char
    } else {
        (('a' as u64) + d - 10) as char
    }
}

/// The `i`-th four-bit group of `v`, counting from the most significant.
pub open spec fn nibble(v: u64, i: int) -> u64 {
    (v >> ((60 - 4 * i) as u64)) & 15u64
}

/// `v` as 16 lower-case hexadecimal digits, zero-padded.
pub open spec fn hex16(v: u64) -> Seq<char> {
    Seq::new(16, |i: int| hex_char(nibble(v, i)))
}

/// The session file name of a firmware fingerprint: `<16 hex digits>.wqxs`.
pub open spec fn session_file_name(fingerprint: u64) -> Seq<char> {
    hex16(fingerprint) + seq!['.', 'w', 'q', 'x', 's']
}

/// Where the persistent session of a model and firmware lives in a save directory.
pub open spec fn persistent_state_path_spec(save_dir: Seq<Seq<char>>, model: MachineModel, fingerprint: u64) -> Seq<Seq<char>> {
    save_dir.push(model_name(model)).push(session_file_name(fingerprint))
}

fn hex_digit(d: u64) -> (r: &'static str)
    requires
        d < 16,
    ensures
        r@ == seq![hex_char(d)],
{
    proof {
        reveal_strlit("0");
        reveal_strlit("1");
        reveal_strlit("2");
        reveal_strlit("3");
        reveal_strlit("4");
        reveal_strlit("5");
        reveal_strlit("6");
        reveal_strlit("7");
        reveal_strlit("8");
        reveal_strlit("9");
        reveal_strlit("a");
        reveal_strlit("b");
        reveal_strlit("c");
        reveal_strlit("d");
        reveal_strlit("e");
        reveal_strlit("f");
    }
    if d == 0 {
        "0"
    } else if d == 1 {
        "1"
    } else if d == 2 {
        "2"
    } else if d == 3 {
        "3"
    } else if d == 4 {
        "4"
    } else if d == 5 {
        "5"
    } else if d == 6 {
        "6"
    } else if d == 7 {
        "7"
    } else if d == 8 {
        "8"
    } else if d == 9 {
        "9"
    } else if d == 10 {
        "a"
    } else if d == 11 {
        "b"
    } else if d == 12 {
        "c"
    } else if d == 13 {
        "d"
    } else if d == 14 {
        "e"
    } else if d == 15 {
        "f"
    } else {
        "f"
    }
}

/// `<save>/<model>/<fingerprint as 16 hex digits>.wqxs`: sessions are kept
/// apart by model and by firmware.
pub fn persistent_state_path(save_dir: &FilePath, model: MachineModel, firmware_fingerprint: u64) -> (r: FilePath)
    ensures
        r@ == persistent_state_path_spec(save_dir@, model, firmware_fingerprint),
{
    let mut name = String::new();
    let mut i: u64 = 0;
    while i < 16
        invariant
            i <= 16,
            name@ == hex16(firmware_fingerprint).take(i as int),
        decreases 16 - i,
    {
        let shift: u64 = 60 - 4 * i;
        let d = (firmware_fingerprint >> shift) & 15;
        assert(d < 16) by (bit_vector)
            requires
                d == (firmware_fingerprint >> shift) & 15,
        ;
        let ghost before = name@;
        name.append(hex_digit(d));
        proof {
            assert(hex16(firmware_fingerprint).take(i + 1) =~= before.push(hex_char(d)));
        }
        i = i + 1;
    }
    proof {
        reveal_strlit(".wqxs");
    }
    let ghost digits = name@;
    name.append(".wqxs");
    assert(digits =~= hex16(firmware_fingerprint));
    assert(name@ =~= session_file_name(firmware_fingerprint));
    let dir = save_dir.join(model.name());
    let r = dir.join(name.as_str());
    r
}

proof fn lemma_nibbles_determine(a: u64, b: u64)
    by (bit_vector)
    requires
        ((a >> 60u64) & 15u64) == ((b >> 60u64) & 15u64),
        ((a >> 56u64) & 15u64) == ((b >> 56u64) & 15u64),
        ((a >> 52u64) & 15u64) == ((b >> 52u64) & 15u64),
        ((a >> 48u64) & 15u64) == ((b >> 48u64) & 15u64),
        ((a >> 44u64) & 15u64) == ((b >> 44u64) & 15u64),
        ((a >> 40u64) & 15u64) == ((b >> 40u64) & 15u64),
        ((a >> 36u64) & 15u64) == ((b >> 36u64) & 15u64),
        ((a >> 32u64) & 15u64) == ((b >> 32u64) & 15u64),
        ((a >> 28u64) & 15u64) == ((b >> 28u64) & 15u64),
        ((a >> 24u64) & 15u64) == ((b >> 24u64) & 15u64),
        ((a >> 20u64) & 15u64) == ((b >> 20u64) & 15u64),
        ((a >> 16u64) & 15u64) == ((b >> 16u64) & 15u64),
        ((a >> 12u64) & 15u64) == ((b >> 12u64) & 15u64),
        ((a >> 8u64) & 15u64) == ((b >> 8u64) & 15u64),
        ((a >> 4u64) & 15u64) == ((b >> 4u64) & 15u64),
        ((a >> 0u64) & 15u64) == ((b >> 0u64) & 15u64),
    ensures
        a == b,
{
}

proof fn lemma_hex_char_injective(x: u64, y: u64)
    requires
        x < 16,
        y < 16,
        hex_char(x) == hex_char(y),
    ensures
        x == y,
{
}

/// Distinct fingerprints give distinct hexadecimal names.
pub proof fn lemma_hex16_injective(a: u64, b: u64)
    requires
        hex16(a) == hex16(b),
    ensures
        a == b,
{
    assert forall|i: int| 0 <= i < 16 implies #[trigger] nibble(a, i) == nibble(b, i) by {
        let x = nibble(a, i);
        let y = nibble(b, i);
        let s = (60 - 4 * i) as u64;
        assert(x < 16) by (bit_vector)
            requires
                x == (a >> s) & 15u64,
        ;
        assert(y < 16) by (bit_vector)
            requires
                y == (b >> s) & 15u64,
        ;
        assert(hex16(a)[i] == hex16(b)[i]);
        assert(hex16(a)[i] == hex_char(x));
        assert(hex16(b)[i] == hex_char(y));
        lemma_hex_char_injective(x, y);
    }
        assert(nibble(a, 0) == nibble(b, 0));
        assert(nibble(a, 1) == nibble(b, 1));
        assert(nibble(a, 2) == nibble(b, 2));
        assert(nibble(a, 3) == nibble(b, 3));
        assert(nibble(a, 4) == nibble(b, 4));
        assert(nibble(a, 5) == nibble(b, 5));
        assert(nibble(a, 6) == nibble(b, 6));
        assert(nibble(a, 7) == nibble(b, 7));
        assert(nibble(a, 8) == nibble(b, 8));
        assert(nibble(a, 9) == nibble(b, 9));
        assert(nibble(a, 10) == nibble(b, 10));
        assert(nibble(a, 11) == nibble(b, 11));
        assert(nibble(a, 12) == nibble(b, 12));
        assert(nibble(a, 13) == nibble(b, 13));
        assert(nibble(a, 14) == nibble(b, 14));
        assert(nibble(a, 15) == nibble(b, 15));
    lemma_nibbles_determine(a, b);
}

/// Distinct models have distinct names.
pub proof fn lemma_model_name_injective(a: MachineModel, b: MachineModel)
    requires
        model_name(a) == model_name(b),
    ensures
        a == b,
{
    assert(model_name(a)[0] == model_name(b)[0]);
    assert(model_name(a).len() == model_name(b).len());
    assert(model_name(a)[2] == model_name(b)[2]);
}

/// Law: persistent sessions are isolated by model and by firmware: two
/// sessions share a path only for the same model and the same fingerprint.
pub proof fn lemma_persistent_state_paths_isolated(
    save_dir: Seq<Seq<char>>,
    model_a: MachineModel,
    fingerprint_a: u64,
    model_b: MachineModel,
    fingerprint_b: u64,
)
    requires
        persistent_state_path_spec(save_dir, model_a, fingerprint_a) == persistent_state_path_spec(
            save_dir,
            model_b,
            fingerprint_b,
        ),
    ensures
        model_a == model_b,
        fingerprint_a == fingerprint_b,
{
    let pa = persistent_state_path_spec(save_dir, model_a, fingerprint_a);
    let pb = persistent_state_path_spec(save_dir, model_b, fingerprint_b);
    let n = save_dir.len() as int;
    assert(pa[n] == pb[n]);
    assert(pa[n + 1] == pb[n + 1]);
    lemma_model_name_injective(model_a, model_b);
    let fa = session_file_name(fingerprint_a);
    let fb = session_file_name(fingerprint_b);
    assert(fa == fb);
    assert(fa.subrange(0, 16) =~= hex16(fingerprint_a));
    assert(fb.subrange(0, 16) =~= hex16(fingerprint_b));
    lemma_hex16_injective(fingerprint_a, fingerprint_b);
}

} // verus!
