//! Starting a machine in the libretro core, as a sequence of decisions: the
//! core asks the frontend and the file system for one thing at a time, and
//! each answer decides whether it goes on, gives up with an error, or runs.
//!
//! A machine starts from one of two places. When the frontend hands over a
//! firmware file as content, its companions in the same directory make up
//! the firmware set and the emulator core detects the model from them.
//! Without content, the model comes from the core option and its firmware
//! from `<system>/WQXEmu/<model>/`.

use vstd::prelude::*;
use crate::companions::{companion_files, companion_files_spec};
use crate::firmware::{
    FilePath, RomFiles, RomFilesView, firmware_check, firmware_files_for_model, firmware_files_spec, join_strings,
    join_with, missing_files, missing_required_firmware, path_text, persistent_state_path, persistent_state_path_spec,
    strings_paths, strings_view, validate_firmware_files,
};
use crate::machine::{MachineModel, model_name};

verus! {

/// Why the core could not start a machine.
pub enum LoadError {
    /// No firmware file goes with the content file.
    NoFirmwareFound,
    /// The emulator core could not tell the model from the firmware files.
    DetectionFailed,
    /// The detected model needs a firmware file the content's directory lacks.
    IncompleteFirmware(MachineModel),
    /// The frontend does not take XRGB8888 frames.
    PixelFormatUnsupported,
    /// The frontend has no system directory.
    NoSystemDirectory,
    /// These firmware files of the model are not in the system directory.
    MissingFirmware(MachineModel, Vec<FilePath>),
    /// The firmware could not be identified, for this reason.
    Unidentified(MachineModel, String),
    /// The machine did not start, for this reason.
    StartFailed(MachineModel, String),
}

/// A load error by its plain values.
pub enum LoadErrorView {
    NoFirmwareFound,
    DetectionFailed,
    IncompleteFirmware(MachineModel),
    PixelFormatUnsupported,
    NoSystemDirectory,
    MissingFirmware(MachineModel, Seq<Seq<Seq<char>>>),
    Unidentified(MachineModel, Seq<char>),
    StartFailed(MachineModel, Seq<char>),
}

impl View for LoadError {
    type V = LoadErrorView;

    open spec fn view(&self) -> LoadErrorView {
        match self {
            LoadError::NoFirmwareFound => LoadErrorView::NoFirmwareFound,
            LoadError::DetectionFailed => LoadErrorView::DetectionFailed,
            LoadError::IncompleteFirmware(model) => LoadErrorView::IncompleteFirmware(*model),
            LoadError::PixelFormatUnsupported => LoadErrorView::PixelFormatUnsupported,
            LoadError::NoSystemDirectory => LoadErrorView::NoSystemDirectory,
            LoadError::MissingFirmware(model, paths) => LoadErrorView::MissingFirmware(*model, strings_paths(paths@)),
            LoadError::Unidentified(model, reason) => LoadErrorView::Unidentified(*model, reason@),
            LoadError::StartFailed(model, reason) => LoadErrorView::StartFailed(*model, reason@),
        }
    }
}

/// The message the frontend shows for a load error.
pub open spec fn load_error_text(e: LoadErrorView) -> Seq<char> {
    match e {
        LoadErrorView::NoFirmwareFound => "No firmware found"@,
        LoadErrorView::DetectionFailed => "Model detection failed"@,
        LoadErrorView::IncompleteFirmware(model) => "Missing "@ + model_name(model) + " firmware next to the content file"@,
        LoadErrorView::PixelFormatUnsupported => "The frontend does not support the required XRGB8888 pixel format"@,
        LoadErrorView::NoSystemDirectory => "RetroArch system directory is not configured"@,
        LoadErrorView::MissingFirmware(model, paths) => "Missing "@ + model_name(model)
            + " firmware in the RetroArch system directory: "@ + join_with(paths.map_values(|p: Seq<Seq<char>>| path_text(p)), ", "@),
        LoadErrorView::Unidentified(model, reason) => "Failed to identify "@ + model_name(model) + " firmware: "@ + reason,
        LoadErrorView::StartFailed(model, reason) => "Failed to start "@ + model_name(model) + ": "@ + reason,
    }
}

impl LoadError {
    /// The message the frontend shows for this error.
    pub fn message(&self) -> (r: String)
        ensures
            r@ == load_error_text(self@),
    {
        match self {
            LoadError::NoFirmwareFound => String::from_str("No firmware found"),
            LoadError::DetectionFailed => String::from_str("Model detection failed"),
            LoadError::IncompleteFirmware(model) => {
                let mut r = String::from_str("Missing ");
                r.append(model.name());
                r.append(" firmware next to the content file");
                r
            },
            LoadError::PixelFormatUnsupported => String::from_str(
                "The frontend does not support the required XRGB8888 pixel format",
            ),
            LoadError::NoSystemDirectory => String::from_str("RetroArch system directory is not configured"),
            LoadError::MissingFirmware(model, paths) => {
                let mut texts: Vec<String> = Vec::new();
                let mut i: usize = 0;
                while i < paths.len()
                    invariant
                        i <= paths@.len(),
                        strings_view(texts@) == strings_paths(paths@).take(i as int).map_values(
                            |p: Seq<Seq<char>>| path_text(p),
                        ),
                    decreases paths@.len() - i,
                {
                    let ghost before = strings_view(texts@);
                    let text = paths[i].display();
                    texts.push(text);
                    proof {
                        assert(strings_view(texts@) =~= before.push(text@));
                        assert(strings_paths(paths@).take(i + 1).map_values(|p: Seq<Seq<char>>| path_text(p))
                            =~= strings_paths(paths@).take(i as int).map_values(|p: Seq<Seq<char>>| path_text(p)).push(
                            path_text(paths@[i as int]@),
                        ));
                    }
                    i = i + 1;
                }
                assert(strings_paths(paths@).take(i as int) =~= strings_paths(paths@));
                let mut r = String::from_str("Missing ");
                r.append(model.name());
                r.append(" firmware in the RetroArch system directory: ");
                let joined = join_strings(&texts, ", ");
                r.append(joined.as_str());
                r
            },
            LoadError::Unidentified(model, reason) => {
                let mut r = String::from_str("Failed to identify ");
                r.append(model.name());
                r.append(" firmware: ");
                r.append(reason.as_str());
                r
            },
            LoadError::StartFailed(model, reason) => {
                let mut r = String::from_str("Failed to start ");
                r.append(model.name());
                r.append(": ");
                r.append(reason.as_str());
                r
            },
        }
    }
}

/// What the core has learnt so far while starting a machine; `None` marks
/// a question not yet asked.
pub struct LoadProgress {
    /// The firmware file the frontend handed over as content, if any.
    pub content: Option<FilePath>,
    /// The names of the files in the content file's directory.
    pub listing: Option<Vec<String>>,
    /// The model the emulator core detected from the content's firmware set.
    pub detected: Option<Option<MachineModel>>,
    /// The frontend's save directory, read when the core was set up.
    pub save_dir: Option<FilePath>,
    /// Whether the frontend took the XRGB8888 pixel format.
    pub pixel_format: Option<bool>,
    /// The frontend's system directory, if it has one.
    pub system_dir: Option<Option<FilePath>>,
    /// The model the core option selects.
    pub model: Option<MachineModel>,
    /// Whether each slot's file of the model's canonical firmware set exists.
    pub present: Option<[bool; 4]>,
    /// The firmware fingerprint, or why it could not be computed.
    pub fingerprint: Option<Result<u64, String>>,
    /// Whether the machine started, or why not.
    pub started: Option<Result<(), String>>,
}

impl LoadProgress {
    /// Nothing learnt yet but what the frontend handed over.
    pub fn new(content: Option<FilePath>, save_dir: Option<FilePath>) -> (r: LoadProgress)
        ensures
            r.content == content,
            r.listing is None,
            r.detected is None,
            r.save_dir == save_dir,
            r.pixel_format is None,
            r.system_dir is None,
            r.model is None,
            r.present is None,
            r.fingerprint is None,
            r.started is None,
    {
        LoadProgress {
            content,
            listing: None,
            detected: None,
            save_dir,
            pixel_format: None,
            system_dir: None,
            model: None,
            present: None,
            fingerprint: None,
            started: None,
        }
    }
}

/// What the core does next while starting a machine.
pub enum LoadAction {
    /// Ask the frontend for XRGB8888 frames.
    RequestPixelFormat,
    /// List the names of the files in this directory.
    ListDirectory(FilePath),
    /// Ask the emulator core which model this firmware set belongs to.
    DetectModel(RomFiles),
    /// Ask the frontend for its system directory.
    ReadSystemDirectory,
    /// Ask the frontend which model its core option selects.
    ReadModelOption,
    /// Find out which files of this firmware set exist.
    CheckFirmware(RomFiles),
    /// Compute the fingerprint of this firmware set.
    Identify(RomFiles),
    /// Start the model from this firmware set.
    Start(MachineModel, RomFiles),
    /// Give up with this error.
    Fail(LoadError),
    /// Run the started machine, keeping its session at this path, if any.
    Run(MachineModel, Option<FilePath>),
}

/// A load action by its plain values.
pub enum LoadActionView {
    RequestPixelFormat,
    ListDirectory(Seq<Seq<char>>),
    DetectModel(RomFilesView),
    ReadSystemDirectory,
    ReadModelOption,
    CheckFirmware(RomFilesView),
    Identify(RomFilesView),
    Start(MachineModel, RomFilesView),
    Fail(LoadErrorView),
    Run(MachineModel, Option<Seq<Seq<char>>>),
}

impl View for LoadAction {
    type V = LoadActionView;

    open spec fn view(&self) -> LoadActionView {
        match self {
            LoadAction::RequestPixelFormat => LoadActionView::RequestPixelFormat,
            LoadAction::ListDirectory(dir) => LoadActionView::ListDirectory(dir@),
            LoadAction::DetectModel(files) => LoadActionView::DetectModel(files@),
            LoadAction::ReadSystemDirectory => LoadActionView::ReadSystemDirectory,
            LoadAction::ReadModelOption => LoadActionView::ReadModelOption,
            LoadAction::CheckFirmware(files) => LoadActionView::CheckFirmware(files@),
            LoadAction::Identify(files) => LoadActionView::Identify(files@),
            LoadAction::Start(model, files) => LoadActionView::Start(*model, files@),
            LoadAction::Fail(e) => LoadActionView::Fail(e@),
            LoadAction::Run(model, path) => LoadActionView::Run(
                *model,
                match path {
                    Some(p) => Some(p@),
                    None => None,
                },
            ),
        }
    }
}

/// The firmware set a model uses, given which canonical files exist: the
/// NC3000's first NAND plane only when its file is there.
pub open spec fn resolved_firmware(system_dir: Seq<Seq<char>>, model: MachineModel, present: Seq<bool>) -> RomFilesView {
    firmware_files_spec(system_dir, model, present[3])
}

/// The steps after the firmware set is settled: identify it, start the
/// model from it, and run.
pub open spec fn load_tail(p: LoadProgress, model: MachineModel, files: RomFilesView) -> LoadActionView {
    match p.fingerprint {
        None => LoadActionView::Identify(files),
        Some(Err(reason)) => LoadActionView::Fail(LoadErrorView::Unidentified(model, reason@)),
        Some(Ok(fingerprint)) => match p.started {
            None => LoadActionView::Start(model, files),
            Some(Err(reason)) => LoadActionView::Fail(LoadErrorView::StartFailed(model, reason@)),
            Some(Ok(_)) => LoadActionView::Run(
                model,
                match p.save_dir {
                    Some(save_dir) => Some(persistent_state_path_spec(save_dir@, model, fingerprint)),
                    None => None,
                },
            ),
        },
    }
}

/// The part of a firmware set that a model uses.
pub open spec fn model_firmware(files: RomFilesView, model: MachineModel) -> RomFilesView {
    match model {
        MachineModel::Nc1020 | MachineModel::Pc1000 | MachineModel::Cc800 => RomFilesView {
            nand: None,
            nand0: None,
            ..files
        },
        MachineModel::Nc2000 | MachineModel::Nc3000 => RomFilesView { rom: None, ..files },
    }
}

/// A firmware set without any file.
pub open spec fn no_firmware(files: RomFilesView) -> bool {
    files.rom is None && files.nor is None && files.nand is None && files.nand0 is None
}

/// The next step of starting from a content file, from what is known so far.
pub open spec fn content_action_spec(p: LoadProgress, path: Seq<Seq<char>>) -> LoadActionView {
    if path.len() == 0 {
        LoadActionView::Fail(LoadErrorView::NoFirmwareFound)
    } else {
        let dir = path.drop_last();
        match p.listing {
            None => LoadActionView::ListDirectory(dir),
            Some(names) => {
                let files = companion_files_spec(dir, path.last(), strings_view(names@));
                if no_firmware(files) {
                    LoadActionView::Fail(LoadErrorView::NoFirmwareFound)
                } else {
                    match p.detected {
                        None => LoadActionView::DetectModel(files),
                        Some(None) => LoadActionView::Fail(LoadErrorView::DetectionFailed),
                        Some(Some(model)) => {
                            let chosen = model_firmware(files, model);
                            if firmware_check(model, chosen) is Err {
                                LoadActionView::Fail(LoadErrorView::IncompleteFirmware(model))
                            } else {
                                load_tail(p, model, chosen)
                            }
                        },
                    }
                }
            },
        }
    }
}

/// The next step of starting from the system directory, from what is known
/// so far.
pub open spec fn system_action_spec(p: LoadProgress) -> LoadActionView {
    match p.system_dir {
        None => LoadActionView::ReadSystemDirectory,
        Some(None) => LoadActionView::Fail(LoadErrorView::NoSystemDirectory),
        Some(Some(dir)) => match p.model {
            None => LoadActionView::ReadModelOption,
            Some(model) => match p.present {
                None => LoadActionView::CheckFirmware(firmware_files_spec(dir@, model, true)),
                Some(present) => {
                    let files = resolved_firmware(dir@, model, present@);
                    let missing = missing_files(files, present@, 4);
                    if missing.len() > 0 {
                        LoadActionView::Fail(LoadErrorView::MissingFirmware(model, missing))
                    } else {
                        load_tail(p, model, files)
                    }
                },
            },
        },
    }
}

/// The next step of starting a machine, from what is known so far: first
/// the pixel format, then the content file's or the system directory's way.
pub open spec fn load_action_spec(p: LoadProgress) -> LoadActionView {
    match p.pixel_format {
        None => LoadActionView::RequestPixelFormat,
        Some(false) => LoadActionView::Fail(LoadErrorView::PixelFormatUnsupported),
        Some(true) => match p.content {
            Some(path) => content_action_spec(p, path@),
            None => system_action_spec(p),
        },
    }
}

fn tail_action(p: &LoadProgress, model: MachineModel, files: RomFiles) -> (r: LoadAction)
    ensures
        r@ == load_tail(*p, model, files@),
{
    let fingerprint = match &p.fingerprint {
        None => {
            return LoadAction::Identify(files);
        },
        Some(Err(reason)) => {
            return LoadAction::Fail(LoadError::Unidentified(model, reason.clone()));
        },
        Some(Ok(fingerprint)) => *fingerprint,
    };
    match &p.started {
        None => LoadAction::Start(model, files),
        Some(Err(reason)) => LoadAction::Fail(LoadError::StartFailed(model, reason.clone())),
        Some(Ok(_)) => LoadAction::Run(
            model,
            match &p.save_dir {
                Some(save_dir) => Some(persistent_state_path(save_dir, model, fingerprint)),
                None => None,
            },
        ),
    }
}

fn clone_path(p: &Option<FilePath>) -> (r: Option<FilePath>)
    ensures
        match (r, *p) {
            (Some(a), Some(b)) => a@ == b@,
            (None, None) => true,
            _ => false,
        },
{
    match p {
        Some(path) => Some(path.clone()),
        None => None,
    }
}

fn chosen_firmware(files: &RomFiles, model: MachineModel) -> (r: RomFiles)
    ensures
        r@ == model_firmware(files@, model),
{
    let r = match model {
        MachineModel::Nc1020 | MachineModel::Pc1000 | MachineModel::Cc800 => RomFiles::new(
            clone_path(&files.rom),
            clone_path(&files.nor),
            None,
            None,
        ),
        MachineModel::Nc2000 | MachineModel::Nc3000 => RomFiles::new(
            None,
            clone_path(&files.nor),
            clone_path(&files.nand),
            clone_path(&files.nand0),
        ),
    };
    assert(r@ =~~= model_firmware(files@, model));
    r
}

/// The directory of a path and its last component.
fn split_last(path: &FilePath) -> (r: (FilePath, String))
    requires
        path@.len() > 0,
    ensures
        r.0@ == path@.drop_last(),
        r.1@ == path@.last(),
{
    let n = path.components.len();
    let mut parent: Vec<String> = Vec::new();
    let mut i: usize = 0;
    while i + 1 < n
        invariant
            n == path.components@.len(),
            n > 0,
            i <= n - 1,
            strings_view(parent@) == path@.take(i as int),
        decreases n - i,
    {
        let ghost before = strings_view(parent@);
        let item = path.components[i].clone();
        parent.push(item);
        assert(strings_view(parent@) =~= before.push(item@));
        assert(path@.take(i + 1) =~= path@.take(i as int).push(path@[i as int]));
        i = i + 1;
    }
    assert(path@.take(i as int) =~= path@.drop_last());
    let name = path.components[n - 1].clone();
    (FilePath::new(parent), name)
}

fn content_action(p: &LoadProgress, path: &FilePath) -> (r: LoadAction)
    ensures
        r@ == content_action_spec(*p, path@),
{
    if path.components.len() == 0 {
        return LoadAction::Fail(LoadError::NoFirmwareFound);
    }
    let (dir, name) = split_last(path);
    let names = match &p.listing {
        None => {
            return LoadAction::ListDirectory(dir);
        },
        Some(names) => names,
    };
    let files = companion_files(&dir, &name, names);
    if files.rom.is_none() && files.nor.is_none() && files.nand.is_none() && files.nand0.is_none() {
        return LoadAction::Fail(LoadError::NoFirmwareFound);
    }
    let model = match p.detected {
        None => {
            return LoadAction::DetectModel(files);
        },
        Some(None) => {
            return LoadAction::Fail(LoadError::DetectionFailed);
        },
        Some(Some(model)) => model,
    };
    let chosen = chosen_firmware(&files, model);
    if validate_firmware_files(model, &chosen).is_err() {
        return LoadAction::Fail(LoadError::IncompleteFirmware(model));
    }
    tail_action(p, model, chosen)
}

fn system_action(p: &LoadProgress) -> (r: LoadAction)
    ensures
        r@ == system_action_spec(*p),
{
    let dir = match &p.system_dir {
        None => {
            return LoadAction::ReadSystemDirectory;
        },
        Some(None) => {
            return LoadAction::Fail(LoadError::NoSystemDirectory);
        },
        Some(Some(dir)) => dir,
    };
    let model = match p.model {
        None => {
            return LoadAction::ReadModelOption;
        },
        Some(model) => model,
    };
    let present = match &p.present {
        None => {
            return LoadAction::CheckFirmware(firmware_files_for_model(dir, model, true));
        },
        Some(present) => present,
    };
    let files = firmware_files_for_model(dir, model, present[3]);
    let missing = missing_required_firmware(&files, present);
    if missing.len() > 0 {
        return LoadAction::Fail(LoadError::MissingFirmware(model, missing));
    }
    tail_action(p, model, files)
}

/// The next step of starting a machine, from what is known so far.
pub fn next_load_action(p: &LoadProgress) -> (r: LoadAction)
    ensures
        r@ == load_action_spec(*p),
{
    match p.pixel_format {
        None => LoadAction::RequestPixelFormat,
        Some(false) => LoadAction::Fail(LoadError::PixelFormatUnsupported),
        Some(true) => match &p.content {
            Some(path) => content_action(p, path),
            None => system_action(p),
        },
    }
}

/// Law: when every file of a firmware set exists, none is reported missing.
pub proof fn lemma_present_firmware_is_not_missing(files: RomFilesView)
    ensures
        missing_files(files, seq![true, true, true, true], 4).len() == 0,
{
    let present = seq![true, true, true, true];
    assert(missing_files(files, present, 0).len() == 0);
    assert(missing_files(files, present, 1).len() == 0);
    assert(missing_files(files, present, 2).len() == 0);
    assert(missing_files(files, present, 3).len() == 0);
}

/// Law: once the frontend took the pixel format, named a system directory
/// and a model, every firmware file was found, identified and the machine
/// started, the core runs that model and keeps its session under the save
/// directory, by model and firmware fingerprint.
pub proof fn lemma_successful_load_runs(p: LoadProgress, fingerprint: u64)
    requires
        p.content is None,
        p.pixel_format == Some(true),
        p.system_dir matches Some(Some(_)),
        p.model is Some,
        p.present == Some([true, true, true, true]),
        p.fingerprint == Some(Ok::<u64, String>(fingerprint)),
        p.started matches Some(Ok(_)),
    ensures
        load_action_spec(p) == LoadActionView::Run(
            p.model.unwrap(),
            match p.save_dir {
                Some(save_dir) => Some(persistent_state_path_spec(save_dir@, p.model.unwrap(), fingerprint)),
                None => None,
            },
        ),
{
    let dir = p.system_dir.unwrap().unwrap();
    let present = p.present.unwrap();
    assert(present@ =~= seq![true, true, true, true]);
    lemma_present_firmware_is_not_missing(resolved_firmware(dir@, p.model.unwrap(), present@));
}

/// The firmware set found next to the content file that a progress record
/// names, with the directory listing it holds.
pub open spec fn content_firmware(p: LoadProgress) -> RomFilesView {
    let path = p.content.unwrap()@;
    companion_files_spec(path.drop_last(), path.last(), strings_view(p.listing.unwrap()@))
}

/// Law: a firmware file handed over as content starts the model the emulator
/// core detects from its companions, once that model's files are all there,
/// identified and started; the machine runs from exactly those files.
pub proof fn lemma_content_load_runs_detected_model(p: LoadProgress, model: MachineModel, fingerprint: u64)
    requires
        p.pixel_format == Some(true),
        p.content matches Some(path) && path@.len() > 0,
        p.listing is Some,
        !no_firmware(content_firmware(p)),
        p.detected == Some(Some(model)),
        firmware_check(model, model_firmware(content_firmware(p), model)) is Ok,
        p.fingerprint == Some(Ok::<u64, String>(fingerprint)),
        p.started matches Some(Ok(_)),
    ensures
        load_action_spec(p) matches LoadActionView::Run(m, _) && m == model,
        load_tail(p, model, model_firmware(content_firmware(p), model)) == load_action_spec(p),
{
}

} // verus!
