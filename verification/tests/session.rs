use wqxemu::companions::companion_files;
use wqxemu::desktop::{apply_mouse, apply_window_keys, SkinInput};
use wqxemu::firmware::{firmware_files_for_model, persistent_state_path, FilePath};
use wqxemu::frontend_keys::{
    MINIFB_KEY_A, MINIFB_KEY_UP, RETRO_DEVICE_ID_JOYPAD_A, RETRO_DEVICE_ID_JOYPAD_B, RETRO_DEVICE_ID_JOYPAD_DOWN,
    RETRO_DEVICE_ID_JOYPAD_L, RETRO_DEVICE_ID_JOYPAD_LEFT, RETRO_DEVICE_ID_JOYPAD_R, RETRO_DEVICE_ID_JOYPAD_RIGHT,
    RETRO_DEVICE_ID_JOYPAD_SELECT, RETRO_DEVICE_ID_JOYPAD_START, RETRO_DEVICE_ID_JOYPAD_UP, RETRO_DEVICE_ID_JOYPAD_X,
    RETRO_DEVICE_ID_JOYPAD_Y,
};
use wqxemu::input::FrontendInputState;
use wqxemu::keyboard::HostKey;
use wqxemu::machine::MachineModel;
use wqxemu::retro_load::{next_load_action, LoadAction, LoadError, LoadProgress};
use wqxemu::retro_setup::{
    apply_retropad_states, core_variables, input_descriptors, selected_model, RETRO_DEVICE_JOYPAD,
};

fn path(components: &[&str]) -> FilePath {
    FilePath::new(components.iter().map(|c| c.to_string()).collect())
}

#[test]
fn advertises_every_mapped_retropad_button() {
    let descriptors = input_descriptors();
    let expected = [
        (RETRO_DEVICE_ID_JOYPAD_B, "Escape / Back"),
        (RETRO_DEVICE_ID_JOYPAD_Y, "F4"),
        (RETRO_DEVICE_ID_JOYPAD_SELECT, "F11 / Model Hotkey"),
        (RETRO_DEVICE_ID_JOYPAD_START, "F10 / Model Hotkey"),
        (RETRO_DEVICE_ID_JOYPAD_UP, "Up"),
        (RETRO_DEVICE_ID_JOYPAD_DOWN, "Down"),
        (RETRO_DEVICE_ID_JOYPAD_LEFT, "Left"),
        (RETRO_DEVICE_ID_JOYPAD_RIGHT, "Right"),
        (RETRO_DEVICE_ID_JOYPAD_A, "Enter / Confirm"),
        (RETRO_DEVICE_ID_JOYPAD_X, "F1"),
        (RETRO_DEVICE_ID_JOYPAD_L, "Page Up"),
        (RETRO_DEVICE_ID_JOYPAD_R, "Page Down"),
    ];

    for (descriptor, (id, description)) in descriptors.iter().zip(expected) {
        assert_eq!(descriptor.port, 0);
        assert_eq!(descriptor.device, RETRO_DEVICE_JOYPAD);
        assert_eq!(descriptor.index, 0);
        assert_eq!(descriptor.id, id);
        assert_eq!(descriptor.description.unwrap(), description);
    }
    assert!(descriptors.last().unwrap().description.is_none());
}

#[test]
fn the_model_option_lists_every_model() {
    let variables = core_variables();
    assert_eq!(variables.len(), 2);
    assert_eq!(variables[0].key, Some("wqxemu_model"));
    assert_eq!(variables[0].value, Some("Machine Model (Restart); NC1020|PC1000|CC800|NC2000|NC3000"));
    assert!(variables[1].key.is_none() && variables[1].value.is_none());
    let options = variables[0].value.unwrap().split("; ").nth(1).unwrap();
    for option in options.split('|') {
        assert!(MachineModel::from_name(option).is_some(), "{option}");
    }
}

#[test]
fn the_model_option_falls_back_to_the_nc1020() {
    assert_eq!(selected_model(Some("NC3000")), MachineModel::Nc3000);
    assert_eq!(selected_model(Some("pc1000")), MachineModel::Pc1000);
    assert_eq!(selected_model(Some("Auto")), MachineModel::Nc1020);
    assert_eq!(selected_model(None), MachineModel::Nc1020);
}

#[test]
fn retropad_polls_press_and_release_mapped_buttons() {
    let mut input = FrontendInputState::default();
    let mut states = [0i16; 12];
    states[RETRO_DEVICE_ID_JOYPAD_UP as usize] = 1;
    states[RETRO_DEVICE_ID_JOYPAD_A as usize] = -1;
    apply_retropad_states(&mut input, &states);
    let events = input.sync(MachineModel::Nc2000);
    assert!(events.contains(&(0x13, true)));
    assert_eq!(events.len(), 2);

    states[RETRO_DEVICE_ID_JOYPAD_UP as usize] = 0;
    apply_retropad_states(&mut input, &states);
    assert_eq!(input.sync(MachineModel::Nc2000), vec![(0x13, false)]);
}

#[test]
fn window_keys_press_then_release() {
    let mut input = FrontendInputState::default();
    apply_window_keys(&mut input, &vec![MINIFB_KEY_UP, 250], &vec![]);
    assert_eq!(input.sync(MachineModel::Nc2000), vec![(0x13, true)]);
    // A key pressed and released in the same frame ends up released.
    apply_window_keys(&mut input, &vec![MINIFB_KEY_A], &vec![MINIFB_KEY_A, MINIFB_KEY_UP]);
    assert_eq!(input.sync(MachineModel::Nc2000), vec![(0x13, false)]);
}

#[test]
fn the_mouse_resets_once_and_holds_keys() {
    let mut input = FrontendInputState::default();
    let mut current = None;
    assert!(!apply_mouse(&mut input, &mut current, Some(SkinInput::Key(0x13))));
    assert_eq!(input.sync(MachineModel::Nc2000), vec![(0x13, true)]);
    assert!(apply_mouse(&mut input, &mut current, Some(SkinInput::Reset)));
    assert_eq!(current, Some(SkinInput::Reset));
    assert!(input.pressed().iter().all(|down| !down));
    // Holding the reset button does not reset again.
    assert!(!apply_mouse(&mut input, &mut current, Some(SkinInput::Reset)));
    assert!(input.sync(MachineModel::Nc2000).is_empty());
    assert!(!apply_mouse(&mut input, &mut current, None));
    assert_eq!(current, None);
    input.set_keyboard_key(HostKey::Up, true);
    assert_eq!(input.sync(MachineModel::Nc2000), vec![(0x13, true)]);
}

#[test]
fn loading_asks_one_question_at_a_time() {
    let mut progress = LoadProgress::new(None, Some(path(&["saves"])));
    assert!(matches!(next_load_action(&progress), LoadAction::RequestPixelFormat));
    progress.pixel_format = Some(true);
    assert!(matches!(next_load_action(&progress), LoadAction::ReadSystemDirectory));
    progress.system_dir = Some(Some(path(&["system"])));
    assert!(matches!(next_load_action(&progress), LoadAction::ReadModelOption));
    progress.model = Some(MachineModel::Nc3000);
    match next_load_action(&progress) {
        LoadAction::CheckFirmware(files) => {
            assert_eq!(files, firmware_files_for_model(&path(&["system"]), MachineModel::Nc3000, true))
        },
        _ => panic!("expected a firmware check"),
    }
    progress.present = Some([false, true, true, false]);
    let resolved = firmware_files_for_model(&path(&["system"]), MachineModel::Nc3000, false);
    match next_load_action(&progress) {
        LoadAction::Identify(files) => assert_eq!(files, resolved),
        _ => panic!("expected identification"),
    }
    progress.fingerprint = Some(Ok(0x1234));
    match next_load_action(&progress) {
        LoadAction::Start(model, files) => {
            assert_eq!(model, MachineModel::Nc3000);
            assert_eq!(files, resolved);
        },
        _ => panic!("expected a start"),
    }
    progress.started = Some(Ok(()));
    match next_load_action(&progress) {
        LoadAction::Run(model, session) => {
            assert_eq!(model, MachineModel::Nc3000);
            assert_eq!(session, Some(persistent_state_path(&path(&["saves"]), MachineModel::Nc3000, 0x1234)));
        },
        _ => panic!("expected to run"),
    }
}

#[test]
fn loading_reports_each_failure() {
    let mut progress = LoadProgress::new(None, None);
    progress.pixel_format = Some(false);
    match next_load_action(&progress) {
        LoadAction::Fail(error) => {
            assert_eq!(error.message(), "The frontend does not support the required XRGB8888 pixel format")
        },
        _ => panic!("expected a failure"),
    }
    progress.pixel_format = Some(true);
    progress.system_dir = Some(None);
    match next_load_action(&progress) {
        LoadAction::Fail(error) => assert_eq!(error.message(), "RetroArch system directory is not configured"),
        _ => panic!("expected a failure"),
    }

    progress.system_dir = Some(Some(path(&["system"])));
    progress.model = Some(MachineModel::Nc2000);
    progress.present = Some([false, false, true, false]);
    match next_load_action(&progress) {
        LoadAction::Fail(error) => assert_eq!(
            error.message(),
            "Missing nc2000 firmware in the RetroArch system directory: \
             system/WQXEmu/nc2000/nc2000.nor, system/WQXEmu/nc2000/nc2000.nand0"
        ),
        _ => panic!("expected a failure"),
    }

    progress.present = Some([false, true, true, true]);
    progress.fingerprint = Some(Err("unreadable".to_string()));
    match next_load_action(&progress) {
        LoadAction::Fail(error) => assert_eq!(error.message(), "Failed to identify nc2000 firmware: unreadable"),
        _ => panic!("expected a failure"),
    }
    progress.fingerprint = Some(Ok(1));
    progress.started = Some(Err("bad dump".to_string()));
    match next_load_action(&progress) {
        LoadAction::Fail(error) => assert_eq!(error.message(), "Failed to start nc2000: bad dump"),
        _ => panic!("expected a failure"),
    }
    progress.started = Some(Ok(()));
    assert!(matches!(next_load_action(&progress), LoadAction::Run(MachineModel::Nc2000, None)));
}

#[test]
fn load_errors_show_paths_with_slashes() {
    let error = LoadError::MissingFirmware(MachineModel::Nc1020, vec![path(&["", "roms", "obj_lu.bin"])]);
    assert_eq!(error.message(), "Missing nc1020 firmware in the RetroArch system directory: /roms/obj_lu.bin");
    assert_eq!(path(&["a", "b"]).display(), "a/b");
}

fn names(list: &[&str]) -> Vec<String> {
    list.iter().map(|name| name.to_string()).collect()
}

#[test]
fn companions_prefer_the_same_stem_then_a_unique_extension() {
    let dir = path(&["roms"]);
    let files = companion_files(&dir, &"pc1000.rom".to_string(), &names(&["other.fls", "pc1000.fls", "pc1000.rom"]));
    assert_eq!(files.rom, Some(path(&["roms", "pc1000.rom"])));
    assert_eq!(files.nor, Some(path(&["roms", "pc1000.fls"])));
    assert_eq!(files.nand, None);

    let files = companion_files(&dir, &"obj_lu.bin".to_string(), &names(&["obj_lu.bin", "nc1020.fls", "notes.txt"]));
    assert_eq!(files.rom, Some(path(&["roms", "obj_lu.bin"])));
    assert_eq!(files.nor, Some(path(&["roms", "nc1020.fls"])));

    let files = companion_files(&dir, &"x.bin".to_string(), &names(&["x.bin", "a.fls", "b.fls"]));
    assert_eq!(files.nor, None);

    let files = companion_files(
        &dir,
        &"nc2000.nor".to_string(),
        &names(&["nc2000.nor", "nc2000.nand", "nc2000.nand0"]),
    );
    assert_eq!(files.nor, Some(path(&["roms", "nc2000.nor"])));
    assert_eq!(files.nand, Some(path(&["roms", "nc2000.nand"])));
    assert_eq!(files.nand0, Some(path(&["roms", "nc2000.nand0"])));
    assert_eq!(files.rom, None);
}

#[test]
fn a_content_file_starts_the_detected_model() {
    let content = path(&["system", "WQXEmu", "nc1020", "obj_lu.bin"]);
    let dir = path(&["system", "WQXEmu", "nc1020"]);
    let mut progress = LoadProgress::new(Some(content), Some(path(&["saves"])));
    assert!(matches!(next_load_action(&progress), LoadAction::RequestPixelFormat));
    progress.pixel_format = Some(true);
    match next_load_action(&progress) {
        LoadAction::ListDirectory(listed) => assert_eq!(listed, dir),
        _ => panic!("expected a directory listing"),
    }
    progress.listing = Some(names(&["obj_lu.bin", "nc1020.fls"]));
    let expected = wqxemu::firmware::RomFiles::new(
        Some(path(&["system", "WQXEmu", "nc1020", "obj_lu.bin"])),
        Some(path(&["system", "WQXEmu", "nc1020", "nc1020.fls"])),
        None,
        None,
    );
    match next_load_action(&progress) {
        LoadAction::DetectModel(files) => assert_eq!(files, expected),
        _ => panic!("expected model detection"),
    }
    progress.detected = Some(Some(MachineModel::Nc1020));
    match next_load_action(&progress) {
        LoadAction::Identify(files) => assert_eq!(files, expected),
        _ => panic!("expected identification"),
    }
    progress.fingerprint = Some(Ok(7));
    progress.started = Some(Ok(()));
    match next_load_action(&progress) {
        LoadAction::Run(model, session) => {
            assert_eq!(model, MachineModel::Nc1020);
            assert_eq!(session, Some(persistent_state_path(&path(&["saves"]), MachineModel::Nc1020, 7)));
        },
        _ => panic!("expected to run"),
    }
}

#[test]
fn a_content_file_reports_detection_failures() {
    let mut progress = LoadProgress::new(Some(path(&["roms", "x.bin"])), None);
    progress.pixel_format = Some(true);
    progress.listing = Some(names(&["notes.txt"]));
    match next_load_action(&progress) {
        LoadAction::Fail(error) => assert_eq!(error.message(), "No firmware found"),
        _ => panic!("expected a failure"),
    }
    progress.listing = Some(names(&["x.bin", "a.fls", "b.fls"]));
    progress.detected = Some(None);
    match next_load_action(&progress) {
        LoadAction::Fail(error) => assert_eq!(error.message(), "Model detection failed"),
        _ => panic!("expected a failure"),
    }
    progress.detected = Some(Some(MachineModel::Nc1020));
    match next_load_action(&progress) {
        LoadAction::Fail(error) => assert_eq!(error.message(), "Missing nc1020 firmware next to the content file"),
        _ => panic!("expected a failure"),
    }
}
