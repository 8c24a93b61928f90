use wqxemu::envelope::{
    serialized_state_payload, write_serialized_state, SERIALIZATION_BUFFER_SIZE, SERIALIZATION_FORMAT_VERSION,
    SERIALIZATION_HEADER_SIZE,
};
use wqxemu::firmware::{firmware_files_for_model, missing_required_firmware, persistent_state_path, FilePath};
use wqxemu::frontend_keys::{
    map_joypad_button, map_keyboard_key, retro_host_key, retropad_host_key, RETROK_0, RETROK_BACKSLASH,
    RETROK_DELETE, RETROK_F1, RETROK_LEFTBRACKET, RETROK_PERIOD, RETROK_RIGHTBRACKET, RETROK_UP,
    RETRO_DEVICE_ID_JOYPAD_SELECT, RETRO_DEVICE_ID_JOYPAD_START, RETRO_DEVICE_ID_JOYPAD_UP,
};
use wqxemu::keyboard::HostKey;
use wqxemu::machine::{machine_model_tag, model_from_option, MachineModel};

const SERIALIZATION_MAGIC: &[u8; 4] = b"WQXS";

fn path(components: &[&str]) -> FilePath {
    FilePath::new(components.iter().map(|c| c.to_string()).collect())
}

#[test]
fn resolves_canonical_system_firmware_for_each_model() {
    let system_dir = path(&["system"]);
    let cases = [
        (MachineModel::Nc1020, Some("obj_lu.bin"), "nc1020.fls", None, None),
        (MachineModel::Pc1000, Some("pc1000.rom"), "pc1000.nor", None, None),
        (MachineModel::Cc800, Some("obj.bin"), "cc800.fls", None, None),
        (MachineModel::Nc2000, None, "nc2000.nor", Some("nc2000.nand"), Some("nc2000.nand0")),
        (MachineModel::Nc3000, None, "nc3000.nor", Some("nc3000.nand"), None),
    ];

    for (model, rom, nor, nand, nand0) in cases {
        // The optional NC3000 plane does not exist under this directory.
        let files = firmware_files_for_model(&system_dir, model, false);
        let model_dir = system_dir.join("WQXEmu").join(model.name());
        assert_eq!(files.rom, rom.map(|name| model_dir.join(name)));
        assert_eq!(files.nor, Some(model_dir.join(nor)));
        assert_eq!(files.nand, nand.map(|name| model_dir.join(name)));
        assert_eq!(files.nand0, nand0.map(|name| model_dir.join(name)));
    }
}

#[test]
fn nc3000_uses_its_first_nand_plane_when_present() {
    let system_dir = path(&["system"]);
    let files = firmware_files_for_model(&system_dir, MachineModel::Nc3000, true);
    assert_eq!(files.nand0, Some(path(&["system", "WQXEmu", "nc3000", "nc3000.nand0"])));
    let nc2000 = firmware_files_for_model(&system_dir, MachineModel::Nc2000, false);
    assert_eq!(nc2000.nand0, Some(path(&["system", "WQXEmu", "nc2000", "nc2000.nand0"])));
}

#[test]
fn missing_firmware_lists_absent_files_in_slot_order() {
    let system_dir = path(&["system"]);
    let files = firmware_files_for_model(&system_dir, MachineModel::Nc2000, false);
    let missing = missing_required_firmware(&files, &[true, false, true, false]);
    assert_eq!(
        missing,
        vec![
            path(&["system", "WQXEmu", "nc2000", "nc2000.nor"]),
            path(&["system", "WQXEmu", "nc2000", "nc2000.nand0"]),
        ]
    );
    assert!(missing_required_firmware(&files, &[false, true, true, true]).is_empty());
}

#[test]
fn parses_all_machine_model_option_values() {
    for model in [
        MachineModel::Nc1020,
        MachineModel::Pc1000,
        MachineModel::Cc800,
        MachineModel::Nc2000,
        MachineModel::Nc3000,
    ] {
        assert_eq!(model_from_option(&model.name().to_ascii_uppercase()), Some(model));
    }
    assert_eq!(model_from_option("Auto"), None);
}

#[test]
fn model_names_are_lower_case_and_parse_in_any_case() {
    assert_eq!(MachineModel::Nc1020.name(), "nc1020");
    assert_eq!(MachineModel::Cc800.name(), "cc800");
    assert_eq!(MachineModel::from_name("nC3000"), Some(MachineModel::Nc3000));
    assert_eq!(MachineModel::from_name("nc300"), None);
    assert_eq!(MachineModel::from_name(""), None);
}

#[test]
fn persistent_state_paths_are_isolated_by_model_and_firmware() {
    let save_dir = path(&["saves"]);
    assert_eq!(
        persistent_state_path(&save_dir, MachineModel::Nc2000, 0x1234),
        save_dir.join("nc2000").join("0000000000001234.wqxs")
    );
    assert_ne!(
        persistent_state_path(&save_dir, MachineModel::Nc2000, 0x1234),
        persistent_state_path(&save_dir, MachineModel::Nc3000, 0x1234)
    );
    assert_ne!(
        persistent_state_path(&save_dir, MachineModel::Nc2000, 0x1234),
        persistent_state_path(&save_dir, MachineModel::Nc2000, 0x5678)
    );
}

#[test]
fn persistent_state_names_use_sixteen_lower_case_hex_digits() {
    let save_dir = path(&["saves"]);
    assert_eq!(
        persistent_state_path(&save_dir, MachineModel::Pc1000, u64::MAX),
        path(&["saves", "pc1000", "ffffffffffffffff.wqxs"])
    );
    assert_eq!(
        persistent_state_path(&save_dir, MachineModel::Nc1020, 0xdead_beef_0123_4a5c),
        path(&["saves", "nc1020", "deadbeef01234a5c.wqxs"])
    );
}

#[test]
fn maps_navigation_to_each_models_matrix() {
    let expectations = [
        (MachineModel::Nc1020, 0x1a),
        (MachineModel::Pc1000, 0x32),
        (MachineModel::Cc800, 0x32),
        (MachineModel::Nc2000, 0x13),
        (MachineModel::Nc3000, 0x13),
    ];

    for (model, expected) in expectations {
        assert_eq!(map_keyboard_key(model, RETROK_UP), Some(expected));
        assert_eq!(map_joypad_button(model, RETRO_DEVICE_ID_JOYPAD_UP), Some(expected));
    }
}

#[test]
fn maps_keyboard_aliases_and_model_specific_power_keys() {
    assert_eq!(map_keyboard_key(MachineModel::Nc1020, RETROK_0 + 1), Some(0x34));
    assert_eq!(map_keyboard_key(MachineModel::Pc1000, RETROK_0 + 1), Some(0x1c));
    assert_eq!(map_keyboard_key(MachineModel::Nc2000, RETROK_DELETE), Some(0x00));
    assert_eq!(map_keyboard_key(MachineModel::Nc1020, RETROK_DELETE), Some(0x0f));
    assert_eq!(map_keyboard_key(MachineModel::Nc2000, RETROK_LEFTBRACKET), Some(0x07));
    assert_eq!(map_keyboard_key(MachineModel::Nc2000, RETROK_RIGHTBRACKET), Some(0x0f));
    assert_eq!(map_keyboard_key(MachineModel::Nc2000, RETROK_BACKSLASH), Some(0x17));
    assert_eq!(map_keyboard_key(MachineModel::Nc2000, RETROK_PERIOD), Some(0x2f));
}

#[test]
fn retro_codes_translate_letters_digits_and_function_keys() {
    assert_eq!(retro_host_key(97), Some(HostKey::Letter('A')));
    assert_eq!(retro_host_key(122), Some(HostKey::Letter('Z')));
    assert_eq!(retro_host_key(RETROK_0 + 9), Some(HostKey::Digit(9)));
    assert_eq!(retro_host_key(RETROK_F1), Some(HostKey::Function(1)));
    assert_eq!(retro_host_key(RETROK_F1 + 11), Some(HostKey::Function(12)));
    assert_eq!(retro_host_key(RETROK_F1 + 12), None);
    assert_eq!(retro_host_key(65), None);
    assert_eq!(retropad_host_key(RETRO_DEVICE_ID_JOYPAD_START), Some(HostKey::Function(10)));
    assert_eq!(retropad_host_key(RETRO_DEVICE_ID_JOYPAD_SELECT), Some(HostKey::Function(11)));
    assert_eq!(retropad_host_key(12), None);
}

#[test]
fn serialization_envelope_ignores_fixed_buffer_padding() {
    let payload = b"serialized state";
    let mut buffer = vec![0xaa; 128];

    assert!(write_serialized_state(MachineModel::Pc1000, payload, &mut buffer));
    assert_eq!(serialized_state_payload(MachineModel::Pc1000, &buffer), Some(payload.as_slice()));
    assert!(buffer[SERIALIZATION_HEADER_SIZE + payload.len()..].iter().all(|byte| *byte == 0));
}

#[test]
fn serialization_envelope_rejects_invalid_lengths() {
    let mut buffer = [0u8; 16];
    assert!(!write_serialized_state(MachineModel::Nc1020, &[0u8; 9], &mut buffer));
    assert_eq!(serialized_state_payload(MachineModel::Nc1020, &buffer), None);

    buffer[..4].copy_from_slice(SERIALIZATION_MAGIC);
    buffer[4] = SERIALIZATION_FORMAT_VERSION;
    buffer[5] = machine_model_tag(MachineModel::Nc1020);
    buffer[8..12].copy_from_slice(&u32::MAX.to_le_bytes());
    assert_eq!(serialized_state_payload(MachineModel::Nc1020, &buffer), None);
}

#[test]
fn serialization_envelope_round_trips_an_emulator_state() {
    // A stand-in for the emulator's serialized state: arbitrary bytes.
    let bytes: Vec<u8> = (0..4096u32).map(|i| (i * 7 % 251) as u8).collect();
    let mut buffer = vec![0u8; SERIALIZATION_BUFFER_SIZE];

    assert!(write_serialized_state(MachineModel::Nc1020, &bytes, &mut buffer));
    let restored = serialized_state_payload(MachineModel::Nc1020, &buffer).unwrap();

    assert_eq!(restored, bytes.as_slice());
}

#[test]
fn serialization_envelope_rejects_another_model() {
    let mut buffer = [0u8; 32];
    assert!(write_serialized_state(MachineModel::Nc2000, b"state", &mut buffer));

    assert_eq!(serialized_state_payload(MachineModel::Nc3000, &buffer), None);
}

#[test]
fn serialization_envelope_header_layout() {
    let mut buffer = [0xffu8; 20];
    assert!(write_serialized_state(MachineModel::Nc3000, &[1, 2, 3], &mut buffer));
    assert_eq!(&buffer[..12], &[0x57, 0x51, 0x58, 0x53, 1, 4, 0, 0, 3, 0, 0, 0]);
    assert_eq!(&buffer[12..15], &[1, 2, 3]);
    assert!(buffer[15..].iter().all(|byte| *byte == 0));

    // An exactly fitting payload is accepted; one byte more is refused and
    // leaves the buffer as it was.
    let mut exact = [0x11u8; 15];
    assert!(write_serialized_state(MachineModel::Nc3000, &[9, 9, 9], &mut exact));
    let mut short = [0x11u8; 14];
    assert!(!write_serialized_state(MachineModel::Nc3000, &[9, 9, 9], &mut short));
    assert_eq!(short, [0x11u8; 14]);

    // Too short to hold a header, or a wrong magic, format or model tag.
    assert_eq!(serialized_state_payload(MachineModel::Nc3000, &buffer[..11]), None);
    let mut wrong_version = buffer;
    wrong_version[4] = 2;
    assert_eq!(serialized_state_payload(MachineModel::Nc3000, &wrong_version), None);
    let mut wrong_magic = buffer;
    wrong_magic[0] = b'w';
    assert_eq!(serialized_state_payload(MachineModel::Nc3000, &wrong_magic), None);
}
