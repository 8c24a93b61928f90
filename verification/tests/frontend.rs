use wqxemu::firmware::{validate_firmware_files, validate_state_file_path, FilePath, FirmwareError, FirmwareSlot, RomFiles, StateFileError};
use wqxemu::frontend_keys::{map_minifb_key, minifb_host_key, MINIFB_KEY_A, MINIFB_KEY_F1, MINIFB_KEY_SPACE};
use wqxemu::keyboard::HostKey;
use wqxemu::machine::MachineModel;

fn file(name: &str) -> Option<FilePath> {
    Some(FilePath::new(vec![name.to_string()]))
}

#[test]
fn firmware_files_are_validated_for_the_selected_model() {
    let rom_and_nor = RomFiles::new(file("system.bin"), file("flash.nor"), None, None);
    assert!(validate_firmware_files(MachineModel::Nc1020, &rom_and_nor).is_ok());
    assert!(validate_firmware_files(MachineModel::Pc1000, &rom_and_nor).is_ok());
    assert!(validate_firmware_files(MachineModel::Cc800, &rom_and_nor).is_ok());

    let nc2000 = RomFiles::new(None, file("flash.nor"), file("flash.nand"), file("flash.nand0"));
    assert!(validate_firmware_files(MachineModel::Nc2000, &nc2000).is_ok());
    assert!(validate_firmware_files(MachineModel::Nc3000, &nc2000).is_ok());

    let missing_nand0 = RomFiles::new(None, file("flash.nor"), file("flash.nand"), None);
    assert!(validate_firmware_files(MachineModel::Nc2000, &missing_nand0).is_err());
    assert!(validate_firmware_files(MachineModel::Nc3000, &missing_nand0).is_ok());

    let unexpected_rom = RomFiles::new(file("system.bin"), file("flash.nor"), file("flash.nand"), None);
    assert!(validate_firmware_files(MachineModel::Nc3000, &unexpected_rom).is_err());
}

#[test]
fn firmware_errors_name_the_first_offending_option() {
    let empty = RomFiles::default();
    let error = validate_firmware_files(MachineModel::Nc1020, &empty).unwrap_err();
    assert_eq!(error, FirmwareError::Missing(MachineModel::Nc1020, FirmwareSlot::Rom));
    assert_eq!(error.message(), "nc1020 requires --rom <PATH>");

    let missing_nand0 = RomFiles::new(None, file("flash.nor"), file("flash.nand"), None);
    let error = validate_firmware_files(MachineModel::Nc2000, &missing_nand0).unwrap_err();
    assert_eq!(error, FirmwareError::Missing(MachineModel::Nc2000, FirmwareSlot::Nand0));
    assert_eq!(error.message(), "nc2000 requires --nand0 <PATH>");

    let everything = RomFiles::new(file("a"), file("b"), file("c"), file("d"));
    let error = validate_firmware_files(MachineModel::Nc3000, &everything).unwrap_err();
    assert_eq!(error, FirmwareError::Unused(MachineModel::Nc3000, FirmwareSlot::Rom));
    assert_eq!(error.message(), "nc3000 does not use --rom");
    let error = validate_firmware_files(MachineModel::Cc800, &everything).unwrap_err();
    assert_eq!(error, FirmwareError::Unused(MachineModel::Cc800, FirmwareSlot::Nand));
    assert_eq!(error.message(), "cc800 does not use --nand");
}

#[test]
fn persistent_state_file_must_not_alias_a_source_dump() {
    let files = RomFiles::new(None, file("device.nor"), None, None);
    let state = FilePath::new(vec!["device.wqxs".to_string()]);
    assert!(validate_state_file_path(Some(&state), &files).is_ok());
    let aliased = FilePath::new(vec!["device.nor".to_string()]);
    assert!(validate_state_file_path(Some(&aliased), &files).is_err());
}

#[test]
fn state_file_check_reports_the_aliased_slot() {
    let files = RomFiles::new(file("system.bin"), file("flash.nor"), None, None);
    let rom = FilePath::new(vec!["system.bin".to_string()]);
    assert_eq!(
        validate_state_file_path(Some(&rom), &files),
        Err(StateFileError::AliasesSource(FirmwareSlot::Rom))
    );
    assert_eq!(validate_state_file_path(None, &files), Ok(()));
    let nested = FilePath::new(vec!["dir".to_string(), "system.bin".to_string()]);
    assert_eq!(validate_state_file_path(Some(&nested), &files), Ok(()));
}

#[test]
fn nc1020_pc_keyboard_uses_reference_matrix_ids() {
    assert_eq!(map_minifb_key(MachineModel::Nc1020, MINIFB_KEY_F1 + 4), Some(0x0B));
    assert_eq!(map_minifb_key(MachineModel::Nc1020, MINIFB_KEY_F1 + 8), Some(0x09));
    assert_eq!(map_minifb_key(MachineModel::Nc1020, MINIFB_KEY_A + 16), Some(0x20));
    assert_eq!(map_minifb_key(MachineModel::Nc1020, MINIFB_KEY_A), Some(0x28));
    assert_eq!(map_minifb_key(MachineModel::Nc1020, MINIFB_KEY_SPACE), Some(0x3E));
    assert_eq!(map_minifb_key(MachineModel::Nc1020, 1), Some(0x34));
}

#[test]
fn minifb_keys_translate_to_host_keys() {
    assert_eq!(minifb_host_key(0), Some(HostKey::Digit(0)));
    assert_eq!(minifb_host_key(MINIFB_KEY_A + 25), Some(HostKey::Letter('Z')));
    assert_eq!(minifb_host_key(MINIFB_KEY_F1 + 11), Some(HostKey::Function(12)));
    assert_eq!(minifb_host_key(MINIFB_KEY_F1 + 12), None);
    assert_eq!(minifb_host_key(62), Some(HostKey::Period));
    assert_eq!(minifb_host_key(82), None);
}
