use wqxemu::firmware::{firmware_files_for_model, missing_required_firmware, validate_firmware_files, FilePath};
use wqxemu::frontend_keys::{
    minifb_host_key, retro_host_key, MINIFB_KEY_0, MINIFB_KEY_A, MINIFB_KEY_COMMA, MINIFB_KEY_ENTER, MINIFB_KEY_F1,
    RETROK_0, RETROK_A, RETROK_COMMA, RETROK_F1, RETROK_RETURN,
};
use wqxemu::input::FrontendInputState;
use wqxemu::frontend_keys::{
    map_minifb_key, MINIFB_KEY_BACKSLASH, MINIFB_KEY_EQUAL, MINIFB_KEY_LEFT_BRACKET, MINIFB_KEY_PERIOD,
    MINIFB_KEY_RIGHT_BRACKET, MINIFB_KEY_SPACE,
};
use wqxemu::keyboard::{key_id_for, key_id_for_host_key, layout_for, HostKey};
use wqxemu::machine::MachineModel;

const MODELS: [MachineModel; 5] =
    [MachineModel::Nc1020, MachineModel::Pc1000, MachineModel::Cc800, MachineModel::Nc2000, MachineModel::Nc3000];

#[test]
fn letters_select_the_same_key_in_either_case() {
    for model in MODELS {
        for (lower, upper) in ('a'..='z').zip('A'..='Z') {
            assert_eq!(
                key_id_for_host_key(model, HostKey::Letter(lower)),
                key_id_for_host_key(model, HostKey::Letter(upper)),
                "{lower} on {}",
                model.name()
            );
        }
    }
}

#[test]
fn canonical_firmware_sets_suit_their_model() {
    let system_dir = FilePath::new(vec!["system".to_string()]);
    for model in MODELS {
        for nand0_present in [false, true] {
            let files = firmware_files_for_model(&system_dir, model, nand0_present);
            assert!(validate_firmware_files(model, &files).is_ok(), "{}", model.name());
        }
    }
}

#[test]
fn present_firmware_is_never_missing() {
    let system_dir = FilePath::new(vec!["system".to_string()]);
    for model in MODELS {
        let files = firmware_files_for_model(&system_dir, model, true);
        assert!(missing_required_firmware(&files, &[true; 4]).is_empty());
        let required = [&files.rom, &files.nor, &files.nand, &files.nand0].iter().filter(|slot| slot.is_some()).count();
        assert_eq!(missing_required_firmware(&files, &[false; 4]).len(), required);
    }
}

#[test]
fn both_frontends_read_the_same_keyboard() {
    for i in 0..26u8 {
        let retro = retro_host_key(RETROK_A + i as u32);
        assert!(retro.is_some());
        assert_eq!(retro, minifb_host_key(MINIFB_KEY_A + i));
    }
    for d in 0..10u8 {
        assert_eq!(retro_host_key(RETROK_0 + d as u32), minifb_host_key(MINIFB_KEY_0 + d));
    }
    for n in 0..12u8 {
        assert_eq!(retro_host_key(RETROK_F1 + n as u32), minifb_host_key(MINIFB_KEY_F1 + n));
    }
    assert_eq!(retro_host_key(RETROK_RETURN), minifb_host_key(MINIFB_KEY_ENTER));
    assert_eq!(retro_host_key(RETROK_COMMA), minifb_host_key(MINIFB_KEY_COMMA));
    assert_eq!(retro_host_key(RETROK_A), Some(HostKey::Letter('A')));
}

#[test]
fn after_release_all_the_next_sync_presses_the_held_keys() {
    let mut input = FrontendInputState::default();
    input.set_keyboard_key(HostKey::Up, true);
    input.set_controller_key(HostKey::Down, true);
    assert_eq!(input.sync(MachineModel::Nc2000).len(), 2);
    let releases = input.release_all();
    assert_eq!(releases.len(), 64);
    assert!(releases.iter().all(|(_, down)| !down));
    let events = input.sync(MachineModel::Nc2000);
    assert_eq!(events.len(), 2);
    assert!(events.iter().all(|(_, down)| *down));
    assert!(events.contains(&(0x13, true)));
}

#[test]
fn window_punctuation_operates_the_documented_keys() {
    for model in MODELS {
        let layout = layout_for(model);
        let id_of = |label: &str| {
            let key = layout.iter().find(|key| key.label.split('/').next() == Some(label)).unwrap();
            key_id_for(model, key.row, key.col)
        };
        assert_eq!(map_minifb_key(model, MINIFB_KEY_EQUAL), map_minifb_key(model, MINIFB_KEY_SPACE));
        assert_eq!(map_minifb_key(model, MINIFB_KEY_LEFT_BRACKET), Some(id_of("HELP")));
        assert_eq!(map_minifb_key(model, MINIFB_KEY_RIGHT_BRACKET), Some(id_of("SHIFT")));
        assert_eq!(map_minifb_key(model, MINIFB_KEY_BACKSLASH), Some(id_of("IME")));
        assert!(map_minifb_key(model, MINIFB_KEY_PERIOD).is_some());
        for c in 'A'..='Z' {
            assert_eq!(key_id_for_host_key(model, HostKey::Letter(c)), Some(id_of(&c.to_string())));
        }
        assert_eq!(key_id_for_host_key(model, HostKey::Digit(0)), Some(id_of("0")));
        assert_eq!(
            key_id_for_host_key(model, HostKey::Backspace),
            key_id_for_host_key(model, HostKey::Function(2))
        );
    }
}

#[test]
fn layouts_have_their_documented_shape() {
    for model in MODELS {
        let layout = layout_for(model);
        assert_eq!(layout.len(), if model == MachineModel::Nc3000 { 51 } else { 52 });
        let mut ids = std::collections::HashSet::new();
        let mut places = std::collections::HashSet::new();
        for key in &layout {
            assert!(key.drow < 6 && key.dcol < 10 && key.row < 8 && key.col < 8);
            assert!(ids.insert(key_id_for(model, key.row, key.col)));
            assert!(places.insert((key.drow, key.dcol)));
        }
    }
    let pc1000 = layout_for(MachineModel::Pc1000);
    let cc800 = layout_for(MachineModel::Cc800);
    assert!(pc1000.iter().zip(cc800.iter()).all(|(a, b)| a.label == b.label && a.row == b.row && a.col == b.col));
}
