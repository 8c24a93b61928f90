use wqxemu::input::FrontendInputState;
use wqxemu::keyboard::{key_has_alias, key_id_for, key_id_for_host_key, layout_for, nc1020_key, HostKey};
use wqxemu::machine::MachineModel;

const MODELS: [MachineModel; 5] = [
    MachineModel::Nc1020,
    MachineModel::Pc1000,
    MachineModel::Cc800,
    MachineModel::Nc2000,
    MachineModel::Nc3000,
];

#[test]
fn nc1020_layout_uses_reference_matrix_ids() {
    let layout = layout_for(MachineModel::Nc1020);
    let expected = [
        ("DICT", 0x0B),
        ("CARD", 0x0C),
        ("CALC", 0x0D),
        ("MEMO", 0x0A),
        ("DATA", 0x09),
        ("TIME", 0x08),
        ("NET", 0x0E),
        ("Q", 0x20),
        ("A", 0x28),
        ("Z", 0x30),
        ("SPC", 0x3E),
    ];

    for (label, key_id) in expected {
        let key = layout.iter().find(|key| key.label == label).unwrap();
        assert_eq!(key_id_for(MachineModel::Nc1020, key.row, key.col), key_id);
    }
    assert_eq!(layout.len(), 52);
}

#[test]
fn shared_host_keys_follow_each_models_layout() {
    let expectations = [
        (MachineModel::Nc1020, 0x1a),
        (MachineModel::Pc1000, 0x32),
        (MachineModel::Cc800, 0x32),
        (MachineModel::Nc2000, 0x13),
        (MachineModel::Nc3000, 0x13),
    ];

    for (model, expected) in expectations {
        assert_eq!(key_id_for_host_key(model, HostKey::Up), Some(expected));
    }
}

#[test]
fn shared_host_keys_support_aliases_and_power_keys() {
    assert_eq!(
        key_id_for_host_key(MachineModel::Nc2000, HostKey::Letter('b')),
        key_id_for_host_key(MachineModel::Nc2000, HostKey::Digit(1))
    );
    for model in MODELS {
        assert_eq!(
            key_id_for_host_key(model, HostKey::Function(12)),
            key_id_for_host_key(model, HostKey::Delete)
        );
    }
}

#[test]
fn frontend_input_keeps_same_source_aliases_pressed() {
    let mut input = FrontendInputState::default();
    let mut events = Vec::new();

    input.set_keyboard_key(HostKey::Letter('B'), true);
    events.extend(input.sync(MachineModel::Nc2000));
    input.set_keyboard_key(HostKey::Digit(1), true);
    events.extend(input.sync(MachineModel::Nc2000));
    input.set_keyboard_key(HostKey::Letter('B'), false);
    events.extend(input.sync(MachineModel::Nc2000));

    assert_eq!(events, vec![(0x26, true)]);

    input.set_keyboard_key(HostKey::Digit(1), false);
    events.extend(input.sync(MachineModel::Nc2000));
    assert_eq!(events, vec![(0x26, true), (0x26, false)]);
}

#[test]
fn frontend_input_merges_keyboard_controller_and_pointer() {
    let mut input = FrontendInputState::default();
    let mut events = Vec::new();

    input.set_keyboard_key(HostKey::Up, true);
    input.set_controller_key(HostKey::Up, true);
    events.extend(input.sync(MachineModel::Nc2000));
    input.set_keyboard_key(HostKey::Up, false);
    events.extend(input.sync(MachineModel::Nc2000));
    input.set_pointer_key(Some(0x13));
    input.set_controller_key(HostKey::Up, false);
    events.extend(input.sync(MachineModel::Nc2000));

    assert_eq!(events, vec![(0x13, true)]);

    input.set_pointer_key(None);
    events.extend(input.sync(MachineModel::Nc2000));
    assert_eq!(events, vec![(0x13, true), (0x13, false)]);
}

#[test]
fn every_layout_stays_inside_the_matrix_with_unique_positions() {
    for model in MODELS {
        let layout = layout_for(model);
        let mut ids: Vec<u8> = layout.iter().map(|key| key_id_for(model, key.row, key.col)).collect();
        assert!(ids.iter().all(|id| *id < 64));
        ids.sort();
        ids.dedup();
        assert_eq!(ids.len(), layout.len());
    }
    assert_eq!(layout_for(MachineModel::Nc3000).len(), 51);
    assert_eq!(layout_for(MachineModel::Pc1000).len(), 52);
}

#[test]
fn key_id_encoding_follows_the_model_family() {
    assert_eq!(key_id_for(MachineModel::Nc1020, 3, 1), 0x0B);
    assert_eq!(key_id_for(MachineModel::Nc2000, 3, 1), 0x19);
    assert_eq!(key_id_for(MachineModel::Pc1000, 7, 7), 63);
    let key = nc1020_key(0, 0, 0x0B, "DICT", "F5");
    assert_eq!((key.row, key.col), (3, 1));
    assert_eq!(key_id_for(MachineModel::Nc1020, key.row, key.col), 0x0B);
}

#[test]
fn legends_split_on_slashes() {
    let key = nc1020_key(2, 4, 0x24, "T/7", "T");
    assert!(key_has_alias(&key, "T"));
    assert!(key_has_alias(&key, "7"));
    assert!(!key_has_alias(&key, "T/7"));
    assert!(!key_has_alias(&key, "8"));
    let unmapped = nc1020_key(5, 0, 0x38, "HELP", "");
    assert!(key_has_alias(&unmapped, ""));
    assert!(!key_has_alias(&unmapped, "HEL"));
}

#[test]
fn documented_pc_key_aliases_share_a_device_key() {
    let pairs = [
        (HostKey::Letter('B'), HostKey::Digit(1)),
        (HostKey::Letter('N'), HostKey::Digit(2)),
        (HostKey::Letter('M'), HostKey::Digit(3)),
        (HostKey::Letter('G'), HostKey::Digit(4)),
        (HostKey::Letter('H'), HostKey::Digit(5)),
        (HostKey::Letter('J'), HostKey::Digit(6)),
        (HostKey::Letter('T'), HostKey::Digit(7)),
        (HostKey::Letter('Y'), HostKey::Digit(8)),
        (HostKey::Letter('U'), HostKey::Digit(9)),
        (HostKey::Space, HostKey::Equals),
        (HostKey::Backspace, HostKey::Function(2)),
        (HostKey::PageUp, HostKey::Comma),
        (HostKey::PageDown, HostKey::Slash),
        (HostKey::Delete, HostKey::Function(12)),
    ];
    for model in MODELS {
        for (first, second) in pairs {
            let id = key_id_for_host_key(model, first);
            assert!(id.is_some());
            assert_eq!(id, key_id_for_host_key(model, second));
        }
    }
}

#[test]
fn unmapped_host_keys_resolve_to_nothing() {
    for model in MODELS {
        assert_eq!(key_id_for_host_key(model, HostKey::Digit(10)), None);
        assert_eq!(key_id_for_host_key(model, HostKey::Function(0)), None);
        assert_eq!(key_id_for_host_key(model, HostKey::Function(13)), None);
        assert_eq!(key_id_for_host_key(model, HostKey::Letter('1')), None);
    }
    assert_eq!(key_id_for_host_key(MachineModel::Nc3000, HostKey::Function(8)), None);
    assert_eq!(key_id_for_host_key(MachineModel::Nc2000, HostKey::Function(8)), Some(0x11));
}

#[test]
fn release_all_and_clear_forget_the_applied_matrix() {
    let mut input = FrontendInputState::default();
    input.set_keyboard_key(HostKey::Return, true);
    let events = input.sync(MachineModel::Nc2000);
    assert_eq!(events, vec![(0x2b, true)]);
    assert!(input.pressed()[0x2b]);

    let released = input.release_all();
    assert_eq!(released.len(), 64);
    assert!(released.iter().enumerate().all(|(id, event)| *event == (id as u8, false)));
    assert!(input.pressed().iter().all(|pressed| !pressed));

    // The key is still held, so the next sync presses it again.
    assert_eq!(input.sync(MachineModel::Nc2000), vec![(0x2b, true)]);
    assert_eq!(input.sync(MachineModel::Nc2000), vec![]);

    input.clear();
    assert!(input.pressed().iter().all(|pressed| !pressed));
    assert_eq!(input.sync(MachineModel::Nc2000), vec![]);
}

#[test]
fn pointer_ignores_ids_outside_the_matrix() {
    let mut input = FrontendInputState::default();
    input.set_pointer_key(Some(64));
    assert_eq!(input.sync(MachineModel::Nc1020), vec![]);
    input.set_pointer_key(Some(63));
    assert_eq!(input.sync(MachineModel::Nc1020), vec![(63, true)]);
    input.reset_applied();
    assert_eq!(input.sync(MachineModel::Nc1020), vec![(63, true)]);
}
