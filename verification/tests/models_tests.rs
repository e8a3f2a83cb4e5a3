use print_queue::models::{
    create_preset, delete_preset, update_preset, uuid_to_text, AppConfig, PostFileAction, Preset,
    Timestamp, ONE_F64_BITS,
};

const ID: u128 = 0x67e5_5044_10b1_426f_9247_bb68_0e5f_e0c8;

#[test]
fn default_config() {
    let c = AppConfig::default();
    assert!(c.watch_folder.is_none());
    assert!(c.minimize_to_tray);
    assert!(c.default_preset_id.is_none());
    assert_eq!(c.post_print_action, PostFileAction::MoveToSubfolder);
    assert_eq!(c.post_zip_action, PostFileAction::Delete);
}

#[test]
fn new_preset_defaults() {
    let p = Preset::new("4x6 Magnets".to_string(), "4x6".to_string());
    assert_eq!(p.name, "4x6 Magnets");
    assert_eq!(p.paper_size_keyword, "4x6");
    assert!(p.printer_id.is_none());
    assert!(p.settings.is_empty());
    assert_eq!(p.copies, 1);
    assert!(p.auto_print);
    assert_eq!(f64::from_bits(p.scale_compensation_bits), 1.0);
    assert_eq!(ONE_F64_BITS, 1.0f64.to_bits());
    assert_eq!(p.created_at, p.updated_at);
    assert_eq!((p.id >> 76) & 0xf, 4);
}

#[test]
fn uuid_text_is_hyphenated_lower_hex() {
    let t: String = uuid_to_text(ID).into_iter().collect();
    assert_eq!(t, "67e55044-10b1-426f-9247-bb680e5fe0c8");
    let z: String = uuid_to_text(0).into_iter().collect();
    assert_eq!(z, "00000000-0000-0000-0000-000000000000");
}

#[test]
fn create_update_delete() {
    let mut presets = Vec::new();
    let p = create_preset(&mut presets, "A".to_string(), "4x6".to_string());
    assert_eq!(presets.len(), 1);
    assert_eq!(presets[0].id, p.id);
    let mut changed = p.duplicate();
    changed.copies = 3;
    changed.name = "B".to_string();
    let r = update_preset(&mut presets, changed).unwrap();
    assert_eq!(r.copies, 3);
    assert_eq!(presets[0].name, "B");
    assert_eq!(presets[0].copies, 3);
    assert_eq!(delete_preset(&mut presets, p.id), Ok(()));
    assert!(presets.is_empty());
}

#[test]
fn unknown_preset_id_is_reported() {
    let mut presets = Vec::new();
    create_preset(&mut presets, "A".to_string(), "4x6".to_string());
    let mut stranger = Preset::new("X".to_string(), "5x7".to_string());
    stranger.id = ID;
    assert_eq!(
        update_preset(&mut presets, stranger).err(),
        Some("Preset 67e55044-10b1-426f-9247-bb680e5fe0c8 not found".to_string())
    );
    assert_eq!(
        delete_preset(&mut presets, ID),
        Err("Preset 67e55044-10b1-426f-9247-bb680e5fe0c8 not found".to_string())
    );
    assert_eq!(presets.len(), 1);
    assert_eq!(presets[0].name, "A");
}

#[test]
fn law_create_then_delete_restores_list() {
    let mut presets = Vec::new();
    let a = create_preset(&mut presets, "A".to_string(), "4x6".to_string());
    let b = create_preset(&mut presets, "B".to_string(), "5x7".to_string());
    assert_eq!(delete_preset(&mut presets, b.id), Ok(()));
    assert_eq!(presets.len(), 1);
    assert_eq!(presets[0].id, a.id);
    assert_eq!(presets[0].name, "A");
}

#[test]
fn law_update_and_delete_touch_only_first_match() {
    let mut presets = Vec::new();
    let a = create_preset(&mut presets, "A".to_string(), "4x6".to_string());
    let b = create_preset(&mut presets, "B".to_string(), "5x7".to_string());
    let c = create_preset(&mut presets, "C".to_string(), "a4".to_string());
    let mut nb = b.duplicate();
    nb.auto_print = false;
    update_preset(&mut presets, nb).unwrap();
    assert!(presets[0].auto_print && !presets[1].auto_print && presets[2].auto_print);
    delete_preset(&mut presets, b.id).unwrap();
    assert_eq!(presets.iter().map(|p| p.id).collect::<Vec<_>>(), vec![a.id, c.id]);
}

#[test]
fn preset_with_given_id_and_time() {
    let at = Timestamp { seconds: 5, nanos: 6 };
    let p = Preset::new_at(ID, at, "N".to_string(), "a4".to_string());
    assert_eq!(p.id, ID);
    assert_eq!(p.created_at, at);
    assert_eq!(p.updated_at, at);
    assert_eq!(p.copies, 1);
    assert!(p.settings.is_empty());
}
