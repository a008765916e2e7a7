use gauntlet::asset::AssetTable;
use gauntlet::locale::Locale;
use gauntlet::meta::{field_kind, FieldKind};
use gauntlet::physical::triangle_list;
use gauntlet::r3d::{BloomMode, FogMode, LightType, ShadowUpdateMode};
use gauntlet::tutorial::TutorialKind;
use gauntlet::user::LocaleKind;
use gauntlet::weapon::{WeaponAmmo, AMMO_DEFAULT};

#[test]
fn light_codes_round_trip() {
    for light in [LightType::Directional, LightType::Spot, LightType::Omnidirectional] {
        assert_eq!(LightType::from_code(light.code()), light);
    }
    assert_eq!(LightType::Spot.code(), 1);
    assert_eq!(LightType::from_code(9), LightType::Omnidirectional);
    for mode in [ShadowUpdateMode::Manual, ShadowUpdateMode::Interval, ShadowUpdateMode::Continuous] {
        assert_eq!(ShadowUpdateMode::from_code(mode.code()), mode);
    }
    assert_eq!(ShadowUpdateMode::from_code(2), ShadowUpdateMode::Continuous);
    assert_eq!(LightType::default(), LightType::Directional);
    assert_eq!(ShadowUpdateMode::default(), ShadowUpdateMode::Manual);
}

#[test]
fn effect_mode_codes() {
    assert_eq!(BloomMode::Disabled.code(), 0);
    assert_eq!(BloomMode::Screen.code(), 3);
    assert_eq!(FogMode::Exponential2.code(), 2);
    assert_eq!(FogMode::Exponential.code(), 3);
    assert_eq!(BloomMode::default(), BloomMode::Disabled);
    assert_eq!(FogMode::default(), FogMode::Disabled);
}

#[test]
fn weapon_spends_shots() {
    let mut weapon = WeaponAmmo::ammo_default();
    assert_eq!(weapon.ammo, 8);
    assert_eq!(AMMO_DEFAULT, 8);
    assert!(weapon.fire(true, true));
    assert_eq!(weapon.ammo, 7);
    assert!(!weapon.fire(false, true));
    assert!(!weapon.fire(true, false));
    assert_eq!(weapon.ammo, 7);
    let mut empty = WeaponAmmo { ammo: 0 };
    assert!(!empty.fire(true, true));
    assert_eq!(empty.ammo, 0);
    assert_eq!(weapon.thrown().ammo, 7);
}

#[test]
fn tutorial_texts() {
    assert_eq!(TutorialKind::default(), TutorialKind::Move);
    assert_eq!(TutorialKind::Move.text(), "foo");
    assert_eq!(TutorialKind::Jump.text(), "bar");
    assert_eq!(TutorialKind::Duck.text(), "baz");
}

#[test]
fn mesh_indices_to_triangles() {
    let list = triangle_list(&vec![0, 1, 2, 2, 3, 65535, 7]);
    assert_eq!(list, vec![[0, 1, 2], [2, 3, 65535]]);
    assert!(triangle_list(&vec![4, 5]).is_empty());
}

#[test]
fn field_kinds_by_type_name() {
    assert_eq!(field_kind("Object"), FieldKind::Object);
    assert_eq!(field_kind("bool"), FieldKind::Boolean);
    assert_eq!(field_kind("i64"), FieldKind::Integer);
    assert_eq!(field_kind("f32"), FieldKind::Decimal);
    assert_eq!(field_kind("String"), FieldKind::Text);
    assert_eq!(field_kind("Color"), FieldKind::Color);
    assert_eq!(field_kind("TutorialKind"), FieldKind::Enumerator);
    assert_eq!(field_kind("u32"), FieldKind::Enumerator);
}

#[test]
fn locale_words() {
    let english = Locale::new(LocaleKind::English);
    assert_eq!(english.begin, "begin");
    assert_eq!(english.locale_kind, "language");
    let spanish = Locale::new(LocaleKind::Spanish);
    assert_eq!(spanish.setup, "configuración");
    assert_eq!(spanish.cancel, "cancelar");
    let blank = Locale::default();
    assert_eq!(blank.close, "");
}

#[test]
fn assets_load_once() {
    let mut table: AssetTable<u32> = AssetTable::new();
    assert!(!table.has("data/video/weapon.glb"));
    let mut loads = 0;
    let done: Result<(), String> = table.set("data/video/weapon.glb", || {
        loads += 1;
        Ok(5)
    });
    assert!(done.is_ok());
    let again: Result<(), String> = table.set("data/video/weapon.glb", || {
        loads += 1;
        Ok(6)
    });
    assert!(again.is_ok());
    assert_eq!(loads, 1);
    assert_eq!(table.get("data/video/weapon.glb").ok(), Some(&5));
    *table.get_mutable("data/video/weapon.glb").ok().unwrap() = 9;
    assert_eq!(table.get("data/video/weapon.glb").ok(), Some(&9));
    match table.get("data/video/test.glb") {
        Err(missing) => assert_eq!(missing.name, "data/video/test.glb"),
        Ok(_) => panic!("no asset was loaded under that name"),
    }
}

#[test]
fn failed_load_keeps_nothing() {
    let mut table: AssetTable<u32> = AssetTable::new();
    let failed: Result<(), String> = table.set("data/audio/back.ogg", || Err(String::from("no file")));
    assert_eq!(failed, Err(String::from("no file")));
    assert!(!table.has("data/audio/back.ogg"));
}
