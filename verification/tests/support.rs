use preset_patcher::error::{err, report, PatchError};
use preset_patcher::flags::{bool2int, Upgrade, UpgradeFlags};
use preset_patcher::model::{Asset, Export, MapEntry, Property, Row, Scalar};
use preset_patcher::options::Options;
use preset_patcher::ready::{
    asset_ready, entries_patchable, entry_patchable, property_known, property_patchable,
    row_ready, try_patch,
};
use preset_patcher::rules::PRESET_EXPORT;
use preset_patcher::schema::{
    field_for_name, is_upgrades_name, same_text, upgrade_for_key, StringField, AUTHOR_NAME,
    LEVEL_NAME, START_TAG_NAME, TITLE_NAME, UPGRADES_NAME,
};

fn name_int(key: &str, value: i32) -> MapEntry {
    MapEntry { key: Scalar::Name(key.to_string()), value: Scalar::Int(value) }
}

fn map_named(name: &str, entries: Vec<MapEntry>) -> Property {
    Property::Mapping { name: name.to_string(), entries }
}

fn string_named(name: &str) -> Property {
    Property::Str { name: name.to_string(), value: None }
}

fn table(properties: Vec<Property>) -> Asset {
    Asset { exports: vec![Export::DataTable { rows: vec![Row { properties }] }] }
}

fn plain_options() -> Options {
    Options {
        title: "Hub".to_string(),
        author: "A".to_string(),
        level: "L1".to_string(),
        start_tag: "start".to_string(),
        upgrade_flags: UpgradeFlags::none(),
    }
}

#[test]
fn bool2int_is_one_or_zero() {
    assert_eq!(bool2int(true), 1);
    assert_eq!(bool2int(false), 0);
}

#[test]
fn err_carries_the_message() {
    assert_eq!(err("Export is not a DataTableExport"), Err("Export is not a DataTableExport".to_string()));
    assert_eq!(err(""), Err(String::new()));
}

#[test]
fn messages_name_what_went_wrong() {
    assert_eq!(PatchError::WrongExportKind.message(), "Export is not a DataTableExport");
    assert_eq!(
        PatchError::UnexpectedPropertyShape.message(),
        "Map entry is not a NameProperty key with an IntProperty value"
    );
    assert_eq!(
        PatchError::UnrecognizedUpgradeKey("unknownFlag".to_string()).message(),
        "Unrecognized key name: unknownFlag"
    );
    assert_eq!(
        PatchError::UnrecognizedStringField("Subtitle_3_00".to_string()).message(),
        "Unrecognized field name for StrProperty: Subtitle_3_00"
    );
    assert_eq!(PatchError::UnexpectedExportShape.message(), "Unrecognized export type");
}

#[test]
fn report_passes_success_and_describes_failure() {
    assert_eq!(report(Ok(())), Ok(()));
    assert_eq!(
        report(Err(PatchError::UnrecognizedUpgradeKey("x y".to_string()))),
        Err("Unrecognized key name: x y".to_string())
    );
    assert_eq!(report(Err(PatchError::WrongExportKind)), Err("Export is not a DataTableExport".to_string()));
}

#[test]
fn upgrade_flags_get_reads_each_field() {
    let all = [
        Upgrade::DreamBreaker,
        Upgrade::Slide,
        Upgrade::SolarWind,
        Upgrade::AscendantLight,
        Upgrade::SunGreaves,
        Upgrade::SoulCutter,
        Upgrade::Sunsetter,
        Upgrade::Indignation,
        Upgrade::HeliacalPower,
        Upgrade::Strikebreak,
        Upgrade::ClingGem,
    ];
    let none = UpgradeFlags::none();
    for u in all {
        assert!(!none.get(u));
    }
    let mut f = UpgradeFlags::none();
    f.heliacal_power = true;
    for u in all {
        assert_eq!(f.get(u), u == Upgrade::HeliacalPower);
    }
    let mut f = UpgradeFlags::none();
    f.cling_gem = true;
    f.solar_wind = true;
    for u in all {
        assert_eq!(f.get(u), u == Upgrade::ClingGem || u == Upgrade::SolarWind);
    }
}

#[test]
fn key_table_has_eleven_keys() {
    assert_eq!(upgrade_for_key("attack"), Some(Upgrade::DreamBreaker));
    assert_eq!(upgrade_for_key("slide"), Some(Upgrade::Slide));
    assert_eq!(upgrade_for_key("SlideJump"), Some(Upgrade::SolarWind));
    assert_eq!(upgrade_for_key("Light"), Some(Upgrade::AscendantLight));
    assert_eq!(upgrade_for_key("airKick"), Some(Upgrade::SunGreaves));
    assert_eq!(upgrade_for_key("projectile"), Some(Upgrade::SoulCutter));
    assert_eq!(upgrade_for_key("plunge"), Some(Upgrade::Sunsetter));
    assert_eq!(upgrade_for_key("powerBoost"), Some(Upgrade::Indignation));
    assert_eq!(upgrade_for_key("extraKick"), Some(Upgrade::HeliacalPower));
    assert_eq!(upgrade_for_key("chargeAttack"), Some(Upgrade::Strikebreak));
    assert_eq!(upgrade_for_key("wallRide"), Some(Upgrade::ClingGem));
    assert_eq!(upgrade_for_key("unknownFlag"), None);
    assert_eq!(upgrade_for_key("slidejump"), None);
    assert_eq!(upgrade_for_key("light"), None);
    assert_eq!(upgrade_for_key("attack "), None);
    assert_eq!(upgrade_for_key(""), None);
}

#[test]
fn field_table_has_four_names() {
    assert_eq!(field_for_name("Title_18_8D403C334BBBCC29B73D3CACCDAF0A08"), Some(StringField::Title));
    assert_eq!(field_for_name("Author_6_5E436BFF41A27B8B13653A8CEC5D15A6"), Some(StringField::Author));
    assert_eq!(
        field_for_name("LevelName_2_392769FD4066EFFA0CC1F99E8D749886"),
        Some(StringField::LevelName)
    );
    assert_eq!(
        field_for_name("PlayerStartTag_5_7797C3C742DE3A0B8EEE189EDBEF3683"),
        Some(StringField::PlayerStartTag)
    );
    assert_eq!(field_for_name(TITLE_NAME), Some(StringField::Title));
    assert_eq!(field_for_name(AUTHOR_NAME), Some(StringField::Author));
    assert_eq!(field_for_name(LEVEL_NAME), Some(StringField::LevelName));
    assert_eq!(field_for_name(START_TAG_NAME), Some(StringField::PlayerStartTag));
    assert_eq!(field_for_name("Title_18_8D403C334BBBCC29B73D3CACCDAF0A09"), None);
    assert_eq!(field_for_name(UPGRADES_NAME), None);
    assert_eq!(field_for_name(""), None);
}

#[test]
fn upgrades_name_is_the_one_of_the_template() {
    assert_eq!(UPGRADES_NAME, "Upgrades_12_339EDA2D4B022358B32C3984E9FAE5F1");
    assert!(is_upgrades_name("Upgrades_12_339EDA2D4B022358B32C3984E9FAE5F1"));
    assert!(!is_upgrades_name("Upgrades"));
    assert!(!is_upgrades_name(TITLE_NAME));
}

#[test]
fn same_text_compares_whole_strings() {
    assert!(same_text("", ""));
    assert!(same_text("airKick", "airKick"));
    assert!(!same_text("airKick", "airkick"));
    assert!(!same_text("airKick", "airKic"));
    assert!(!same_text("a", ""));
}

#[test]
fn options_text_picks_the_field() {
    let o = plain_options();
    assert_eq!(o.text(StringField::Title), "Hub");
    assert_eq!(o.text(StringField::Author), "A");
    assert_eq!(o.text(StringField::LevelName), "L1");
    assert_eq!(o.text(StringField::PlayerStartTag), "start");
}

#[test]
fn package_index_one_is_the_first_export() {
    assert_eq!(PRESET_EXPORT, 1);
    let asset = Asset { exports: vec![Export::Other, Export::Other, Export::Other] };
    assert_eq!(asset.export_position(1), Some(0));
    assert_eq!(asset.export_position(2), Some(1));
    assert_eq!(asset.export_position(3), Some(2));
    assert_eq!(asset.export_position(4), None);
    assert_eq!(asset.export_position(0), None);
    assert_eq!(asset.export_position(-1), None);
    assert_eq!(asset.export_position(i32::MAX), None);
    assert_eq!(asset.export_position(i32::MIN), None);
    assert_eq!(Asset { exports: vec![] }.export_position(1), None);
}

#[test]
fn entry_patchable_wants_a_known_name_and_an_integer() {
    assert!(entry_patchable(&name_int("wallRide", 0)));
    assert!(!entry_patchable(&name_int("wallride", 0)));
    assert!(!entry_patchable(&MapEntry { key: Scalar::Int(1), value: Scalar::Int(1) }));
    assert!(!entry_patchable(&MapEntry { key: Scalar::Other, value: Scalar::Int(1) }));
    assert!(!entry_patchable(&MapEntry {
        key: Scalar::Name("wallRide".to_string()),
        value: Scalar::Name("wallRide".to_string()),
    }));
}

#[test]
fn entries_patchable_wants_every_entry() {
    assert!(entries_patchable(&vec![]));
    assert!(entries_patchable(&vec![name_int("attack", 0), name_int("slide", 0)]));
    assert!(!entries_patchable(&vec![name_int("attack", 0), name_int("glide", 0)]));
}

#[test]
fn property_patchable_by_kind() {
    assert!(property_patchable(&string_named(AUTHOR_NAME)));
    assert!(!property_patchable(&string_named("Author")));
    assert!(!property_patchable(&Property::Other));
    assert!(property_patchable(&map_named("whatever", vec![name_int("attack", 0)])));
    assert!(!property_patchable(&map_named(UPGRADES_NAME, vec![name_int("?", 0)])));
}

#[test]
fn property_known_asks_only_maps_for_their_name() {
    assert!(property_known(&map_named(UPGRADES_NAME, vec![])));
    assert!(!property_known(&map_named("Downgrades_1_00", vec![])));
    assert!(property_known(&string_named("anything")));
    assert!(property_known(&Property::Other));
}

#[test]
fn row_ready_looks_as_far_as_patching_goes() {
    let foreign = map_named("Downgrades_1_00", vec![name_int("attack", 0)]);
    assert!(row_ready(&Row { properties: vec![] }));
    assert!(!row_ready(&Row { properties: vec![string_named(TITLE_NAME), foreign.clone()] }));
    assert!(row_ready(&Row { properties: vec![string_named("Nope"), foreign.clone()] }));
    assert!(row_ready(&Row { properties: vec![Property::Other, foreign.clone()] }));
    let stops = map_named(UPGRADES_NAME, vec![name_int("?", 0)]);
    assert!(row_ready(&Row { properties: vec![stops, foreign.clone()] }));
    let stops_too = map_named("Downgrades_1_00", vec![name_int("?", 0)]);
    assert!(!row_ready(&Row { properties: vec![stops_too] }));
}

#[test]
fn asset_ready_wants_the_export_and_a_row() {
    assert!(!asset_ready(&Asset { exports: vec![] }));
    assert!(asset_ready(&Asset { exports: vec![Export::Other] }));
    assert!(!asset_ready(&Asset { exports: vec![Export::DataTable { rows: vec![] }] }));
    assert!(asset_ready(&table(vec![])));
    assert!(!asset_ready(&table(vec![map_named("Downgrades_1_00", vec![])])));
    assert!(asset_ready(&Asset {
        exports: vec![Export::Other, Export::DataTable { rows: vec![] }],
    }));
}

#[test]
fn try_patch_leaves_an_unexpected_asset_alone() {
    let mut asset = table(vec![string_named(TITLE_NAME), map_named("Downgrades_1_00", vec![name_int("attack", 0)])]);
    let before = asset.clone();
    assert_eq!(try_patch(&mut asset, &plain_options()), None);
    assert_eq!(asset, before);
    let mut asset = Asset { exports: vec![Export::DataTable { rows: vec![] }] };
    assert_eq!(try_patch(&mut asset, &plain_options()), None);
    assert_eq!(asset, Asset { exports: vec![Export::DataTable { rows: vec![] }] });
    let mut asset = Asset { exports: vec![] };
    assert_eq!(try_patch(&mut asset, &plain_options()), None);
    assert_eq!(asset, Asset { exports: vec![] });
}

#[test]
fn try_patch_patches_an_expected_asset() {
    let mut asset = table(vec![string_named(TITLE_NAME), map_named(UPGRADES_NAME, vec![name_int("attack", 9)])]);
    assert_eq!(try_patch(&mut asset, &plain_options()), Some(Ok(())));
    let expected = table(vec![
        Property::Str { name: TITLE_NAME.to_string(), value: Some("Hub".to_string()) },
        map_named(UPGRADES_NAME, vec![name_int("attack", 0)]),
    ]);
    assert_eq!(asset, expected);
    let mut asset = Asset { exports: vec![Export::Other] };
    assert_eq!(try_patch(&mut asset, &plain_options()), Some(Err(PatchError::WrongExportKind)));
    let mut asset = table(vec![Property::Other]);
    assert_eq!(try_patch(&mut asset, &plain_options()), Some(Err(PatchError::UnexpectedExportShape)));
}
