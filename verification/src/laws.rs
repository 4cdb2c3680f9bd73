//! Properties of patching that hold of every table and every choice of
//! options, proved from the rules.

use vstd::prelude::*;
use crate::error::PatchErrorView;
use crate::flags::{flag_value, Upgrade, UpgradeFlags};
use crate::model::{Asset, ExportView, MapEntryView, PropertyView, ScalarView};
use crate::options::Options;
use crate::options::OptionsView;
use crate::rules::{
    asset_error, asset_expected, entries_error, entry_error, entry_fails, first_bad_entry,
    first_bad_property, lemma_first_failure, lemma_first_failure_is, patched_asset,
    patched_entries, patched_entry, patched_property, patched_row, preset_slot, property_error,
    property_expected, property_fails, row_error, row_expected,
};
use crate::schema::{
    field_of_name, upgrade_of_key, StringField, AUTHOR_NAME, LEVEL_NAME, START_TAG_NAME,
    TITLE_NAME,
};

verus! {

/// Each of the eleven map keys stands for its own upgrade.
pub proof fn law_key_table()
    ensures
        upgrade_of_key("attack"@) == Some(Upgrade::DreamBreaker),
        upgrade_of_key("slide"@) == Some(Upgrade::Slide),
        upgrade_of_key("SlideJump"@) == Some(Upgrade::SolarWind),
        upgrade_of_key("Light"@) == Some(Upgrade::AscendantLight),
        upgrade_of_key("airKick"@) == Some(Upgrade::SunGreaves),
        upgrade_of_key("projectile"@) == Some(Upgrade::SoulCutter),
        upgrade_of_key("plunge"@) == Some(Upgrade::Sunsetter),
        upgrade_of_key("powerBoost"@) == Some(Upgrade::Indignation),
        upgrade_of_key("extraKick"@) == Some(Upgrade::HeliacalPower),
        upgrade_of_key("chargeAttack"@) == Some(Upgrade::Strikebreak),
        upgrade_of_key("wallRide"@) == Some(Upgrade::ClingGem),
{
    reveal_strlit("attack");
    reveal_strlit("slide");
    reveal_strlit("SlideJump");
    reveal_strlit("Light");
    reveal_strlit("airKick");
    reveal_strlit("projectile");
    reveal_strlit("plunge");
    reveal_strlit("powerBoost");
    reveal_strlit("extraKick");
    reveal_strlit("chargeAttack");
    reveal_strlit("wallRide");
    assert("attack"@.len() == 6);
    assert("airKick"@.len() == 7);
    assert("projectile"@.len() == 10);
    assert("plunge"@.len() == 6);
    assert("powerBoost"@.len() == 10);
    assert("projectile"@[1] == 'r');
    assert("powerBoost"@[1] == 'o');
    assert("attack"@[0] == 'a');
    assert("slide"@[0] == 's');
    assert("SlideJump"@[0] == 'S');
    assert("Light"@[0] == 'L');
    assert("airKick"@[0] == 'a');
    assert("projectile"@[0] == 'p');
    assert("plunge"@[0] == 'p');
    assert("powerBoost"@[0] == 'p');
    assert("extraKick"@[0] == 'e');
    assert("chargeAttack"@[0] == 'c');
    assert("wallRide"@[0] == 'w');
}

/// Each of the four identifying names holds its own text field.
pub proof fn law_field_table()
    ensures
        field_of_name(TITLE_NAME@) == Some(StringField::Title),
        field_of_name(AUTHOR_NAME@) == Some(StringField::Author),
        field_of_name(LEVEL_NAME@) == Some(StringField::LevelName),
        field_of_name(START_TAG_NAME@) == Some(StringField::PlayerStartTag),
{
    reveal_strlit("Title_18_8D403C334BBBCC29B73D3CACCDAF0A08");
    reveal_strlit("Author_6_5E436BFF41A27B8B13653A8CEC5D15A6");
    reveal_strlit("LevelName_2_392769FD4066EFFA0CC1F99E8D749886");
    reveal_strlit("PlayerStartTag_5_7797C3C742DE3A0B8EEE189EDBEF3683");
    assert(TITLE_NAME@[0] == 'T');
    assert(AUTHOR_NAME@[0] == 'A');
    assert(LEVEL_NAME@[0] == 'L');
    assert(START_TAG_NAME@[0] == 'P');
}

/// Entries that give no error: none of them fails.
pub proof fn lemma_entries_without_error(entries: Seq<MapEntryView>)
    ensures
        entries_error(entries) is None <==> first_bad_entry(entries) == entries.len(),
        entries_error(entries) is None <==> forall|j: int|
            0 <= j < entries.len() ==> !entry_fails(#[trigger] entries[j]),
{
    let fails = |e: MapEntryView| entry_fails(e);
    lemma_first_failure(entries, fails);
    if forall|j: int| 0 <= j < entries.len() ==> !entry_fails(#[trigger] entries[j]) {
        lemma_first_failure_is(entries, fails, entries.len() as int);
    }
}

/// A row that gives no error: none of its properties fails.
pub proof fn lemma_row_without_error(row: Seq<PropertyView>)
    ensures
        row_error(row) is None <==> first_bad_property(row) == row.len(),
        row_error(row) is None <==> forall|i: int|
            0 <= i < row.len() ==> !property_fails(#[trigger] row[i]),
{
    let fails = |p: PropertyView| property_fails(p);
    lemma_first_failure(row, fails);
    if forall|i: int| 0 <= i < row.len() ==> !property_fails(#[trigger] row[i]) {
        lemma_first_failure_is(row, fails, row.len() as int);
    }
}

/// Whether a map entry has `key` for key, a name that stands for an
/// upgrade, and for value 1 if that upgrade is switched on in `flags`, 0 if
/// not.
pub open spec fn shows_flag(entry: MapEntryView, key: ScalarView, flags: UpgradeFlags) -> bool {
    entry.key == key && match key {
        ScalarView::Name(text) => match upgrade_of_key(text) {
            Some(upgrade) => entry.value == ScalarView::Int(flag_value(flags.enabled(upgrade))),
            None => false,
        },
        _ => false,
    }
}

/// Reading the flags back. In a row that is patched without error, every
/// map keeps its name, its number of entries and each key in its place, and
/// the value of each entry is 1 if the upgrade of its key is switched on in
/// the options, and 0 if not.
pub proof fn law_flags_read_back(row: Seq<PropertyView>, options: OptionsView, i: int)
    requires
        row_error(row) is None,
        0 <= i < row.len(),
        row[i] is Mapping,
    ensures
        patched_row(row, options).len() == row.len(),
        patched_row(row, options)[i] matches PropertyView::Mapping { name, entries }
            && row[i] matches PropertyView::Mapping { name: name_before, entries: before }
            && name == name_before
            && entries.len() == before.len()
            && forall|j: int|
            0 <= j < before.len() ==> shows_flag(
                #[trigger] entries[j],
                before[j].key,
                options.upgrade_flags,
            ),
{
    lemma_row_without_error(row);
    assert(!property_fails(row[i]));
    match row[i] {
        PropertyView::Mapping { name, entries } => {
            lemma_entries_without_error(entries);
            let after = patched_entries(entries, options.upgrade_flags);
            assert forall|j: int| 0 <= j < entries.len() implies shows_flag(
                #[trigger] after[j],
                entries[j].key,
                options.upgrade_flags,
            ) by {
                assert(!entry_fails(entries[j]));
            }
        },
        _ => {},
    }
}

/// Reading a text back. In a row that is patched without error, a string
/// property that holds a known field keeps its name, and its payload is
/// the text that the options give for that field, as it is.
pub proof fn law_text_read_back(row: Seq<PropertyView>, options: OptionsView, i: int)
    requires
        row_error(row) is None,
        0 <= i < row.len(),
        row[i] is Str,
    ensures
        row[i] matches PropertyView::Str { name, .. } && field_of_name(name) matches Some(field)
            && patched_row(row, options)[i] == (PropertyView::Str {
            name,
            value: Some(options.text(field)),
        }),
{
    lemma_row_without_error(row);
    assert(!property_fails(row[i]));
}

/// The text fields do not touch each other. Where two sets of options
/// differ in the text of one field only, patching a row with the one and
/// with the other gives the same properties everywhere but in the string
/// properties that hold that field.
pub proof fn law_text_fields_independent(
    row: Seq<PropertyView>,
    a: OptionsView,
    b: OptionsView,
    field: StringField,
    i: int,
)
    requires
        a.upgrade_flags == b.upgrade_flags,
        forall|other: StringField| other != field ==> a.text(other) == b.text(other),
        0 <= i < row.len(),
        !(row[i] matches PropertyView::Str { name, .. } && field_of_name(name) == Some(field)),
    ensures
        patched_row(row, a)[i] == patched_row(row, b)[i],
{
    match row[i] {
        PropertyView::Str { name, value } => {
            match field_of_name(name) {
                Some(other) => {
                    assert(a.text(other) == b.text(other));
                },
                None => {},
            }
        },
        _ => {},
    }
}

/// A map entry with an unknown key is refused with that key. Where, in
/// the first property of a row that cannot be patched, a map, the first
/// entry that cannot be patched has a name for key and an integer for
/// value, the row gives `UnrecognizedUpgradeKey` with the text of the key.
pub proof fn law_unknown_key_refused(row: Seq<PropertyView>, i: int, j: int, key: Seq<char>)
    requires
        0 <= i < row.len(),
        forall|k: int| 0 <= k < i ==> !property_fails(#[trigger] row[k]),
        row[i] matches PropertyView::Mapping { entries, .. } && 0 <= j < entries.len()
            && entries[j].key == ScalarView::Name(key) && entries[j].value is Int && (forall|k: int|
            0 <= k < j ==> !entry_fails(#[trigger] entries[k])),
        upgrade_of_key(key) is None,
    ensures
        row_error(row) == Some(PatchErrorView::UnrecognizedUpgradeKey(key)),
{
    match row[i] {
        PropertyView::Mapping { name, entries } => {
            lemma_first_failure_is(entries, |e: MapEntryView| entry_fails(e), j);
            assert(property_fails(row[i]));
            lemma_first_failure_is(row, |p: PropertyView| property_fails(p), i);
        },
        _ => {},
    }
}

/// A string property with an unknown name is refused with that name.
/// Where the first property of a row that cannot be patched is a string
/// property, the row gives `UnrecognizedStringField` with its name.
pub proof fn law_unknown_field_refused(row: Seq<PropertyView>, i: int, name: Seq<char>)
    requires
        0 <= i < row.len(),
        forall|k: int| 0 <= k < i ==> !property_fails(#[trigger] row[k]),
        row[i] matches PropertyView::Str { name: n, .. } && n == name,
        field_of_name(name) is None,
    ensures
        row_error(row) == Some(PatchErrorView::UnrecognizedStringField(name)),
{
    assert(property_fails(row[i]));
    lemma_first_failure_is(row, |p: PropertyView| property_fails(p), i);
}

/// An export of the wrong kind is refused before any row is looked at:
/// the asset gives `WrongExportKind` and stays as it is, whatever else it
/// holds.
pub proof fn law_wrong_export_refused(exports: Seq<ExportView>, options: OptionsView)
    requires
        preset_slot(exports) matches Some(slot) && exports[slot] is Other,
    ensures
        asset_expected(exports),
        asset_error(exports) == Some(PatchErrorView::WrongExportKind),
        patched_asset(exports, options) == exports,
{
}

/// A patched entry gives the error it gave before, and patching it again
/// changes nothing.
pub proof fn lemma_patched_entry_again(entry: MapEntryView, flags: UpgradeFlags)
    ensures
        entry_error(patched_entry(entry, flags)) == entry_error(entry),
        patched_entry(patched_entry(entry, flags), flags) == patched_entry(entry, flags),
{
}

/// Patched entries give the error they gave before, at the same place, and
/// patching them again changes nothing.
pub proof fn lemma_patched_entries_again(entries: Seq<MapEntryView>, flags: UpgradeFlags)
    ensures
        first_bad_entry(patched_entries(entries, flags)) == first_bad_entry(entries),
        entries_error(patched_entries(entries, flags)) == entries_error(entries),
        patched_entries(patched_entries(entries, flags), flags) == patched_entries(entries, flags),
{
    let fails = |e: MapEntryView| entry_fails(e);
    let once = patched_entries(entries, flags);
    let k = first_bad_entry(entries);
    lemma_first_failure(entries, fails);
    assert forall|j: int| 0 <= j < once.len() implies entry_error(#[trigger] once[j])
        == entry_error(entries[j]) by {
        lemma_patched_entry_again(entries[j], flags);
    }
    assert forall|j: int| 0 <= j < k implies !fails(#[trigger] once[j]) by {
        assert(!fails(entries[j]));
    }
    lemma_first_failure_is(once, fails, k);
    assert forall|j: int| 0 <= j < once.len() implies #[trigger] patched_entries(once, flags)[j]
        == once[j] by {
        lemma_patched_entry_again(entries[j], flags);
    }
    assert(patched_entries(once, flags) =~= once);
}

/// A patched property gives the error it gave before, is expected if it
/// was before, and patching it again changes nothing.
pub proof fn lemma_patched_property_again(property: PropertyView, options: OptionsView)
    ensures
        property_error(patched_property(property, options)) == property_error(property),
        property_expected(patched_property(property, options)) == property_expected(property),
        patched_property(patched_property(property, options), options) == patched_property(
            property,
            options,
        ),
{
    match property {
        PropertyView::Mapping { name, entries } => {
            lemma_patched_entries_again(entries, options.upgrade_flags);
        },
        _ => {},
    }
}

/// A patched row gives the error it gave before, at the same place, is
/// expected if it was before, and patching it again changes nothing.
pub proof fn lemma_patched_row_again(row: Seq<PropertyView>, options: OptionsView)
    ensures
        first_bad_property(patched_row(row, options)) == first_bad_property(row),
        row_error(patched_row(row, options)) == row_error(row),
        row_expected(patched_row(row, options)) == row_expected(row),
        patched_row(patched_row(row, options), options) == patched_row(row, options),
{
    let fails = |p: PropertyView| property_fails(p);
    let once = patched_row(row, options);
    let k = first_bad_property(row);
    lemma_first_failure(row, fails);
    assert forall|i: int| 0 <= i < once.len() implies property_error(#[trigger] once[i])
        == property_error(row[i]) && property_expected(once[i]) == property_expected(row[i]) by {
        lemma_patched_property_again(row[i], options);
    }
    assert forall|i: int| 0 <= i < k implies !fails(#[trigger] once[i]) by {
        assert(!fails(row[i]));
    }
    lemma_first_failure_is(once, fails, k);
    assert forall|i: int| 0 <= i < once.len() implies #[trigger] patched_row(once, options)[i]
        == once[i] by {
        lemma_patched_property_again(row[i], options);
    }
    assert(patched_row(once, options) =~= once);
    if row_expected(row) {
        assert forall|i: int| 0 <= i < once.len() && i <= first_bad_property(once) implies
            property_expected(#[trigger] once[i]) by {
            assert(property_expected(row[i]));
        }
    }
    if row_expected(once) {
        assert forall|i: int| 0 <= i < row.len() && i <= first_bad_property(row) implies
            property_expected(#[trigger] row[i]) by {
            assert(property_expected(once[i]));
        }
    }
}

/// Patching is idempotent. An asset that was patched can be patched again;
/// with the same options that gives the error it gave the first time, and
/// changes nothing.
pub proof fn law_patch_idempotent(exports: Seq<ExportView>, options: OptionsView)
    requires
        asset_expected(exports),
    ensures
        asset_expected(patched_asset(exports, options)),
        asset_error(patched_asset(exports, options)) == asset_error(exports),
        patched_asset(patched_asset(exports, options), options) == patched_asset(exports, options),
{
    let slot = preset_slot(exports).unwrap();
    let once = patched_asset(exports, options);
    match exports[slot] {
        ExportView::DataTable { rows } => {
            lemma_patched_row_again(rows[0], options);
            let rows_once = rows.update(0, patched_row(rows[0], options));
            assert(once[slot] == ExportView::DataTable { rows: rows_once });
            assert(rows_once.update(0, patched_row(rows_once[0], options)) =~= rows_once);
            assert(patched_asset(once, options) =~= once);
        },
        ExportView::Other => {},
    }
}

/// Patching depends on what the asset and the options hold, and on nothing
/// else. Two copies of an asset, patched with two copies of the options,
/// give the same error and hold the same afterwards.
pub proof fn law_copies_agree(first: Asset, second: Asset, options: Options, again: Options)
    requires
        first@ == second@,
        options@ == again@,
    ensures
        asset_expected(first@) == asset_expected(second@),
        asset_error(first@) == asset_error(second@),
        patched_asset(first@, options@) == patched_asset(second@, again@),
{
}

} // verus!
