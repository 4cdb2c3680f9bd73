//! Patching in place: the executable side of the rules.

use vstd::prelude::*;
use crate::error::PatchError;
use crate::flags::{bool2int, UpgradeFlags};
use crate::model::{
    entries_view, rows_view, Asset, Export, MapEntry, MapEntryView, Property, PropertyView, Row,
    Scalar,
};
use crate::options::Options;
use crate::rules::{
    asset_error, asset_expected, entries_error, entry_error, entry_fails, first_bad_entry,
    first_bad_property, lemma_first_failure, lemma_first_failure_is, patched_asset,
    patched_entries, patched_entry, patched_property, patched_row, property_error,
    property_expected, property_fails, row_error, row_expected, PRESET_EXPORT,
};
use crate::schema::{field_for_name, upgrade_for_key};

verus! {

/// Patches one map entry: sets its value to 1 if the upgrade of its key is
/// switched on, to 0 if not.
///
/// Fails, and leaves the entry as it is, where the key is no name or the
/// value no integer, and where the key stands for no upgrade.
pub fn patch_entry(entry: &mut MapEntry, flags: &UpgradeFlags) -> (r: Result<(), PatchError>)
    ensures
        match r {
            Ok(_) => entry_error(old(entry)@) is None,
            Err(e) => entry_error(old(entry)@) == Some(e@),
        },
        final(entry)@ == patched_entry(old(entry)@, *flags),
{
    match &entry.key {
        Scalar::Name(key) => match entry.value {
            Scalar::Int(_) => match upgrade_for_key(key.as_str()) {
                Some(upgrade) => {
                    entry.value = Scalar::Int(bool2int(flags.get(upgrade)));
                    Ok(())
                },
                None => Err(PatchError::UnrecognizedUpgradeKey(key.clone())),
            },
            _ => Err(PatchError::UnexpectedPropertyShape),
        },
        _ => Err(PatchError::UnexpectedPropertyShape),
    }
}

/// Patches the entries of a map in order, and stops at the first that
/// cannot be patched.
///
/// Fails with the error of that entry. The entries before it are patched
/// then, and those from it on are as they were.
pub fn patch_entries(entries: &mut Vec<MapEntry>, flags: &UpgradeFlags) -> (r: Result<
    (),
    PatchError,
>)
    ensures
        match r {
            Ok(_) => entries_error(entries_view(old(entries)@)) is None,
            Err(e) => entries_error(entries_view(old(entries)@)) == Some(e@),
        },
        entries_view(final(entries)@) == patched_entries(entries_view(old(entries)@), *flags),
{
    let ghost before = entries_view(entries@);
    let ghost fails = |e: MapEntryView| entry_fails(e);
    let mut i: usize = 0;
    while i < entries.len()
        invariant
            i <= entries@.len(),
            entries@.len() == before.len(),
            before == entries_view(old(entries)@),
            fails == |e: MapEntryView| entry_fails(e),
            forall|j: int| 0 <= j < i ==> !fails(#[trigger] before[j]),
            forall|j: int| 0 <= j < i ==> (#[trigger] entries@[j])@ == patched_entry(before[j], *flags),
            forall|j: int| i <= j < before.len() ==> (#[trigger] entries@[j])@ == before[j],
        decreases entries@.len() - i,
    {
        let ghost at_entry = entries@;
        let outcome = patch_entry(&mut entries[i], flags);
        assert(entries@ == at_entry.update(i as int, entries@[i as int]));
        match outcome {
            Ok(_) => {},
            Err(e) => {
                proof {
                    lemma_first_failure_is(before, fails, i as int);
                    assert(first_bad_entry(before) == i);
                    assert(entries_view(entries@) =~= patched_entries(before, *flags));
                }
                return Err(e);
            },
        }
        i += 1;
    }
    proof {
        lemma_first_failure_is(before, fails, before.len() as int);
        assert(first_bad_entry(before) == before.len());
        assert(entries_view(entries@) =~= patched_entries(before, *flags));
    }
    Ok(())
}

/// Patches one property of the row. A map has its entries patched; a
/// string property of a known field is given the text asked for that field.
///
/// Fails with the error of the first map entry that cannot be patched,
/// where the identifying name of a string property is not a known one, and
/// where the property is neither a map nor a string.
pub fn patch_property(property: &mut Property, options: &Options) -> (r: Result<(), PatchError>)
    requires
        property_expected(old(property)@),
    ensures
        match r {
            Ok(_) => property_error(old(property)@) is None,
            Err(e) => property_error(old(property)@) == Some(e@),
        },
        final(property)@ == patched_property(old(property)@, options@),
{
    match property {
        Property::Mapping { name, entries } => patch_entries(entries, &options.upgrade_flags),
        Property::Str { name, value } => match field_for_name(name.as_str()) {
            Some(field) => {
                *value = Some(options.text(field).clone());
                Ok(())
            },
            None => Err(PatchError::UnrecognizedStringField(name.clone())),
        },
        Property::Other => Err(PatchError::UnexpectedExportShape),
    }
}

/// Patches the properties of a row in order, and stops at the first that
/// cannot be patched.
///
/// Fails with the error of that property. Neither the number nor the order
/// of the properties changes.
pub fn patch_row(row: &mut Row, options: &Options) -> (r: Result<(), PatchError>)
    requires
        row_expected(old(row)@),
    ensures
        match r {
            Ok(_) => row_error(old(row)@) is None,
            Err(e) => row_error(old(row)@) == Some(e@),
        },
        final(row)@ == patched_row(old(row)@, options@),
{
    let ghost before = row@;
    let ghost fails = |p: PropertyView| property_fails(p);
    let mut i: usize = 0;
    while i < row.properties.len()
        invariant
            i <= row.properties@.len(),
            row.properties@.len() == before.len(),
            before == old(row)@,
            row_expected(before),
            fails == |p: PropertyView| property_fails(p),
            forall|j: int| 0 <= j < i ==> !fails(#[trigger] before[j]),
            forall|j: int|
                0 <= j < i ==> (#[trigger] row.properties@[j])@ == patched_property(
                    before[j],
                    options@,
                ),
            forall|j: int| i <= j < before.len() ==> (#[trigger] row.properties@[j])@ == before[j],
        decreases row.properties@.len() - i,
    {
        let ghost at_entry = row.properties@;
        proof {
            if first_bad_property(before) < i {
                lemma_first_failure(before, fails);
            }
            assert(property_expected(before[i as int]));
        }
        let outcome = patch_property(&mut row.properties[i], options);
        assert(row.properties@ == at_entry.update(i as int, row.properties@[i as int]));
        match outcome {
            Ok(_) => {},
            Err(e) => {
                proof {
                    lemma_first_failure_is(before, fails, i as int);
                    assert(first_bad_property(before) == i);
                    assert(row@ =~= patched_row(before, options@));
                }
                return Err(e);
            },
        }
        i += 1;
    }
    proof {
        lemma_first_failure_is(before, fails, before.len() as int);
        assert(first_bad_property(before) == before.len());
        assert(row@ =~= patched_row(before, options@));
    }
    Ok(())
}

/// Patches the preset held in `asset`: writes the four texts and the
/// eleven upgrade flags of `options` into the first row of the preset
/// table. Nothing is added, removed or moved.
///
/// Fails with `WrongExportKind`, before it looks at any row, where the
/// preset's export is no data table; otherwise with the error of the first
/// property of the row that cannot be patched. What was patched before
/// that property stays patched.
pub fn patch(asset: &mut Asset, options: &Options) -> (r: Result<(), PatchError>)
    requires
        asset_expected(old(asset)@),
    ensures
        match r {
            Ok(_) => asset_error(old(asset)@) is None,
            Err(e) => asset_error(old(asset)@) == Some(e@),
        },
        final(asset)@ == patched_asset(old(asset)@, options@),
{
    let slot = asset.export_position(PRESET_EXPORT).unwrap();
    let ghost before = asset@;
    let ghost exports_before = asset.exports@;
    let outcome = match &mut asset.exports[slot] {
        Export::DataTable { rows } => {
            let ghost rows_before = rows@;
            let outcome = patch_row(&mut rows[0], options);
            assert(rows@ == rows_before.update(0, rows@[0]));
            assert(rows_view(rows@) =~= rows_view(rows_before).update(
                0,
                patched_row(rows_before[0]@, options@),
            ));
            outcome
        },
        Export::Other => Err(PatchError::WrongExportKind),
    };
    assert(asset.exports@ == exports_before.update(slot as int, asset.exports@[slot as int]));
    assert(asset@ =~= patched_asset(before, options@));
    outcome
}

} // verus!
