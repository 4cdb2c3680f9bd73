//! Telling beforehand whether an asset can be handed to the patcher, and
//! patching only where it can.

use vstd::prelude::*;
use crate::error::PatchError;
use crate::model::{
    entries_view, Asset, Export, MapEntry, MapEntryView, Property, PropertyView, Row, Scalar,
};
use crate::options::Options;
use crate::patch::patch;
use crate::rules::{
    asset_error, asset_expected, entries_error, entry_fails, first_bad_property,
    lemma_first_failure, lemma_first_failure_is, patched_asset, property_expected,
    property_fails, row_expected, PRESET_EXPORT,
};
use crate::schema::{field_for_name, is_upgrades_name, upgrade_for_key};

verus! {

/// Whether a map entry can be patched: its key is the name of a known
/// upgrade and its value an integer.
pub fn entry_patchable(entry: &MapEntry) -> (r: bool)
    ensures
        r == !entry_fails(entry@),
{
    match &entry.key {
        Scalar::Name(key) => match entry.value {
            Scalar::Int(_) => upgrade_for_key(key.as_str()).is_some(),
            _ => false,
        },
        _ => false,
    }
}

/// Whether every entry of a map can be patched.
pub fn entries_patchable(entries: &Vec<MapEntry>) -> (r: bool)
    ensures
        r == (entries_error(entries_view(entries@)) is None),
{
    let ghost view = entries_view(entries@);
    let ghost fails = |e: MapEntryView| entry_fails(e);
    let mut i: usize = 0;
    while i < entries.len()
        invariant
            i <= entries@.len(),
            view == entries_view(entries@),
            fails == |e: MapEntryView| entry_fails(e),
            forall|j: int| 0 <= j < i ==> !fails(#[trigger] view[j]),
        decreases entries@.len() - i,
    {
        if !entry_patchable(&entries[i]) {
            proof {
                lemma_first_failure_is(view, fails, i as int);
            }
            return false;
        }
        i += 1;
    }
    proof {
        lemma_first_failure_is(view, fails, view.len() as int);
    }
    true
}

/// Whether a property can be patched.
pub fn property_patchable(property: &Property) -> (r: bool)
    ensures
        r == !property_fails(property@),
{
    match property {
        Property::Mapping { name, entries } => entries_patchable(entries),
        Property::Str { name, value } => field_for_name(name.as_str()).is_some(),
        Property::Other => false,
    }
}

/// Whether a property is one that patching may reach: any map must be the
/// upgrades map.
pub fn property_known(property: &Property) -> (r: bool)
    ensures
        r == property_expected(property@),
{
    match property {
        Property::Mapping { name, entries } => is_upgrades_name(name.as_str()),
        _ => true,
    }
}

/// Whether every map that patching would reach in the row is the upgrades
/// map.
pub fn row_ready(row: &Row) -> (r: bool)
    ensures
        r == row_expected(row@),
{
    let ghost view = row@;
    let ghost fails = |p: PropertyView| property_fails(p);
    let mut i: usize = 0;
    while i < row.properties.len()
        invariant
            i <= row.properties@.len(),
            view == row@,
            fails == |p: PropertyView| property_fails(p),
            forall|j: int| 0 <= j < i ==> !fails(#[trigger] view[j]),
            forall|j: int| 0 <= j < i ==> property_expected(#[trigger] view[j]),
        decreases row.properties@.len() - i,
    {
        proof {
            lemma_first_failure(view, fails);
            assert(i <= first_bad_property(view));
        }
        if !property_known(&row.properties[i]) {
            assert(!property_expected(view[i as int]));
            return false;
        }
        if !property_patchable(&row.properties[i]) {
            proof {
                lemma_first_failure_is(view, fails, i as int);
            }
            return true;
        }
        i += 1;
    }
    proof {
        lemma_first_failure_is(view, fails, view.len() as int);
    }
    true
}

/// Whether `asset` has what [`patch`] takes for granted.
pub fn asset_ready(asset: &Asset) -> (r: bool)
    ensures
        r == asset_expected(asset@),
{
    match asset.export_position(PRESET_EXPORT) {
        Some(slot) => match &asset.exports[slot] {
            Export::DataTable { rows } => rows.len() > 0 && row_ready(&rows[0]),
            Export::Other => true,
        },
        None => false,
    }
}

/// Patches `asset` as [`patch`] does, if the asset has what `patch` takes
/// for granted. If it has not, returns `None` and leaves the asset as it is.
pub fn try_patch(asset: &mut Asset, options: &Options) -> (r: Option<Result<(), PatchError>>)
    ensures
        r is Some <==> asset_expected(old(asset)@),
        match r {
            Some(Ok(_)) => asset_error(old(asset)@) is None,
            Some(Err(e)) => asset_error(old(asset)@) == Some(e@),
            None => true,
        },
        final(asset)@ == if asset_expected(old(asset)@) {
            patched_asset(old(asset)@, options@)
        } else {
            old(asset)@
        },
{
    if asset_ready(asset) {
        Some(patch(asset, options))
    } else {
        None
    }
}

} // verus!
