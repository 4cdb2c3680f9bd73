//! What patching means, stated over the views of the model: which error a
//! table gives, if any, and what it holds afterwards.
//!
//! Patching walks a row from its first property on and stops at the first
//! one it cannot patch. What it passed before stopping stays patched.

use vstd::prelude::*;
use crate::error::PatchErrorView;
use crate::flags::{flag_value, UpgradeFlags};
use crate::model::{ExportView, MapEntryView, PropertyView, ScalarView, export_slot};
use crate::options::OptionsView;
use crate::schema::{field_of_name, upgrade_of_key, UPGRADES_NAME};

verus! {

/// Package index of the export that holds the preset table.
pub const PRESET_EXPORT: i32 = 1;

/// Index of the first item of `s` that `fails`, or the length of `s` if
/// none does.
pub open spec fn first_failure<T>(s: Seq<T>, fails: spec_fn(T) -> bool) -> int
    decreases s.len(),
{
    if s.len() == 0 {
        0
    } else if fails(s[0]) {
        0
    } else {
        1 + first_failure(s.drop_first(), fails)
    }
}

/// `first_failure` is in range, nothing before it fails, and the item at
/// it, if there is one, fails.
pub proof fn lemma_first_failure<T>(s: Seq<T>, fails: spec_fn(T) -> bool)
    ensures
        0 <= first_failure(s, fails) <= s.len(),
        forall|j: int| 0 <= j < first_failure(s, fails) ==> !fails(#[trigger] s[j]),
        first_failure(s, fails) < s.len() ==> fails(s[first_failure(s, fails)]),
    decreases s.len(),
{
    if s.len() != 0 && !fails(s[0]) {
        let rest = s.drop_first();
        lemma_first_failure(rest, fails);
        assert forall|j: int| 0 <= j < first_failure(s, fails) implies !fails(#[trigger] s[j]) by {
            if j > 0 {
                assert(s[j] == rest[j - 1]);
            }
        }
        if first_failure(s, fails) < s.len() {
            assert(s[first_failure(s, fails)] == rest[first_failure(rest, fails)]);
        }
    }
}

/// An index before which nothing fails, and at which an item fails or the
/// sequence ends, is the `first_failure`.
pub proof fn lemma_first_failure_is<T>(s: Seq<T>, fails: spec_fn(T) -> bool, k: int)
    requires
        0 <= k <= s.len(),
        forall|j: int| 0 <= j < k ==> !fails(#[trigger] s[j]),
        k < s.len() ==> fails(s[k]),
    ensures
        first_failure(s, fails) == k,
{
    lemma_first_failure(s, fails);
}

/// The error that a map entry gives, if any. The shape of the entry is
/// looked at before its key is looked up.
pub open spec fn entry_error(entry: MapEntryView) -> Option<PatchErrorView> {
    match entry.key {
        ScalarView::Name(key) => match entry.value {
            ScalarView::Int(_) => if upgrade_of_key(key) is Some {
                None
            } else {
                Some(PatchErrorView::UnrecognizedUpgradeKey(key))
            },
            _ => Some(PatchErrorView::UnexpectedPropertyShape),
        },
        _ => Some(PatchErrorView::UnexpectedPropertyShape),
    }
}

/// A map entry after patching: its value tells whether the upgrade of its
/// key is switched on. An entry that gives an error stays as it is.
pub open spec fn patched_entry(entry: MapEntryView, flags: UpgradeFlags) -> MapEntryView {
    match entry.key {
        ScalarView::Name(key) => match (entry.value, upgrade_of_key(key)) {
            (ScalarView::Int(_), Some(upgrade)) => MapEntryView {
                key: entry.key,
                value: ScalarView::Int(flag_value(flags.enabled(upgrade))),
            },
            _ => entry,
        },
        _ => entry,
    }
}

/// Whether a map entry gives an error.
pub open spec fn entry_fails(entry: MapEntryView) -> bool {
    entry_error(entry) is Some
}

/// Index of the first entry that gives an error, or the number of entries.
pub open spec fn first_bad_entry(entries: Seq<MapEntryView>) -> int {
    first_failure(entries, |e: MapEntryView| entry_fails(e))
}

/// The error that the entries of a map give: that of the first entry that
/// gives one.
pub open spec fn entries_error(entries: Seq<MapEntryView>) -> Option<PatchErrorView> {
    if first_bad_entry(entries) < entries.len() {
        entry_error(entries[first_bad_entry(entries)])
    } else {
        None
    }
}

/// The entries of a map after patching: those before the first that gives
/// an error are patched, the others are as they were.
pub open spec fn patched_entries(entries: Seq<MapEntryView>, flags: UpgradeFlags) -> Seq<
    MapEntryView,
> {
    Seq::new(
        entries.len(),
        |i: int|
            if i < first_bad_entry(entries) {
                patched_entry(entries[i], flags)
            } else {
                entries[i]
            },
    )
}

/// The error that a property gives, if any.
pub open spec fn property_error(property: PropertyView) -> Option<PatchErrorView> {
    match property {
        PropertyView::Mapping { name, entries } => entries_error(entries),
        PropertyView::Str { name, value } => if field_of_name(name) is Some {
            None
        } else {
            Some(PatchErrorView::UnrecognizedStringField(name))
        },
        PropertyView::Other => Some(PatchErrorView::UnexpectedExportShape),
    }
}

/// A property after patching. A map has its entries patched as far as they
/// can be; a string property of a known field holds the text asked for
/// that field; any other property stays as it is.
pub open spec fn patched_property(property: PropertyView, options: OptionsView) -> PropertyView {
    match property {
        PropertyView::Mapping { name, entries } => PropertyView::Mapping {
            name,
            entries: patched_entries(entries, options.upgrade_flags),
        },
        PropertyView::Str { name, value } => match field_of_name(name) {
            Some(field) => PropertyView::Str { name, value: Some(options.text(field)) },
            None => property,
        },
        PropertyView::Other => property,
    }
}

/// Whether a property gives an error.
pub open spec fn property_fails(property: PropertyView) -> bool {
    property_error(property) is Some
}

/// Index of the first property that gives an error, or the number of
/// properties.
pub open spec fn first_bad_property(row: Seq<PropertyView>) -> int {
    first_failure(row, |p: PropertyView| property_fails(p))
}

/// The error that a row gives: that of the first property that gives one.
pub open spec fn row_error(row: Seq<PropertyView>) -> Option<PatchErrorView> {
    if first_bad_property(row) < row.len() {
        property_error(row[first_bad_property(row)])
    } else {
        None
    }
}

/// A row after patching: the properties up to the first that gives an
/// error, that one included, are patched; those behind it are as they were.
pub open spec fn patched_row(row: Seq<PropertyView>, options: OptionsView) -> Seq<PropertyView> {
    Seq::new(
        row.len(),
        |i: int|
            if i <= first_bad_property(row) {
                patched_property(row[i], options)
            } else {
                row[i]
            },
    )
}

/// Whether a property that patching reaches may be patched: a map must be
/// the upgrades map.
pub open spec fn property_expected(property: PropertyView) -> bool {
    property matches PropertyView::Mapping { name, .. } ==> name == UPGRADES_NAME@
}

/// Whether every map that patching reaches in the row is the upgrades map.
pub open spec fn row_expected(row: Seq<PropertyView>) -> bool {
    forall|i: int|
        0 <= i < row.len() && i <= first_bad_property(row) ==> property_expected(#[trigger] row[i])
}

/// The place of the preset's export in the export table, if the table
/// reaches that far.
pub open spec fn preset_slot(exports: Seq<ExportView>) -> Option<int> {
    export_slot(PRESET_EXPORT as int, exports.len() as int)
}

/// Whether an asset has what patching takes for granted: the preset's
/// export is there, and if it is a data table, the table has a first row
/// in which every map that patching reaches is the upgrades map.
pub open spec fn asset_expected(exports: Seq<ExportView>) -> bool {
    match preset_slot(exports) {
        Some(slot) => match exports[slot] {
            ExportView::DataTable { rows } => rows.len() > 0 && row_expected(rows[0]),
            ExportView::Other => true,
        },
        None => false,
    }
}

/// The error that an asset gives, if any: that its preset export is no
/// data table, or else the error of the first row of that table.
pub open spec fn asset_error(exports: Seq<ExportView>) -> Option<PatchErrorView> {
    match exports[preset_slot(exports).unwrap()] {
        ExportView::DataTable { rows } => row_error(rows[0]),
        ExportView::Other => Some(PatchErrorView::WrongExportKind),
    }
}

/// An asset after patching: the first row of the preset table is patched,
/// and nothing else is touched. An asset whose preset export is no data
/// table stays as it is.
pub open spec fn patched_asset(exports: Seq<ExportView>, options: OptionsView) -> Seq<ExportView> {
    match exports[preset_slot(exports).unwrap()] {
        ExportView::DataTable { rows } => exports.update(
            preset_slot(exports).unwrap(),
            ExportView::DataTable { rows: rows.update(0, patched_row(rows[0], options)) },
        ),
        ExportView::Other => exports,
    }
}

} // verus!
