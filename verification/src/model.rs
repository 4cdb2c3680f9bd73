//! The part of a parsed asset that patching reads and writes, held as plain
//! values, and the mathematical view of each piece.

use vstd::prelude::*;

verus! {

/// A scalar property as it occurs as key or value of a map entry.
#[derive(Clone, Debug, PartialEq, Eq)]
pub enum Scalar {
    /// A name property and the text of its name.
    Name(String),
    /// A 32-bit integer property.
    Int(i32),
    /// A property of any other kind.
    Other,
}

/// View of a [`Scalar`].
pub enum ScalarView {
    Name(Seq<char>),
    Int(i32),
    Other,
}

impl View for Scalar {
    type V = ScalarView;

    open spec fn view(&self) -> ScalarView {
        match *self {
            Scalar::Name(s) => ScalarView::Name(s@),
            Scalar::Int(n) => ScalarView::Int(n),
            Scalar::Other => ScalarView::Other,
        }
    }
}

/// One entry of a map property.
#[derive(Clone, Debug, PartialEq, Eq)]
pub struct MapEntry {
    pub key: Scalar,
    pub value: Scalar,
}

/// View of a [`MapEntry`].
pub struct MapEntryView {
    pub key: ScalarView,
    pub value: ScalarView,
}

impl View for MapEntry {
    type V = MapEntryView;

    open spec fn view(&self) -> MapEntryView {
        MapEntryView { key: self.key@, value: self.value@ }
    }
}

/// A property of a table row.
#[derive(Clone, Debug, PartialEq, Eq)]
pub enum Property {
    /// A map property: its identifying name and its entries in order.
    Mapping { name: String, entries: Vec<MapEntry> },
    /// A string property: its identifying name and its payload.
    Str { name: String, value: Option<String> },
    /// A property of any other kind.
    Other,
}

/// View of a [`Property`].
pub enum PropertyView {
    Mapping { name: Seq<char>, entries: Seq<MapEntryView> },
    Str { name: Seq<char>, value: Option<Seq<char>> },
    Other,
}

/// The views of the entries of a map, in order.
pub open spec fn entries_view(entries: Seq<MapEntry>) -> Seq<MapEntryView> {
    Seq::new(entries.len(), |i: int| entries[i]@)
}

/// The view of an optional string.
pub open spec fn payload_view(value: Option<String>) -> Option<Seq<char>> {
    match value {
        Some(s) => Some(s@),
        None => None,
    }
}

impl View for Property {
    type V = PropertyView;

    open spec fn view(&self) -> PropertyView {
        match *self {
            Property::Mapping { name, entries } => PropertyView::Mapping {
                name: name@,
                entries: entries_view(entries@),
            },
            Property::Str { name, value } => PropertyView::Str {
                name: name@,
                value: payload_view(value),
            },
            Property::Other => PropertyView::Other,
        }
    }
}

/// A row of a data table: its properties in order.
#[derive(Clone, Debug, PartialEq, Eq)]
pub struct Row {
    pub properties: Vec<Property>,
}

/// The views of the properties of a row, in order.
pub open spec fn properties_view(properties: Seq<Property>) -> Seq<PropertyView> {
    Seq::new(properties.len(), |i: int| properties[i]@)
}

impl View for Row {
    type V = Seq<PropertyView>;

    open spec fn view(&self) -> Seq<PropertyView> {
        properties_view(self.properties@)
    }
}

/// An export of an asset.
#[derive(Clone, Debug, PartialEq, Eq)]
pub enum Export {
    /// A data table and its rows in order.
    DataTable { rows: Vec<Row> },
    /// An export of any other kind.
    Other,
}

/// View of an [`Export`].
pub enum ExportView {
    DataTable { rows: Seq<Seq<PropertyView>> },
    Other,
}

/// The views of the rows of a table, in order.
pub open spec fn rows_view(rows: Seq<Row>) -> Seq<Seq<PropertyView>> {
    Seq::new(rows.len(), |i: int| rows[i]@)
}

impl View for Export {
    type V = ExportView;

    open spec fn view(&self) -> ExportView {
        match *self {
            Export::DataTable { rows } => ExportView::DataTable { rows: rows_view(rows@) },
            Export::Other => ExportView::Other,
        }
    }
}

/// A parsed asset: its exports in the order of the export table.
#[derive(Clone, Debug, PartialEq, Eq)]
pub struct Asset {
    pub exports: Vec<Export>,
}

/// The views of the exports of an asset, in order.
pub open spec fn exports_view(exports: Seq<Export>) -> Seq<ExportView> {
    Seq::new(exports.len(), |i: int| exports[i]@)
}

impl View for Asset {
    type V = Seq<ExportView>;

    open spec fn view(&self) -> Seq<ExportView> {
        exports_view(self.exports@)
    }
}

/// The place in the export table that a package index refers to. Indices
/// above zero refer to exports, counted from one; zero and the negative
/// indices refer to none.
pub open spec fn export_slot(package_index: int, export_count: int) -> Option<int> {
    if 0 < package_index <= export_count {
        Some(package_index - 1)
    } else {
        None
    }
}

impl Asset {
    /// Resolves a package index to a place in the export table.
    pub fn export_position(&self, package_index: i32) -> (r: Option<usize>)
        ensures
            match r {
                Some(slot) => export_slot(package_index as int, self@.len() as int) == Some(
                    slot as int,
                ),
                None => export_slot(package_index as int, self@.len() as int) is None,
            },
    {
        if package_index <= 0 {
            return None;
        }
        let slot: i32 = package_index - 1;
        if (slot as usize) < self.exports.len() {
            Some(slot as usize)
        } else {
            None
        }
    }
}

} // verus!
