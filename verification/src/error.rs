//! Why a preset could not be patched.

use vstd::prelude::*;

verus! {

/// A reason for which patching stops. None can be retried: each means that
/// the table does not have the shape the patcher was made for.
#[derive(Clone, Debug, PartialEq, Eq)]
pub enum PatchError {
    /// The export looked up is not a data table.
    WrongExportKind,
    /// The key of a map entry is no name, or its value no integer.
    UnexpectedPropertyShape,
    /// A map key that stands for no upgrade; holds the key.
    UnrecognizedUpgradeKey(String),
    /// A string property that holds no known field; holds its identifying
    /// name.
    UnrecognizedStringField(String),
    /// A property of the row that is neither a map nor a string.
    UnexpectedExportShape,
}

/// View of a [`PatchError`].
pub enum PatchErrorView {
    WrongExportKind,
    UnexpectedPropertyShape,
    UnrecognizedUpgradeKey(Seq<char>),
    UnrecognizedStringField(Seq<char>),
    UnexpectedExportShape,
}

impl View for PatchError {
    type V = PatchErrorView;

    open spec fn view(&self) -> PatchErrorView {
        match *self {
            PatchError::WrongExportKind => PatchErrorView::WrongExportKind,
            PatchError::UnexpectedPropertyShape => PatchErrorView::UnexpectedPropertyShape,
            PatchError::UnrecognizedUpgradeKey(key) => PatchErrorView::UnrecognizedUpgradeKey(
                key@,
            ),
            PatchError::UnrecognizedStringField(name) => PatchErrorView::UnrecognizedStringField(
                name@,
            ),
            PatchError::UnexpectedExportShape => PatchErrorView::UnexpectedExportShape,
        }
    }
}

/// The message that describes an error.
pub open spec fn message_of(error: PatchErrorView) -> Seq<char> {
    match error {
        PatchErrorView::WrongExportKind => "Export is not a DataTableExport"@,
        PatchErrorView::UnexpectedPropertyShape =>
            "Map entry is not a NameProperty key with an IntProperty value"@,
        PatchErrorView::UnrecognizedUpgradeKey(key) => "Unrecognized key name: "@ + key,
        PatchErrorView::UnrecognizedStringField(name) =>
            "Unrecognized field name for StrProperty: "@ + name,
        PatchErrorView::UnexpectedExportShape => "Unrecognized export type"@,
    }
}

impl PatchError {
    /// Describes the error in words.
    pub fn message(&self) -> (r: String)
        ensures
            r@ == message_of(self@),
    {
        match self {
            PatchError::WrongExportKind => "Export is not a DataTableExport".to_owned(),
            PatchError::UnexpectedPropertyShape =>
                "Map entry is not a NameProperty key with an IntProperty value".to_owned(),
            PatchError::UnrecognizedUpgradeKey(key) => "Unrecognized key name: ".to_owned().concat(
                key.as_str(),
            ),
            PatchError::UnrecognizedStringField(name) =>
                "Unrecognized field name for StrProperty: ".to_owned().concat(name.as_str()),
            PatchError::UnexpectedExportShape => "Unrecognized export type".to_owned(),
        }
    }
}

/// A failure that carries `s` as its message.
pub fn err(s: &str) -> (r: Result<(), String>)
    ensures
        r matches Err(message) && message@ == s@,
{
    Err(s.to_owned())
}

/// Turns the outcome of patching into what a caller reports: nothing on
/// success, the message of the error on failure.
pub fn report(outcome: Result<(), PatchError>) -> (r: Result<(), String>)
    ensures
        match outcome {
            Ok(_) => r is Ok,
            Err(e) => r matches Err(message) && message@ == message_of(e@),
        },
{
    match outcome {
        Ok(_) => Ok(()),
        Err(e) => err(e.message().as_str()),
    }
}

} // verus!
