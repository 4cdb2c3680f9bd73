//! What a caller asks the preset to hold.

use vstd::prelude::*;
use crate::flags::UpgradeFlags;
use crate::schema::StringField;

verus! {

/// The values to write into the preset: four texts, taken as they are, and
/// the upgrade flags.
#[derive(Clone, Debug, PartialEq, Eq)]
pub struct Options {
    pub title: String,
    pub author: String,
    pub level: String,
    pub start_tag: String,
    pub upgrade_flags: UpgradeFlags,
}

/// View of [`Options`].
pub struct OptionsView {
    pub title: Seq<char>,
    pub author: Seq<char>,
    pub level: Seq<char>,
    pub start_tag: Seq<char>,
    pub upgrade_flags: UpgradeFlags,
}

impl OptionsView {
    /// The text asked for `field`.
    pub open spec fn text(self, field: StringField) -> Seq<char> {
        match field {
            StringField::Title => self.title,
            StringField::Author => self.author,
            StringField::LevelName => self.level,
            StringField::PlayerStartTag => self.start_tag,
        }
    }
}

impl View for Options {
    type V = OptionsView;

    open spec fn view(&self) -> OptionsView {
        OptionsView {
            title: self.title@,
            author: self.author@,
            level: self.level@,
            start_tag: self.start_tag@,
            upgrade_flags: self.upgrade_flags,
        }
    }
}

impl Options {
    /// The text asked for `field`.
    pub fn text(&self, field: StringField) -> (r: &String)
        ensures
            r@ == self@.text(field),
    {
        match field {
            StringField::Title => &self.title,
            StringField::Author => &self.author,
            StringField::LevelName => &self.level,
            StringField::PlayerStartTag => &self.start_tag,
        }
    }
}

} // verus!
