//! The fixed names of the preset table: which map key stands for which
//! upgrade, and which string property holds which text field.

use vstd::prelude::*;
use crate::flags::Upgrade;

verus! {

/// Identifying name of the map property that holds the upgrade flags.
pub const UPGRADES_NAME: &'static str = "Upgrades_12_339EDA2D4B022358B32C3984E9FAE5F1";

/// Identifying name of the string property that holds the title.
pub const TITLE_NAME: &'static str = "Title_18_8D403C334BBBCC29B73D3CACCDAF0A08";

/// Identifying name of the string property that holds the author.
pub const AUTHOR_NAME: &'static str = "Author_6_5E436BFF41A27B8B13653A8CEC5D15A6";

/// Identifying name of the string property that holds the level name.
pub const LEVEL_NAME: &'static str = "LevelName_2_392769FD4066EFFA0CC1F99E8D749886";

/// Identifying name of the string property that holds the player start tag.
pub const START_TAG_NAME: &'static str = "PlayerStartTag_5_7797C3C742DE3A0B8EEE189EDBEF3683";

/// A text field of the preset.
#[derive(Clone, Copy, Debug, PartialEq, Eq, Structural)]
pub enum StringField {
    Title,
    Author,
    LevelName,
    PlayerStartTag,
}

/// The upgrade that a map key stands for, if the key is a known one.
pub open spec fn upgrade_of_key(key: Seq<char>) -> Option<Upgrade> {
    if key == "attack"@ {
        Some(Upgrade::DreamBreaker)
    } else if key == "slide"@ {
        Some(Upgrade::Slide)
    } else if key == "SlideJump"@ {
        Some(Upgrade::SolarWind)
    } else if key == "Light"@ {
        Some(Upgrade::AscendantLight)
    } else if key == "airKick"@ {
        Some(Upgrade::SunGreaves)
    } else if key == "projectile"@ {
        Some(Upgrade::SoulCutter)
    } else if key == "plunge"@ {
        Some(Upgrade::Sunsetter)
    } else if key == "powerBoost"@ {
        Some(Upgrade::Indignation)
    } else if key == "extraKick"@ {
        Some(Upgrade::HeliacalPower)
    } else if key == "chargeAttack"@ {
        Some(Upgrade::Strikebreak)
    } else if key == "wallRide"@ {
        Some(Upgrade::ClingGem)
    } else {
        None
    }
}

/// The text field that a string property holds, if its identifying name is
/// a known one.
pub open spec fn field_of_name(name: Seq<char>) -> Option<StringField> {
    if name == TITLE_NAME@ {
        Some(StringField::Title)
    } else if name == AUTHOR_NAME@ {
        Some(StringField::Author)
    } else if name == LEVEL_NAME@ {
        Some(StringField::LevelName)
    } else if name == START_TAG_NAME@ {
        Some(StringField::PlayerStartTag)
    } else {
        None
    }
}

/// Whether two strings hold the same text.
pub fn same_text(a: &str, b: &str) -> (r: bool)
    ensures
        r == (a@ == b@),
{
    let x = a.to_owned();
    let y = b.to_owned();
    x == y
}

/// Looks a map key up in the table of upgrades.
pub fn upgrade_for_key(key: &str) -> (r: Option<Upgrade>)
    ensures
        r == upgrade_of_key(key@),
{
    if same_text(key, "attack") {
        Some(Upgrade::DreamBreaker)
    } else if same_text(key, "slide") {
        Some(Upgrade::Slide)
    } else if same_text(key, "SlideJump") {
        Some(Upgrade::SolarWind)
    } else if same_text(key, "Light") {
        Some(Upgrade::AscendantLight)
    } else if same_text(key, "airKick") {
        Some(Upgrade::SunGreaves)
    } else if same_text(key, "projectile") {
        Some(Upgrade::SoulCutter)
    } else if same_text(key, "plunge") {
        Some(Upgrade::Sunsetter)
    } else if same_text(key, "powerBoost") {
        Some(Upgrade::Indignation)
    } else if same_text(key, "extraKick") {
        Some(Upgrade::HeliacalPower)
    } else if same_text(key, "chargeAttack") {
        Some(Upgrade::Strikebreak)
    } else if same_text(key, "wallRide") {
        Some(Upgrade::ClingGem)
    } else {
        None
    }
}

/// Looks the identifying name of a string property up in the table of text
/// fields.
pub fn field_for_name(name: &str) -> (r: Option<StringField>)
    ensures
        r == field_of_name(name@),
{
    if same_text(name, TITLE_NAME) {
        Some(StringField::Title)
    } else if same_text(name, AUTHOR_NAME) {
        Some(StringField::Author)
    } else if same_text(name, LEVEL_NAME) {
        Some(StringField::LevelName)
    } else if same_text(name, START_TAG_NAME) {
        Some(StringField::PlayerStartTag)
    } else {
        None
    }
}

/// Whether `name` is the identifying name of the upgrades map.
pub fn is_upgrades_name(name: &str) -> (r: bool)
    ensures
        r == (name@ == UPGRADES_NAME@),
{
    same_text(name, UPGRADES_NAME)
}

} // verus!
