//! Patches the fields of a game preset table: four text fields and the
//! eleven upgrade flags of its single row.

pub mod flags;
pub mod schema;
pub mod options;
pub mod model;
pub mod error;
pub mod rules;
pub mod patch;
pub mod ready;
pub mod laws;
