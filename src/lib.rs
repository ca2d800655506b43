//! Editing of a game's graphics-settings blob: the setting catalogue, the
//! option lists offered for each setting, input validation, and the
//! read-modify-write of the JSON document kept in a registry value.

pub mod text;
pub mod selector;
pub mod setting;
pub mod validator;
pub mod document;
pub mod registry;
