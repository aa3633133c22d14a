//! Link routing, page bridge and small decisions of the Messenger desktop shell.

pub mod text;
pub mod url_model;
pub mod navigation;
pub mod json;
pub mod script;
pub mod shell;
pub mod laws;
