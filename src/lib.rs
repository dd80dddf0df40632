//! Steam library-folder resolution and Proton version selection.

pub mod command;
pub mod kv;
pub mod num;
pub mod path;
pub mod paths;
pub mod proton;
pub mod shortcut;
pub mod steam;
