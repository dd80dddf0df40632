//! Saved shortcuts to games.

use vstd::prelude::*;

verus! {

/// A game the launcher can start: its name, exe, working directory and
/// compatibility directory.
#[derive(Debug, Clone)]
pub struct Shortcut {
    pub name: String,
    pub exe_path: String,
    pub working_dir: String,
    pub compat_dir: String,
}

/// Every saved shortcut.
#[derive(Debug, Clone)]
pub struct Shortcuts {
    pub shortcuts: Vec<Shortcut>,
}

} // verus!
