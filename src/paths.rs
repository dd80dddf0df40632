//! Where the launcher keeps its own files: one compatibility directory and one
//! run directory per game, and the games' icons.

use vstd::prelude::*;

use crate::path::{join_path, path_join};

verus! {

/// The directory that holds the compatibility data of every game.
#[derive(Debug, Clone)]
pub struct DataDir(String);

/// The directory that holds the launcher's configuration.
#[derive(Debug, Clone)]
pub struct ConfigDir(String);

/// The directories that the launcher works in.
#[derive(Debug, Clone)]
pub struct Paths {
    data_dir: DataDir,
    config_dir: ConfigDir,
}

impl View for DataDir {
    type V = Seq<char>;

    closed spec fn view(&self) -> Seq<char> {
        self.0@
    }
}

impl View for ConfigDir {
    type V = Seq<char>;

    closed spec fn view(&self) -> Seq<char> {
        self.0@
    }
}

/// `name` under `sub` under `dir`.
pub open spec fn nested(dir: Seq<char>, sub: Seq<char>, name: Seq<char>) -> Seq<char> {
    path_join(path_join(dir, sub), name)
}

impl DataDir {
    pub fn new(path: String) -> (r: DataDir)
        ensures
            r@ == path@,
    {
        DataDir(path)
    }

    pub fn as_str(&self) -> (r: &str)
        ensures
            r@ == self@,
    {
        self.0.as_str()
    }

    /// The compatibility directory of a game.
    pub fn compat_dir(&self, app_id: &str) -> (r: String)
        ensures
            r@ == nested(self@, "compat"@, app_id@),
    {
        let dir = join_path(self.0.as_str(), "compat");
        join_path(dir.as_str(), app_id)
    }

    /// The directory a game runs in.
    pub fn run_dir(&self, app_id: &str) -> (r: String)
        ensures
            r@ == nested(self@, "run"@, app_id@),
    {
        let dir = join_path(self.0.as_str(), "run");
        join_path(dir.as_str(), app_id)
    }

    /// The icon file of a game.
    pub fn icon_path(&self, app_id: &str) -> (r: String)
        ensures
            r@ == nested(self@, "icons"@, app_id@ + ".png"@),
    {
        let dir = join_path(self.0.as_str(), "icons");
        let mut name = String::from_str(app_id);
        name.append(".png");
        join_path(dir.as_str(), name.as_str())
    }
}

impl ConfigDir {
    pub fn new(path: String) -> (r: ConfigDir)
        ensures
            r@ == path@,
    {
        ConfigDir(path)
    }

    pub fn as_str(&self) -> (r: &str)
        ensures
            r@ == self@,
    {
        self.0.as_str()
    }
}

impl Paths {
    pub closed spec fn data(&self) -> Seq<char> {
        self.data_dir@
    }

    pub closed spec fn config(&self) -> Seq<char> {
        self.config_dir@
    }

    pub fn new(data_dir: DataDir, config_dir: ConfigDir) -> (r: Paths)
        ensures
            r.data() == data_dir@,
            r.config() == config_dir@,
    {
        Paths { data_dir, config_dir }
    }

    pub fn data_dir(&self) -> (r: &DataDir)
        ensures
            r@ == self.data(),
    {
        &self.data_dir
    }

    pub fn config_dir(&self) -> (r: &ConfigDir)
        ensures
            r@ == self.config(),
    {
        &self.config_dir
    }

    /// The compatibility directory of a game.
    pub fn compat_dir(&self, app_id: &str) -> (r: String)
        ensures
            r@ == nested(self.data(), "compat"@, app_id@),
    {
        self.data_dir.compat_dir(app_id)
    }

    /// The directory a game runs in.
    pub fn run_dir(&self, app_id: &str) -> (r: String)
        ensures
            r@ == nested(self.data(), "run"@, app_id@),
    {
        self.data_dir.run_dir(app_id)
    }

    /// The icon file of a game.
    pub fn icon_path(&self, app_id: &str) -> (r: String)
        ensures
            r@ == nested(self.data(), "icons"@, app_id@ + ".png"@),
    {
        self.data_dir.icon_path(app_id)
    }

    /// The desktop entry file of a game, under the user's data directory
    /// `data_home`.
    pub fn application_entry(data_home: &str, app_id: &str) -> (r: String)
        ensures
            r@ == nested(data_home@, "applications"@, "proton-"@ + app_id@ + ".desktop"@),
    {
        let dir = join_path(data_home, "applications");
        let mut name = String::from_str("proton-");
        name.append(app_id);
        name.append(".desktop");
        join_path(dir.as_str(), name.as_str())
    }
}

} // verus!
