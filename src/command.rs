//! The launcher's commands as plain data, with the decisions each one makes
//! before it touches the disk or starts a process.

use vstd::prelude::*;

use crate::path::{file_stem, file_stem_of, join_path, parent, parent_of, path_join};
use crate::paths::{nested, Paths};
use crate::proton::{all_versions, appid_of, is_best_installed, ProtonVersion};
use crate::steam::{app_listed, SteamData};

verus! {

/// Why a command failed.
#[derive(Debug)]
pub enum RunnableError {
    /// No Proton version is installed.
    NoProtonAtAll,
    /// The Proton version asked for is not installed.
    SelectedProtonNotInstalled(ProtonVersion),
    /// Neither an exe nor arguments were given.
    NoExe,
    /// The game could not be started; the message of the failure.
    SpawnError(String),
    /// A file operation failed; the message of the failure.
    IOError(String),
}

pub type RunnableResult<O> = Result<O, RunnableError>;

/// A command that runs against the launcher's directories and a Steam
/// installation.
pub trait Runnable {
    fn run(&self, paths: &Paths, steam_data: &SteamData) -> RunnableResult<()>;
}

/// The views of a list of strings.
pub open spec fn strings_view(s: Seq<String>) -> Seq<Seq<char>> {
    s.map_values(|x: String| x@)
}

/// The name a game's data is kept under: the one given, else the stem of the
/// game's exe.
pub open spec fn save_name_of(given: Option<Seq<char>>, exe: Seq<char>) -> Option<Seq<char>> {
    match given {
        Some(name) => Some(name),
        None => file_stem_of(exe),
    }
}

pub open spec fn opt_view(s: Option<String>) -> Option<Seq<char>> {
    match s {
        Some(x) => Some(x@),
        None => None,
    }
}

/// The name a game's data is kept under: `save_name` where given, else the
/// stem of `exe`; `None` where `exe` has no file name.
pub fn save_name_for(save_name: &Option<String>, exe: &str) -> (r: Option<String>)
    ensures
        opt_view(r) == save_name_of(opt_view(*save_name), exe@),
{
    match save_name {
        Some(name) => Some(name.clone()),
        None => file_stem(exe),
    }
}

fn clone_strings(s: &Vec<String>, from: usize) -> (r: Vec<String>)
    requires
        from <= s.len(),
    ensures
        strings_view(r@) == strings_view(s@).subrange(from as int, s.len() as int),
{
    let mut r: Vec<String> = Vec::new();
    let mut i: usize = from;
    while i < s.len()
        invariant
            from <= i <= s.len(),
            strings_view(r@) == strings_view(s@).subrange(from as int, i as int),
        decreases s.len() - i,
    {
        let c = s[i].clone();
        assert(c@ == s@[i as int]@);
        let ghost prev = r@;
        r.push(c);
        assert(r@ == prev.push(c));
        assert(strings_view(r@) =~= strings_view(prev).push(c@));
        assert(strings_view(s@).subrange(from as int, i + 1) =~= strings_view(s@).subrange(
            from as int,
            i as int,
        ).push(s@[i as int]@));
        i = i + 1;
    }
    r
}

/// Runs a game with Proton.
pub struct Run {
    /// The game's exe; where absent, the first argument.
    pub exe: Option<String>,
    /// The arguments handed to the game.
    pub args: Vec<String>,
    pub save_name: Option<String>,
    /// The Proton version asked for.
    pub proton: Option<ProtonVersion>,
    /// Run the game in the directory of its exe.
    pub here: bool,
}

/// What a run starts: a Proton version, the game's exe and its arguments.
pub struct Launch {
    pub proton: ProtonVersion,
    pub exe: String,
    pub args: Vec<String>,
}

impl Run {
    /// The exe to run and its arguments: the exe given and every argument,
    /// else the first argument and the rest.
    pub fn get_exe_and_args(&self) -> (r: Result<(String, Vec<String>), RunnableError>)
        ensures
            match self.exe {
                Some(e) => r matches Ok((x, a)) && x@ == e@ && strings_view(a@) == strings_view(
                    self.args@,
                ),
                None => if self.args.len() > 0 {
                    r matches Ok((x, a)) && x@ == self.args[0]@ && strings_view(a@) == strings_view(
                        self.args@,
                    ).drop_first()
                } else {
                    r matches Err(RunnableError::NoExe)
                },
            },
    {
        match &self.exe {
            Some(exe) => {
                let args = clone_strings(&self.args, 0);
                assert(strings_view(self.args@).subrange(0, self.args.len() as int) =~= strings_view(
                    self.args@,
                ));
                Ok((exe.clone(), args))
            },
            None => {
                if self.args.len() > 0 {
                    let args = clone_strings(&self.args, 1);
                    Ok((self.args[0].clone(), args))
                } else {
                    Err(RunnableError::NoExe)
                }
            },
        }
    }

    /// Decides what to launch: the Proton version asked for, which must be
    /// installed, else the most preferred installed one; and the exe with its
    /// arguments. Errors come in that order: a version asked for that is not
    /// installed, then a missing exe, then no installed version at all.
    pub fn prepare(&self, steam: &SteamData) -> (r: RunnableResult<Launch>)
        ensures
            match self.proton {
                Some(p) => !app_listed(steam.folders(), appid_of(p)) ==> (r matches Err(
                    RunnableError::SelectedProtonNotInstalled(q),
                ) && q == p),
                None => true,
            },
            (self.proton is None || app_listed(steam.folders(), appid_of(self.proton->0)))
                && self.exe is None && self.args.len() == 0 ==> r matches Err(RunnableError::NoExe),
            self.proton is None && (self.exe is Some || self.args.len() > 0) && (forall|k: int|
                0 <= k < all_versions().len() ==> !app_listed(
                    steam.folders(),
                    appid_of(#[trigger] all_versions()[k]),
                )) ==> r matches Err(RunnableError::NoProtonAtAll),
            r matches Ok(l) ==> {
                &&& (match self.proton {
                    Some(p) => l.proton == p && app_listed(steam.folders(), appid_of(p)),
                    None => exists|i: int|
                        is_best_installed(steam, i) && l.proton == all_versions()[i],
                })
                &&& match self.exe {
                    Some(e) => l.exe@ == e@ && strings_view(l.args@) == strings_view(self.args@),
                    None => self.args.len() > 0 && l.exe@ == self.args[0]@ && strings_view(l.args@)
                        == strings_view(self.args@).drop_first(),
                }
            },
            r is Err ==> r matches Err(RunnableError::SelectedProtonNotInstalled(_)) || r matches Err(
                RunnableError::NoExe,
            ) || r matches Err(RunnableError::NoProtonAtAll),
            (self.exe is Some || self.args.len() > 0) && (match self.proton {
                Some(p) => app_listed(steam.folders(), appid_of(p)),
                None => exists|k: int|
                    0 <= k < all_versions().len() && app_listed(
                        steam.folders(),
                        appid_of(#[trigger] all_versions()[k]),
                    ),
            }) ==> r is Ok,
    {
        let selected = match self.proton {
            Some(p) => {
                if !p.is_installed(steam) {
                    return Err(RunnableError::SelectedProtonNotInstalled(p));
                }
                Some(p)
            },
            None => None,
        };
        let (exe, args) = match self.get_exe_and_args() {
            Ok(found) => found,
            Err(e) => return Err(e),
        };
        let proton = match selected {
            Some(p) => p,
            None => match ProtonVersion::best_installed(steam) {
                Some(p) => p,
                None => return Err(RunnableError::NoProtonAtAll),
            },
        };
        Ok(Launch { proton, exe, args })
    }

    /// The directory the game runs in: the directory of its exe where asked
    /// for (`None` where the exe has none), else its run directory.
    pub fn run_dir(&self, paths: &Paths, exe: &str, save_name: &str) -> (r: Option<String>)
        ensures
            self.here ==> opt_view(r) == parent_of(exe@),
            !self.here ==> (r matches Some(d) && d@ == nested(paths.data(), "run"@, save_name@)),
    {
        if self.here {
            parent(exe)
        } else {
            Some(paths.run_dir(save_name))
        }
    }
}

/// The program that starts a game under the Proton installed in `proton_dir`,
/// and its arguments: `run`, the exe, then the game's arguments.
pub fn proton_command(proton_dir: &str, exe: &str, args: &Vec<String>) -> (r: (String, Vec<String>))
    ensures
        r.0@ == path_join(proton_dir@, "proton"@),
        strings_view(r.1@) == seq!["run"@, exe@] + strings_view(args@),
{
    let program = join_path(proton_dir, "proton");
    let mut argv: Vec<String> = Vec::new();
    argv.push(String::from_str("run"));
    argv.push(String::from_str(exe));
    let mut i: usize = 0;
    while i < args.len()
        invariant
            i <= args.len(),
            strings_view(argv@) == seq!["run"@, exe@] + strings_view(args@).subrange(0, i as int),
        decreases args.len() - i,
    {
        let c = args[i].clone();
        assert(c@ == args@[i as int]@);
        let ghost prev = argv@;
        argv.push(c);
        assert(argv@ == prev.push(c));
        assert(strings_view(argv@) =~= strings_view(prev).push(c@));
        assert(strings_view(args@).subrange(0, i + 1) =~= strings_view(args@).subrange(
            0,
            i as int,
        ).push(args@[i as int]@));
        assert(strings_view(argv@) =~= seq!["run"@, exe@] + strings_view(args@).subrange(
            0,
            i + 1,
        ));
        i = i + 1;
    }
    assert(strings_view(args@).subrange(0, args.len() as int) =~= strings_view(args@));
    (program, argv)
}

/// Which way a compatibility directory is copied.
#[derive(Debug, Clone, Copy, PartialEq, Eq, Structural)]
pub enum MoveDirection {
    /// From the launcher's data directory to a `compat` directory beside the exe.
    GlobalToLocal,
    /// From the `compat` directory beside the exe to the launcher's data directory.
    LocalToGlobal,
}

/// Copies a game's compatibility directory between the launcher's data
/// directory and the game's own directory.
pub struct MoveCompat {
    pub direction: MoveDirection,
    pub exe: String,
    pub save_name: Option<String>,
}

impl MoveCompat {
    /// The source and the destination of the copy; `None` where the save name
    /// or the exe's directory cannot be found.
    pub fn transfer(&self, paths: &Paths) -> (r: Option<(String, String)>)
        ensures
            match (save_name_of(opt_view(self.save_name), self.exe@), parent_of(self.exe@)) {
                (Some(name), Some(dir)) => r matches Some((from, to)) && {
                    let global = path_join(paths.data(), name);
                    let local = path_join(dir, "compat"@);
                    match self.direction {
                        MoveDirection::GlobalToLocal => from@ == global && to@ == local,
                        MoveDirection::LocalToGlobal => from@ == local && to@ == global,
                    }
                },
                _ => r is None,
            },
    {
        let name = match save_name_for(&self.save_name, self.exe.as_str()) {
            Some(name) => name,
            None => return None,
        };
        let dir = match parent(self.exe.as_str()) {
            Some(dir) => dir,
            None => return None,
        };
        let global = join_path(paths.data_dir().as_str(), name.as_str());
        let local = join_path(dir.as_str(), "compat");
        match self.direction {
            MoveDirection::GlobalToLocal => Some((global, local)),
            MoveDirection::LocalToGlobal => Some((local, global)),
        }
    }
}

/// `s` holds `t` somewhere.
pub open spec fn contains_text(s: Seq<char>, t: Seq<char>) -> bool {
    exists|i: int| 0 <= i && i + t.len() <= s.len() && #[trigger] s.subrange(i, i + t.len()) == t
}

fn has_text(s: &str, t: &str) -> (r: bool)
    ensures
        r == contains_text(s@, t@),
{
    let n = s.unicode_len();
    let m = t.unicode_len();
    if m > n {
        return false;
    }
    if m == 0 {
        assert(s@.subrange(0int, 0int + t@.len()) =~= t@);
        return true;
    }
    let target = String::from_str(t);
    let mut i: usize = 0;
    while i <= n - m
        invariant
            i <= n - m + 1,
            1 <= m,
            n == s@.len(),
            m == t@.len(),
            m <= n,
            target@ == t@,
            forall|k: int| 0 <= k < i ==> #[trigger] s@.subrange(k, k + m) != t@,
        decreases n - m + 1 - i,
    {
        let part = String::from_str(s.substring_char(i, i + m));
        if part == target {
            return true;
        }
        i = i + 1;
    }
    false
}

/// Backs up the save files of a game.
pub struct Backup {
    pub exe: String,
    pub save_name: Option<String>,
}

impl Backup {
    /// A file of the game's prefix, by its path relative to the prefix, is a
    /// new save file: the prefix did not list it when it was made, and it lies
    /// under the users' directories.
    pub fn is_new_save_file(relative: &str, listed: &Vec<String>) -> (r: bool)
        ensures
            r == (!(exists|k: int| 0 <= k < listed.len() && (#[trigger] listed[k])@ == relative@)
                && contains_text(relative@, "users"@)),
    {
        let mut k: usize = 0;
        while k < listed.len()
            invariant
                k <= listed.len(),
                forall|j: int| 0 <= j < k ==> (#[trigger] listed[j])@ != relative@,
            decreases listed.len() - k,
        {
            if listed[k].as_str().unicode_len() == relative.unicode_len() && String::from_str(
                relative,
            ) == listed[k] {
                return false;
            }
            k = k + 1;
        }
        has_text(relative, "users")
    }

    /// The name of the archive that a backup writes.
    pub fn archive_name(save_name: &str) -> (r: String)
        ensures
            r@ == save_name@ + ".backup"@,
    {
        let mut name = String::from_str(save_name);
        name.append(".backup");
        name
    }
}

/// Restores the save files of a game from a backup.
pub struct Restore {
    pub backup: String,
    pub save_name: Option<String>,
}

/// Asks Steam to install a Proton version.
pub struct Install {
    pub version: ProtonVersion,
}

/// Asks Steam to uninstall a Proton version.
pub struct Uninstall {
    pub version: ProtonVersion,
}

/// Shows what is known of one Proton version, or of all of them.
pub struct Info {
    pub version: Option<ProtonVersion>,
}

impl Info {
    /// The versions to show: the one asked for, else every version.
    pub fn versions(&self) -> (r: Vec<ProtonVersion>)
        ensures
            match self.version {
                Some(v) => r@ == seq![v],
                None => r@ == all_versions(),
            },
    {
        match self.version {
            Some(v) => {
                let r = vec![v];
                assert(r@ =~= seq![v]);
                r
            },
            None => ProtonVersion::all(),
        }
    }
}

/// A freedesktop desktop entry that starts a game.
#[derive(Debug, Clone)]
pub struct DesktopEntry {
    pub xdg_type: String,
    pub version: String,
    pub name: String,
    pub comment: String,
    pub command: String,
    pub path: String,
    pub terminal: Option<String>,
    pub icon: String,
    pub generic_name: String,
    pub categories: String,
}

impl DesktopEntry {
    /// An application entry named `name`, a game, with nothing to run yet.
    pub fn new(name: &str) -> (r: DesktopEntry)
        ensures
            r.xdg_type@ == "Application"@,
            r.version@ == "1.0"@,
            r.name@ == name@,
            r.comment@ == ""@,
            r.icon@ == name@,
            r.command@ == ""@,
            r.path@ == ""@,
            r.terminal is None,
            r.generic_name@ == "Game"@,
            r.categories@ == "Game"@,
    {
        DesktopEntry {
            xdg_type: String::from_str("Application"),
            version: String::from_str("1.0"),
            name: String::from_str(name),
            comment: String::from_str(""),
            icon: String::from_str(name),
            command: String::from_str(""),
            path: String::from_str(""),
            terminal: None,
            generic_name: String::from_str("Game"),
            categories: String::from_str("Game"),
        }
    }
}

/// Makes a desktop entry for a game.
pub struct MakeDE {
    pub exe: String,
    pub name: String,
    pub save_name: Option<String>,
}

impl MakeDE {
    /// The entry that starts the game through the launcher with the save
    /// name `save_name`, in `run_dir`, showing the icon at `icon_path`.
    pub fn desktop_entry(&self, save_name: &str, run_dir: &str, icon_path: &str) -> (r:
        DesktopEntry)
        ensures
            r.xdg_type@ == "Application"@,
            r.version@ == "1.0"@,
            r.name@ == self.name@,
            r.comment@ == "Run "@ + self.name@ + " with Proton"@,
            r.command@ == "proton-launch run -s "@ + save_name@ + " "@ + self.exe@ + " "@,
            r.path@ == run_dir@,
            r.terminal is None,
            r.icon@ == icon_path@,
            r.generic_name@ == "Game"@,
            r.categories@ == "Game"@,
    {
        let mut de = DesktopEntry::new(self.name.as_str());
        let mut comment = String::from_str("Run ");
        comment.append(self.name.as_str());
        comment.append(" with Proton");
        de.comment = comment;
        let mut line = String::from_str("proton-launch run -s ");
        line.append(save_name);
        line.append(" ");
        line.append(self.exe.as_str());
        line.append(" ");
        de.command = line;
        de.path = String::from_str(run_dir);
        de.icon = String::from_str(icon_path);
        de
    }
}

/// One of the launcher's commands.
pub enum ProtonCommand {
    Run(Run),
    MoveCompat(MoveCompat),
    Backup(Backup),
    Restore(Restore),
    Install(Install),
    Uninstall(Uninstall),
    Info(Info),
    DesktopEntry(MakeDE),
}

} // verus!
