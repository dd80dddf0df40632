//! The Steam library folders: which folders exist, which apps each holds, and
//! where an app's files are installed.

use vstd::prelude::*;

use crate::kv::{
    entries_view, kv_parse, lemma_entries_view, lookup, lookup_values, nodes_view, parse_document,
    KvNode, KvTree,
};
use crate::num::{decimal, decimal_string, parse_u32, parse_u64, parse_unsigned};
use crate::path::{join_path, path_join};

verus! {

/// Why a Steam installation could not be read.
#[derive(Debug)]
pub enum SteamDataError {
    /// No installation directory was found.
    NoSteamDir,
    /// The library folders manifest is missing, or its root is not a mapping.
    NoLibraryFolders,
    /// Reading a file failed; the message of the failure.
    IOError(String),
    /// The library folders manifest is not well-formed key-value text.
    KVParser(keyvalues_parser::error::Error),
}

pub type SteamResult<T> = Result<T, SteamDataError>;

/// The mathematical form of a library folder.
pub struct FolderModel {
    pub path: Seq<char>,
    pub apps: Seq<u64>,
}

/// A library folder: its `steamapps` directory and the ids of the apps in it.
#[derive(Debug, Clone)]
pub struct LibraryFolder {
    path: String,
    apps: Vec<u64>,
}

impl View for LibraryFolder {
    type V = FolderModel;

    closed spec fn view(&self) -> FolderModel {
        FolderModel { path: self.path@, apps: self.apps@ }
    }
}

/// The library folders, in the order of the manifest.
#[derive(Debug, Clone)]
pub struct LibraryFolders(Vec<LibraryFolder>);

impl View for LibraryFolders {
    type V = Seq<FolderModel>;

    closed spec fn view(&self) -> Seq<FolderModel> {
        self.0@.map_values(|f: LibraryFolder| f@)
    }
}

/// The app ids that the keys of a mapping denote, keys that are no `u64`
/// left out.
pub open spec fn app_ids_of_keys(entries: Seq<(Seq<char>, Seq<KvTree>)>) -> Seq<u64>
    decreases entries.len(),
{
    if entries.len() == 0 {
        seq![]
    } else {
        let rest = app_ids_of_keys(entries.drop_last());
        match parse_unsigned(entries.last().0, u64::MAX as nat) {
            Some(n) => rest.push(n as u64),
            None => rest,
        }
    }
}

/// The app ids listed under the values of an `apps` key: the keys of each
/// value that is a mapping.
pub open spec fn app_ids_of(values: Seq<KvTree>) -> Seq<u64>
    decreases values.len(),
{
    if values.len() == 0 {
        seq![]
    } else {
        app_ids_of(values.drop_last()) + match values.last() {
            KvTree::Obj(es) => app_ids_of_keys(es),
            KvTree::Str(_) => seq![],
        }
    }
}

/// The library folder that a manifest value describes: a mapping with a
/// string under `path` and an `apps` key.
pub open spec fn folder_of(value: KvTree) -> Option<FolderModel> {
    match value {
        KvTree::Obj(fields) => match (lookup(fields, "path"@), lookup(fields, "apps"@)) {
            (Some(pv), Some(av)) => if pv.len() > 0 && pv[0] is Str {
                Some(
                    FolderModel {
                        path: path_join(pv[0]->Str_0, "steamapps"@),
                        apps: app_ids_of(av),
                    },
                )
            } else {
                None
            },
            _ => None,
        },
        KvTree::Str(_) => None,
    }
}

/// The library folder of one top-level entry: its key is a `u32` and it holds
/// exactly one value, which describes a folder.
pub open spec fn folder_entry(entry: (Seq<char>, Seq<KvTree>)) -> Option<FolderModel> {
    if parse_unsigned(entry.0, u32::MAX as nat) is Some && entry.1.len() == 1 {
        folder_of(entry.1[0])
    } else {
        None
    }
}

/// The library folders of the top-level entries, in their order.
pub open spec fn folders_of(entries: Seq<(Seq<char>, Seq<KvTree>)>) -> Seq<FolderModel>
    decreases entries.len(),
{
    if entries.len() == 0 {
        seq![]
    } else {
        let rest = folders_of(entries.drop_last());
        match folder_entry(entries.last()) {
            Some(f) => rest.push(f),
            None => rest,
        }
    }
}

/// The library folders of a manifest's document; `None` where its root is no
/// mapping.
pub open spec fn library_folders_of(doc: KvTree) -> Option<Seq<FolderModel>> {
    match doc {
        KvTree::Obj(es) => Some(folders_of(es)),
        KvTree::Str(_) => None,
    }
}

/// The app ids that the keys of a mapping node denote.
fn app_ids_from_keys(node: &KvNode, ids: &mut Vec<u64>)
    ensures
        final(ids)@ == old(ids)@ + match node@ {
            KvTree::Obj(es) => app_ids_of_keys(es),
            KvTree::Str(_) => seq![],
        },
{
    if let Some(entries) = node.get_mapping() {
        let ghost es = entries_view(*entries);
        let ghost start = ids@;
        proof {
            lemma_entries_view(*entries);
        }
        let mut i: usize = 0;
        while i < entries.len()
            invariant
                es == entries_view(*entries),
                es.len() == entries.len(),
                forall|k: int|
                    0 <= k < entries.len() ==> (#[trigger] es[k]).0 == entries[k].key@,
                i <= entries.len(),
                ids@ == start + app_ids_of_keys(es.subrange(0, i as int)),
            decreases entries.len() - i,
        {
            let ghost pre = es.subrange(0, i as int);
            let ghost next = es.subrange(0, i + 1);
            assert(next.drop_last() =~= pre);
            assert(next.last() == es[i as int]);
            match parse_u64(entries[i].key.as_str()) {
                Some(n) => {
                    ids.push(n);
                    assert(ids@ =~= start + app_ids_of_keys(next));
                },
                None => {},
            }
            i = i + 1;
        }
        assert(es.subrange(0, entries.len() as int) =~= es);
    } else {
        assert(ids@ =~= old(ids)@ + seq![]);
    }
}

/// The app ids listed under the values of an `apps` key.
fn app_ids_from(values: &Vec<KvNode>) -> (r: Vec<u64>)
    ensures
        r@ == app_ids_of(nodes_view(values@)),
{
    let ghost vs = nodes_view(values@);
    let mut ids: Vec<u64> = Vec::new();
    let mut i: usize = 0;
    while i < values.len()
        invariant
            vs == nodes_view(values@),
            i <= values.len(),
            ids@ == app_ids_of(vs.subrange(0, i as int)),
        decreases values.len() - i,
    {
        let ghost next = vs.subrange(0, i + 1);
        assert(next.drop_last() =~= vs.subrange(0, i as int));
        assert(next.last() == values[i as int]@);
        app_ids_from_keys(&values[i], &mut ids);
        i = i + 1;
    }
    assert(vs.subrange(0, values.len() as int) =~= vs);
    ids
}

/// The library folder that a manifest value describes.
fn folder_from(value: &KvNode) -> (r: Option<LibraryFolder>)
    ensures
        match folder_of(value@) {
            Some(f) => r matches Some(lf) && lf@ == f,
            None => r is None,
        },
{
    let fields = match value.get_mapping() {
        Some(fields) => fields,
        None => return None,
    };
    let path_values = match lookup_values(fields, &String::from_str("path")) {
        Some(vs) => vs,
        None => return None,
    };
    let app_values = match lookup_values(fields, &String::from_str("apps")) {
        Some(vs) => vs,
        None => return None,
    };
    if path_values.len() == 0 {
        return None;
    }
    assert(nodes_view(path_values@)[0] == path_values[0]@);
    let root = match path_values[0].get_scalar() {
        Some(s) => s,
        None => return None,
    };
    let path = join_path(root.as_str(), "steamapps");
    let apps = app_ids_from(app_values);
    Some(LibraryFolder { path, apps })
}

impl LibraryFolders {
    /// The library folders that a manifest's document lists.
    pub fn from_document(doc: &KvNode) -> (r: SteamResult<LibraryFolders>)
        ensures
            match library_folders_of(doc@) {
                Some(fs) => r matches Ok(l) && l@ == fs,
                None => r matches Err(SteamDataError::NoLibraryFolders),
            },
    {
        let entries = match doc.get_mapping() {
            Some(entries) => entries,
            None => return Err(SteamDataError::NoLibraryFolders),
        };
        let ghost es = entries_view(*entries);
        proof {
            lemma_entries_view(*entries);
        }
        let mut folders: Vec<LibraryFolder> = Vec::new();
        let mut i: usize = 0;
        while i < entries.len()
            invariant
                es == entries_view(*entries),
                es.len() == entries.len(),
                forall|k: int|
                    0 <= k < entries.len() ==> (#[trigger] es[k]) == (
                        entries[k].key@,
                        nodes_view(entries[k].values@),
                    ),
                i <= entries.len(),
                LibraryFolders(folders)@ == folders_of(es.subrange(0, i as int)),
            decreases entries.len() - i,
        {
            let ghost next = es.subrange(0, i + 1);
            assert(next.drop_last() =~= es.subrange(0, i as int));
            assert(next.last() == es[i as int]);
            let entry = &entries[i];
            if parse_u32(entry.key.as_str()).is_some() && entry.values.len() == 1 {
                assert(nodes_view(entry.values@)[0] == entry.values[0]@);
                match folder_from(&entry.values[0]) {
                    Some(f) => {
                        folders.push(f);
                        assert(LibraryFolders(folders)@ =~= folders_of(next));
                    },
                    None => {},
                }
            }
            i = i + 1;
        }
        assert(es.subrange(0, entries.len() as int) =~= es);
        Ok(LibraryFolders(folders))
    }

    /// The library folders that the text of a folders manifest lists.
    pub fn from_vdf(vdf: &str) -> (r: SteamResult<LibraryFolders>)
        ensures
            match kv_parse(vdf@) {
                None => r matches Err(SteamDataError::KVParser(_)),
                Some(doc) => match library_folders_of(doc) {
                    Some(fs) => r matches Ok(l) && l@ == fs,
                    None => r matches Err(SteamDataError::NoLibraryFolders),
                },
            },
    {
        match parse_document(vdf) {
            Ok(doc) => LibraryFolders::from_document(&doc),
            Err(e) => Err(SteamDataError::KVParser(e)),
        }
    }
}

/// Whether some folder lists `app_id`.
pub open spec fn app_listed(folders: Seq<FolderModel>, app_id: u64) -> bool {
    exists|i: int| 0 <= i < folders.len() && (#[trigger] folders[i]).apps.contains(app_id)
}

/// `i` is the first folder that lists `app_id`.
pub open spec fn is_first_holder(folders: Seq<FolderModel>, app_id: u64, i: int) -> bool {
    &&& 0 <= i < folders.len()
    &&& folders[i].apps.contains(app_id)
    &&& forall|k: int| 0 <= k < i ==> !(#[trigger] folders[k]).apps.contains(app_id)
}

/// The first folder that lists `app_id`.
pub open spec fn first_holder(folders: Seq<FolderModel>, app_id: u64) -> Option<int> {
    if exists|i: int| is_first_holder(folders, app_id, i) {
        Some(choose|i: int| is_first_holder(folders, app_id, i))
    } else {
        None
    }
}

proof fn lemma_first_holder_at(folders: Seq<FolderModel>, app_id: u64, i: int)
    requires
        is_first_holder(folders, app_id, i),
    ensures
        first_holder(folders, app_id) == Some(i),
{
    let j = choose|j: int| is_first_holder(folders, app_id, j);
    assert(is_first_holder(folders, app_id, j));
    if j < i {
        assert(!folders[j].apps.contains(app_id));
    } else if i < j {
        assert(!folders[i].apps.contains(app_id));
    }
}

proof fn lemma_no_holder(folders: Seq<FolderModel>, app_id: u64)
    requires
        forall|k: int| 0 <= k < folders.len() ==> !(#[trigger] folders[k]).apps.contains(app_id),
    ensures
        first_holder(folders, app_id) is None,
        !app_listed(folders, app_id),
{
}

/// The name of an app's manifest file in its library folder.
pub open spec fn manifest_name(app_id: u64) -> Seq<char> {
    "appmanifest_"@ + decimal(app_id as nat) + ".acf"@
}

/// The install directory that an app manifest's document names: the string
/// first written under `installdir` in its root mapping.
pub open spec fn install_dir_of(doc: KvTree) -> Option<Seq<char>> {
    match doc {
        KvTree::Obj(es) => match lookup(es, "installdir"@) {
            Some(vs) => if vs.len() > 0 && vs[0] is Str {
                Some(vs[0]->Str_0)
            } else {
                None
            },
            None => None,
        },
        KvTree::Str(_) => None,
    }
}

/// Where an app is installed, given the document of its manifest: the
/// `common/<installdir>` directory of the first folder that lists it.
pub open spec fn app_dir_of(folders: Seq<FolderModel>, app_id: u64, doc: Option<KvTree>) -> Option<
    Seq<char>,
> {
    match (first_holder(folders, app_id), doc) {
        (Some(i), Some(d)) => match install_dir_of(d) {
            Some(dir) => Some(path_join(path_join(folders[i].path, "common"@), dir)),
            None => None,
        },
        _ => None,
    }
}

/// What the parser makes of a manifest's text, where there is one.
pub open spec fn manifest_doc(manifest: Option<Seq<char>>) -> Option<KvTree> {
    match manifest {
        Some(text) => kv_parse(text),
        None => None,
    }
}

/// The install directory named by an app manifest's document.
pub fn install_dir(doc: &KvNode) -> (r: Option<&String>)
    ensures
        match install_dir_of(doc@) {
            Some(dir) => r matches Some(s) && s@ == dir,
            None => r is None,
        },
{
    let fields = match doc.get_mapping() {
        Some(fields) => fields,
        None => return None,
    };
    let values = match lookup_values(fields, &String::from_str("installdir")) {
        Some(vs) => vs,
        None => return None,
    };
    if values.len() == 0 {
        return None;
    }
    assert(nodes_view(values@)[0] == values[0]@);
    values[0].get_scalar()
}

impl LibraryFolder {
    /// The folder's `steamapps` directory.
    pub fn path(&self) -> (r: &String)
        ensures
            r@ == self@.path,
    {
        &self.path
    }

    /// The ids of the apps in the folder.
    pub fn apps(&self) -> (r: &Vec<u64>)
        ensures
            r@ == self@.apps,
    {
        &self.apps
    }

    fn has_game(&self, appid: u64) -> (r: bool)
        ensures
            r == self@.apps.contains(appid),
    {
        let mut i: usize = 0;
        while i < self.apps.len()
            invariant
                i <= self.apps.len(),
                forall|k: int| 0 <= k < i ==> self.apps[k] != appid,
            decreases self.apps.len() - i,
        {
            if self.apps[i] == appid {
                assert(self@.apps[i as int] == appid);
                return true;
            }
            i = i + 1;
        }
        false
    }
}

impl LibraryFolders {
    /// The folders, in the order of the manifest.
    pub fn folders(&self) -> (r: &Vec<LibraryFolder>)
        ensures
            r@.map_values(|f: LibraryFolder| f@) == self@,
    {
        &self.0
    }

    /// Whether some library folder lists `appid`.
    pub fn has_app(&self, appid: u64) -> (r: bool)
        ensures
            r == app_listed(self@, appid),
    {
        let mut i: usize = 0;
        while i < self.0.len()
            invariant
                i <= self.0.len(),
                forall|k: int| 0 <= k < i ==> !(#[trigger] self@[k]).apps.contains(appid),
            decreases self.0.len() - i,
        {
            if self.0[i].has_game(appid) {
                assert(self@[i as int].apps.contains(appid));
                return true;
            }
            i = i + 1;
        }
        false
    }

    /// The index of the first library folder that lists `app_id`.
    fn find_holder(&self, app_id: u64) -> (r: Option<usize>)
        ensures
            match first_holder(self@, app_id) {
                Some(i) => r matches Some(j) && j as int == i && 0 <= i < self@.len(),
                None => r is None,
            },
    {
        let mut i: usize = 0;
        while i < self.0.len()
            invariant
                i <= self.0.len(),
                forall|k: int| 0 <= k < i ==> !(#[trigger] self@[k]).apps.contains(app_id),
            decreases self.0.len() - i,
        {
            if self.0[i].has_game(app_id) {
                proof {
                    lemma_first_holder_at(self@, app_id, i as int);
                }
                return Some(i);
            }
            i = i + 1;
        }
        proof {
            lemma_no_holder(self@, app_id);
        }
        None
    }

    /// The path of the manifest file of `app_id`, in the first library folder
    /// that lists it.
    pub fn manifest_path(&self, app_id: u64) -> (r: Option<String>)
        ensures
            match first_holder(self@, app_id) {
                Some(i) => r matches Some(p) && p@ == path_join(self@[i].path, manifest_name(app_id)),
                None => r is None,
            },
    {
        let i = match self.find_holder(app_id) {
            Some(i) => i,
            None => return None,
        };
        let mut name = String::from_str("appmanifest_");
        let id = decimal_string(app_id);
        name.append(id.as_str());
        name.append(".acf");
        assert(self@[i as int] == self.0[i as int]@);
        assert(name@ == manifest_name(app_id));
        Some(join_path(self.0[i].path.as_str(), name.as_str()))
    }

    /// Where `app_id` is installed, given the document of its manifest
    /// (`None` where the manifest is missing or could not be parsed).
    pub fn app_dir_from_document(&self, app_id: u64, doc: Option<&KvNode>) -> (r: Option<String>)
        ensures
            match app_dir_of(
                self@,
                app_id,
                match doc {
                    Some(d) => Some(d@),
                    None => None,
                },
            ) {
                Some(p) => r matches Some(s) && s@ == p,
                None => r is None,
            },
    {
        let i = match self.find_holder(app_id) {
            Some(i) => i,
            None => return None,
        };
        let doc = match doc {
            Some(d) => d,
            None => return None,
        };
        let dir = match install_dir(doc) {
            Some(dir) => dir,
            None => return None,
        };
        let common = join_path(self.0[i].path.as_str(), "common");
        assert(self@[i as int] == self.0[i as int]@);
        Some(join_path(common.as_str(), dir.as_str()))
    }

    /// Where `app_id` is installed, given the text of its manifest file
    /// (`None` where that file is missing). No lookup fails with an error: an
    /// app that no folder lists, a missing or malformed manifest and one
    /// without an install directory all give `None`. The path is computed,
    /// not checked on disk.
    pub fn get_app_dir(&self, app_id: u64, manifest: Option<&str>) -> (r: Option<String>)
        ensures
            match app_dir_of(
                self@,
                app_id,
                manifest_doc(
                    match manifest {
                        Some(t) => Some(t@),
                        None => None,
                    },
                ),
            ) {
                Some(p) => r matches Some(s) && s@ == p,
                None => r is None,
            },
            !app_listed(self@, app_id) ==> r is None,
            manifest is None ==> r is None,
            manifest matches Some(t) && kv_parse(t@) is None ==> r is None,
            manifest matches Some(t) && kv_parse(t@) matches Some(d) && install_dir_of(d) is None
                ==> r is None,
    {
        proof {
            if !app_listed(self@, app_id) {
                lemma_not_listed_no_holder(self@, app_id);
            }
        }
        match manifest {
            None => None,
            Some(text) => match parse_document(text) {
                Ok(doc) => self.app_dir_from_document(app_id, Some(&doc)),
                Err(_) => None,
            },
        }
    }
}

/// A Steam installation: its base directory and its library folders.
pub struct SteamData {
    library_folders: LibraryFolders,
    pub path: String,
}

/// The installation directories to probe under a home directory, in order:
/// the sandboxed (Flatpak) installation first, then the standard one.
pub open spec fn install_candidates_of(home: Seq<char>) -> Seq<Seq<char>> {
    seq![
        path_join(path_join(home, ".var/app/com.valvesoftware.Steam"@), ".steam/steam"@),
        path_join(home, ".steam/steam"@),
    ]
}

/// `i` is the first candidate found to be a directory.
pub open spec fn is_first_present(present: Seq<bool>, i: int) -> bool {
    &&& 0 <= i < present.len()
    &&& present[i]
    &&& forall|k: int| 0 <= k < i ==> !present[k]
}

impl SteamData {
    /// The library folders of this installation.
    pub closed spec fn folders(&self) -> Seq<FolderModel> {
        self.library_folders@
    }

    /// The base installation directory.
    pub closed spec fn base(&self) -> Seq<char> {
        self.path@
    }

    /// The installation directories to probe under `home`, in priority order.
    pub fn install_candidates(home: &str) -> (r: Vec<String>)
        ensures
            r@.map_values(|s: String| s@) == install_candidates_of(home@),
    {
        let flatpak = join_path(home, ".var/app/com.valvesoftware.Steam");
        let sandboxed = join_path(flatpak.as_str(), ".steam/steam");
        let standard = join_path(home, ".steam/steam");
        let r = vec![sandboxed, standard];
        assert(r@.map_values(|s: String| s@) =~= install_candidates_of(home@));
        r
    }

    /// The first candidate that was found to be a directory (`present[i]`
    /// tells whether `candidates[i]` is one); `NoSteamDir` where none was.
    pub fn locate(candidates: &Vec<String>, present: &Vec<bool>) -> (r: SteamResult<String>)
        requires
            candidates.len() == present.len(),
        ensures
            r is Ok <==> exists|i: int| 0 <= i < present.len() && present[i],
            r matches Ok(p) ==> exists|i: int|
                is_first_present(present@, i) && p@ == (#[trigger] candidates[i])@,
            r is Err ==> r matches Err(SteamDataError::NoSteamDir),
    {
        let mut i: usize = 0;
        while i < present.len()
            invariant
                i <= present.len(),
                candidates.len() == present.len(),
                forall|k: int| 0 <= k < i ==> !present[k],
            decreases present.len() - i,
        {
            if present[i] {
                let p = candidates[i].clone();
                assert(is_first_present(present@, i as int));
                return Ok(p);
            }
            i = i + 1;
        }
        Err(SteamDataError::NoSteamDir)
    }

    /// The path of the library folders manifest under a base directory.
    pub fn library_folders_path(base: &str) -> (r: String)
        ensures
            r@ == path_join(base@, "steamapps/libraryfolders.vdf"@),
    {
        join_path(base, "steamapps/libraryfolders.vdf")
    }

    /// Reads an installation at `path`, given the text of its library
    /// folders manifest (`None` where that file is missing).
    pub fn new_with_path(path: String, manifest: Option<&str>) -> (r: SteamResult<SteamData>)
        ensures
            match manifest {
                None => r matches Err(SteamDataError::NoLibraryFolders),
                Some(text) => match kv_parse(text@) {
                    None => r matches Err(SteamDataError::KVParser(_)),
                    Some(doc) => match library_folders_of(doc) {
                        Some(fs) => r matches Ok(sd) && sd.folders() == fs && sd.base() == path@,
                        None => r matches Err(SteamDataError::NoLibraryFolders),
                    },
                },
            },
    {
        match manifest {
            None => Err(SteamDataError::NoLibraryFolders),
            Some(text) => match LibraryFolders::from_vdf(text) {
                Ok(library_folders) => Ok(SteamData { library_folders, path }),
                Err(e) => Err(e),
            },
        }
    }

    /// The library folders of this installation.
    pub fn library_folders(&self) -> (r: &LibraryFolders)
        ensures
            r@ == self.folders(),
    {
        &self.library_folders
    }

    /// Whether some library folder lists `app_id`.
    pub fn has_app(&self, app_id: u64) -> (r: bool)
        ensures
            r == app_listed(self.folders(), app_id),
    {
        self.library_folders.has_app(app_id)
    }

    /// The path of the manifest file of `app_id`.
    pub fn manifest_path(&self, app_id: u64) -> (r: Option<String>)
        ensures
            match first_holder(self.folders(), app_id) {
                Some(i) => r matches Some(p) && p@ == path_join(
                    self.folders()[i].path,
                    manifest_name(app_id),
                ),
                None => r is None,
            },
    {
        self.library_folders.manifest_path(app_id)
    }

    /// Where `app_id` is installed, given the text of its manifest file
    /// (`None` where that file is missing).
    pub fn get_app_dir(&self, app_id: u64, manifest: Option<&str>) -> (r: Option<String>)
        ensures
            match app_dir_of(
                self.folders(),
                app_id,
                manifest_doc(
                    match manifest {
                        Some(t) => Some(t@),
                        None => None,
                    },
                ),
            ) {
                Some(p) => r matches Some(s) && s@ == p,
                None => r is None,
            },
    {
        self.library_folders.get_app_dir(app_id, manifest)
    }
}

/// A top-level manifest entry that indexes a library folder: a `u32` key that
/// holds exactly one value.
pub open spec fn is_index_entry(entry: (Seq<char>, Seq<KvTree>)) -> bool {
    parse_unsigned(entry.0, u32::MAX as nat) is Some && entry.1.len() == 1
}

/// A key of an `apps` mapping that names an app: it reads as a `u64`.
pub open spec fn is_app_key(entry: (Seq<char>, Seq<KvTree>)) -> bool {
    parse_unsigned(entry.0, u64::MAX as nat) is Some
}

/// The top-level entries that are no folder index give no library folder:
/// the folders are those of the index entries alone.
pub proof fn lemma_non_index_entries_ignored(entries: Seq<(Seq<char>, Seq<KvTree>)>)
    ensures
        folders_of(entries) == folders_of(entries.filter(|e| is_index_entry(e))),
    decreases entries.len(),
{
    let f = |e: (Seq<char>, Seq<KvTree>)| is_index_entry(e);
    if entries.len() > 0 {
        lemma_non_index_entries_ignored(entries.drop_last());
        let sub = entries.drop_last().filter(f);
        reveal_with_fuel(Seq::filter, 1);
        if f(entries.last()) {
            assert(entries.filter(f) == sub.push(entries.last()));
            assert(entries.filter(f).drop_last() =~= sub);
        } else {
            assert(entries.filter(f) == sub);
        }
    } else {
        reveal_with_fuel(Seq::filter, 1);
        assert(entries.filter(f) =~= entries);
    }
}

/// In a manifest whose index entries each describe a folder (a mapping with a
/// string `path` and an `apps` key), there is exactly one library folder per
/// index entry, in the order of the entries.
pub proof fn lemma_one_folder_per_index_entry(entries: Seq<(Seq<char>, Seq<KvTree>)>)
    requires
        forall|k: int|
            0 <= k < entries.len() && is_index_entry(#[trigger] entries[k]) ==> folder_of(
                entries[k].1[0],
            ) is Some,
    ensures
        folders_of(entries) == entries.filter(|e| is_index_entry(e)).map_values(
            |e: (Seq<char>, Seq<KvTree>)| folder_of(e.1[0])->0,
        ),
    decreases entries.len(),
{
    let f = |e: (Seq<char>, Seq<KvTree>)| is_index_entry(e);
    let g = |e: (Seq<char>, Seq<KvTree>)| folder_of(e.1[0])->0;
    if entries.len() > 0 {
        let rest = entries.drop_last();
        assert forall|k: int|
            0 <= k < rest.len() && is_index_entry(#[trigger] rest[k]) implies folder_of(
            rest[k].1[0],
        ) is Some by {
            assert(rest[k] == entries[k]);
        }
        lemma_one_folder_per_index_entry(rest);
        let sub = rest.filter(f);
        reveal_with_fuel(Seq::filter, 1);
        if f(entries.last()) {
            assert(entries.last() == entries[entries.len() - 1]);
            assert(entries.filter(f) == sub.push(entries.last()));
            assert(entries.filter(f).map_values(g) =~= sub.map_values(g).push(g(entries.last())));
        } else {
            assert(entries.filter(f) == sub);
        }
    } else {
        reveal_with_fuel(Seq::filter, 1);
        assert(entries.filter(f).map_values(g) =~= seq![]);
    }
}

/// The app ids of an `apps` mapping are its keys that read as `u64`, each
/// read, in order: a key that is no number is dropped and its siblings kept.
pub proof fn lemma_app_ids_are_numeric_keys(entries: Seq<(Seq<char>, Seq<KvTree>)>)
    ensures
        app_ids_of_keys(entries) == entries.filter(|e| is_app_key(e)).map_values(
            |e: (Seq<char>, Seq<KvTree>)| parse_unsigned(e.0, u64::MAX as nat)->0 as u64,
        ),
    decreases entries.len(),
{
    let f = |e: (Seq<char>, Seq<KvTree>)| is_app_key(e);
    let g = |e: (Seq<char>, Seq<KvTree>)| parse_unsigned(e.0, u64::MAX as nat)->0 as u64;
    if entries.len() > 0 {
        lemma_app_ids_are_numeric_keys(entries.drop_last());
        let sub = entries.drop_last().filter(f);
        reveal_with_fuel(Seq::filter, 1);
        if f(entries.last()) {
            assert(entries.filter(f) == sub.push(entries.last()));
            assert(entries.filter(f).map_values(g) =~= sub.map_values(g).push(g(entries.last())));
        } else {
            assert(entries.filter(f) == sub);
        }
    } else {
        reveal_with_fuel(Seq::filter, 1);
        assert(entries.filter(f).map_values(g) =~= seq![]);
    }
}

/// Whether an app is listed does not depend on the order of the library
/// folders: any reordering of them lists the same apps.
pub proof fn lemma_listing_ignores_order(a: Seq<FolderModel>, b: Seq<FolderModel>, app_id: u64)
    requires
        a.to_multiset() == b.to_multiset(),
    ensures
        app_listed(a, app_id) == app_listed(b, app_id),
{
    broadcast use vstd::seq_lib::group_to_multiset_ensures;

    if app_listed(a, app_id) {
        let i = choose|i: int| 0 <= i < a.len() && (#[trigger] a[i]).apps.contains(app_id);
        assert(a.contains(a[i]));
        assert(a.to_multiset().count(a[i]) > 0);
        assert(b.to_multiset().count(a[i]) > 0);
        assert(b.contains(a[i]));
        let j = choose|j: int| 0 <= j < b.len() && b[j] == a[i];
        assert(b[j].apps.contains(app_id));
    }
    if app_listed(b, app_id) {
        let i = choose|i: int| 0 <= i < b.len() && (#[trigger] b[i]).apps.contains(app_id);
        assert(b.contains(b[i]));
        assert(b.to_multiset().count(b[i]) > 0);
        assert(a.to_multiset().count(b[i]) > 0);
        assert(a.contains(b[i]));
        let j = choose|j: int| 0 <= j < a.len() && a[j] == b[i];
        assert(a[j].apps.contains(app_id));
    }
}

proof fn lemma_not_listed_no_holder(folders: Seq<FolderModel>, app_id: u64)
    requires
        !app_listed(folders, app_id),
    ensures
        first_holder(folders, app_id) is None,
{
    if exists|i: int| is_first_holder(folders, app_id, i) {
        let i = choose|i: int| is_first_holder(folders, app_id, i);
        assert(folders[i].apps.contains(app_id));
    }
}

} // verus!
