//! The Proton versions that Steam distributes, and which of them is installed.

use vstd::prelude::*;

use crate::num::{decimal, decimal_string};
use crate::steam::{app_dir_of, app_listed, manifest_doc, SteamData};

verus! {

/// A Proton version, each one a Steam app.
#[derive(Debug, Clone, Copy, PartialEq, Eq, Structural, PartialOrd, Ord, Hash)]
pub enum ProtonVersion {
    Proton37Beta,
    Proton37,
    Proton316Beta,
    Proton316,
    Proton42,
    Proton411,
    Proton50,
    Proton513,
    Proton63,
    Proton70,
    ProtonNext,
    ProtonExperimental,
}

/// The Steam app id of each version.
pub open spec fn appid_of(v: ProtonVersion) -> u64 {
    match v {
        ProtonVersion::Proton37 => 858280,
        ProtonVersion::Proton37Beta => 930400,
        ProtonVersion::Proton316 => 961940,
        ProtonVersion::Proton316Beta => 996510,
        ProtonVersion::Proton42 => 1054830,
        ProtonVersion::Proton411 => 1113280,
        ProtonVersion::Proton50 => 1245040,
        ProtonVersion::Proton513 => 1420170,
        ProtonVersion::Proton63 => 1580130,
        ProtonVersion::Proton70 => 1887720,
        ProtonVersion::ProtonExperimental => 1493710,
        ProtonVersion::ProtonNext => 2230260,
    }
}

/// Every version, most preferred first.
pub open spec fn all_versions() -> Seq<ProtonVersion> {
    seq![
        ProtonVersion::ProtonExperimental,
        ProtonVersion::ProtonNext,
        ProtonVersion::Proton70,
        ProtonVersion::Proton63,
        ProtonVersion::Proton513,
        ProtonVersion::Proton50,
        ProtonVersion::Proton411,
        ProtonVersion::Proton42,
        ProtonVersion::Proton316,
        ProtonVersion::Proton316Beta,
        ProtonVersion::Proton37,
        ProtonVersion::Proton37Beta,
    ]
}

/// The name that selects a version on the command line.
pub open spec fn arg_name_of(v: ProtonVersion) -> Seq<char> {
    match v {
        ProtonVersion::Proton37Beta => "37beta"@,
        ProtonVersion::Proton37 => "37"@,
        ProtonVersion::Proton316Beta => "316beta"@,
        ProtonVersion::Proton316 => "316"@,
        ProtonVersion::Proton42 => "42"@,
        ProtonVersion::Proton411 => "411"@,
        ProtonVersion::Proton50 => "50"@,
        ProtonVersion::Proton513 => "513"@,
        ProtonVersion::Proton63 => "63"@,
        ProtonVersion::Proton70 => "70"@,
        ProtonVersion::ProtonNext => "next"@,
        ProtonVersion::ProtonExperimental => "experimental"@,
    }
}

/// The name that Steam shows for a version.
pub open spec fn display_name_of(v: ProtonVersion) -> Seq<char> {
    match v {
        ProtonVersion::Proton37 => "Proton 3.7"@,
        ProtonVersion::Proton37Beta => "Proton 3.7 Beta"@,
        ProtonVersion::Proton316 => "Proton 3.16"@,
        ProtonVersion::Proton316Beta => "Proton 3.16 Beta"@,
        ProtonVersion::Proton42 => "Proton 4.2"@,
        ProtonVersion::Proton411 => "Proton 4.11"@,
        ProtonVersion::Proton50 => "Proton 5.0"@,
        ProtonVersion::Proton513 => "Proton 5.13"@,
        ProtonVersion::Proton63 => "Proton 6.3"@,
        ProtonVersion::Proton70 => "Proton 7.0"@,
        ProtonVersion::ProtonExperimental => "Proton Experimental"@,
        ProtonVersion::ProtonNext => "Proton Next"@,
    }
}

/// `i` is the most preferred version that `steam` has installed.
pub open spec fn is_best_installed(steam: &SteamData, i: int) -> bool {
    &&& 0 <= i < all_versions().len()
    &&& app_listed(steam.folders(), appid_of(all_versions()[i]))
    &&& forall|k: int| 0 <= k < i ==> !app_listed(steam.folders(), appid_of(#[trigger] all_versions()[k]))
}

impl ProtonVersion {
    /// The Steam app id of this version.
    pub fn get_appid(&self) -> (r: u64)
        ensures
            r == appid_of(*self),
    {
        match self {
            ProtonVersion::Proton37 => 858280,
            ProtonVersion::Proton37Beta => 930400,
            ProtonVersion::Proton316 => 961940,
            ProtonVersion::Proton316Beta => 996510,
            ProtonVersion::Proton42 => 1054830,
            ProtonVersion::Proton411 => 1113280,
            ProtonVersion::Proton50 => 1245040,
            ProtonVersion::Proton513 => 1420170,
            ProtonVersion::Proton63 => 1580130,
            ProtonVersion::Proton70 => 1887720,
            ProtonVersion::ProtonExperimental => 1493710,
            ProtonVersion::ProtonNext => 2230260,
        }
    }

    /// Every version, most preferred first.
    pub fn all() -> (r: Vec<ProtonVersion>)
        ensures
            r@ == all_versions(),
    {
        let r = vec![
            ProtonVersion::ProtonExperimental,
            ProtonVersion::ProtonNext,
            ProtonVersion::Proton70,
            ProtonVersion::Proton63,
            ProtonVersion::Proton513,
            ProtonVersion::Proton50,
            ProtonVersion::Proton411,
            ProtonVersion::Proton42,
            ProtonVersion::Proton316,
            ProtonVersion::Proton316Beta,
            ProtonVersion::Proton37,
            ProtonVersion::Proton37Beta,
        ];
        assert(r@ =~= all_versions());
        r
    }

    /// The Steam link that installs this version.
    pub fn install_url(&self) -> (r: String)
        ensures
            r@ == "steam://install/"@ + decimal(appid_of(*self) as nat),
    {
        let mut url = String::from_str("steam://install/");
        let id = decimal_string(self.get_appid());
        url.append(id.as_str());
        url
    }

    /// The Steam link that uninstalls this version.
    pub fn uninstall_url(&self) -> (r: String)
        ensures
            r@ == "steam://uninstall/"@ + decimal(appid_of(*self) as nat),
    {
        let mut url = String::from_str("steam://uninstall/");
        let id = decimal_string(self.get_appid());
        url.append(id.as_str());
        url
    }

    /// The most preferred version that `steam` has installed.
    pub fn best_installed(steam: &SteamData) -> (r: Option<ProtonVersion>)
        ensures
            r matches Some(v) ==> exists|i: int| is_best_installed(steam, i) && v == all_versions()[i],
            r is None ==> forall|k: int|
                0 <= k < all_versions().len() ==> !app_listed(steam.folders(), appid_of(#[trigger] all_versions()[k])),
    {
        let all = ProtonVersion::all();
        let mut i: usize = 0;
        while i < all.len()
            invariant
                all@ == all_versions(),
                i <= all.len(),
                forall|k: int|
                    0 <= k < i ==> !app_listed(steam.folders(), appid_of(#[trigger] all_versions()[k])),
            decreases all.len() - i,
        {
            if all[i].is_installed(steam) {
                assert(is_best_installed(steam, i as int));
                return Some(all[i]);
            }
            i = i + 1;
        }
        None
    }

    /// Whether `steam` has this version installed.
    pub fn is_installed(&self, steam: &SteamData) -> (r: bool)
        ensures
            r == app_listed(steam.folders(), appid_of(*self)),
    {
        steam.has_app(self.get_appid())
    }

    /// The name that selects this version on the command line.
    pub fn arg_name(&self) -> (r: String)
        ensures
            r@ == arg_name_of(*self),
    {
        let name = match self {
            ProtonVersion::Proton37Beta => "37beta",
            ProtonVersion::Proton37 => "37",
            ProtonVersion::Proton316Beta => "316beta",
            ProtonVersion::Proton316 => "316",
            ProtonVersion::Proton42 => "42",
            ProtonVersion::Proton411 => "411",
            ProtonVersion::Proton50 => "50",
            ProtonVersion::Proton513 => "513",
            ProtonVersion::Proton63 => "63",
            ProtonVersion::Proton70 => "70",
            ProtonVersion::ProtonNext => "next",
            ProtonVersion::ProtonExperimental => "experimental",
        };
        String::from_str(name)
    }

    /// The name that Steam shows for this version.
    pub fn display_name(&self) -> (r: String)
        ensures
            r@ == display_name_of(*self),
    {
        let name = match self {
            ProtonVersion::Proton37 => "Proton 3.7",
            ProtonVersion::Proton37Beta => "Proton 3.7 Beta",
            ProtonVersion::Proton316 => "Proton 3.16",
            ProtonVersion::Proton316Beta => "Proton 3.16 Beta",
            ProtonVersion::Proton42 => "Proton 4.2",
            ProtonVersion::Proton411 => "Proton 4.11",
            ProtonVersion::Proton50 => "Proton 5.0",
            ProtonVersion::Proton513 => "Proton 5.13",
            ProtonVersion::Proton63 => "Proton 6.3",
            ProtonVersion::Proton70 => "Proton 7.0",
            ProtonVersion::ProtonExperimental => "Proton Experimental",
            ProtonVersion::ProtonNext => "Proton Next",
        };
        String::from_str(name)
    }

    /// Where this version is installed, given the text of its app manifest
    /// (`None` where that file is missing).
    pub fn get_path(&self, steam_data: &SteamData, manifest: Option<&str>) -> (r: Option<String>)
        ensures
            match app_dir_of(
                steam_data.folders(),
                appid_of(*self),
                manifest_doc(
                    match manifest {
                        Some(t) => Some(t@),
                        None => None,
                    },
                ),
            ) {
                Some(p) => r matches Some(s) && s@ == p,
                None => r is None,
            },
    {
        steam_data.get_app_dir(self.get_appid(), manifest)
    }
}

} // verus!
