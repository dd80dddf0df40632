use proton_launch::kv::{lookup_values, parse_document, KvNode};
use proton_launch::steam::{install_dir, LibraryFolders, SteamData, SteamDataError};

const SINGLE_LIBRARY: &str = r#"
"libraryfolders"
{
  "0" { "path" "/home/user/.steam/steam" "apps" { "228980" "" } }
}
"#;

const TWO_LIBRARIES: &str = r#"
"libraryfolders"
{
    "contentstatsid"    "-4412069540582128069"
    "0"
    {
        "path"      "/home/user/.steam/steam"
        "label"     ""
        "apps"
        {
            "228980"    "371803524"
            "1493710"   "1209512207"
        }
    }
    "1"
    {
        "path"      "/mnt/games/SteamLibrary"
        "apps"
        {
            "1887720"   "1290315420"
            "notanid"   "5"
            "250900"    "12"
        }
    }
    "nope"
    {
        "path"  "/mnt/other"
        "apps"  { "42" "1" }
    }
}
"#;

const PROTON_MANIFEST: &str = r#"
"AppState"
{
    "appid"       "1887720"
    "name"        "Proton 7.0"
    "installdir"  "Proton 7.0"
}
"#;

fn folder_view(lf: &LibraryFolders) -> Vec<(String, Vec<u64>)> {
    lf.folders()
        .iter()
        .map(|f| (f.path().clone(), f.apps().clone()))
        .collect()
}

#[test]
fn round_trip_single_library() {
    let folders = LibraryFolders::from_vdf(SINGLE_LIBRARY).unwrap();
    assert_eq!(
        folder_view(&folders),
        vec![("/home/user/.steam/steam/steamapps".to_string(), vec![228980u64])]
    );
    assert!(folders.has_app(228980));
    assert!(!folders.has_app(1));
}

#[test]
fn only_numeric_single_valued_keys_make_folders() {
    let folders = LibraryFolders::from_vdf(TWO_LIBRARIES).unwrap();
    assert_eq!(
        folder_view(&folders),
        vec![
            ("/home/user/.steam/steam/steamapps".to_string(), vec![1493710u64, 228980]),
            ("/mnt/games/SteamLibrary/steamapps".to_string(), vec![1887720u64, 250900]),
        ]
    );
    assert!(!folders.has_app(42));
}

#[test]
fn repeated_index_key_makes_no_folder() {
    let text = r#""libraryfolders" { "0" { "path" "/a" "apps" { "1" "" } } "0" { "path" "/b" "apps" { "2" "" } } "1" { "path" "/c" "apps" { "3" "" } } }"#;
    let folders = LibraryFolders::from_vdf(text).unwrap();
    assert_eq!(folder_view(&folders), vec![("/c/steamapps".to_string(), vec![3u64])]);
}

#[test]
fn index_key_beyond_u32_is_ignored() {
    let text = r#""libraryfolders" { "4294967296" { "path" "/a" "apps" { "1" "" } } "+7" { "path" "/b" "apps" { "2" "" } } }"#;
    let folders = LibraryFolders::from_vdf(text).unwrap();
    assert_eq!(folder_view(&folders), vec![("/b/steamapps".to_string(), vec![2u64])]);
}

#[test]
fn folder_without_path_or_apps_is_dropped() {
    let text = r#""libraryfolders" { "0" { "apps" { "1" "" } } "1" { "path" "/b" } "2" { "path" { } "apps" { } } "3" { "path" "/d" "apps" "x" } }"#;
    let folders = LibraryFolders::from_vdf(text).unwrap();
    assert_eq!(folder_view(&folders), vec![("/d/steamapps".to_string(), vec![])]);
}

#[test]
fn non_numeric_app_keys_are_dropped() {
    let text = r#""libraryfolders" { "0" { "path" "/lib" "apps" { "10" "" "ten" "" "-3" "" "18446744073709551616" "" "20" "" } } }"#;
    let folders = LibraryFolders::from_vdf(text).unwrap();
    assert_eq!(folder_view(&folders), vec![("/lib/steamapps".to_string(), vec![10u64, 20])]);
    assert!(folders.has_app(10));
    assert!(folders.has_app(20));
}

#[test]
fn malformed_manifest_is_a_parse_error() {
    let r = LibraryFolders::from_vdf(r#""libraryfolders" { "0" { "path" "/a" "#);
    assert!(matches!(r, Err(SteamDataError::KVParser(_))));
}

#[test]
fn scalar_root_has_no_library_folders() {
    let r = LibraryFolders::from_vdf(r#""libraryfolders" "none""#);
    assert!(matches!(r, Err(SteamDataError::NoLibraryFolders)));
}

#[test]
fn missing_manifest_is_no_library_folders() {
    let r = SteamData::new_with_path("/nowhere".to_string(), None);
    assert!(matches!(r, Err(SteamDataError::NoLibraryFolders)));
}

#[test]
fn steam_data_keeps_path_and_folders() {
    let sd = SteamData::new_with_path("/home/user/.steam/steam".to_string(), Some(TWO_LIBRARIES)).unwrap();
    assert_eq!(sd.path, "/home/user/.steam/steam");
    assert_eq!(sd.library_folders().folders().len(), 2);
    assert!(sd.has_app(250900));
    assert!(sd.has_app(228980));
    assert!(!sd.has_app(250901));
}

#[test]
fn library_folders_path_under_base() {
    assert_eq!(
        SteamData::library_folders_path("/home/user/.steam/steam"),
        "/home/user/.steam/steam/steamapps/libraryfolders.vdf"
    );
}

#[test]
fn manifest_path_of_listed_app() {
    let sd = SteamData::new_with_path("/s".to_string(), Some(TWO_LIBRARIES)).unwrap();
    assert_eq!(
        sd.manifest_path(1887720),
        Some("/mnt/games/SteamLibrary/steamapps/appmanifest_1887720.acf".to_string())
    );
    assert_eq!(sd.manifest_path(5), None);
}

#[test]
fn app_dir_is_common_plus_installdir() {
    let sd = SteamData::new_with_path("/s".to_string(), Some(TWO_LIBRARIES)).unwrap();
    assert_eq!(
        sd.get_app_dir(1887720, Some(PROTON_MANIFEST)),
        Some("/mnt/games/SteamLibrary/steamapps/common/Proton 7.0".to_string())
    );
}

#[test]
fn app_dir_absent_cases() {
    let sd = SteamData::new_with_path("/s".to_string(), Some(TWO_LIBRARIES)).unwrap();
    // listed nowhere
    assert_eq!(sd.get_app_dir(5, Some(PROTON_MANIFEST)), None);
    // manifest file missing
    assert_eq!(sd.get_app_dir(1887720, None), None);
    // manifest without installdir
    assert_eq!(sd.get_app_dir(1887720, Some(r#""AppState" { "appid" "1887720" }"#)), None);
    // malformed manifest
    assert_eq!(sd.get_app_dir(1887720, Some(r#""AppState" { "installdir" "#)), None);
    // installdir that is no string
    assert_eq!(sd.get_app_dir(1887720, Some(r#""AppState" { "installdir" { } }"#)), None);
}

#[test]
fn first_listing_folder_wins() {
    let text = r#""libraryfolders" { "0" { "path" "/a" "apps" { "7" "" } } "1" { "path" "/b" "apps" { "7" "" } } }"#;
    let folders = LibraryFolders::from_vdf(text).unwrap();
    assert_eq!(
        folders.get_app_dir(7, Some(r#""AppState" { "installdir" "Game" }"#)),
        Some("/a/steamapps/common/Game".to_string())
    );
    assert_eq!(folders.manifest_path(7), Some("/a/steamapps/appmanifest_7.acf".to_string()));
}

#[test]
fn app_dir_from_parsed_document() {
    let folders = LibraryFolders::from_vdf(SINGLE_LIBRARY).unwrap();
    let doc = parse_document(r#""AppState" { "installdir" "Game X" "installdir" "ignored" }"#).unwrap();
    assert_eq!(install_dir(&doc).map(|s| s.as_str()), Some("Game X"));
    assert_eq!(
        folders.app_dir_from_document(228980, Some(&doc)),
        Some("/home/user/.steam/steam/steamapps/common/Game X".to_string())
    );
    assert_eq!(folders.app_dir_from_document(228980, None), None);
    assert_eq!(folders.app_dir_from_document(1, Some(&doc)), None);
}

#[test]
fn probe_prefers_sandboxed_install() {
    let candidates = SteamData::install_candidates("/home/user");
    assert_eq!(
        candidates,
        vec![
            "/home/user/.var/app/com.valvesoftware.Steam/.steam/steam".to_string(),
            "/home/user/.steam/steam".to_string(),
        ]
    );
    let r = SteamData::locate(&candidates, &vec![true, true]).unwrap();
    assert_eq!(r, "/home/user/.var/app/com.valvesoftware.Steam/.steam/steam");
    let r = SteamData::locate(&candidates, &vec![false, true]).unwrap();
    assert_eq!(r, "/home/user/.steam/steam");
}

#[test]
fn probe_without_install_is_no_steam_dir() {
    let candidates = SteamData::install_candidates("/home/user");
    let r = SteamData::locate(&candidates, &vec![false, false]);
    assert!(matches!(r, Err(SteamDataError::NoSteamDir)));
}

#[test]
fn document_tree_accessors() {
    let doc = parse_document(r#""root" { "a" "1" "b" { "c" "2" } }"#).unwrap();
    assert!(doc.get_scalar().is_none());
    let entries = doc.get_mapping().unwrap();
    let a = lookup_values(entries, &"a".to_string()).unwrap();
    assert_eq!(a.len(), 1);
    assert_eq!(a[0].get_scalar().map(|s| s.as_str()), Some("1"));
    let b = lookup_values(entries, &"b".to_string()).unwrap();
    assert!(matches!(&b[0], KvNode::Obj(_)));
    assert!(lookup_values(entries, &"z".to_string()).is_none());
    assert!(parse_document(r#""root" {"#).is_err());
}

#[test]
fn folders_from_parsed_document() {
    let doc = parse_document(SINGLE_LIBRARY).unwrap();
    let folders = LibraryFolders::from_document(&doc).unwrap();
    assert_eq!(
        folder_view(&folders),
        vec![("/home/user/.steam/steam/steamapps".to_string(), vec![228980u64])]
    );
    let scalar = parse_document(r#""libraryfolders" "x""#).unwrap();
    assert!(matches!(
        LibraryFolders::from_document(&scalar),
        Err(SteamDataError::NoLibraryFolders)
    ));
}

#[test]
fn listing_does_not_depend_on_folder_order() {
    let ab = r#""libraryfolders" { "0" { "path" "/a" "apps" { "1" "" } } "1" { "path" "/b" "apps" { "2" "" } } }"#;
    let ba = r#""libraryfolders" { "0" { "path" "/b" "apps" { "2" "" } } "1" { "path" "/a" "apps" { "1" "" } } }"#;
    let ab = LibraryFolders::from_vdf(ab).unwrap();
    let ba = LibraryFolders::from_vdf(ba).unwrap();
    for id in [0u64, 1, 2, 3] {
        assert_eq!(ab.has_app(id), ba.has_app(id));
    }
    assert!(ab.has_app(1) && ab.has_app(2));
}
