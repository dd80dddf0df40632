use proton_launch::command::{
    proton_command, save_name_for, Backup, DesktopEntry, Info, MakeDE, MoveCompat, MoveDirection,
    Run, RunnableError,
};
use proton_launch::paths::{ConfigDir, DataDir, Paths};
use proton_launch::proton::ProtonVersion;
use proton_launch::steam::SteamData;

fn steam_with(apps: &[u64]) -> SteamData {
    let mut listed = String::new();
    for a in apps {
        listed.push_str(&format!("\"{}\" \"\" ", a));
    }
    let text = format!(
        "\"libraryfolders\" {{ \"0\" {{ \"path\" \"/lib\" \"apps\" {{ {} }} }} }}",
        listed
    );
    SteamData::new_with_path("/steam".to_string(), Some(&text)).unwrap()
}

fn paths() -> Paths {
    Paths::new(
        DataDir::new("/data".to_string()),
        ConfigDir::new("/config".to_string()),
    )
}

#[test]
fn proton_app_ids_and_urls() {
    assert_eq!(ProtonVersion::Proton70.get_appid(), 1887720);
    assert_eq!(ProtonVersion::ProtonExperimental.get_appid(), 1493710);
    assert_eq!(ProtonVersion::Proton37Beta.get_appid(), 930400);
    assert_eq!(ProtonVersion::Proton70.install_url(), "steam://install/1887720");
    assert_eq!(ProtonVersion::ProtonNext.uninstall_url(), "steam://uninstall/2230260");
}

#[test]
fn proton_names() {
    assert_eq!(ProtonVersion::Proton37Beta.arg_name(), "37beta");
    assert_eq!(ProtonVersion::ProtonExperimental.arg_name(), "experimental");
    assert_eq!(ProtonVersion::Proton513.arg_name(), "513");
    assert_eq!(ProtonVersion::Proton316Beta.display_name(), "Proton 3.16 Beta");
    assert_eq!(ProtonVersion::ProtonNext.display_name(), "Proton Next");
}

#[test]
fn proton_preference_order() {
    let all = ProtonVersion::all();
    assert_eq!(all.len(), 12);
    assert_eq!(all[0], ProtonVersion::ProtonExperimental);
    assert_eq!(all[1], ProtonVersion::ProtonNext);
    assert_eq!(all[2], ProtonVersion::Proton70);
    assert_eq!(all[11], ProtonVersion::Proton37Beta);
}

#[test]
fn best_installed_is_most_preferred() {
    let steam = steam_with(&[858280, 1887720, 1580130]);
    assert_eq!(ProtonVersion::best_installed(&steam), Some(ProtonVersion::Proton70));
    assert!(ProtonVersion::Proton37.is_installed(&steam));
    assert!(!ProtonVersion::ProtonNext.is_installed(&steam));
    let none = steam_with(&[228980]);
    assert_eq!(ProtonVersion::best_installed(&none), None);
}

#[test]
fn proton_path_from_manifest() {
    let steam = steam_with(&[1887720]);
    let manifest = r#""AppState" { "installdir" "Proton 7.0" }"#;
    assert_eq!(
        ProtonVersion::Proton70.get_path(&steam, Some(manifest)),
        Some("/lib/steamapps/common/Proton 7.0".to_string())
    );
    assert_eq!(ProtonVersion::Proton63.get_path(&steam, Some(manifest)), None);
}

#[test]
fn launcher_directories() {
    let p = paths();
    assert_eq!(p.compat_dir("game"), "/data/compat/game");
    assert_eq!(p.run_dir("game"), "/data/run/game");
    assert_eq!(p.icon_path("game"), "/data/icons/game.png");
    assert_eq!(p.data_dir().as_str(), "/data");
    assert_eq!(p.config_dir().as_str(), "/config");
    assert_eq!(
        Paths::application_entry("/home/u/.local/share", "My Game"),
        "/home/u/.local/share/applications/proton-My Game.desktop"
    );
}

fn run(exe: Option<&str>, args: &[&str], proton: Option<ProtonVersion>, here: bool) -> Run {
    Run {
        exe: exe.map(|e| e.to_string()),
        args: args.iter().map(|a| a.to_string()).collect(),
        save_name: None,
        proton,
        here,
    }
}

#[test]
fn exe_and_args_selection() {
    let (exe, args) = run(Some("/g/a.exe"), &["-x", "-y"], None, false).get_exe_and_args().unwrap();
    assert_eq!(exe, "/g/a.exe");
    assert_eq!(args, vec!["-x".to_string(), "-y".to_string()]);
    let (exe, args) = run(None, &["/g/b.exe", "-z"], None, false).get_exe_and_args().unwrap();
    assert_eq!(exe, "/g/b.exe");
    assert_eq!(args, vec!["-z".to_string()]);
    let r = run(None, &[], None, false).get_exe_and_args();
    assert!(matches!(r, Err(RunnableError::NoExe)));
}

#[test]
fn prepare_picks_requested_or_best() {
    let steam = steam_with(&[1580130, 1420170]);
    let l = run(Some("/g/a.exe"), &[], None, false).prepare(&steam).unwrap();
    assert_eq!(l.proton, ProtonVersion::Proton63);
    assert_eq!(l.exe, "/g/a.exe");
    let l = run(None, &["/g/a.exe", "1"], Some(ProtonVersion::Proton513), false).prepare(&steam).unwrap();
    assert_eq!(l.proton, ProtonVersion::Proton513);
    assert_eq!(l.args, vec!["1".to_string()]);
}

#[test]
fn prepare_error_order() {
    let steam = steam_with(&[1580130]);
    let r = run(None, &[], Some(ProtonVersion::Proton70), false).prepare(&steam);
    assert!(matches!(r, Err(RunnableError::SelectedProtonNotInstalled(ProtonVersion::Proton70))));
    let r = run(None, &[], None, false).prepare(&steam);
    assert!(matches!(r, Err(RunnableError::NoExe)));
    let empty = steam_with(&[]);
    let r = run(None, &[], None, false).prepare(&empty);
    assert!(matches!(r, Err(RunnableError::NoExe)));
    let r = run(Some("/g/a.exe"), &[], None, false).prepare(&empty);
    assert!(matches!(r, Err(RunnableError::NoProtonAtAll)));
}

#[test]
fn run_directory_choice() {
    let p = paths();
    assert_eq!(
        run(None, &[], None, true).run_dir(&p, "/g/dir/a.exe", "a"),
        Some("/g/dir".to_string())
    );
    assert_eq!(
        run(None, &[], None, false).run_dir(&p, "/g/dir/a.exe", "a"),
        Some("/data/run/a".to_string())
    );
}

#[test]
fn proton_command_line() {
    let (program, argv) = proton_command(
        "/lib/steamapps/common/Proton 7.0",
        "/g/a.exe",
        &vec!["-x".to_string()],
    );
    assert_eq!(program, "/lib/steamapps/common/Proton 7.0/proton");
    assert_eq!(argv, vec!["run".to_string(), "/g/a.exe".to_string(), "-x".to_string()]);
}

#[test]
fn save_names() {
    assert_eq!(save_name_for(&Some("mine".to_string()), "/g/a.exe"), Some("mine".to_string()));
    assert_eq!(save_name_for(&None, "/g/Game Name.exe"), Some("Game Name".to_string()));
    assert_eq!(save_name_for(&None, "/"), None);
}

#[test]
fn move_compat_directions() {
    let p = paths();
    let m = MoveCompat {
        direction: MoveDirection::GlobalToLocal,
        exe: "/g/dir/a.exe".to_string(),
        save_name: None,
    };
    assert_eq!(
        m.transfer(&p),
        Some(("/data/a".to_string(), "/g/dir/compat".to_string()))
    );
    let m = MoveCompat {
        direction: MoveDirection::LocalToGlobal,
        exe: "/g/dir/a.exe".to_string(),
        save_name: Some("s".to_string()),
    };
    assert_eq!(
        m.transfer(&p),
        Some(("/g/dir/compat".to_string(), "/data/s".to_string()))
    );
}

#[test]
fn new_save_files() {
    let listed = vec!["drive_c/windows/x.dll".to_string(), "drive_c/users/steamuser/a.sav".to_string()];
    assert!(Backup::is_new_save_file("drive_c/users/steamuser/b.sav", &listed));
    assert!(!Backup::is_new_save_file("drive_c/users/steamuser/a.sav", &listed));
    assert!(!Backup::is_new_save_file("drive_c/windows/y.dll", &listed));
    assert!(Backup::is_new_save_file("users", &vec![]));
    assert!(!Backup::is_new_save_file("user", &vec![]));
    assert_eq!(Backup::archive_name("game"), "game.backup");
}

#[test]
fn info_versions() {
    let one = Info { version: Some(ProtonVersion::Proton42) }.versions();
    assert_eq!(one, vec![ProtonVersion::Proton42]);
    let all = Info { version: None }.versions();
    assert_eq!(all, ProtonVersion::all());
}

#[test]
fn desktop_entries() {
    let de = DesktopEntry::new("Game");
    assert_eq!(de.xdg_type, "Application");
    assert_eq!(de.version, "1.0");
    assert_eq!(de.name, "Game");
    assert_eq!(de.icon, "Game");
    assert_eq!(de.generic_name, "Game");
    assert_eq!(de.categories, "Game");
    assert_eq!(de.command, "");
    assert!(de.terminal.is_none());
    let make = MakeDE {
        exe: "/g/a.exe".to_string(),
        name: "A Game".to_string(),
        save_name: None,
    };
    let de = make.desktop_entry("a", "/data/run/a", "/data/icons/A Game.png");
    assert_eq!(de.name, "A Game");
    assert_eq!(de.comment, "Run A Game with Proton");
    assert_eq!(de.command, "proton-launch run -s a /g/a.exe ");
    assert_eq!(de.path, "/data/run/a");
    assert_eq!(de.icon, "/data/icons/A Game.png");
}
