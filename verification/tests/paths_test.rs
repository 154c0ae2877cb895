use suiup::config::get_config_file_path;
use suiup::paths::{
    binaries_dir, cleanup_old_config_files, default_bin_path, default_file_path, display_name,
    get_cache_home, get_config_file, get_config_home, get_data_home, get_default_bin_dir,
    get_old_suiup_config_dir, get_suiup_cache_dir, get_suiup_config_dir, get_suiup_data_dir,
    initialize, install_path, installed_binaries_file, join, migrate_config_files,
    release_archive_dir, release_artifact_path, ConfigProbe, Environment,
};
use suiup::platform::Platform;

fn unix_env(home: Option<&str>) -> Environment {
    Environment {
        platform: Platform::Unix,
        home: home.map(String::from),
        xdg_data_home: None,
        xdg_config_home: None,
        xdg_cache_home: None,
        local_app_data: None,
        user_profile: None,
        temp: None,
        default_bin_dir: None,
    }
}

fn windows_env(local: Option<&str>, profile: Option<&str>) -> Environment {
    Environment {
        platform: Platform::Windows,
        home: None,
        xdg_data_home: None,
        xdg_config_home: None,
        xdg_cache_home: None,
        local_app_data: local.map(String::from),
        user_profile: profile.map(String::from),
        temp: None,
        default_bin_dir: None,
    }
}

fn probe() -> ConfigProbe {
    ConfigProbe {
        old_dir_exists: true,
        new_dir_exists: false,
        old_default: true,
        old_installed: true,
        new_default: false,
        new_installed: false,
        new_default_filled: false,
        new_installed_filled: false,
    }
}

// Validate path construction for both Windows & non-Windows cases.
#[test]
fn test_build_binary_path() {
    let p_unix = install_path("/tmp/suiup/binaries", "sui", "testnet", "v1.0.0", false, Platform::Unix);
    assert!(
        p_unix.ends_with("/tmp/suiup/binaries/testnet/sui-v1.0.0")
            || p_unix.ends_with("\\tmp\\suiup\\binaries\\testnet\\sui-v1.0.0")
    );

    let p_win = install_path("C:/suiup/binaries", "sui", "testnet", "v1.0.0", false, Platform::Windows);
    assert!(p_win.ends_with("sui-v1.0.0.exe"), "Windows path should end with .exe: {p_win:?}");
    // Ensure we did not append an extra plain (non-.exe) component.
    let last = p_win.rsplit('\\').next().unwrap();
    assert_eq!(last, "sui-v1.0.0.exe");
}

#[test]
fn install_path_joins_root_network_and_versioned_name() {
    let p = install_path("/data/binaries", "sui", "testnet", "v1.39.3", false, Platform::Unix);
    assert_eq!(p, "/data/binaries/testnet/sui-v1.39.3");
    let d = install_path("/data/binaries", "sui", "testnet", "v1.39.3", true, Platform::Unix);
    assert_eq!(d, "/data/binaries/testnet/sui-debug-v1.39.3");
}

#[test]
fn install_path_of_a_nightly_build_lies_under_bin() {
    assert_eq!(
        install_path("/data/binaries", "walrus", "main", "nightly", false, Platform::Unix),
        "/data/binaries/main/bin/walrus-nightly"
    );
    assert_eq!(
        install_path("C:\\d", "walrus", "feat", "nightly", true, Platform::Windows),
        "C:\\d\\feat\\bin\\walrus-debug-nightly.exe"
    );
}

#[test]
fn release_artifact_path_looks_no_deeper_for_nightly() {
    assert_eq!(
        release_artifact_path("/r", "sui-debug", "testnet", "v1.2.3", Platform::Unix),
        "/r/testnet/sui-debug-v1.2.3"
    );
    assert_eq!(release_artifact_path("/r", "mvr", "standalone", "nightly", Platform::Unix), "/r/standalone/mvr-nightly");
    assert_eq!(release_artifact_path("/r", "mvr", "standalone", "", Platform::Windows), "/r\\standalone\\mvr.exe");
}

#[test]
fn install_path_without_a_version_has_no_hyphen() {
    assert_eq!(install_path("/r", "mvr", "standalone", "", false, Platform::Unix), "/r/standalone/mvr");
    assert_eq!(install_path("/r", "mvr", "standalone", "", true, Platform::Windows), "/r\\standalone\\mvr-debug.exe");
}

#[test]
fn install_path_is_total() {
    assert_eq!(install_path("", "", "", "", false, Platform::Unix), "//");
    assert_eq!(install_path("/r", "a/b", "..", "1 2", false, Platform::Unix), "/r/../a/b-1 2");
}

#[test]
fn default_bin_path_takes_the_extension_on_windows() {
    let p = default_bin_path("C:\\bin", "sui", true, Platform::Windows);
    assert_eq!(p, "C:\\bin\\sui-debug.exe");
    assert_eq!(default_bin_path("/home/u/.local/bin", "sui", false, Platform::Unix), "/home/u/.local/bin/sui");
}

#[test]
fn display_name_marks_debug_builds() {
    assert_eq!(display_name("sui", false), "sui");
    assert_eq!(display_name("sui", true), "sui-debug");
    assert_eq!(join("/a", "b", Platform::Unix), "/a/b");
    assert_eq!(join("C:", "b", Platform::Windows), "C:\\b");
}

#[test]
fn platform_capabilities() {
    assert_eq!(Platform::Unix.executable_extension(), "");
    assert_eq!(Platform::Windows.executable_extension(), ".exe");
    assert_eq!(Platform::Unix.path_separator(), "/");
    assert_eq!(Platform::Windows.path_separator(), "\\");
    assert_eq!(Platform::Unix.path_list_separator(), ":");
    assert_eq!(Platform::Windows.path_list_separator(), ";");
    assert_eq!(Platform::Unix.path_list_separator_char(), ':');
    assert_eq!(Platform::Windows.path_list_separator_char(), ';');
    assert!(Platform::Unix.has_file_modes());
    assert!(!Platform::Windows.has_file_modes());
}

#[test]
fn unix_directories_below_home() {
    let env = unix_env(Some("/home/u"));
    assert_eq!(get_data_home(&env).unwrap(), "/home/u/.local/share");
    assert_eq!(get_config_home(&env).unwrap(), "/home/u/.config");
    assert_eq!(get_cache_home(&env).unwrap(), "/home/u/.cache");
    assert_eq!(get_suiup_data_dir(&env).unwrap(), "/home/u/.local/share/suiup");
    assert_eq!(get_suiup_config_dir(&env).unwrap(), "/home/u/.config/suiup/config");
    assert_eq!(get_old_suiup_config_dir(&env).unwrap(), "/home/u/.config/suiup");
    assert_eq!(get_suiup_cache_dir(&env).unwrap(), "/home/u/.cache/suiup");
    assert_eq!(get_default_bin_dir(&env).unwrap(), "/home/u/.local/bin");
    assert_eq!(get_config_file(&env, "x.json").unwrap(), "/home/u/.config/suiup/config/x.json");
    assert_eq!(default_file_path(&env).unwrap(), "/home/u/.config/suiup/config/default_version.json");
    assert_eq!(installed_binaries_file(&env).unwrap(), "/home/u/.config/suiup/config/installed_binaries.json");
    assert_eq!(release_archive_dir(&env).unwrap(), "/home/u/.cache/suiup/releases");
    assert_eq!(binaries_dir(&env).unwrap(), "/home/u/.local/share/suiup/binaries");
    assert_eq!(get_config_file_path(&env).unwrap(), "/home/u/.config/suiup/binaries.json");
}

#[test]
fn unix_directories_that_the_environment_names() {
    let mut env = unix_env(None);
    env.xdg_data_home = Some("/d".to_string());
    env.xdg_config_home = Some("/c".to_string());
    env.xdg_cache_home = Some("/k".to_string());
    env.default_bin_dir = Some("/b".to_string());
    assert_eq!(get_suiup_data_dir(&env).unwrap(), "/d/suiup");
    assert_eq!(get_suiup_config_dir(&env).unwrap(), "/c/suiup/config");
    assert_eq!(get_suiup_cache_dir(&env).unwrap(), "/k/suiup");
    assert_eq!(get_default_bin_dir(&env).unwrap(), "/b");
    assert_eq!(initialize(&env).unwrap(), vec!["/c/suiup/config", "/d/suiup", "/k/suiup", "/d/suiup/binaries", "/k/suiup/releases", "/b"]);
}

#[test]
fn directories_are_unknown_without_a_home() {
    let env = unix_env(None);
    assert!(get_data_home(&env).is_none());
    assert!(get_config_home(&env).is_none());
    assert!(get_cache_home(&env).is_none());
    assert!(get_default_bin_dir(&env).is_none());
    assert!(binaries_dir(&env).is_none());
    assert!(default_file_path(&env).is_none());
    assert!(initialize(&env).is_none());
    assert!(migrate_config_files(&env, probe()).is_none());
    assert!(cleanup_old_config_files(&env, probe()).is_none());
    let mut partly = unix_env(None);
    partly.xdg_config_home = Some("/c".to_string());
    assert!(initialize(&partly).is_none());
    assert!(migrate_config_files(&partly, probe()).is_some());
}

#[test]
fn windows_directories() {
    let env = windows_env(Some("C:\\Users\\u\\AppData\\Local"), None);
    assert_eq!(get_data_home(&env).unwrap(), "C:\\Users\\u\\AppData\\Local");
    assert_eq!(get_config_home(&env).unwrap(), "C:\\Users\\u\\AppData\\Local");
    assert!(get_cache_home(&env).is_none());
    assert_eq!(get_default_bin_dir(&env).unwrap(), "C:\\Users\\u\\AppData\\Local\\bin");
    let env = windows_env(None, Some("C:\\Users\\u"));
    assert_eq!(get_data_home(&env).unwrap(), "C:\\Users\\u\\AppData\\Local");
    assert_eq!(get_cache_home(&env).unwrap(), "C:\\Users\\u\\AppData\\Local\\Temp");
    assert!(get_default_bin_dir(&env).is_none());
    let mut env = windows_env(None, None);
    env.temp = Some("T:\\tmp".to_string());
    assert_eq!(get_suiup_cache_dir(&env).unwrap(), "T:\\tmp\\suiup");
    assert!(get_data_home(&env).is_none());
}

#[test]
fn migration_copies_what_the_new_directory_lacks() {
    let env = unix_env(Some("/h"));
    let copies = migrate_config_files(&env, probe()).unwrap();
    assert_eq!(copies.len(), 2);
    assert_eq!(copies[0].from, "/h/.config/suiup/default_version.json");
    assert_eq!(copies[0].to, "/h/.config/suiup/config/default_version.json");
    assert_eq!(copies[1].from, "/h/.config/suiup/installed_binaries.json");
    assert_eq!(copies[1].to, "/h/.config/suiup/config/installed_binaries.json");

    let mut only_installed = probe();
    only_installed.old_default = false;
    let copies = migrate_config_files(&env, only_installed).unwrap();
    assert_eq!(copies.len(), 1);
    assert_eq!(copies[0].to, "/h/.config/suiup/config/installed_binaries.json");

    let mut empty_new_dir = probe();
    empty_new_dir.new_dir_exists = true;
    assert_eq!(migrate_config_files(&env, empty_new_dir).unwrap().len(), 2);
}

#[test]
fn migration_is_not_due_twice() {
    let env = unix_env(Some("/h"));
    let mut gone = probe();
    gone.old_dir_exists = false;
    assert!(migrate_config_files(&env, gone).unwrap().is_empty());
    let mut done = probe();
    done.new_dir_exists = true;
    done.new_installed = true;
    assert!(migrate_config_files(&env, done).unwrap().is_empty());
    // A file that is reported in a directory that is not there counts for nothing.
    let mut odd = probe();
    odd.new_default = true;
    let copies = migrate_config_files(&env, odd).unwrap();
    assert_eq!(copies.len(), 1);
    assert_eq!(copies[0].from, "/h/.config/suiup/installed_binaries.json");
}

#[test]
fn old_files_go_once_the_new_ones_are_filled() {
    let env = unix_env(Some("/h"));
    let mut p = probe();
    p.new_dir_exists = true;
    p.new_default = true;
    p.new_installed = true;
    p.new_default_filled = true;
    assert_eq!(cleanup_old_config_files(&env, p).unwrap(), vec!["/h/.config/suiup/default_version.json"]);
    p.new_installed_filled = true;
    assert_eq!(cleanup_old_config_files(&env, p).unwrap().len(), 2);
    p.old_default = false;
    assert_eq!(cleanup_old_config_files(&env, p).unwrap(), vec!["/h/.config/suiup/installed_binaries.json"]);
    p.new_dir_exists = false;
    assert!(cleanup_old_config_files(&env, p).unwrap().is_empty());
}
