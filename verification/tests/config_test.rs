use suiup::commands::clean::{interpret_answer, Answer, Command as CleanCommand};
use suiup::commands::default::get::{debug_label, Command as DefaultGet};
use suiup::component::install::{install_component, ConflictError, InstallRoute};
use suiup::component::ComponentManager;
use suiup::config::{
    available_components, get_binary_config, get_config, with_config, BinariesConfig,
    BinaryConfig, ConfigError,
};
use suiup::defaults::DefaultVersions;
use suiup::handlers::cleanup::{days_old, expired, handle_cleanup, CachedFile};
use suiup::handlers::install::{nightly_artifact_paths, nightly_cargo_args};
use suiup::handlers::show::{handle_show, header, installed_rows};
use suiup::handlers::suibase::{count_failures, doctor, Probe};
use suiup::handlers::{update_after_install, AfterInstall, RELEASES_ARCHIVES_FOLDER};
use suiup::platform::Platform;
use suiup::registry;
use suiup::types::{BinaryVersion, InstalledBinaries};

fn entry(name: &str, binary_name: &str, networks: &[&str], supports_debug: bool) -> BinaryConfig {
    BinaryConfig {
        name: name.to_string(),
        binary_name: binary_name.to_string(),
        repository: format!("MystenLabs/{name}"),
        description: String::new(),
        supported_networks: networks.iter().map(|s| s.to_string()).collect(),
        default_network: if networks.is_empty() { "main".to_string() } else { networks[0].to_string() },
        supports_debug,
    }
}

fn config() -> BinariesConfig {
    BinariesConfig {
        binaries: vec![
            entry("sui", "sui", &["testnet", "devnet", "mainnet"], true),
            entry("mvr", "mvr-cli", &[], false),
            entry("site-builder", "site-builder", &["mainnet"], false),
            entry("mvr-cli", "other", &["testnet"], true),
        ],
    }
}

fn file(path: &str, age_days: u64, size: u64) -> CachedFile {
    CachedFile { path: path.to_string(), age_secs: age_days * 86400 + 1, size }
}

#[test]
fn binaries_are_found_by_either_name() {
    let c = config();
    assert_eq!(c.get_binary("sui").unwrap().name, "sui");
    assert_eq!(c.get_binary("mvr-cli").unwrap().name, "mvr");
    assert_eq!(c.get_binary("other").unwrap().name, "mvr-cli");
    assert!(c.get_binary("nope").is_none());
    assert_eq!(c.get_binary_by_repo("MystenLabs/site-builder").unwrap().name, "site-builder");
    assert!(c.get_binary_by_repo("MystenLabs").is_none());
    assert_eq!(c.available_components(), vec!["sui", "mvr", "site-builder", "mvr-cli"]);
}

#[test]
fn configuration_answers() {
    let c = config();
    assert!(c.is_network_supported("sui", "devnet"));
    assert!(!c.is_network_supported("sui", "localnet"));
    assert!(c.is_network_supported("mvr", "anything"));
    assert!(!c.is_network_supported("site-builder", "testnet"));
    assert!(!c.is_network_supported("nope", "testnet"));
    assert_eq!(c.get_default_network("site-builder"), Some("mainnet".to_string()));
    assert_eq!(c.get_default_network("nope"), None);
    assert!(c.supports_debug("sui"));
    assert!(!c.supports_debug("mvr"));
    assert!(!c.supports_debug("nope"));
    assert_eq!(c.get_repo_url("sui"), Some("https://github.com/MystenLabs/sui".to_string()));
    assert_eq!(c.get_repo_url("nope"), None);
}

#[test]
fn configuration_that_was_not_loaded() {
    assert!(matches!(get_config(&None), Err(ConfigError::NotLoaded)));
    assert!(matches!(get_binary_config(&None, "sui"), Err(ConfigError::NotLoaded)));
    assert_eq!(available_components(&None), vec!["sui", "mvr", "walrus", "site-builder"]);
    assert_eq!(ConfigError::NotLoaded.message(), "Configuration not loaded. Call load_config() first.");
    let loaded = Some(config());
    assert_eq!(get_config(&loaded).unwrap().binaries.len(), 4);
    assert_eq!(get_binary_config(&loaded, "sui").unwrap().repository, "MystenLabs/sui");
    match get_binary_config(&loaded, "nope") {
        Err(e @ ConfigError::NotFound(_)) => assert_eq!(e.message(), "Binary 'nope' not found in configuration"),
        other => panic!("{other:?}"),
    }
    assert_eq!(available_components(&loaded).len(), 4);
}

#[test]
fn with_config_hands_the_configuration_on() {
    let loaded = Some(config());
    assert!(matches!(with_config(&loaded, |c| Ok(c.binaries.len())), Ok(4)));
    assert!(matches!(
        with_config(&loaded, |_| Err::<u8, _>(ConfigError::NotFound("x".to_string()))),
        Err(ConfigError::NotFound(_))
    ));
    let mut called = false;
    let r = with_config(&None, |_| {
        called = true;
        Ok(0)
    });
    assert!(matches!(r, Err(ConfigError::NotLoaded)));
    assert!(!called);
}

#[test]
fn components_that_can_be_installed() {
    assert_eq!(
        suiup::handlers::available_components(),
        vec!["sui", "sui-node", "mvr", "walrus", "site-builder", "move-analyzer"]
    );
    assert_eq!(RELEASES_ARCHIVES_FOLDER, "releases");
    assert_eq!(ComponentManager::new(Some("t".to_string())).github_token.as_deref(), Some("t"));
    assert!(ComponentManager::new(None).github_token.is_none());
}

#[test]
fn install_routes() {
    let sui = entry("sui", "sui", &["testnet"], true);
    let mvr = entry("mvr", "mvr", &[], false);
    let v = Some("1.0.0".to_string());
    let branch = Some("main".to_string());
    assert!(matches!(
        install_component(&sui, "sui", "devnet", &v, &None, true),
        Ok(InstallRoute::Release { network }) if network == "devnet"
    ));
    assert!(matches!(
        install_component(&sui, "sui", "devnet", &None, &branch, false),
        Ok(InstallRoute::Nightly { branch }) if branch == "main"
    ));
    assert!(matches!(install_component(&mvr, "mvr", "testnet", &v, &None, false), Ok(InstallRoute::Standalone)));
    let walrus = entry("walrus", "walrus", &[], false);
    assert!(matches!(
        install_component(&walrus, "walrus", "devnet", &None, &None, false),
        Ok(InstallRoute::Release { network }) if network == "main"
    ));
}

#[test]
fn install_conflicts() {
    let mvr = entry("mvr", "mvr", &[], false);
    let v = Some("1.0.0".to_string());
    let branch = Some("main".to_string());
    assert_eq!(install_component(&mvr, "mvr", "t", &None, &None, true).unwrap_err(), ConflictError::DebugNotSupported);
    assert_eq!(install_component(&mvr, "mvr", "t", &v, &branch, false).unwrap_err(), ConflictError::NightlyWithVersion);
    // A debug build from a branch is built, whatever the releases offer.
    assert!(install_component(&mvr, "mvr", "t", &None, &branch, true).is_ok());
    assert_eq!(install_component(&mvr, "mvr", "t", &v, &branch, true).unwrap_err(), ConflictError::NightlyWithVersion);
    assert!(ConflictError::DebugNotSupported.message().starts_with("Debug flag is only available"));
    assert!(ConflictError::NightlyWithVersion.message().starts_with("Cannot install from nightly"));
}

#[test]
fn cargo_arguments_for_a_build_from_a_branch() {
    let mut c = registry::BinaryConfig {
        name: "walrus".to_string(),
        description: String::new(),
        repository: "MystenLabs/walrus".to_string(),
        main_branch: "main".to_string(),
        installation_type: registry::InstallationType::Archive,
        network_based: true,
        supported_networks: vec![],
        default_network: "testnet".to_string(),
        supports_debug: false,
        cargo_package: Some("walrus-service".to_string()),
        nightly_toolchain: Some("nightly".to_string()),
        shared_repo_binary: false,
    };
    assert_eq!(
        nightly_cargo_args(&c, "walrus", "main", "/data/binaries/main"),
        vec![
            "+nightly", "install", "--locked", "--force", "--git", "https://github.com/MystenLabs/walrus",
            "--branch", "main", "walrus-service", "--bin", "walrus", "--root", "/data/binaries/main",
        ]
    );
    c.cargo_package = None;
    c.nightly_toolchain = None;
    assert_eq!(
        nightly_cargo_args(&c, "walrus", "feat/x", "/r"),
        vec!["install", "--locked", "--force", "--git", "https://github.com/MystenLabs/walrus", "--branch", "feat/x", "walrus", "--root", "/r"]
    );
    let (built, kept) = nightly_artifact_paths("/data/binaries", "walrus", "main", true, Platform::Unix);
    assert_eq!(built, "/data/binaries/main/bin/walrus");
    assert_eq!(kept, "/data/binaries/main/bin/walrus-debug-nightly");
    let (built, kept) = nightly_artifact_paths("C:\\d", "sui", "main", false, Platform::Windows);
    assert_eq!(built, "C:\\d\\main\\bin\\sui.exe");
    assert_eq!(kept, "C:\\d\\main\\bin\\sui-nightly.exe");
}

#[test]
fn answers() {
    assert_eq!(interpret_answer("y"), Answer::Yes);
    assert_eq!(interpret_answer(" yes\n"), Answer::Yes);
    assert_eq!(interpret_answer(""), Answer::No);
    assert_eq!(interpret_answer("\n"), Answer::No);
    assert_eq!(interpret_answer("n"), Answer::No);
    assert_eq!(interpret_answer("no"), Answer::No);
    assert_eq!(interpret_answer("maybe"), Answer::Unclear);
    assert_eq!(interpret_answer("Y"), Answer::Unclear);
    assert!(CleanCommand { yes: true }.confirmed("n"));
    assert!(CleanCommand { yes: false }.confirmed(" y\n"));
    assert!(!CleanCommand { yes: false }.confirmed("yes"));
    assert!(!CleanCommand { yes: false }.confirmed(""));
}

#[test]
fn after_install() {
    let names = vec!["sui".to_string(), "sui-node".to_string()];
    let both = vec!["/r/testnet/sui-v1".to_string(), "/r/testnet/sui-node-v1".to_string()];
    match update_after_install(&names, "testnet", "v1", false, true, "", "/r", &both, Platform::Unix) {
        AfterInstall::Promote(targets) => {
            assert_eq!(targets.len(), 2);
            assert_eq!(targets[1].binary_name, "sui-node");
            assert_eq!(targets[1].network_release, "testnet");
            assert_eq!(targets[1].version, "v1");
            assert!(!targets[1].debug);
        }
        other => panic!("{other:?}"),
    }
    assert!(matches!(
        update_after_install(&names, "testnet", "v1", false, false, "yes", "/r", &both, Platform::Unix),
        AfterInstall::Promote(_)
    ));
    assert!(matches!(
        update_after_install(&names, "testnet", "v1", false, false, "", "/r", &both, Platform::Unix),
        AfterInstall::Keep
    ));
    assert!(matches!(
        update_after_install(&names, "testnet", "v1", false, false, "what", "/r", &both, Platform::Unix),
        AfterInstall::AskAgain
    ));
    match update_after_install(&names, "testnet", "v1", false, true, "y", "/r", &both[..1].to_vec(), Platform::Unix) {
        AfterInstall::Skip { missing } => assert_eq!(missing, "/r/testnet/sui-node-v1"),
        other => panic!("{other:?}"),
    }
    assert!(matches!(
        update_after_install(&vec![], "testnet", "v1", false, true, "", "/r", &vec![], Platform::Unix),
        AfterInstall::Promote(t) if t.is_empty()
    ));
}

#[test]
fn cleanup_takes_the_files_that_have_had_their_time() {
    let files = vec![file("/c/a", 31, 10), file("/c/b", 1, 20), file("/c/c", 40, 30)];
    let plan = handle_cleanup(&files, false, 30);
    assert_eq!(plan.remove, vec!["/c/a", "/c/c"]);
    assert_eq!(plan.cleaned_size, 40);
    let all = handle_cleanup(&files, true, 30);
    assert_eq!(all.remove.len(), 3);
    assert_eq!(all.cleaned_size, 60);
    let none = handle_cleanup(&files, false, 365);
    assert!(none.remove.is_empty());
    assert_eq!(none.cleaned_size, 0);
    assert!(handle_cleanup(&vec![], true, 0).remove.is_empty());
}

#[test]
fn cleanup_counts_no_further_than_the_machine() {
    let files = vec![file("/a", 9, u64::MAX - 1), file("/b", 9, 5), file("/c", 9, 7)];
    assert_eq!(handle_cleanup(&files, true, 1).cleaned_size, u64::MAX);
}

#[test]
fn a_file_expires_after_its_days() {
    assert!(!expired(30 * 86400, 30));
    assert!(expired(30 * 86400 + 1, 30));
    assert!(expired(1, 0));
    assert!(!expired(0, 0));
    assert!(!expired(u64::MAX / 2, u32::MAX) || u64::MAX / 2 > u32::MAX as u64 * 86400);
    assert_eq!(days_old(86399), 0);
    assert_eq!(days_old(86400 * 3 + 5), 3);
}

#[test]
fn show_rows() {
    let installed = InstalledBinaries::from_records(vec![
        BinaryVersion {
            binary_name: "sui".to_string(),
            network_release: "testnet".to_string(),
            version: "v1".to_string(),
            debug: true,
            path: None,
        },
        BinaryVersion {
            binary_name: "mvr".to_string(),
            network_release: "standalone".to_string(),
            version: "v0.0.5".to_string(),
            debug: false,
            path: None,
        },
        BinaryVersion {
            binary_name: "walrus".to_string(),
            network_release: "testnet".to_string(),
            version: "v2".to_string(),
            debug: false,
            path: None,
        },
    ]);
    let mut defaults = DefaultVersions::new();
    defaults.set("sui", "testnet", "v1", true);
    let (default_rows, rows) = handle_show(&defaults, &installed);
    assert_eq!(default_rows, vec![vec!["testnet", "sui", "v1", "Yes"]]);
    assert_eq!(
        rows,
        vec![
            vec!["testnet", "sui", "v1", "Yes"],
            vec!["testnet", "walrus", "v2", "No"],
            vec!["standalone", "mvr", "v0.0.5", "No"],
        ]
    );
    assert_eq!(header(), vec!["Network", "Binary", "Version", "Debug"]);
    assert_eq!(installed_rows(&vec![]).len(), 0);
    assert_eq!(DefaultGet.rows(&DefaultVersions::new()).len(), 0);
    assert_eq!(debug_label(true), "Yes");
    assert_eq!(debug_label(false), "No");
}

#[test]
fn doctor_checks() {
    let checks = doctor("/h/suibase", "/h/.local/bin", Platform::Unix).unwrap();
    assert_eq!(checks.len(), 7);
    assert!(matches!(&checks[0].probe, Probe::CommandExists(c) if c == "git"));
    assert_eq!(checks[1].label, "bash command available");
    assert_eq!(checks[1].suggestion, "Install bash and ensure it is in PATH");
    assert!(matches!(&checks[2].probe, Probe::PathExists(p) if p == "/h/suibase"));
    assert_eq!(checks[2].label, "suibase directory exists (/h/suibase)");
    assert_eq!(checks[2].suggestion, "Run `suiup suibase install` to create /h/suibase");
    assert_eq!(checks[4].label, "update script exists (/h/suibase/update)");
    assert_eq!(checks[5].suggestion, "Run `suiup suibase install` to restore uninstall");
    assert!(matches!(&checks[6].probe, Probe::OnSearchPath(p) if p == "/h/.local/bin"));
    assert_eq!(checks[6].suggestion, "Add to shell profile: export PATH=\"/h/.local/bin:$PATH\"");
    assert!(!checks[6].required);
    assert!(doctor("/h/suibase", "/h/.local/bin", Platform::Windows).is_err());

    assert_eq!(count_failures(&checks, &vec![true; 7]), 0);
    assert_eq!(count_failures(&checks, &vec![true, true, true, true, true, true, false]), 0);
    assert_eq!(count_failures(&checks, &vec![false, true, false, true, true, true, false]), 2);
    assert_eq!(count_failures(&checks, &vec![]), 6);
}
