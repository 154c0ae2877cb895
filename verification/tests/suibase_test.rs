use suiup::commands::suibase::install::Command as InstallCommand;
use suiup::commands::suibase::uninstall::Command as UninstallCommand;
use suiup::commands::suibase::update::Command as UpdateCommand;
use suiup::handlers::suibase::{
    ensure_script_exists, ensure_supported_platform, format_command, install, local_bin_dir,
    needs_confirmation, path_contains_from, resolve_suibase_dir, uninstall, update, ActionOptions,
    ScriptCheck, Step, SuibaseError,
};
use suiup::platform::Platform;

/// Takes the steps as a runner that agrees to everything would, and records what it was
/// asked, with the dry-run flag that each step carries.
fn record(steps: &[Step]) -> Vec<String> {
    let mut entries = Vec::new();
    for step in steps {
        match step {
            Step::EnsureAvailable { command, dry_run } => entries.push(format!("check:{}:{}", command, dry_run)),
            Step::Run { program, args, dry_run, .. } => {
                entries.push(format!("run:{}:{}:{}", program, dry_run, args.join(" ")))
            }
            Step::EnsureScript { path, dry_run, message } => {
                // The script is never there in these tests.
                match ensure_script_exists(false, *dry_run, message) {
                    Ok(found) => entries.push(format!("script:{}:{:?}", path, found)),
                    Err(e) => {
                        entries.push(format!("failed:{}", e.message()));
                        return entries;
                    }
                }
            }
            Step::Confirm { question } => entries.push(format!("ask:{}", question)),
        }
    }
    entries
}

#[test]
fn test_resolve_suibase_dir_prefers_override() {
    let home = "/tmp/home".to_string();
    let override_dir = Some("/opt/suibase-custom".to_string());
    let path = resolve_suibase_dir(home, override_dir, Platform::Unix);
    assert_eq!(path, "/opt/suibase-custom");
}

#[test]
fn test_install_dry_run_clone_path() {
    let suibase_dir = "/tmp/work/suibase";
    let steps = install(ActionOptions { yes: true, dry_run: true }, suibase_dir, false, Platform::Unix).unwrap();

    let entries = record(&steps);
    assert!(entries.iter().any(|line| line == "check:git:true"));
    assert!(entries.iter().any(|line| line == "check:bash:true"));
    assert!(entries
        .iter()
        .any(|line| { line.contains("run:git:true:clone https://github.com/chainmovers/suibase.git") }));
    assert!(entries.iter().any(|line| line.contains("run:bash:true:")));
}

#[test]
fn test_install_dry_run_pull_path_when_repo_exists() {
    let suibase_dir = "/tmp/work/suibase";
    let steps = install(ActionOptions { yes: false, dry_run: true }, suibase_dir, true, Platform::Unix).unwrap();

    let entries = record(&steps);
    assert!(entries
        .iter()
        .any(|line| line.contains("run:git:true:-C") && line.contains("pull --ff-only")));
}

#[test]
fn resolve_suibase_dir_falls_back_to_home() {
    assert_eq!(resolve_suibase_dir("/home/u".to_string(), None, Platform::Unix), "/home/u/suibase");
    assert_eq!(local_bin_dir("/home/u", Platform::Unix), "/home/u/.local/bin");
}

#[test]
fn install_steps_in_order() {
    let steps = install(ActionOptions { yes: false, dry_run: true }, "/s", false, Platform::Unix).unwrap();
    assert_eq!(
        record(&steps),
        vec![
            "check:git:true",
            "check:bash:true",
            "run:git:true:clone https://github.com/chainmovers/suibase.git /s",
            "script:/s/install:MissingInDryRun",
            "run:bash:true:/s/install",
        ]
    );
}

#[test]
fn a_real_run_stops_at_a_missing_script() {
    let steps = install(ActionOptions::default(), "/s", false, Platform::Unix).unwrap();
    assert_eq!(
        record(&steps),
        vec![
            "check:git:false",
            "check:bash:false",
            "run:git:false:clone https://github.com/chainmovers/suibase.git /s",
            "failed:Suibase install script not found. Next step: run `suiup suibase install --dry-run` to inspect command flow.",
        ]
    );
}

#[test]
fn a_script_is_judged_by_presence_and_dry_run() {
    assert!(matches!(ensure_script_exists(true, false, "m"), Ok(ScriptCheck::Found)));
    assert!(matches!(ensure_script_exists(true, true, "m"), Ok(ScriptCheck::Found)));
    assert!(matches!(ensure_script_exists(false, true, "m"), Ok(ScriptCheck::MissingInDryRun)));
    match ensure_script_exists(false, false, "gone") {
        Err(e @ SuibaseError::ScriptMissing(_)) => assert_eq!(e.message(), "gone"),
        other => panic!("{other:?}"),
    }
}

#[test]
fn update_and_uninstall_steps() {
    let dry = ActionOptions { yes: false, dry_run: true };
    let steps = update(dry, "/s", Platform::Unix).unwrap();
    assert_eq!(
        record(&steps),
        vec!["check:bash:true", "script:/s/update:MissingInDryRun", "run:bash:true:/s/update"]
    );
    let steps = uninstall(ActionOptions::default(), "/s", Platform::Unix).unwrap();
    assert_eq!(
        record(&steps),
        vec![
            "check:bash:false",
            "ask:This will run suibase uninstall. Continue? [y/N] ",
            "failed:Suibase uninstall script not found. Next step: verify suibase installation path.",
        ]
    );
    let steps = uninstall(ActionOptions { yes: true, dry_run: false }, "/s", Platform::Unix).unwrap();
    assert_eq!(steps.len(), 3);
    let steps = uninstall(dry, "/s", Platform::Unix).unwrap();
    assert_eq!(steps.len(), 3);
    assert_eq!(record(&steps)[2], "run:bash:true:/s/uninstall");
}

#[test]
fn suibase_is_refused_on_windows() {
    assert!(matches!(ensure_supported_platform(Platform::Windows), Err(SuibaseError::UnsupportedPlatform)));
    assert!(ensure_supported_platform(Platform::Unix).is_ok());
    assert!(install(ActionOptions::default(), "C:\\s", false, Platform::Windows).is_err());
    assert!(update(ActionOptions::default(), "C:\\s", Platform::Windows).is_err());
    assert!(uninstall(ActionOptions::default(), "C:\\s", Platform::Windows).is_err());
    assert_eq!(
        SuibaseError::UnsupportedPlatform.message(),
        "suibase is supported on Linux/macOS/WSL2. Native Windows is not supported."
    );
}

#[test]
fn confirmation_is_asked_unless_yes_or_dry_run() {
    assert!(needs_confirmation(ActionOptions { yes: false, dry_run: false }));
    assert!(!needs_confirmation(ActionOptions { yes: true, dry_run: false }));
    assert!(!needs_confirmation(ActionOptions { yes: false, dry_run: true }));
}

#[test]
fn format_command_joins_with_blanks() {
    assert_eq!(format_command("git", &vec![]), "git");
    assert_eq!(format_command("git", &vec!["pull".to_string(), "--ff-only".to_string()]), "git pull --ff-only");
    assert_eq!(format_command("bash", &vec!["x".to_string()]), "bash x");
}

#[test]
fn path_contains_from_split_paths() {
    assert!(path_contains_from("/tmp/z:/tmp/a:/tmp/b", "/tmp/a", Platform::Unix));
    assert!(!path_contains_from("/tmp/z:/tmp/ab", "/tmp/a", Platform::Unix));
    assert!(path_contains_from("C:\\x;C:\\bin", "C:\\bin", Platform::Windows));
    assert!(!path_contains_from("", "/tmp/a", Platform::Unix));
    assert!(path_contains_from("", "", Platform::Unix));
}

#[test]
fn suibase_commands_plan_with_their_options() {
    let steps = InstallCommand { dry_run: true, yes: false }.exec("/s", true, Platform::Unix).unwrap();
    assert_eq!(steps.len(), 5);
    assert_eq!(InstallCommand { dry_run: true, yes: false }.options(), ActionOptions { yes: false, dry_run: true });
    assert_eq!(UpdateCommand { dry_run: false, yes: true }.exec("/s", Platform::Unix).unwrap().len(), 3);
    assert_eq!(UninstallCommand.exec("/s", Platform::Unix).unwrap().len(), 4);
}
