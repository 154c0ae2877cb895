//! Installing, updating and removing suibase: what is to be run, in which order.

use crate::paths::{join, joined};
use crate::platform::Platform;
use crate::text::{concat, join_texts, joined_with, split, split_on, text_eq, texts};
use vstd::prelude::*;

verus! {

/// Where suibase is fetched from.
pub const SUIBASE_REPO_URL: &'static str = "https://github.com/chainmovers/suibase.git";

/// How an action is to be carried out.
#[derive(Clone, Copy, Debug, PartialEq, Eq, Structural)]
pub struct ActionOptions {
    /// Do not ask.
    pub yes: bool,
    /// Show what would be run, and run nothing.
    pub dry_run: bool,
}

impl Default for ActionOptions {
    fn default() -> (r: Self)
        ensures
            !r.yes,
            !r.dry_run,
    {
        ActionOptions { yes: false, dry_run: false }
    }
}

/// Why an action on suibase cannot begin or go on.
#[derive(Debug)]
pub enum SuibaseError {
    /// suibase does not run on Windows itself.
    UnsupportedPlatform,
    /// A script of suibase is not where it should be; the text is what to tell the user.
    ScriptMissing(String),
}

impl SuibaseError {
    /// What to tell the user.
    pub fn message(&self) -> (r: String)
        ensures
            r@ == match *self {
                SuibaseError::UnsupportedPlatform => "suibase is supported on Linux/macOS/WSL2. Native Windows is not supported."@,
                SuibaseError::ScriptMissing(message) => message@,
            },
    {
        match self {
            SuibaseError::UnsupportedPlatform => String::from_str(
                "suibase is supported on Linux/macOS/WSL2. Native Windows is not supported.",
            ),
            SuibaseError::ScriptMissing(message) => message.clone(),
        }
    }
}

/// One step of an action. The steps are taken in order, and the first that fails ends
/// the action. Where `dry_run` is set, the step is shown and not taken.
#[derive(Debug)]
pub enum Step {
    /// See that the command can be run.
    EnsureAvailable { command: String, dry_run: bool },
    /// Ask the user whether to go on; the action ends here, in peace, where they decline.
    Confirm { question: String },
    /// See that the script is there, as `ensure_script_exists` judges it; `message` is
    /// what to say where it is not.
    EnsureScript { path: String, dry_run: bool, message: String },
    /// Run the program; `context` is what to say where it fails.
    Run { program: String, args: Vec<String>, dry_run: bool, context: String },
}

/// The step sees that `command` can be run.
pub open spec fn is_check(step: Step, command: Seq<char>, dry_run: bool) -> bool {
    step matches Step::EnsureAvailable { command: c, dry_run: d } && c@ == command && d == dry_run
}

/// The step asks the user `question`.
pub open spec fn is_question(step: Step, question: Seq<char>) -> bool {
    step matches Step::Confirm { question: q } && q@ == question
}

/// The step sees that the script at `path` is there.
pub open spec fn is_script_check(step: Step, path: Seq<char>, message: Seq<char>, dry_run: bool) -> bool {
    step matches Step::EnsureScript { path: p, dry_run: d, message: m } && p@ == path && m@
        == message && d == dry_run
}

/// The step runs `program` with `args`.
pub open spec fn is_run(
    step: Step,
    program: Seq<char>,
    args: Seq<Seq<char>>,
    context: Seq<char>,
    dry_run: bool,
) -> bool {
    step matches Step::Run { program: p, args: a, dry_run: d, context: c } && p@ == program
        && texts(a@) == args && c@ == context && d == dry_run
}

/// What seeing after a script came to.
#[derive(Clone, Copy, Debug, PartialEq, Eq, Structural)]
pub enum ScriptCheck {
    /// The script is there.
    Found,
    /// The script is not there, which a dry run only reports.
    MissingInDryRun,
}

/// Judges whether an action can go on past a script: it can where the script is there;
/// where it is not, a dry run reports that and goes on, and a real run fails with
/// `err_msg`.
pub fn ensure_script_exists(exists: bool, dry_run: bool, err_msg: &str) -> (r: Result<
    ScriptCheck,
    SuibaseError,
>)
    ensures
        match r {
            Ok(ScriptCheck::Found) => exists,
            Ok(ScriptCheck::MissingInDryRun) => !exists && dry_run,
            Err(SuibaseError::ScriptMissing(message)) => !exists && !dry_run && message@ == err_msg@,
            Err(_) => false,
        },
{
    if exists {
        Ok(ScriptCheck::Found)
    } else if dry_run {
        Ok(ScriptCheck::MissingInDryRun)
    } else {
        Err(SuibaseError::ScriptMissing(String::from_str(err_msg)))
    }
}

/// The steps are those that install suibase into `suibase_dir`.
pub open spec fn is_install_plan(
    steps: Seq<Step>,
    opts: ActionOptions,
    suibase_dir: Seq<char>,
    dir_exists: bool,
    platform: Platform,
) -> bool {
    let script = joined(suibase_dir, "install"@, platform);
    &&& steps.len() == 5
    &&& is_check(steps[0], "git"@, opts.dry_run)
    &&& is_check(steps[1], "bash"@, opts.dry_run)
    &&& if dir_exists {
        is_run(
            steps[2],
            "git"@,
            seq!["-C"@, suibase_dir, "pull"@, "--ff-only"@],
            "Failed to pull suibase repository. Next step: inspect local changes under suibase directory."@,
            opts.dry_run,
        )
    } else {
        is_run(
            steps[2],
            "git"@,
            seq!["clone"@, SUIBASE_REPO_URL@, suibase_dir],
            "Failed to clone suibase repository. Next step: verify network access and git credentials."@,
            opts.dry_run,
        )
    }
    &&& is_script_check(
        steps[3],
        script,
        "Suibase install script not found. Next step: run `suiup suibase install --dry-run` to inspect command flow."@,
        opts.dry_run,
    )
    &&& is_run(
        steps[4],
        "bash"@,
        seq![script],
        "Suibase install failed. Next step: run the install script directly for full output."@,
        opts.dry_run,
    )
}

/// The steps are those that update suibase in `suibase_dir`.
pub open spec fn is_update_plan(
    steps: Seq<Step>,
    opts: ActionOptions,
    suibase_dir: Seq<char>,
    platform: Platform,
) -> bool {
    let script = joined(suibase_dir, "update"@, platform);
    &&& steps.len() == 3
    &&& is_check(steps[0], "bash"@, opts.dry_run)
    &&& is_script_check(
        steps[1],
        script,
        "Suibase update script not found. Next step: run `suiup suibase install` first."@,
        opts.dry_run,
    )
    &&& is_run(
        steps[2],
        "bash"@,
        seq![script],
        "Suibase update failed. Next step: retry after `suiup suibase doctor` passes."@,
        opts.dry_run,
    )
}

/// The steps are those that remove suibase from `suibase_dir`.
pub open spec fn is_uninstall_plan(
    steps: Seq<Step>,
    opts: ActionOptions,
    suibase_dir: Seq<char>,
    platform: Platform,
) -> bool {
    let script = joined(suibase_dir, "uninstall"@, platform);
    let asks: int = if !opts.yes && !opts.dry_run {
        1
    } else {
        0
    };
    &&& steps.len() == 3 + asks
    &&& is_check(steps[0], "bash"@, opts.dry_run)
    &&& asks == 1 ==> is_question(steps[1], "This will run suibase uninstall. Continue? [y/N] "@)
    &&& is_script_check(
        steps[1 + asks],
        script,
        "Suibase uninstall script not found. Next step: verify suibase installation path."@,
        opts.dry_run,
    )
    &&& is_run(
        steps[2 + asks],
        "bash"@,
        seq![script],
        "Suibase uninstall failed. Next step: run the uninstall script directly for details."@,
        opts.dry_run,
    )
}

/// suibase runs everywhere but on Windows itself.
pub fn ensure_supported_platform(platform: Platform) -> (r: Result<(), SuibaseError>)
    ensures
        r is Ok == (platform == Platform::Unix),
{
    match platform {
        Platform::Unix => Ok(()),
        Platform::Windows => Err(SuibaseError::UnsupportedPlatform),
    }
}

/// The step that runs a script of suibase with the shell.
fn run_script(script: &str, dry_run: bool, context: &str) -> (r: Step)
    ensures
        is_run(r, "bash"@, seq![script@], context@, dry_run),
{
    let mut args: Vec<String> = Vec::new();
    args.push(String::from_str(script));
    assert(texts(args@) =~= seq![script@]);
    Step::Run {
        program: String::from_str("bash"),
        args,
        dry_run,
        context: String::from_str(context),
    }
}

/// The steps that install suibase into `suibase_dir`, each with the dry-run flag of the
/// options: see that git and the shell are
/// there, fetch the repository (what is new, where the directory exists already; all of
/// it, where not), see that the install script is there, and run it.
pub fn install(opts: ActionOptions, suibase_dir: &str, dir_exists: bool, platform: Platform) -> (r:
    Result<Vec<Step>, SuibaseError>)
    ensures
        r is Ok == (platform == Platform::Unix),
        r matches Ok(steps) ==> is_install_plan(steps@, opts, suibase_dir@, dir_exists, platform),
{
    match ensure_supported_platform(platform) {
        Ok(()) => {},
        Err(e) => {
            return Err(e);
        },
    }
    let mut steps: Vec<Step> = Vec::new();
    steps.push(Step::EnsureAvailable { command: String::from_str("git"), dry_run: opts.dry_run });
    steps.push(Step::EnsureAvailable { command: String::from_str("bash"), dry_run: opts.dry_run });
    let mut args: Vec<String> = Vec::new();
    if dir_exists {
        args.push(String::from_str("-C"));
        args.push(String::from_str(suibase_dir));
        args.push(String::from_str("pull"));
        args.push(String::from_str("--ff-only"));
        assert(texts(args@) =~= seq!["-C"@, suibase_dir@, "pull"@, "--ff-only"@]);
        steps.push(
            Step::Run {
                program: String::from_str("git"),
                args,
                dry_run: opts.dry_run,
                context: String::from_str(
                    "Failed to pull suibase repository. Next step: inspect local changes under suibase directory.",
                ),
            },
        );
    } else {
        args.push(String::from_str("clone"));
        args.push(String::from_str(SUIBASE_REPO_URL));
        args.push(String::from_str(suibase_dir));
        assert(texts(args@) =~= seq!["clone"@, SUIBASE_REPO_URL@, suibase_dir@]);
        steps.push(
            Step::Run {
                program: String::from_str("git"),
                args,
                dry_run: opts.dry_run,
                context: String::from_str(
                    "Failed to clone suibase repository. Next step: verify network access and git credentials.",
                ),
            },
        );
    }
    let script = join(suibase_dir, "install", platform);
    steps.push(
        Step::EnsureScript {
            path: script.clone(),
            dry_run: opts.dry_run,
            message: String::from_str(
                "Suibase install script not found. Next step: run `suiup suibase install --dry-run` to inspect command flow.",
            ),
        },
    );
    steps.push(
        run_script(
            script.as_str(),
            opts.dry_run,
            "Suibase install failed. Next step: run the install script directly for full output.",
        ),
    );
    Ok(steps)
}

/// The steps that update suibase in `suibase_dir`: see that the shell is there and the
/// update script, and run it.
pub fn update(opts: ActionOptions, suibase_dir: &str, platform: Platform) -> (r: Result<
    Vec<Step>,
    SuibaseError,
>)
    ensures
        r is Ok == (platform == Platform::Unix),
        r matches Ok(steps) ==> is_update_plan(steps@, opts, suibase_dir@, platform),
{
    match ensure_supported_platform(platform) {
        Ok(()) => {},
        Err(e) => {
            return Err(e);
        },
    }
    let mut steps: Vec<Step> = Vec::new();
    steps.push(Step::EnsureAvailable { command: String::from_str("bash"), dry_run: opts.dry_run });
    let script = join(suibase_dir, "update", platform);
    steps.push(
        Step::EnsureScript {
            path: script.clone(),
            dry_run: opts.dry_run,
            message: String::from_str(
                "Suibase update script not found. Next step: run `suiup suibase install` first.",
            ),
        },
    );
    steps.push(
        run_script(
            script.as_str(),
            opts.dry_run,
            "Suibase update failed. Next step: retry after `suiup suibase doctor` passes.",
        ),
    );
    Ok(steps)
}

/// Whether the user is to be asked before suibase is removed: not where they said yes
/// beforehand, and not where nothing is run anyway.
pub fn needs_confirmation(opts: ActionOptions) -> (r: bool)
    ensures
        r == (!opts.yes && !opts.dry_run),
{
    !opts.yes && !opts.dry_run
}

/// The steps that remove suibase from `suibase_dir`: see that the shell is there, ask the
/// user where that is due, see that the uninstall script is there, and run it.
pub fn uninstall(opts: ActionOptions, suibase_dir: &str, platform: Platform) -> (r: Result<
    Vec<Step>,
    SuibaseError,
>)
    ensures
        r is Ok == (platform == Platform::Unix),
        r matches Ok(steps) ==> is_uninstall_plan(steps@, opts, suibase_dir@, platform),
{
    match ensure_supported_platform(platform) {
        Ok(()) => {},
        Err(e) => {
            return Err(e);
        },
    }
    let mut steps: Vec<Step> = Vec::new();
    steps.push(Step::EnsureAvailable { command: String::from_str("bash"), dry_run: opts.dry_run });
    if needs_confirmation(opts) {
        steps.push(
            Step::Confirm {
                question: String::from_str("This will run suibase uninstall. Continue? [y/N] "),
            },
        );
    }
    let script = join(suibase_dir, "uninstall", platform);
    steps.push(
        Step::EnsureScript {
            path: script.clone(),
            dry_run: opts.dry_run,
            message: String::from_str(
                "Suibase uninstall script not found. Next step: verify suibase installation path.",
            ),
        },
    );
    steps.push(
        run_script(
            script.as_str(),
            opts.dry_run,
            "Suibase uninstall failed. Next step: run the uninstall script directly for details.",
        ),
    );
    Ok(steps)
}

/// A command as one would type it: the program, and its arguments with blanks between.
pub fn format_command(program: &str, args: &Vec<String>) -> (r: String)
    ensures
        r@ == if args@.len() == 0 {
            program@
        } else {
            program@ + " "@ + joined_with(texts(args@), " "@)
        },
{
    if args.len() == 0 {
        return String::from_str(program);
    }
    let mut r = concat(program, " ");
    r.append(join_texts(args, " ").as_str());
    r
}

/// The directory of suibase: the one that the user set, else `suibase` in their home.
pub fn resolve_suibase_dir(home: String, override_dir: Option<String>, platform: Platform) -> (r:
    String)
    ensures
        r@ == match override_dir {
            Some(dir) => dir@,
            None => joined(home@, "suibase"@, platform),
        },
{
    match override_dir {
        Some(dir) => dir,
        None => join(home.as_str(), "suibase", platform),
    }
}

/// The user's own directory for executables.
pub fn local_bin_dir(home: &str, platform: Platform) -> (r: String)
    ensures
        r@ == joined(joined(home@, ".local"@, platform), "bin"@, platform),
{
    join(join(home, ".local", platform).as_str(), "bin", platform)
}

/// `target` is an entry of the search path `path_var`.
pub open spec fn is_on_path(path_var: Seq<char>, target: Seq<char>, platform: Platform) -> bool {
    split_on(path_var, platform.list_separator_char()).contains(target)
}

/// Whether `target` is an entry of the search path `path_var`.
pub fn path_contains_from(path_var: &str, target: &str, platform: Platform) -> (r: bool)
    ensures
        r == is_on_path(path_var@, target@, platform),
{
    let entries = split(path_var, platform.path_list_separator_char());
    let ghost all = split_on(path_var@, platform.list_separator_char());
    let mut i: usize = 0;
    while i < entries.len()
        invariant
            i <= entries.len(),
            all == texts(entries@),
            all == split_on(path_var@, platform.list_separator_char()),
            forall|j: int| 0 <= j < i ==> all[j] != target@,
        decreases entries.len() - i,
    {
        assert(all[i as int] == entries@[i as int]@);
        if text_eq(entries[i].as_str(), target) {
            return true;
        }
        i = i + 1;
    }
    false
}

/// What a check looks at.
#[derive(Debug)]
pub enum Probe {
    /// The command can be run.
    CommandExists(String),
    /// Something lies at the path.
    PathExists(String),
    /// The directory is on the search path.
    OnSearchPath(String),
}

/// A check of the environment of suibase.
#[derive(Debug)]
pub struct Check {
    pub probe: Probe,
    pub label: String,
    pub suggestion: String,
    /// Whether the check counts as failed where it does not hold; else it only warns.
    pub required: bool,
}

/// The check sees that `command` can be run.
pub open spec fn checks_command(check: Check, command: Seq<char>) -> bool {
    &&& check.probe matches Probe::CommandExists(c)
    &&& c@ == command
    &&& check.label@ == command + " command available"@
    &&& check.suggestion@ == "Install "@ + command + " and ensure it is in PATH"@
    &&& check.required
}

/// The check sees that the script `script` of suibase lies in `dir`.
pub open spec fn checks_script(check: Check, dir: Seq<char>, script: Seq<char>, platform: Platform) -> bool {
    &&& check.probe matches Probe::PathExists(p)
    &&& p@ == joined(dir, script, platform)
    &&& check.label@ == script + " script exists ("@ + joined(dir, script, platform) + ")"@
    &&& check.suggestion@ == "Run `suiup suibase install` to restore "@ + script
    &&& check.required
}

/// The check for a command.
fn command_check(command: &str) -> (r: Check)
    ensures
        checks_command(r, command@),
{
    let mut suggestion = concat("Install ", command);
    suggestion.append(" and ensure it is in PATH");
    Check {
        probe: Probe::CommandExists(String::from_str(command)),
        label: concat(command, " command available"),
        suggestion,
        required: true,
    }
}

/// The check for a script of suibase.
fn script_check(dir: &str, script: &str, platform: Platform) -> (r: Check)
    ensures
        checks_script(r, dir@, script@, platform),
{
    let path = join(dir, script, platform);
    let mut label = concat(script, " script exists (");
    label.append(path.as_str());
    label.append(")");
    Check {
        probe: Probe::PathExists(path),
        label,
        suggestion: concat("Run `suiup suibase install` to restore ", script),
        required: true,
    }
}

/// The checks of the environment of suibase, in order: git and the shell can be run, the
/// directory of suibase is there with its three scripts, and the user's directory for
/// executables is on the search path, which is worth a warning only.
pub fn doctor(suibase_dir: &str, local_bin: &str, platform: Platform) -> (r: Result<
    Vec<Check>,
    SuibaseError,
>)
    ensures
        r is Ok == (platform == Platform::Unix),
        r matches Ok(checks) ==> {
            &&& checks@.len() == 7
            &&& checks_command(checks@[0], "git"@)
            &&& checks_command(checks@[1], "bash"@)
            &&& checks@[2].probe matches Probe::PathExists(p)
            &&& p@ == suibase_dir@
            &&& checks@[2].label@ == "suibase directory exists ("@ + suibase_dir@ + ")"@
            &&& checks@[2].suggestion@ == "Run `suiup suibase install` to create "@ + suibase_dir@
            &&& checks@[2].required
            &&& checks_script(checks@[3], suibase_dir@, "install"@, platform)
            &&& checks_script(checks@[4], suibase_dir@, "update"@, platform)
            &&& checks_script(checks@[5], suibase_dir@, "uninstall"@, platform)
            &&& checks@[6].probe matches Probe::OnSearchPath(d)
            &&& d@ == local_bin@
            &&& checks@[6].label@ == "PATH contains "@ + local_bin@
            &&& checks@[6].suggestion@ == "Add to shell profile: export PATH=\""@ + local_bin@
                + ":$PATH\""@
            &&& !checks@[6].required
        },
{
    match ensure_supported_platform(platform) {
        Ok(()) => {},
        Err(e) => {
            return Err(e);
        },
    }
    let mut checks: Vec<Check> = Vec::new();
    checks.push(command_check("git"));
    checks.push(command_check("bash"));
    let mut label = concat("suibase directory exists (", suibase_dir);
    label.append(")");
    checks.push(
        Check {
            probe: Probe::PathExists(String::from_str(suibase_dir)),
            label,
            suggestion: concat("Run `suiup suibase install` to create ", suibase_dir),
            required: true,
        },
    );
    checks.push(script_check(suibase_dir, "install", platform));
    checks.push(script_check(suibase_dir, "update", platform));
    checks.push(script_check(suibase_dir, "uninstall", platform));
    let mut suggestion = concat("Add to shell profile: export PATH=\"", local_bin);
    suggestion.append(":$PATH\"");
    checks.push(
        Check {
            probe: Probe::OnSearchPath(String::from_str(local_bin)),
            label: concat("PATH contains ", local_bin),
            suggestion,
            required: false,
        },
    );
    Ok(checks)
}

/// The check at `i` is known to have held.
pub open spec fn did_hold(held: Seq<bool>, i: int) -> bool {
    0 <= i < held.len() && held[i]
}

/// The required checks among the first `n` that did not hold.
pub open spec fn failures_of(checks: Seq<Check>, held: Seq<bool>, n: int) -> nat
    decreases n,
{
    if n <= 0 {
        0
    } else {
        failures_of(checks, held, n - 1) + if checks[n - 1].required && !did_hold(held, n - 1) {
            1nat
        } else {
            0nat
        }
    }
}

/// Counts the required checks that did not hold; `held` says of each check, in order,
/// whether it held, and a check that it says nothing of counts as one that did not.
pub fn count_failures(checks: &Vec<Check>, held: &Vec<bool>) -> (r: usize)
    ensures
        r == failures_of(checks@, held@, checks@.len() as int),
{
    let mut failures: usize = 0;
    let mut i: usize = 0;
    while i < checks.len()
        invariant
            i <= checks.len(),
            failures <= i,
            failures == failures_of(checks@, held@, i as int),
        decreases checks.len() - i,
    {
        let ok = i < held.len() && held[i];
        if checks[i].required && !ok {
            failures = failures + 1;
        }
        i = i + 1;
    }
    failures
}

} // verus!
