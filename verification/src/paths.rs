//! Where the tool keeps its files: pure functions from the environment to paths.

use crate::platform::Platform;
use crate::text::{concat, texts};
use vstd::prelude::*;

verus! {

/// The environment variables that decide where files live, as the process found them.
pub struct Environment {
    pub platform: Platform,
    /// `HOME`.
    pub home: Option<String>,
    /// `XDG_DATA_HOME`.
    pub xdg_data_home: Option<String>,
    /// `XDG_CONFIG_HOME`.
    pub xdg_config_home: Option<String>,
    /// `XDG_CACHE_HOME`.
    pub xdg_cache_home: Option<String>,
    /// `LOCALAPPDATA`.
    pub local_app_data: Option<String>,
    /// `USERPROFILE`.
    pub user_profile: Option<String>,
    /// `TEMP`.
    pub temp: Option<String>,
    /// `SUIUP_DEFAULT_BIN_DIR`.
    pub default_bin_dir: Option<String>,
}

/// `base` and `name` as one path.
pub open spec fn joined(base: Seq<char>, name: Seq<char>, platform: Platform) -> Seq<char> {
    base + platform.separator() + name
}

/// The name under which a binary is shown and kept in the default directory.
pub open spec fn display_name_of(binary_name: Seq<char>, debug: bool) -> Seq<char> {
    if debug {
        binary_name + "-debug"@
    } else {
        binary_name
    }
}

/// The file name of an installed artifact.
pub open spec fn artifact_name_of(
    binary_name: Seq<char>,
    version: Seq<char>,
    debug: bool,
    platform: Platform,
) -> Seq<char> {
    if version.len() == 0 {
        display_name_of(binary_name, debug) + platform.extension()
    } else {
        display_name_of(binary_name, debug) + "-"@ + version + platform.extension()
    }
}

/// The directory that holds the artifacts of one network or branch. What was built from a
/// branch lies one level deeper, under `bin`, where the builder puts it.
pub open spec fn artifact_dir_of(
    root: Seq<char>,
    network_release: Seq<char>,
    version: Seq<char>,
    platform: Platform,
) -> Seq<char> {
    if version == "nightly"@ {
        joined(joined(root, network_release, platform), "bin"@, platform)
    } else {
        joined(root, network_release, platform)
    }
}

/// Where an installed artifact lies.
pub open spec fn install_path_of(
    root: Seq<char>,
    binary_name: Seq<char>,
    network_release: Seq<char>,
    version: Seq<char>,
    debug: bool,
    platform: Platform,
) -> Seq<char> {
    joined(
        artifact_dir_of(root, network_release, version, platform),
        artifact_name_of(binary_name, version, debug, platform),
        platform,
    )
}

/// Where the default copy of a binary lies.
pub open spec fn default_bin_path_of(
    default_bin_root: Seq<char>,
    binary_name: Seq<char>,
    debug: bool,
    platform: Platform,
) -> Seq<char> {
    joined(default_bin_root, display_name_of(binary_name, debug) + platform.extension(), platform)
}

/// `base` and `name` as one path.
pub fn join(base: &str, name: &str, platform: Platform) -> (r: String)
    ensures
        r@ == joined(base@, name@, platform),
{
    let mut r = concat(base, platform.path_separator());
    r.append(name);
    r
}

/// The name under which a binary is shown and kept in the default directory: the binary's
/// name, with `-debug` behind it for a debug build.
pub fn display_name(binary_name: &str, debug: bool) -> (r: String)
    ensures
        r@ == display_name_of(binary_name@, debug),
{
    if debug {
        concat(binary_name, "-debug")
    } else {
        String::from_str(binary_name)
    }
}

/// Where an installed artifact lies: under `root`, in the directory of its network or
/// branch, named by binary, build kind and version.
pub fn install_path(
    root: &str,
    binary_name: &str,
    network_release: &str,
    version: &str,
    debug: bool,
    platform: Platform,
) -> (r: String)
    ensures
        r@ == install_path_of(root@, binary_name@, network_release@, version@, debug, platform),
{
    let mut dir = join(root, network_release, platform);
    if crate::text::text_eq(version, "nightly") {
        dir = join(dir.as_str(), "bin", platform);
    }
    let mut file = display_name(binary_name, debug);
    if version.unicode_len() > 0 {
        file.append("-");
        file.append(version);
    }
    file.append(platform.executable_extension());
    join(dir.as_str(), file.as_str(), platform)
}

/// Where the artifact of a release lies: in the directory of its network, named by binary
/// and version. Unlike `install_path`, this looks no deeper for what was built from a
/// branch.
pub fn release_artifact_path(
    root: &str,
    binary_name: &str,
    network_release: &str,
    version: &str,
    platform: Platform,
) -> (r: String)
    ensures
        r@ == joined(
            joined(root@, network_release@, platform),
            artifact_name_of(binary_name@, version@, false, platform),
            platform,
        ),
{
    let dir = join(root, network_release, platform);
    let mut file = String::from_str(binary_name);
    if version.unicode_len() > 0 {
        file.append("-");
        file.append(version);
    }
    file.append(platform.executable_extension());
    join(dir.as_str(), file.as_str(), platform)
}

/// Where the default copy of a binary lies.
pub fn default_bin_path(
    default_bin_root: &str,
    binary_name: &str,
    debug: bool,
    platform: Platform,
) -> (r: String)
    ensures
        r@ == default_bin_path_of(default_bin_root@, binary_name@, debug, platform),
{
    let mut file = display_name(binary_name, debug);
    file.append(platform.executable_extension());
    join(default_bin_root, file.as_str(), platform)
}

/// The text of an optional path.
pub open spec fn path_view(p: Option<String>) -> Option<Seq<char>> {
    match p {
        Some(s) => Some(s@),
        None => None,
    }
}

/// `name` below an optional directory.
pub open spec fn below(base: Option<Seq<char>>, name: Seq<char>, platform: Platform) -> Option<
    Seq<char>,
> {
    match base {
        Some(b) => Some(joined(b, name, platform)),
        None => None,
    }
}

/// `first` where it is set, else `name` below `second`.
pub open spec fn or_below(
    first: Option<String>,
    second: Option<Seq<char>>,
    name: Seq<char>,
    platform: Platform,
) -> Option<Seq<char>> {
    match first {
        Some(p) => Some(p@),
        None => below(second, name, platform),
    }
}

impl Environment {
    /// `AppData/Local` below the user's profile.
    pub open spec fn profile_local(&self) -> Option<Seq<char>> {
        below(below(path_view(self.user_profile), "AppData"@, self.platform), "Local"@, self.platform)
    }

    /// The directory for a user's data files.
    pub open spec fn data_home(&self) -> Option<Seq<char>> {
        match self.platform {
            Platform::Windows => match self.local_app_data {
                Some(p) => Some(p@),
                None => self.profile_local(),
            },
            Platform::Unix => or_below(
                self.xdg_data_home,
                below(path_view(self.home), ".local"@, self.platform),
                "share"@,
                self.platform,
            ),
        }
    }

    /// The directory for a user's configuration files.
    pub open spec fn config_home(&self) -> Option<Seq<char>> {
        match self.platform {
            Platform::Windows => match self.local_app_data {
                Some(p) => Some(p@),
                None => self.profile_local(),
            },
            Platform::Unix => or_below(
                self.xdg_config_home,
                path_view(self.home),
                ".config"@,
                self.platform,
            ),
        }
    }

    /// The directory for a user's cache files.
    pub open spec fn cache_home(&self) -> Option<Seq<char>> {
        match self.platform {
            Platform::Windows => or_below(self.temp, self.profile_local(), "Temp"@, self.platform),
            Platform::Unix => or_below(
                self.xdg_cache_home,
                path_view(self.home),
                ".cache"@,
                self.platform,
            ),
        }
    }

    /// The directory that holds the default copy of each binary.
    pub open spec fn default_bin_home(&self) -> Option<Seq<char>> {
        match self.platform {
            Platform::Windows => below(path_view(self.local_app_data), "bin"@, self.platform),
            Platform::Unix => or_below(
                self.default_bin_dir,
                below(path_view(self.home), ".local"@, self.platform),
                "bin"@,
                self.platform,
            ),
        }
    }

    /// The tool's own directory for data.
    pub open spec fn suiup_data_dir(&self) -> Option<Seq<char>> {
        below(self.data_home(), "suiup"@, self.platform)
    }

    /// The tool's directory for configuration as it was laid out at first.
    pub open spec fn old_suiup_config_dir(&self) -> Option<Seq<char>> {
        below(self.config_home(), "suiup"@, self.platform)
    }

    /// The tool's own directory for configuration.
    pub open spec fn suiup_config_dir(&self) -> Option<Seq<char>> {
        below(self.old_suiup_config_dir(), "config"@, self.platform)
    }

    /// The tool's own directory for cached files.
    pub open spec fn suiup_cache_dir(&self) -> Option<Seq<char>> {
        below(self.cache_home(), "suiup"@, self.platform)
    }
}

/// `name` below an optional directory.
fn join_below(base: Option<String>, name: &str, platform: Platform) -> (r: Option<String>)
    ensures
        path_view(r) == below(path_view(base), name@, platform),
{
    match base {
        Some(b) => Some(join(b.as_str(), name, platform)),
        None => None,
    }
}

/// `first` where it is set, else `name` below `second`.
fn first_or_below(first: &Option<String>, second: Option<String>, name: &str, platform: Platform) -> (r:
    Option<String>)
    ensures
        path_view(r) == or_below(*first, path_view(second), name@, platform),
{
    match first {
        Some(p) => Some(p.clone()),
        None => join_below(second, name, platform),
    }
}

/// `AppData/Local` below the user's profile.
fn get_profile_local(env: &Environment) -> (r: Option<String>)
    ensures
        path_view(r) == env.profile_local(),
{
    join_below(join_below(env.user_profile.clone(), "AppData", env.platform), "Local", env.platform)
}

/// The directory for a user's data files: what the environment names for it, else the
/// platform's usual place below the user's home. `None` where the environment names
/// neither.
pub fn get_data_home(env: &Environment) -> (r: Option<String>)
    ensures
        path_view(r) == env.data_home(),
{
    match env.platform {
        Platform::Windows => match &env.local_app_data {
            Some(p) => Some(p.clone()),
            None => get_profile_local(env),
        },
        Platform::Unix => first_or_below(
            &env.xdg_data_home,
            join_below(env.home.clone(), ".local", env.platform),
            "share",
            env.platform,
        ),
    }
}

/// The directory for a user's configuration files.
pub fn get_config_home(env: &Environment) -> (r: Option<String>)
    ensures
        path_view(r) == env.config_home(),
{
    match env.platform {
        Platform::Windows => match &env.local_app_data {
            Some(p) => Some(p.clone()),
            None => get_profile_local(env),
        },
        Platform::Unix => first_or_below(
            &env.xdg_config_home,
            env.home.clone(),
            ".config",
            env.platform,
        ),
    }
}

/// The directory for a user's cache files.
pub fn get_cache_home(env: &Environment) -> (r: Option<String>)
    ensures
        path_view(r) == env.cache_home(),
{
    match env.platform {
        Platform::Windows => first_or_below(
            &env.temp,
            get_profile_local(env),
            "Temp",
            env.platform,
        ),
        Platform::Unix => first_or_below(
            &env.xdg_cache_home,
            env.home.clone(),
            ".cache",
            env.platform,
        ),
    }
}

/// The tool's own directory for data.
pub fn get_suiup_data_dir(env: &Environment) -> (r: Option<String>)
    ensures
        path_view(r) == env.suiup_data_dir(),
{
    join_below(get_data_home(env), "suiup", env.platform)
}

/// The tool's own directory for configuration.
pub fn get_suiup_config_dir(env: &Environment) -> (r: Option<String>)
    ensures
        path_view(r) == env.suiup_config_dir(),
{
    join_below(get_old_suiup_config_dir(env), "config", env.platform)
}

/// The tool's directory for configuration as it was laid out at first.
pub fn get_old_suiup_config_dir(env: &Environment) -> (r: Option<String>)
    ensures
        path_view(r) == env.old_suiup_config_dir(),
{
    join_below(get_config_home(env), "suiup", env.platform)
}

/// The tool's own directory for cached files.
pub fn get_suiup_cache_dir(env: &Environment) -> (r: Option<String>)
    ensures
        path_view(r) == env.suiup_cache_dir(),
{
    join_below(get_cache_home(env), "suiup", env.platform)
}

/// The directory that holds the default copy of each binary, expected on `PATH`.
pub fn get_default_bin_dir(env: &Environment) -> (r: Option<String>)
    ensures
        path_view(r) == env.default_bin_home(),
{
    match env.platform {
        Platform::Windows => join_below(env.local_app_data.clone(), "bin", env.platform),
        Platform::Unix => first_or_below(
            &env.default_bin_dir,
            join_below(env.home.clone(), ".local", env.platform),
            "bin",
            env.platform,
        ),
    }
}

/// A file of the given name in the tool's configuration directory.
pub fn get_config_file(env: &Environment, name: &str) -> (r: Option<String>)
    ensures
        path_view(r) == below(env.suiup_config_dir(), name@, env.platform),
{
    join_below(get_suiup_config_dir(env), name, env.platform)
}

/// The file that records the default version of each binary.
pub fn default_file_path(env: &Environment) -> (r: Option<String>)
    ensures
        path_view(r) == below(env.suiup_config_dir(), "default_version.json"@, env.platform),
{
    get_config_file(env, "default_version.json")
}

/// The file that records the installed binaries.
pub fn installed_binaries_file(env: &Environment) -> (r: Option<String>)
    ensures
        path_view(r) == below(env.suiup_config_dir(), "installed_binaries.json"@, env.platform),
{
    get_config_file(env, "installed_binaries.json")
}

/// The directory that keeps downloaded release archives.
pub fn release_archive_dir(env: &Environment) -> (r: Option<String>)
    ensures
        path_view(r) == below(env.suiup_cache_dir(), "releases"@, env.platform),
{
    join_below(get_suiup_cache_dir(env), "releases", env.platform)
}

/// The root of the installed artifacts.
pub fn binaries_dir(env: &Environment) -> (r: Option<String>)
    ensures
        path_view(r) == below(env.suiup_data_dir(), "binaries"@, env.platform),
{
    join_below(get_suiup_data_dir(env), "binaries", env.platform)
}

/// The directories that the tool needs, in the order in which they are made: for
/// configuration, data and cache, for the artifacts, for the release archives and for the
/// default copies. `None` where the environment does not say where one of them lies.
pub open spec fn directories(env: Environment) -> Option<Seq<Seq<char>>> {
    match (
        env.suiup_config_dir(),
        env.suiup_data_dir(),
        env.suiup_cache_dir(),
        env.default_bin_home(),
    ) {
        (Some(config), Some(data), Some(cache), Some(bin)) => Some(
            seq![
                config,
                data,
                cache,
                joined(data, "binaries"@, env.platform),
                joined(cache, "releases"@, env.platform),
                bin,
            ],
        ),
        _ => None,
    }
}

/// The directories to make before anything else is done, in order.
pub fn initialize(env: &Environment) -> (r: Option<Vec<String>>)
    ensures
        match r {
            Some(dirs) => directories(*env) == Some(texts(dirs@)),
            None => directories(*env) is None,
        },
{
    match (
        get_suiup_config_dir(env),
        get_suiup_data_dir(env),
        get_suiup_cache_dir(env),
        get_default_bin_dir(env),
    ) {
        (Some(config), Some(data), Some(cache), Some(bin)) => {
            let binaries = join(data.as_str(), "binaries", env.platform);
            let releases = join(cache.as_str(), "releases", env.platform);
            let mut dirs: Vec<String> = Vec::new();
            dirs.push(config);
            dirs.push(data);
            dirs.push(cache);
            dirs.push(binaries);
            dirs.push(releases);
            dirs.push(bin);
            assert(texts(dirs@) =~= directories(*env)->0);
            Some(dirs)
        },
        _ => None,
    }
}

/// What the caller found of the two store files, in the directory in which they lay at
/// first and in the one in which they lie now.
#[derive(Clone, Copy, Debug, PartialEq, Eq, Structural)]
pub struct ConfigProbe {
    pub old_dir_exists: bool,
    pub new_dir_exists: bool,
    /// `default_version.json` lies in the old directory.
    pub old_default: bool,
    /// `installed_binaries.json` lies in the old directory.
    pub old_installed: bool,
    /// `default_version.json` lies in the new directory.
    pub new_default: bool,
    /// `installed_binaries.json` lies in the new directory.
    pub new_installed: bool,
    /// `default_version.json` in the new directory is not empty.
    pub new_default_filled: bool,
    /// `installed_binaries.json` in the new directory is not empty.
    pub new_installed_filled: bool,
}

/// A file to copy.
#[derive(Debug)]
pub struct FileCopy {
    pub from: String,
    pub to: String,
}

/// The copy is that of the file `name` from `from_dir` to `to_dir`.
pub open spec fn is_copy_of(
    copy: FileCopy,
    name: Seq<char>,
    from_dir: Seq<char>,
    to_dir: Seq<char>,
    platform: Platform,
) -> bool {
    copy.from@ == joined(from_dir, name, platform) && copy.to@ == joined(to_dir, name, platform)
}

/// Whether the store files are to be moved at all: the old directory is there, and the
/// new one holds neither file yet.
pub open spec fn migration_due(probe: ConfigProbe) -> bool {
    probe.old_dir_exists && !(probe.new_dir_exists && (probe.new_default || probe.new_installed))
}

/// The store files to copy from the directory in which they lay at first into the one
/// in which they lie now: nothing where the old directory is gone or the new one holds a
/// store file already; else each file that the old directory has and the new one lacks,
/// the defaults first. `None` where the environment does not say where the directories
/// lie.
pub fn migrate_config_files(env: &Environment, probe: ConfigProbe) -> (r: Option<Vec<FileCopy>>)
    ensures
        r is Some == env.suiup_config_dir() is Some,
        r matches Some(copies) ==> {
            let old = env.old_suiup_config_dir()->0;
            let new = env.suiup_config_dir()->0;
            let first = migration_due(probe) && probe.old_default && !probe.new_default;
            let second = migration_due(probe) && probe.old_installed && !probe.new_installed;
            &&& copies@.len() == (if first { 1int } else { 0int }) + (if second { 1int } else { 0int })
            &&& first ==> is_copy_of(copies@[0], "default_version.json"@, old, new, env.platform)
            &&& second ==> is_copy_of(
                copies@[copies@.len() - 1],
                "installed_binaries.json"@,
                old,
                new,
                env.platform,
            )
        },
{
    let (old, new) = match (get_old_suiup_config_dir(env), get_suiup_config_dir(env)) {
        (Some(old), Some(new)) => (old, new),
        _ => {
            return None;
        },
    };
    let mut copies: Vec<FileCopy> = Vec::new();
    let due = probe.old_dir_exists && !(probe.new_dir_exists && (probe.new_default
        || probe.new_installed));
    if due && probe.old_default && !probe.new_default {
        copies.push(
            FileCopy {
                from: join(old.as_str(), "default_version.json", env.platform),
                to: join(new.as_str(), "default_version.json", env.platform),
            },
        );
    }
    if due && probe.old_installed && !probe.new_installed {
        copies.push(
            FileCopy {
                from: join(old.as_str(), "installed_binaries.json", env.platform),
                to: join(new.as_str(), "installed_binaries.json", env.platform),
            },
        );
    }
    Some(copies)
}

/// The store files to delete from the directory in which they lay at first: each that
/// also lies, not empty, in the new directory; nothing where one of the directories is
/// gone. `None` where the environment does not say where the directories lie.
pub fn cleanup_old_config_files(env: &Environment, probe: ConfigProbe) -> (r: Option<Vec<String>>)
    ensures
        r is Some == env.suiup_config_dir() is Some,
        r matches Some(files) ==> {
            let old = env.old_suiup_config_dir()->0;
            let both = probe.old_dir_exists && probe.new_dir_exists;
            let first = both && probe.old_default && probe.new_default && probe.new_default_filled;
            let second = both && probe.old_installed && probe.new_installed
                && probe.new_installed_filled;
            &&& files@.len() == (if first { 1int } else { 0int }) + (if second { 1int } else { 0int })
            &&& first ==> files@[0]@ == joined(old, "default_version.json"@, env.platform)
            &&& second ==> files@[files@.len() - 1]@ == joined(
                old,
                "installed_binaries.json"@,
                env.platform,
            )
        },
{
    let old = match (get_old_suiup_config_dir(env), get_suiup_config_dir(env)) {
        (Some(old), Some(_)) => old,
        _ => {
            return None;
        },
    };
    let mut files: Vec<String> = Vec::new();
    let both = probe.old_dir_exists && probe.new_dir_exists;
    if both && probe.old_default && probe.new_default && probe.new_default_filled {
        files.push(join(old.as_str(), "default_version.json", env.platform));
    }
    if both && probe.old_installed && probe.new_installed && probe.new_installed_filled {
        files.push(join(old.as_str(), "installed_binaries.json", env.platform));
    }
    Some(files)
}

} // verus!
