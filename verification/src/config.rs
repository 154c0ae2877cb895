//! The configuration of binaries as users may edit it: a list of entries, looked up by
//! name.

use crate::paths::{below, Environment};
use crate::sequences::{first_element, lemma_first};
use crate::text::{concat, text_eq};
use vstd::prelude::*;

verus! {

/// What the configuration says of one binary.
#[derive(Clone, Debug)]
pub struct BinaryConfig {
    pub name: String,
    /// The name of the executable, where it differs from the entry's name.
    pub binary_name: String,
    pub repository: String,
    pub description: String,
    /// The networks that the binary is released for; none means any.
    pub supported_networks: Vec<String>,
    pub default_network: String,
    pub supports_debug: bool,
}

/// The configuration: its entries, in the order of the file.
#[derive(Clone, Debug)]
pub struct BinariesConfig {
    pub binaries: Vec<BinaryConfig>,
}

/// Why the configuration gives no answer.
#[derive(Debug)]
pub enum ConfigError {
    /// The configuration was not loaded.
    NotLoaded,
    /// The configuration has no entry for this binary.
    NotFound(String),
}

impl ConfigError {
    /// What to tell the user.
    pub fn message(&self) -> (r: String)
        ensures
            r@ == match *self {
                ConfigError::NotLoaded => "Configuration not loaded. Call load_config() first."@,
                ConfigError::NotFound(name) => "Binary '"@ + name@ + "' not found in configuration"@,
            },
    {
        match self {
            ConfigError::NotLoaded => String::from_str(
                "Configuration not loaded. Call load_config() first.",
            ),
            ConfigError::NotFound(name) => {
                let mut r = concat("Binary '", name.as_str());
                r.append("' not found in configuration");
                r
            },
        }
    }
}

/// The entries that answer to `name`: by their own name or by that of their executable.
pub open spec fn answering(name: Seq<char>) -> spec_fn(BinaryConfig) -> bool {
    |b: BinaryConfig| b.name@ == name || b.binary_name@ == name
}

/// The entries of the repository `repo`.
pub open spec fn of_repository(repo: Seq<char>) -> spec_fn(BinaryConfig) -> bool {
    |b: BinaryConfig| b.repository@ == repo
}

/// The entry is released for `network`: for any network where it names none.
pub open spec fn releases_for(b: BinaryConfig, network: Seq<char>) -> bool {
    b.supported_networks@.len() == 0 || exists|i: int|
        0 <= i < b.supported_networks@.len() && (#[trigger] b.supported_networks@[i])@ == network
}

/// The text of an optional string.
pub open spec fn text_of(o: Option<String>) -> Option<Seq<char>> {
    match o {
        Some(s) => Some(s@),
        None => None,
    }
}

impl BinariesConfig {
    /// The first entry that answers to `name`.
    pub open spec fn binary_of(&self, name: Seq<char>) -> Option<BinaryConfig> {
        first_element(self.binaries@, answering(name))
    }

    /// The first entry that answers to `name`: by its own name or by that of its
    /// executable.
    pub fn get_binary(&self, name: &str) -> (r: Option<&BinaryConfig>)
        ensures
            match r {
                Some(b) => self.binary_of(name@) == Some(*b),
                None => self.binary_of(name@) is None,
            },
    {
        let mut i: usize = 0;
        while i < self.binaries.len()
            invariant
                i <= self.binaries.len(),
                forall|j: int| 0 <= j < i ==> !answering(name@)(#[trigger] self.binaries@[j]),
            decreases self.binaries.len() - i,
        {
            let b = &self.binaries[i];
            if text_eq(b.name.as_str(), name) || text_eq(b.binary_name.as_str(), name) {
                proof {
                    lemma_first(self.binaries@, answering(name@), i as int);
                }
                return Some(b);
            }
            i = i + 1;
        }
        None
    }

    /// The first entry of the repository `repo`.
    pub fn get_binary_by_repo(&self, repo: &str) -> (r: Option<&BinaryConfig>)
        ensures
            match r {
                Some(b) => first_element(self.binaries@, of_repository(repo@)) == Some(*b),
                None => first_element(self.binaries@, of_repository(repo@)) is None,
            },
    {
        let mut i: usize = 0;
        while i < self.binaries.len()
            invariant
                i <= self.binaries.len(),
                forall|j: int| 0 <= j < i ==> !of_repository(repo@)(#[trigger] self.binaries@[j]),
            decreases self.binaries.len() - i,
        {
            if text_eq(self.binaries[i].repository.as_str(), repo) {
                proof {
                    lemma_first(self.binaries@, of_repository(repo@), i as int);
                }
                return Some(&self.binaries[i]);
            }
            i = i + 1;
        }
        None
    }

    /// The names of the entries, in their order.
    pub fn available_components(&self) -> (r: Vec<String>)
        ensures
            r@.len() == self.binaries@.len(),
            forall|i: int| 0 <= i < r@.len() ==> (#[trigger] r@[i])@ == self.binaries@[i].name@,
    {
        let mut names: Vec<String> = Vec::new();
        let mut i: usize = 0;
        while i < self.binaries.len()
            invariant
                i <= self.binaries.len(),
                names@.len() == i,
                forall|j: int| 0 <= j < i ==> (#[trigger] names@[j])@ == self.binaries@[j].name@,
            decreases self.binaries.len() - i,
        {
            names.push(self.binaries[i].name.clone());
            i = i + 1;
        }
        names
    }

    /// Whether the binary is released for the network. An entry that names no network
    /// is released for every one; a binary without an entry for none.
    pub fn is_network_supported(&self, binary: &str, network: &str) -> (r: bool)
        ensures
            r == match self.binary_of(binary@) {
                Some(b) => releases_for(b, network@),
                None => false,
            },
    {
        match self.get_binary(binary) {
            Some(config) => {
                if config.supported_networks.len() == 0 {
                    return true;
                }
                let mut i: usize = 0;
                while i < config.supported_networks.len()
                    invariant
                        i <= config.supported_networks.len(),
                        self.binary_of(binary@) == Some(*config),
                        config.supported_networks@.len() > 0,
                        forall|j: int|
                            0 <= j < i ==> (#[trigger] config.supported_networks@[j])@ != network@,
                    decreases config.supported_networks.len() - i,
                {
                    if text_eq(config.supported_networks[i].as_str(), network) {
                        return true;
                    }
                    i = i + 1;
                }
                false
            },
            None => false,
        }
    }

    /// The network that the binary is installed from where none is asked for.
    pub fn get_default_network(&self, binary: &str) -> (r: Option<String>)
        ensures
            text_of(r) == match self.binary_of(binary@) {
                Some(b) => Some(b.default_network@),
                None => None,
            },
    {
        match self.get_binary(binary) {
            Some(config) => Some(config.default_network.clone()),
            None => None,
        }
    }

    /// Whether the binary comes as a debug build too; not so for a binary without an entry.
    pub fn supports_debug(&self, binary: &str) -> (r: bool)
        ensures
            r == match self.binary_of(binary@) {
                Some(b) => b.supports_debug,
                None => false,
            },
    {
        match self.get_binary(binary) {
            Some(config) => config.supports_debug,
            None => false,
        }
    }

    /// The address of the binary's repository.
    pub fn get_repo_url(&self, binary: &str) -> (r: Option<String>)
        ensures
            text_of(r) == match self.binary_of(binary@) {
                Some(b) => Some("https://github.com/"@ + b.repository@),
                None => None,
            },
    {
        match self.get_binary(binary) {
            Some(config) => Some(concat("https://github.com/", config.repository.as_str())),
            None => None,
        }
    }
}

/// The configuration, where it was loaded.
pub fn get_config(loaded: &Option<BinariesConfig>) -> (r: Result<&BinariesConfig, ConfigError>)
    ensures
        match r {
            Ok(c) => *loaded == Some(*c),
            Err(e) => *loaded is None && e is NotLoaded,
        },
{
    match loaded {
        Some(c) => Ok(c),
        None => Err(ConfigError::NotLoaded),
    }
}

/// Hands the loaded configuration to `f` and gives back what `f` gives; where no
/// configuration was loaded, `f` is not called.
pub fn with_config<T, F: FnOnce(&BinariesConfig) -> Result<T, ConfigError>>(
    loaded: &Option<BinariesConfig>,
    f: F,
) -> (r: Result<T, ConfigError>)
    requires
        loaded matches Some(c) ==> f.requires((&c,)),
    ensures
        match *loaded {
            Some(c) => f.ensures((&c,), r),
            None => r matches Err(ConfigError::NotLoaded),
        },
{
    match loaded {
        Some(c) => f(c),
        None => Err(ConfigError::NotLoaded),
    }
}

/// The entry of a binary in the loaded configuration.
pub fn get_binary_config<'a>(loaded: &'a Option<BinariesConfig>, name: &str) -> (r: Result<
    &'a BinaryConfig,
    ConfigError,
>)
    ensures
        match r {
            Ok(b) => loaded matches Some(c) && c.binary_of(name@) == Some(*b),
            Err(ConfigError::NotLoaded) => *loaded is None,
            Err(ConfigError::NotFound(n)) => loaded matches Some(c) && c.binary_of(name@) is None
                && n@ == name@,
        },
{
    match loaded {
        None => Err(ConfigError::NotLoaded),
        Some(c) => match c.get_binary(name) {
            Some(b) => Ok(b),
            None => Err(ConfigError::NotFound(String::from_str(name))),
        },
    }
}

/// The binaries that can be installed where no configuration says otherwise.
pub open spec fn fallback_components() -> Seq<Seq<char>> {
    seq!["sui"@, "mvr"@, "walrus"@, "site-builder"@]
}

/// The names of the binaries that can be installed: those of the loaded configuration,
/// else the four that the tool began with.
pub fn available_components(loaded: &Option<BinariesConfig>) -> (r: Vec<String>)
    ensures
        match *loaded {
            Some(c) => r@.len() == c.binaries@.len() && forall|i: int|
                0 <= i < r@.len() ==> (#[trigger] r@[i])@ == c.binaries@[i].name@,
            None => crate::text::texts(r@) == fallback_components(),
        },
{
    match loaded {
        Some(c) => c.available_components(),
        None => {
            let mut names: Vec<String> = Vec::new();
            names.push(String::from_str("sui"));
            names.push(String::from_str("mvr"));
            names.push(String::from_str("walrus"));
            names.push(String::from_str("site-builder"));
            assert(crate::text::texts(names@) =~= fallback_components());
            names
        },
    }
}

/// The file that holds the configuration of binaries.
pub fn get_config_file_path(env: &Environment) -> (r: Option<String>)
    ensures
        crate::paths::path_view(r) == below(
            below(env.config_home(), "suiup"@, env.platform),
            "binaries.json"@,
            env.platform,
        ),
{
    match crate::paths::get_old_suiup_config_dir(env) {
        Some(dir) => Some(crate::paths::join(dir.as_str(), "binaries.json", env.platform)),
        None => None,
    }
}

} // verus!
