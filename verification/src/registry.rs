//! The catalog of the binaries that can be installed. It is made once and read after.

use crate::sequences::lemma_insert_multiset;
use crate::text::{
    concat, is_blank, lemma_lex_less_asymmetric, lemma_lex_less_transitive, lex_less, text_eq,
    text_less, trimmed,
};
use vstd::prelude::*;

verus! {

/// How a binary comes: out of a release archive, or as a file of its own.
#[derive(Clone, Copy, Debug, PartialEq, Eq, Structural)]
pub enum InstallationType {
    Archive,
    Standalone,
}

/// What the catalog says of one binary.
#[derive(Clone, Debug)]
pub struct BinaryConfig {
    pub name: String,
    pub description: String,
    /// The repository, as owner and name with a slash between.
    pub repository: String,
    pub main_branch: String,
    pub installation_type: InstallationType,
    pub network_based: bool,
    /// The networks that the binary is released for; none means any.
    pub supported_networks: Vec<String>,
    pub default_network: String,
    pub supports_debug: bool,
    pub cargo_package: Option<String>,
    pub nightly_toolchain: Option<String>,
    pub shared_repo_binary: bool,
}

/// The branch that a binary is built from where its entry names none.
pub fn default_main_branch() -> (r: String)
    ensures
        r@ == "main"@,
{
    String::from_str("main")
}

/// The network of a binary whose entry names none.
pub fn default_network() -> (r: String)
    ensures
        r@ == "testnet"@,
{
    String::from_str("testnet")
}

/// An optional text that holds nothing but white space says nothing.
pub open spec fn is_unset(value: Option<String>) -> bool {
    value matches Some(s) && trimmed(s@).len() == 0
}

/// An optional text that holds nothing but white space becomes absent.
pub fn normalize_optional_string(value: &mut Option<String>)
    ensures
        *final(value) == if is_unset(*old(value)) {
            None
        } else {
            *old(value)
        },
{
    let blank = match value {
        Some(s) => is_blank(s.as_str()),
        None => false,
    };
    if blank {
        *value = None;
    }
}

/// An entry with its optional texts normalized.
pub open spec fn normalized(c: BinaryConfig) -> BinaryConfig {
    BinaryConfig {
        cargo_package: if is_unset(c.cargo_package) {
            None
        } else {
            c.cargo_package
        },
        nightly_toolchain: if is_unset(c.nightly_toolchain) {
            None
        } else {
            c.nightly_toolchain
        },
        ..c
    }
}

/// The entries of `s`, each normalized.
pub open spec fn all_normalized(s: Seq<BinaryConfig>) -> Seq<BinaryConfig> {
    Seq::new(s.len(), |i: int| normalized(s[i]))
}

/// The entries stand in the order of their names.
pub open spec fn sorted_by_name(s: Seq<BinaryConfig>) -> bool {
    forall|i: int, j: int| 0 <= i < j < s.len() ==> !lex_less((#[trigger] s[j]).name@, (#[trigger] s[i]).name@)
}

/// `out` holds the entries of `inp` in the order of their names, entries of one name in
/// the order that they have in `inp`; `origin` says for each place of `out` which place of
/// `inp` its entry comes from.
pub open spec fn is_sorted_stably(out: Seq<BinaryConfig>, inp: Seq<BinaryConfig>, origin: Seq<int>) -> bool {
    &&& out.len() == inp.len()
    &&& origin.len() == out.len()
    &&& forall|k: int|
        0 <= k < out.len() ==> 0 <= #[trigger] origin[k] < inp.len() && out[k] == inp[origin[k]]
    &&& sorted_by_name(out)
    &&& forall|a: int, b: int|
        0 <= a < b < out.len() && (#[trigger] out[a]).name@ == (#[trigger] out[b]).name@ ==> origin[a]
            < origin[b]
}

/// Some entry of `s` is for the binary `name`.
pub open spec fn has_entry(s: Seq<BinaryConfig>, name: Seq<char>) -> bool {
    exists|i: int| 0 <= i < s.len() && (#[trigger] s[i]).name@ == name
}

/// `i` is the position of the first entry of `s` for the binary `name`.
pub open spec fn is_first_entry(s: Seq<BinaryConfig>, name: Seq<char>, i: int) -> bool {
    &&& 0 <= i < s.len()
    &&& s[i].name@ == name
    &&& forall|j: int| 0 <= j < i ==> (#[trigger] s[j]).name@ != name
}

impl BinaryConfig {
    /// The address of the binary's repository.
    pub fn repo_url(&self) -> (r: String)
        ensures
            r@ == "https://github.com/"@ + self.repository@,
    {
        concat("https://github.com/", self.repository.as_str())
    }

    /// Whether the binary is released for `network`: for any network where the entry
    /// names none.
    pub fn supports_network(&self, network: &str) -> (r: bool)
        ensures
            r == (self.supported_networks@.len() == 0 || exists|i: int|
                0 <= i < self.supported_networks@.len() && (#[trigger] self.supported_networks@[i])@
                    == network@),
    {
        if self.supported_networks.len() == 0 {
            return true;
        }
        let mut i: usize = 0;
        while i < self.supported_networks.len()
            invariant
                i <= self.supported_networks.len(),
                forall|j: int| 0 <= j < i ==> (#[trigger] self.supported_networks@[j])@ != network@,
            decreases self.supported_networks.len() - i,
        {
            if text_eq(self.supported_networks[i].as_str(), network) {
                return true;
            }
            i = i + 1;
        }
        false
    }
}

/// The catalog: the entries in the order of their names.
pub struct BinaryRegistry {
    configs: Vec<BinaryConfig>,
}

impl BinaryRegistry {
    /// The entries.
    pub closed spec fn entries(&self) -> Seq<BinaryConfig> {
        self.configs@
    }

    /// The catalog has an entry for the binary `name`.
    pub open spec fn knows(&self, name: Seq<char>) -> bool {
        has_entry(self.entries(), name)
    }

    /// The catalog of the given entries: each with its optional texts normalized, all in
    /// the order of their names, and entries of one name in the order given.
    pub fn new(configs: Vec<BinaryConfig>) -> (r: Self)
        ensures
            exists|origin: Seq<int>| #[trigger]
                is_sorted_stably(r.entries(), all_normalized(configs@), origin),
            sorted_by_name(r.entries()),
            r.entries().to_multiset() == all_normalized(configs@).to_multiset(),
    {
        let mut sorted: Vec<BinaryConfig> = Vec::new();
        let mut rest = configs;
        let ghost all = all_normalized(configs@);
        let ghost mut origin: Seq<int> = Seq::empty();
        let ghost mut i: int = 0;
        assert(all.take(0) =~= Seq::<BinaryConfig>::empty());
        assert(configs@.skip(0) =~= configs@);
        while rest.len() > 0
            invariant
                0 <= i <= configs@.len(),
                rest@ == configs@.skip(i),
                all == all_normalized(configs@),
                is_sorted_stably(sorted@, all.take(i), origin),
                sorted@.to_multiset() == all.take(i).to_multiset(),
            decreases rest.len(),
        {
            let mut config = rest.remove(0);
            assert(config == configs@[i]);
            assert(rest@ =~= configs@.skip(i + 1));
            normalize_optional_string(&mut config.cargo_package);
            normalize_optional_string(&mut config.nightly_toolchain);
            assert(config == all[i]);
            let mut p: usize = 0;
            while p < sorted.len() && !text_less(config.name.as_str(), sorted[p].name.as_str())
                invariant
                    p <= sorted.len(),
                    forall|j: int| 0 <= j < p ==> !lex_less(config.name@, (#[trigger] sorted@[j]).name@),
                decreases sorted.len() - p,
            {
                p = p + 1;
            }
            proof {
                let before = sorted@;
                let after = before.insert(p as int, config);
                let from = origin.insert(p as int, i);
                let inp = all.take(i + 1);
                assert forall|k: int| 0 <= k < after.len() implies 0 <= #[trigger] from[k] < inp.len()
                    && after[k] == inp[from[k]] by {
                    if k < p {
                        assert(from[k] == origin[k]);
                        assert(after[k] == before[k]);
                    } else if k > p {
                        assert(from[k] == origin[k - 1]);
                        assert(after[k] == before[k - 1]);
                    }
                }
                assert forall|a: int, b: int| 0 <= a < b < after.len() implies !lex_less(
                    (#[trigger] after[b]).name@,
                    (#[trigger] after[a]).name@,
                ) && (after[a].name@ == after[b].name@ ==> from[a] < from[b]) by {
                    if b == p {
                        assert(after[a] == before[a]);
                        assert(from[a] == origin[a]);
                    } else if a == p {
                        assert(after[b] == before[b - 1]);
                        lemma_lex_less_asymmetric(config.name@, before[p as int].name@);
                        crate::text::lemma_lex_less_irreflexive(config.name@);
                        if b - 1 != p {
                            assert(!lex_less(before[b - 1].name@, before[p as int].name@));
                            if lex_less(after[b].name@, config.name@) {
                                lemma_lex_less_transitive(
                                    before[b - 1].name@,
                                    config.name@,
                                    before[p as int].name@,
                                );
                            }
                        }
                    } else {
                        let x = if a < p {
                            a
                        } else {
                            a - 1
                        };
                        let y = if b < p {
                            b
                        } else {
                            b - 1
                        };
                        assert(after[a] == before[x]);
                        assert(after[b] == before[y]);
                        assert(from[a] == origin[x]);
                        assert(from[b] == origin[y]);
                        assert(!lex_less(before[y].name@, before[x].name@));
                    }
                }
                lemma_insert_multiset(before, p as int, config);
                assert(inp =~= all.take(i).push(all[i]));
                vstd::seq_lib::to_multiset_build(all.take(i), all[i]);
                origin = from;
                i = i + 1;
            }
            sorted.insert(p, config);
        }
        assert(all.take(configs@.len() as int) =~= all);
        let r = BinaryRegistry { configs: sorted };
        assert(is_sorted_stably(r.entries(), all, origin));
        r
    }

    /// The entry of the binary `name`: the first one, where there are several.
    pub fn get(&self, name: &str) -> (r: Option<&BinaryConfig>)
        ensures
            r is Some == self.knows(name@),
            r matches Some(c) ==> exists|i: int| #[trigger]
                is_first_entry(self.entries(), name@, i) && *c == self.entries()[i],
    {
        let mut i: usize = 0;
        while i < self.configs.len()
            invariant
                i <= self.configs.len(),
                forall|j: int| 0 <= j < i ==> (#[trigger] self.configs@[j]).name@ != name@,
            decreases self.configs.len() - i,
        {
            if text_eq(self.configs[i].name.as_str(), name) {
                assert(is_first_entry(self.entries(), name@, i as int));
                return Some(&self.configs[i]);
            }
            i = i + 1;
        }
        None
    }

    /// Every entry, in the order of the names.
    pub fn all(&self) -> (r: &Vec<BinaryConfig>)
        ensures
            r@ == self.entries(),
    {
        &self.configs
    }

    /// The names of the binaries, in their order.
    pub fn all_names(&self) -> (r: Vec<String>)
        ensures
            r@.len() == self.entries().len(),
            forall|i: int| 0 <= i < r@.len() ==> (#[trigger] r@[i])@ == self.entries()[i].name@,
    {
        let mut names: Vec<String> = Vec::new();
        let mut i: usize = 0;
        while i < self.configs.len()
            invariant
                i <= self.configs.len(),
                names@.len() == i,
                forall|j: int| 0 <= j < i ==> (#[trigger] names@[j])@ == self.configs@[j].name@,
            decreases self.configs.len() - i,
        {
            names.push(self.configs[i].name.clone());
            i = i + 1;
        }
        names
    }

    /// Whether the catalog has an entry for the binary `name`.
    pub fn contains(&self, name: &str) -> (r: bool)
        ensures
            r == self.knows(name@),
    {
        self.get(name).is_some()
    }
}

/// Why a name is not the name of a binary.
#[derive(Debug)]
pub struct UnknownBinary {
    pub name: String,
}

impl UnknownBinary {
    /// What to tell the user.
    pub fn message(&self) -> (r: String)
        ensures
            r@ == "Unknown binary: "@ + self.name@,
    {
        concat("Unknown binary: ", self.name.as_str())
    }
}

/// The name of a binary that the catalog knows.
#[derive(Debug, Hash)]
pub struct BinaryName(String);

impl View for BinaryName {
    type V = Seq<char>;

    closed spec fn view(&self) -> Seq<char> {
        self.0@
    }
}

impl Clone for BinaryName {
    fn clone(&self) -> (r: Self)
        ensures
            r@ == self@,
    {
        BinaryName(self.0.clone())
    }
}

impl PartialEq for BinaryName {
    fn eq(&self, other: &Self) -> (r: bool) {
        self.0 == other.0
    }
}

impl Eq for BinaryName {

}

impl vstd::std_specs::cmp::PartialEqSpecImpl for BinaryName {
    open spec fn obeys_eq_spec() -> bool {
        true
    }

    open spec fn eq_spec(&self, other: &Self) -> bool {
        self@ == other@
    }
}

impl BinaryName {
    /// The name `name`, where the catalog knows a binary of that name.
    pub fn new(registry: &BinaryRegistry, name: &str) -> (r: Result<BinaryName, UnknownBinary>)
        ensures
            match r {
                Ok(n) => registry.knows(name@) && n@ == name@,
                Err(e) => !registry.knows(name@) && e.name@ == name@,
            },
    {
        if registry.contains(name) {
            Ok(BinaryName(String::from_str(name)))
        } else {
            Err(UnknownBinary { name: String::from_str(name) })
        }
    }

    /// The name as text.
    pub fn as_str(&self) -> (r: &str)
        ensures
            r@ == self@,
    {
        self.0.as_str()
    }

    /// The name as text of its own.
    pub fn to_string(&self) -> (r: String)
        ensures
            r@ == self@,
    {
        self.0.clone()
    }

    /// The entry of the binary in the catalog that knows it.
    pub fn config<'a>(&self, registry: &'a BinaryRegistry) -> (r: &'a BinaryConfig)
        requires
            registry.knows(self@),
        ensures
            exists|i: int| #[trigger] is_first_entry(registry.entries(), self@, i) && *r == registry.entries()[i],
    {
        match registry.get(self.0.as_str()) {
            Some(config) => config,
            None => {
                proof {
                    assert(false);
                }
                unreached()
            },
        }
    }

    /// The address of the binary's repository.
    pub fn repo_url(&self, registry: &BinaryRegistry) -> (r: String)
        requires
            registry.knows(self@),
        ensures
            exists|i: int| #[trigger] is_first_entry(registry.entries(), self@, i) && r@ == "https://github.com/"@ + registry.entries()[i].repository@,
    {
        self.config(registry).repo_url()
    }
}

} // verus!
