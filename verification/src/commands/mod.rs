//! What the user asks for on the command line, read into values.

pub mod clean;
pub mod default;
pub mod doctor;
pub mod suibase;
pub mod switch;

use crate::commands::default::get::debug_label;
use crate::registry::{BinaryName, BinaryRegistry};
use crate::sequences::lemma_insert_multiset;
use crate::text::{lemma_lex_less_asymmetric, lemma_lex_less_transitive, lex_less, text_less, texts};
use crate::types::BinaryVersion;
use crate::text::{
    concat, contains, first_match, is_first_match, lemma_first_match_unique, occurs_in, split_once,
    starts_with, text_eq, trim, trimmed,
};
use vstd::prelude::*;

verus! {

/// A binary with the network and, where one was given, the version that the user named.
#[derive(Debug)]
pub struct CommandMetadata {
    pub name: BinaryName,
    pub network: String,
    pub version: Option<String>,
}

/// Why what the user wrote names no binary and version.
#[derive(Debug)]
pub enum ComponentError {
    /// The catalog knows no binary of this name; `versioned` says whether a version
    /// specification stood behind it.
    InvalidBinaryName { name: String, versioned: bool },
    /// A separator stands at the end, with no version behind it.
    EmptyVersion,
    /// More than one separator.
    InvalidFormat,
    /// What stands in the place of the version is neither a network nor a version.
    InvalidVersionFormat(String),
}

/// What follows the name in the message of an unknown binary.
pub open spec fn unknown_binary_hint(versioned: bool) -> Seq<char> {
    if versioned {
        ". Use `suiup list` to find available binaries to install or `suiup show` to see which binaries are already installed.\nWhen specifying versions, use `@`, e.g.: sui@v1.60.0\n\nMore information in the docs: https://github.com/mystenLabs/suiup?tab=readme-ov-file#switch-between-versions-note-that-default-set-requires-to-specify-a-version"@
    } else {
        ". Use `suiup list` to find available binaries to install or `suiup show` to see which binaries are already installed.\nWhen specifying versions, use @, e.g.: sui@v1.60.0\n\nMore information in the docs: https://github.com/mystenLabs/suiup?tab=readme-ov-file#switch-between-versions-note-that-default-set-requires-to-specify-a-version"@
    }
}

impl ComponentError {
    /// The text of `message`.
    pub open spec fn message_text(self) -> Seq<char> {
        match self {
            ComponentError::InvalidBinaryName { name, versioned } => "Invalid binary name: "@
                + name@ + unknown_binary_hint(versioned),
            ComponentError::EmptyVersion => "Version cannot be empty. Use 'binary' or 'binary@version' (e.g., sui@v1.60.0)"@,
            ComponentError::InvalidFormat => "Invalid format. Use 'binary' or 'binary version'"@,
            ComponentError::InvalidVersionFormat(spec) => "Invalid version format: '"@ + spec@
                + "'. Expected a version like 'v1.60.0' or '1.60.0', or when applicable, 'testnet', 'devnet', 'mainnet'."@,
        }
    }

    /// What to tell the user.
    pub fn message(&self) -> (r: String)
        ensures
            r@ == self.message_text(),
    {
        match self {
            ComponentError::InvalidBinaryName { name, versioned } => {
                let mut r = concat("Invalid binary name: ", name.as_str());
                if *versioned {
                    r.append(
                        ". Use `suiup list` to find available binaries to install or `suiup show` to see which binaries are already installed.\nWhen specifying versions, use `@`, e.g.: sui@v1.60.0\n\nMore information in the docs: https://github.com/mystenLabs/suiup?tab=readme-ov-file#switch-between-versions-note-that-default-set-requires-to-specify-a-version",
                    );
                } else {
                    r.append(
                        ". Use `suiup list` to find available binaries to install or `suiup show` to see which binaries are already installed.\nWhen specifying versions, use @, e.g.: sui@v1.60.0\n\nMore information in the docs: https://github.com/mystenLabs/suiup?tab=readme-ov-file#switch-between-versions-note-that-default-set-requires-to-specify-a-version",
                    );
                }
                r
            },
            ComponentError::EmptyVersion => String::from_str(
                "Version cannot be empty. Use 'binary' or 'binary@version' (e.g., sui@v1.60.0)",
            ),
            ComponentError::InvalidFormat => String::from_str(
                "Invalid format. Use 'binary' or 'binary version'",
            ),
            ComponentError::InvalidVersionFormat(spec) => {
                let mut r = concat("Invalid version format: '", spec.as_str());
                r.append(
                    "'. Expected a version like 'v1.60.0' or '1.60.0', or when applicable, 'testnet', 'devnet', 'mainnet'.",
                );
                r
            },
        }
    }
}

/// The text begins like a version: with a digit, or with `v` and a digit.
pub open spec fn begins_like_version(s: Seq<char>) -> bool {
    (s.len() > 0 && crate::decimal::is_digit(s[0])) || (s.len() > 1 && s[0] == 'v'
        && crate::decimal::is_digit(s[1]))
}

/// What a version specification names: a network and, where one is given, a version.
/// `None` where it is neither.
pub open spec fn version_spec_of(spec: Option<Seq<char>>) -> Option<(Seq<char>, Option<Seq<char>>)> {
    match spec {
        None => Some(("testnet"@, None)),
        Some(s) => if "testnet-"@.is_prefix_of(s) {
            Some(("testnet"@, Some(s.skip(8))))
        } else if "devnet-"@.is_prefix_of(s) {
            Some(("devnet"@, Some(s.skip(7))))
        } else if "mainnet-"@.is_prefix_of(s) {
            Some(("mainnet"@, Some(s.skip(8))))
        } else if s == "testnet"@ || s == "devnet"@ || s == "mainnet"@ {
            Some((s, None))
        } else if begins_like_version(s) && occurs_in("."@, s) {
            Some(("testnet"@, Some(s)))
        } else {
            None
        },
    }
}

/// The text of an optional string.
pub open spec fn optional_text(o: Option<String>) -> Option<Seq<char>> {
    match o {
        Some(s) => Some(s@),
        None => None,
    }
}

/// What is left of `s` behind its first `n` characters.
fn rest_after(s: &str, n: usize) -> (r: String)
    requires
        n <= s@.len(),
    ensures
        r@ == s@.skip(n as int),
{
    String::from_str(s.substring_char(n, s.unicode_len()))
}

/// Reads a version specification: a network and a version with a hyphen between, a
/// network alone, or a version alone, which then is one of testnet. No specification
/// means testnet, whatever version.
pub fn parse_version_spec(spec: Option<String>) -> (r: Result<(String, Option<String>), ComponentError>)
    ensures
        match r {
            Ok((network, version)) => version_spec_of(optional_text(spec)) == Some(
                (network@, optional_text(version)),
            ),
            Err(ComponentError::InvalidVersionFormat(t)) => version_spec_of(optional_text(spec)) is None
                && optional_text(spec) == Some(t@),
            Err(_) => false,
        },
{
    proof {
        reveal_strlit("testnet-");
        reveal_strlit("devnet-");
        reveal_strlit("mainnet-");
    }
    match spec {
        None => Ok((String::from_str("testnet"), None)),
        Some(s) => {
            let text = s.as_str();
            if starts_with(text, "testnet-") {
                Ok((String::from_str("testnet"), Some(rest_after(text, 8))))
            } else if starts_with(text, "devnet-") {
                Ok((String::from_str("devnet"), Some(rest_after(text, 7))))
            } else if starts_with(text, "mainnet-") {
                Ok((String::from_str("mainnet"), Some(rest_after(text, 8))))
            } else if text_eq(text, "testnet") || text_eq(text, "devnet") || text_eq(text, "mainnet") {
                Ok((s, None))
            } else {
                let len = text.unicode_len();
                let starts_valid = (len > 0 && crate::decimal::char_is_digit(text.get_char(0))) || (len
                    > 1 && text.get_char(0) == 'v' && crate::decimal::char_is_digit(text.get_char(1)));
                if starts_valid && contains(text, ".") {
                    Ok((String::from_str("testnet"), Some(s)))
                } else {
                    Err(ComponentError::InvalidVersionFormat(s))
                }
            }
        },
    }
}

/// What divides the binary from the version in `s`: the first of `@`, `==` and `=` that
/// occurs in it, else a blank.
pub open spec fn separator_of(s: Seq<char>) -> Seq<char> {
    if occurs_in("@"@, s) {
        "@"@
    } else if occurs_in("=="@, s) {
        "=="@
    } else if occurs_in("="@, s) {
        "="@
    } else {
        " "@
    }
}

/// What divides the binary from the version in `s`.
fn find_separator(s: &str) -> (r: &'static str)
    ensures
        r@ == separator_of(s@),
{
    if contains(s, "@") {
        "@"
    } else if contains(s, "==") {
        "=="
    } else if contains(s, "=") {
        "="
    } else {
        " "
    }
}

/// The name and what stands behind the separator, where `s` holds no separator or one.
/// `None` where it holds more.
pub open spec fn parts_of(s: Seq<char>) -> Option<(Seq<char>, Option<Seq<char>>)> {
    let sep = separator_of(s);
    match first_match(s, sep) {
        None => Some((s, None)),
        Some(i) => {
            let tail = s.skip(i + sep.len());
            if occurs_in(sep, tail) {
                None
            } else {
                Some((s.take(i), Some(tail)))
            }
        },
    }
}

/// What `s` asks for, against the names that the catalog knows. The name is looked at
/// before the version.
pub open spec fn component_of(registry: BinaryRegistry, s: Seq<char>) -> Result<
    (Seq<char>, Seq<char>, Option<Seq<char>>),
    (),
> {
    match parts_of(s) {
        None => Err(()),
        Some((name, rest)) => if !registry.knows(name) {
            Err(())
        } else if rest == Some(Seq::<char>::empty()) {
            Err(())
        } else {
            match version_spec_of(rest) {
                Some((network, version)) => Ok((name, network, version)),
                None => Err(()),
            }
        },
    }
}

/// `s` asks for nothing that can be read, and `e` says why: more than one separator, a
/// name that the catalog does not know, a separator with nothing behind it, or something
/// behind it that is neither a network nor a version. The name is looked at before the
/// version.
pub open spec fn is_component_error(registry: BinaryRegistry, s: Seq<char>, e: ComponentError) -> bool {
    component_of(registry, s) is Err && match parts_of(s) {
        None => e is InvalidFormat,
        Some((name, rest)) => if !registry.knows(name) {
            e matches ComponentError::InvalidBinaryName { name: n, versioned } && n@ == name
                && versioned == (rest is Some)
        } else if rest == Some(Seq::<char>::empty()) {
            e is EmptyVersion
        } else {
            e matches ComponentError::InvalidVersionFormat(t) && Some(t@) == rest
        },
    }
}

/// Reads a binary with its version specification: `binary`, or `binary`, a separator
/// and a specification as `parse_version_spec` reads it. The separator is `@`, `==`, `=`
/// or a blank.
pub fn parse_component_with_version(registry: &BinaryRegistry, s: &str) -> (r: Result<
    CommandMetadata,
    ComponentError,
>)
    ensures
        match r {
            Ok(m) => component_of(*registry, s@) == Ok::<_, ()>(
                (m.name@, m.network@, optional_text(m.version)),
            ),
            Err(e) => is_component_error(*registry, s@, e),
        },
{
    let sep = find_separator(s);
    let (name, rest) = match split_once(s, sep) {
        None => (String::from_str(s), None),
        Some((head, tail)) => {
            proof {
                let i = first_match(s@, sep@)->0;
                assert(s@.take(i) =~= s@.subrange(0, i));
                assert(s@.skip(i + sep@.len()) =~= s@.subrange(i + sep@.len(), s@.len() as int));
            }
            if contains(tail.as_str(), sep) {
                return Err(ComponentError::InvalidFormat);
            }
            (head, Some(tail))
        },
    };
    assert(parts_of(s@) == Some((name@, optional_text(rest))));
    let name = match BinaryName::new(registry, name.as_str()) {
        Ok(n) => n,
        Err(e) => {
            return Err(ComponentError::InvalidBinaryName { name: e.name, versioned: rest.is_some() });
        },
    };
    let empty = match &rest {
        Some(t) => t.as_str().unicode_len() == 0,
        None => false,
    };
    if empty {
        assert(optional_text(rest) == Some(Seq::<char>::empty()));
        return Err(ComponentError::EmptyVersion);
    }
    match parse_version_spec(rest) {
        Ok((network, version)) => Ok(CommandMetadata { name, network, version }),
        Err(e) => Err(e),
    }
}

/// What the user asked for, with the options that every request takes.
#[derive(Debug)]
pub struct Command {
    pub command: Commands,
    /// The token to present to the server of releases.
    pub github_token: Option<String>,
    /// Do not look for a newer version of the tool.
    pub disable_update_warnings: bool,
}

/// The requests.
#[derive(Debug)]
pub enum Commands {
    Default(default::Command),
    Doctor(doctor::Command),
    Clean(clean::Command),
    Switch(switch::Command),
    Suibase(suibase::Command),
    Show,
    /// A request about the tool itself.
    Self_,
}

/// The requests on components.
#[derive(Debug)]
pub enum ComponentCommands {
    Doctor,
    List,
    Add { component: String, debug: bool, nightly: Option<String>, yes: bool },
    Remove { binary: String },
    Cleanup { all: bool, days: u32, dry_run: bool },
}

/// The token that a text gives: what is left of it without the white space at its ends,
/// where anything is left.
pub open spec fn token_of(token: Option<String>) -> Option<Seq<char>> {
    match token {
        Some(t) => if trimmed(t@).len() > 0 {
            Some(trimmed(t@))
        } else {
            None
        },
        None => None,
    }
}

impl Command {
    /// The token without the white space at its ends; none where nothing is left.
    pub fn normalized_github_token(&self) -> (r: Option<String>)
        ensures
            optional_text(r) == token_of(self.github_token),
    {
        match &self.github_token {
            Some(t) => {
                let token = trim(t.as_str());
                if token.unicode_len() > 0 {
                    Some(String::from_str(token))
                } else {
                    None
                }
            },
            None => None,
        }
    }

    /// Whether to look for a newer version of the tool before the request is carried
    /// out: not for a request about the tool itself, and not where the user is against it.
    pub fn should_check_for_updates(&self) -> (r: bool)
        ensures
            r == (!(self.command is Self_) && !self.disable_update_warnings),
    {
        let about_itself = match &self.command {
            Commands::Self_ => true,
            _ => false,
        };
        !about_itself && !self.disable_update_warnings
    }
}

/// The records stand in the order of their binaries' names.
pub open spec fn sorted_by_binary(s: Seq<BinaryVersion>) -> bool {
    forall|i: int, j: int|
        0 <= i < j < s.len() ==> !lex_less((#[trigger] s[j]).binary_name@, (#[trigger] s[i]).binary_name@)
}

/// `out` holds the records of `inp` in the order of their binaries' names, the records of
/// one binary in the order that they have in `inp`; `origin` says for each place of `out`
/// which place of `inp` its record comes from.
pub open spec fn is_sorted_stably(out: Seq<BinaryVersion>, inp: Seq<BinaryVersion>, origin: Seq<int>) -> bool {
    &&& out.len() == inp.len()
    &&& origin.len() == out.len()
    &&& forall|k: int|
        0 <= k < out.len() ==> 0 <= #[trigger] origin[k] < inp.len() && out[k] == inp[origin[k]]
    &&& sorted_by_binary(out)
    &&& forall|a: int, b: int|
        0 <= a < b < out.len() && (#[trigger] out[a]).binary_name@ == (#[trigger] out[b]).binary_name@
            ==> origin[a] < origin[b]
}

/// The records in the order of their binaries' names; records of one binary keep the
/// order that they have.
pub fn sorted_by_binary_name(binaries: &Vec<BinaryVersion>) -> (r: Vec<BinaryVersion>)
    ensures
        exists|origin: Seq<int>| #[trigger] is_sorted_stably(r@, binaries@, origin),
        r@.to_multiset() == binaries@.to_multiset(),
{
    let mut sorted: Vec<BinaryVersion> = Vec::new();
    let ghost mut origin: Seq<int> = Seq::empty();
    let mut i: usize = 0;
    assert(binaries@.take(0) =~= Seq::<BinaryVersion>::empty());
    while i < binaries.len()
        invariant
            i <= binaries.len(),
            is_sorted_stably(sorted@, binaries@.take(i as int), origin),
            sorted@.to_multiset() == binaries@.take(i as int).to_multiset(),
        decreases binaries.len() - i,
    {
        let record = binaries[i].clone();
        let mut p: usize = 0;
        while p < sorted.len() && !text_less(
            record.binary_name.as_str(),
            sorted[p].binary_name.as_str(),
        )
            invariant
                p <= sorted.len(),
                forall|j: int|
                    0 <= j < p ==> !lex_less(record.binary_name@, (#[trigger] sorted@[j]).binary_name@),
            decreases sorted.len() - p,
        {
            p = p + 1;
        }
        proof {
            let before = sorted@;
            let after = before.insert(p as int, record);
            let from = origin.insert(p as int, i as int);
            let inp = binaries@.take(i as int + 1);
            assert forall|k: int| 0 <= k < after.len() implies 0 <= #[trigger] from[k] < inp.len()
                && after[k] == inp[from[k]] by {
                if k < p {
                    assert(from[k] == origin[k]);
                    assert(after[k] == before[k]);
                } else if k > p {
                    assert(from[k] == origin[k - 1]);
                    assert(after[k] == before[k - 1]);
                }
            }
            assert forall|a: int, b: int| 0 <= a < b < after.len() implies !lex_less(
                (#[trigger] after[b]).binary_name@,
                (#[trigger] after[a]).binary_name@,
            ) && (after[a].binary_name@ == after[b].binary_name@ ==> from[a] < from[b]) by {
                if b == p {
                    assert(after[a] == before[a]);
                    assert(from[a] == origin[a]);
                } else if a == p {
                    assert(after[b] == before[b - 1]);
                    lemma_lex_less_asymmetric(record.binary_name@, before[p as int].binary_name@);
                    crate::text::lemma_lex_less_irreflexive(record.binary_name@);
                    if b - 1 != p {
                        assert(!lex_less(before[b - 1].binary_name@, before[p as int].binary_name@));
                        if lex_less(after[b].binary_name@, record.binary_name@) {
                            lemma_lex_less_transitive(
                                before[b - 1].binary_name@,
                                record.binary_name@,
                                before[p as int].binary_name@,
                            );
                        }
                    }
                } else {
                    let x = if a < p {
                        a
                    } else {
                        a - 1
                    };
                    let y = if b < p {
                        b
                    } else {
                        b - 1
                    };
                    assert(after[a] == before[x]);
                    assert(after[b] == before[y]);
                    assert(from[a] == origin[x]);
                    assert(from[b] == origin[y]);
                    assert(!lex_less(before[y].binary_name@, before[x].binary_name@));
                }
            }
            lemma_insert_multiset(before, p as int, record);
            assert(inp =~= binaries@.take(i as int).push(binaries@[i as int]));
            vstd::seq_lib::to_multiset_build(binaries@.take(i as int), binaries@[i as int]);
            origin = from;
        }
        sorted.insert(p, record);
        i = i + 1;
    }
    assert(binaries@.take(binaries.len() as int) =~= binaries@);
    sorted
}

/// The head of the table of installed binaries.
pub open spec fn table_header() -> Seq<Seq<char>> {
    seq!["Binary"@, "Release/Branch"@, "Version"@, "Debug"@]
}

/// The row of a record in the table of installed binaries.
pub open spec fn table_row(b: BinaryVersion) -> Seq<Seq<char>> {
    seq![
        b.binary_name@,
        b.network_release@,
        b.version@,
        crate::commands::default::get::debug_text(b.debug),
    ]
}

/// The rows of the table of installed binaries: one for each record, in the order of the
/// binaries' names, and for one binary in the order of the records.
pub fn table_rows(binaries: &Vec<BinaryVersion>) -> (r: Vec<Vec<String>>)
    ensures
        exists|sorted: Seq<BinaryVersion>, origin: Seq<int>|
            {
                &&& #[trigger] is_sorted_stably(sorted, binaries@, origin)
                &&& r@.len() == sorted.len()
                &&& forall|i: int| 0 <= i < r@.len() ==> texts((#[trigger] r@[i])@) == table_row(sorted[i])
            },
{
    let sorted = sorted_by_binary_name(binaries);
    let mut rows: Vec<Vec<String>> = Vec::new();
    let mut i: usize = 0;
    while i < sorted.len()
        invariant
            i <= sorted.len(),
            rows@.len() == i,
            forall|j: int| 0 <= j < i ==> texts((#[trigger] rows@[j])@) == table_row(sorted@[j]),
        decreases sorted.len() - i,
    {
        let mut row: Vec<String> = Vec::new();
        row.push(sorted[i].binary_name.clone());
        row.push(sorted[i].network_release.clone());
        row.push(sorted[i].version.clone());
        row.push(String::from_str(debug_label(sorted[i].debug)));
        assert(texts(row@) =~= table_row(sorted@[i as int]));
        rows.push(row);
        i = i + 1;
    }
    proof {
        let origin = choose|origin: Seq<int>| #[trigger] is_sorted_stably(sorted@, binaries@, origin);
        assert(is_sorted_stably(sorted@, binaries@, origin));
    }
    rows
}

} // verus!
