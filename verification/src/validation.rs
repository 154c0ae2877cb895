//! Checks of what users write: versions, networks, binaries, addresses and numbers.

use crate::decimal::{decimal_text, u64_to_text};
use crate::text::{concat, text_eq};
use vstd::prelude::*;

verus! {

/// Why a value was turned down.
#[derive(Debug)]
pub enum ValidationError {
    EmptyVersion,
    InvalidVersionFormat(String),
    InvalidNetwork(String),
    InvalidBinary(String),
    InvalidUrl(String),
    UnsupportedScheme,
    MissingHost,
    OutOfRange { field_name: String, min: u64, max: u64, value: u64 },
}

impl ValidationError {
    /// What to tell the user.
    pub fn message(&self) -> (r: String)
        ensures
            r@ == match *self {
                ValidationError::EmptyVersion => "Version cannot be empty"@,
                ValidationError::InvalidVersionFormat(v) => "Invalid version format: '"@ + v@
                    + "'"@,
                ValidationError::InvalidNetwork(n) => "Invalid network: '"@ + n@
                    + "'. Valid networks are: testnet, devnet, mainnet"@,
                ValidationError::InvalidBinary(b) => "Invalid binary: '"@ + b@
                    + "'. Valid binaries are: sui, mvr, walrus, site-builder"@,
                ValidationError::InvalidUrl(u) => "Invalid URL format: "@ + u@,
                ValidationError::UnsupportedScheme => "URL must use http or https scheme"@,
                ValidationError::MissingHost => "URL must have a valid host"@,
                ValidationError::OutOfRange { field_name, min, max, value } => field_name@
                    + " must be between "@ + decimal_text(min as nat) + " and "@ + decimal_text(
                    max as nat,
                ) + " (got: "@ + decimal_text(value as nat) + ")"@,
            },
    {
        match self {
            ValidationError::EmptyVersion => String::from_str("Version cannot be empty"),
            ValidationError::InvalidVersionFormat(v) => {
                let mut r = concat("Invalid version format: '", v.as_str());
                r.append("'");
                r
            },
            ValidationError::InvalidNetwork(n) => {
                let mut r = concat("Invalid network: '", n.as_str());
                r.append("'. Valid networks are: testnet, devnet, mainnet");
                r
            },
            ValidationError::InvalidBinary(b) => {
                let mut r = concat("Invalid binary: '", b.as_str());
                r.append("'. Valid binaries are: sui, mvr, walrus, site-builder");
                r
            },
            ValidationError::InvalidUrl(u) => concat("Invalid URL format: ", u.as_str()),
            ValidationError::UnsupportedScheme => String::from_str(
                "URL must use http or https scheme",
            ),
            ValidationError::MissingHost => String::from_str("URL must have a valid host"),
            ValidationError::OutOfRange { field_name, min, max, value } => {
                let mut r = concat(field_name.as_str(), " must be between ");
                r.append(u64_to_text(*min).as_str());
                r.append(" and ");
                r.append(u64_to_text(*max).as_str());
                r.append(" (got: ");
                r.append(u64_to_text(*value).as_str());
                r.append(")");
                r
            },
        }
    }
}

/// `regex::Error`, as a value that is carried through.
#[verifier::external_type_specification]
#[verifier::external_body]
pub struct ExRegexError(regex::Error);

/// `url::ParseError`, as a value that is carried through.
#[verifier::external_type_specification]
#[verifier::external_body]
pub struct ExUrlParseError(url::ParseError);

/// Whether the regular expression `pattern`, as the `regex` crate reads it, matches
/// somewhere in `text`; `None` where the crate does not accept the pattern.
pub uninterp spec fn regex_match(pattern: Seq<char>, text: Seq<char>) -> Option<bool>;

/// The scheme of the address `text` and whether it has a host, as the `url` crate reads
/// it; `None` where the crate finds no absolute address in the text.
pub uninterp spec fn parsed_url(text: Seq<char>) -> Option<(Seq<char>, bool)>;

/// Calls `regex::Regex::new` on the pattern and `Regex::is_match` on the text. Both
/// depend on their arguments alone; the contract names the result `regex_match`.
#[verifier::external_body]
fn regex_is_match(pattern: &str, text: &str) -> (r: Result<bool, regex::Error>)
    ensures
        match r {
            Ok(b) => regex_match(pattern@, text@) == Some(b),
            Err(_) => regex_match(pattern@, text@) is None,
        },
{
    regex::Regex::new(pattern).map(|re| re.is_match(text))
}

/// Calls `url::Url::parse`, then `Url::scheme` and `Url::has_host` on what it gives. They
/// depend on the text alone; the contract names the result `parsed_url`.
#[verifier::external_body]
fn url_parts(text: &str) -> (r: Result<(String, bool), url::ParseError>)
    ensures
        match r {
            Ok((scheme, has_host)) => parsed_url(text@) == Some((scheme@, has_host)),
            Err(_) => parsed_url(text@) is None,
        },
{
    url::Url::parse(text).map(|u| (u.scheme().to_string(), u.has_host()))
}

/// The forms of a version: a version of a network, a bare version, `latest` or `nightly`,
/// and the hash of a commit.
pub open spec fn version_patterns() -> Seq<Seq<char>> {
    seq![
        "^(testnet|devnet|mainnet)-\\d+\\.\\d+\\.\\d+(-[a-zA-Z0-9]+(\\.\\d+)?)?$"@,
        "^\\d+\\.\\d+\\.\\d+(-[a-zA-Z0-9]+(\\.\\d+)?)?$"@,
        "^(latest|nightly)$"@,
        "^[a-f0-9]{7,40}$"@,
    ]
}

/// Some `true` is among `matched`.
pub open spec fn any_matched(matched: Seq<bool>) -> bool {
    exists|i: int| 0 <= i < matched.len() && #[trigger] matched[i]
}

/// The smallest and the largest size of the cache, in bytes.
pub const MIN_CACHE_SIZE: u64 = 104857600;

pub const MAX_CACHE_SIZE: u64 = 107374182400;

/// The fewest and the most days to keep cached files.
pub const MIN_CACHE_DAYS: u64 = 1;

pub const MAX_CACHE_DAYS: u64 = 365;

/// The checks.
#[derive(Debug)]
pub struct Validator;

impl Validator {
    /// The forms of a version, as regular expressions.
    pub fn version_format_patterns() -> (r: Vec<&'static str>)
        ensures
            r@.len() == 4,
            forall|i: int| 0 <= i < 4 ==> (#[trigger] r@[i])@ == version_patterns()[i],
    {
        let mut patterns: Vec<&'static str> = Vec::new();
        patterns.push("^(testnet|devnet|mainnet)-\\d+\\.\\d+\\.\\d+(-[a-zA-Z0-9]+(\\.\\d+)?)?$");
        patterns.push("^\\d+\\.\\d+\\.\\d+(-[a-zA-Z0-9]+(\\.\\d+)?)?$");
        patterns.push("^(latest|nightly)$");
        patterns.push("^[a-f0-9]{7,40}$");
        patterns
    }

    /// Judges a version by which of the forms matched it: an empty version is turned
    /// down, one that some form matched is accepted, any other is turned down.
    pub fn version_format_verdict(version: &str, matched: &Vec<bool>) -> (r: Result<
        (),
        ValidationError,
    >)
        ensures
            match r {
                Ok(()) => version@.len() > 0 && any_matched(matched@),
                Err(ValidationError::EmptyVersion) => version@.len() == 0,
                Err(ValidationError::InvalidVersionFormat(v)) => version@.len() > 0 && !any_matched(
                    matched@,
                ) && v@ == version@,
                Err(_) => false,
            },
    {
        if version.unicode_len() == 0 {
            return Err(ValidationError::EmptyVersion);
        }
        let mut i: usize = 0;
        while i < matched.len()
            invariant
                i <= matched.len(),
                version@.len() > 0,
                forall|j: int| 0 <= j < i ==> !(#[trigger] matched@[j]),
            decreases matched.len() - i,
        {
            if matched[i] {
                return Ok(());
            }
            i = i + 1;
        }
        Err(ValidationError::InvalidVersionFormat(String::from_str(version)))
    }

    /// Accepts a version that is not empty and that one of the forms matches.
    pub fn validate_version_format(version: &str) -> (r: Result<(), ValidationError>)
        ensures
            match r {
                Ok(()) => version@.len() > 0 && exists|i: int|
                    0 <= i < 4 && #[trigger] regex_match(version_patterns()[i], version@) == Some(
                        true,
                    ),
                Err(ValidationError::EmptyVersion) => version@.len() == 0,
                Err(ValidationError::InvalidVersionFormat(v)) => version@.len() > 0 && v@
                    == version@ && forall|i: int|
                    0 <= i < 4 ==> #[trigger] regex_match(version_patterns()[i], version@) != Some(
                        true,
                    ),
                Err(_) => false,
            },
    {
        let patterns = Self::version_format_patterns();
        let mut matched: Vec<bool> = Vec::new();
        let mut i: usize = 0;
        while i < patterns.len()
            invariant
                i <= patterns.len(),
                patterns@.len() == 4,
                forall|k: int| 0 <= k < 4 ==> (#[trigger] patterns@[k])@ == version_patterns()[k],
                matched@.len() == i,
                forall|j: int|
                    0 <= j < i ==> (#[trigger] matched@[j]) == (regex_match(
                        version_patterns()[j],
                        version@,
                    ) == Some(true)),
            decreases patterns.len() - i,
        {
            let found = match regex_is_match(patterns[i], version) {
                Ok(b) => b,
                Err(_) => false,
            };
            matched.push(found);
            i = i + 1;
        }
        let r = Self::version_format_verdict(version, &matched);
        proof {
            if r is Ok {
                let i = choose|i: int| 0 <= i < matched@.len() && #[trigger] matched@[i];
                assert(regex_match(version_patterns()[i], version@) == Some(true));
            } else if version@.len() > 0 {
                assert forall|i: int| 0 <= i < 4 implies #[trigger] regex_match(
                    version_patterns()[i],
                    version@,
                ) != Some(true) by {
                    assert(!matched@[i]);
                }
            }
        }
        r
    }

    /// Accepts the three networks.
    pub fn validate_network(network: &str) -> (r: Result<(), ValidationError>)
        ensures
            match r {
                Ok(()) => network@ == "testnet"@ || network@ == "devnet"@ || network@ == "mainnet"@,
                Err(ValidationError::InvalidNetwork(n)) => n@ == network@ && network@ != "testnet"@
                    && network@ != "devnet"@ && network@ != "mainnet"@,
                Err(_) => false,
            },
    {
        if text_eq(network, "testnet") || text_eq(network, "devnet") || text_eq(network, "mainnet") {
            Ok(())
        } else {
            Err(ValidationError::InvalidNetwork(String::from_str(network)))
        }
    }

    /// Accepts the four binaries that the tool began with.
    pub fn validate_binary_name(binary: &str) -> (r: Result<(), ValidationError>)
        ensures
            match r {
                Ok(()) => binary@ == "sui"@ || binary@ == "mvr"@ || binary@ == "walrus"@ || binary@
                    == "site-builder"@,
                Err(ValidationError::InvalidBinary(b)) => b@ == binary@ && binary@ != "sui"@
                    && binary@ != "mvr"@ && binary@ != "walrus"@ && binary@ != "site-builder"@,
                Err(_) => false,
            },
    {
        if text_eq(binary, "sui") || text_eq(binary, "mvr") || text_eq(binary, "walrus") || text_eq(
            binary,
            "site-builder",
        ) {
            Ok(())
        } else {
            Err(ValidationError::InvalidBinary(String::from_str(binary)))
        }
    }

    /// Judges an address by what reading it gave: it must have been read, its scheme must
    /// be `http` or `https`, and it must have a host.
    pub fn url_verdict(url: &str, parts: Option<(String, bool)>) -> (r: Result<(), ValidationError>)
        ensures
            match parts {
                None => r matches Err(ValidationError::InvalidUrl(u)) && u@ == url@,
                Some((scheme, has_host)) => if scheme@ != "http"@ && scheme@ != "https"@ {
                    r matches Err(ValidationError::UnsupportedScheme)
                } else if !has_host {
                    r matches Err(ValidationError::MissingHost)
                } else {
                    r is Ok
                },
            },
    {
        match parts {
            None => Err(ValidationError::InvalidUrl(String::from_str(url))),
            Some((scheme, has_host)) => {
                if !text_eq(scheme.as_str(), "http") && !text_eq(scheme.as_str(), "https") {
                    Err(ValidationError::UnsupportedScheme)
                } else if !has_host {
                    Err(ValidationError::MissingHost)
                } else {
                    Ok(())
                }
            },
        }
    }

    /// Accepts an absolute address with the scheme `http` or `https` and a host.
    pub fn validate_url(url: &str) -> (r: Result<(), ValidationError>)
        ensures
            match parsed_url(url@) {
                None => r matches Err(ValidationError::InvalidUrl(u)) && u@ == url@,
                Some((scheme, has_host)) => if scheme != "http"@ && scheme != "https"@ {
                    r matches Err(ValidationError::UnsupportedScheme)
                } else if !has_host {
                    r matches Err(ValidationError::MissingHost)
                } else {
                    r is Ok
                },
            },
    {
        let parts = match url_parts(url) {
            Ok(p) => Some(p),
            Err(_) => None,
        };
        Self::url_verdict(url, parts)
    }

    /// Accepts a number between `min` and `max`, both included.
    pub fn validate_number_range(value: u64, min: u64, max: u64, field_name: &str) -> (r: Result<
        (),
        ValidationError,
    >)
        ensures
            match r {
                Ok(()) => min <= value <= max,
                Err(ValidationError::OutOfRange { field_name: f, min: lo, max: hi, value: v }) =>
                    !(min <= value <= max) && f@ == field_name@ && lo == min && hi == max && v
                        == value,
                Err(_) => false,
            },
    {
        if value < min || value > max {
            Err(
                ValidationError::OutOfRange {
                    field_name: String::from_str(field_name),
                    min,
                    max,
                    value,
                },
            )
        } else {
            Ok(())
        }
    }

    /// Accepts a size of the cache from 100 MiB to 100 GiB.
    pub fn validate_cache_size(size_bytes: u64) -> (r: Result<(), ValidationError>)
        ensures
            r is Ok == (MIN_CACHE_SIZE <= size_bytes <= MAX_CACHE_SIZE),
            r matches Err(e) ==> e matches ValidationError::OutOfRange {
                field_name,
                min,
                max,
                value,
            } && field_name@ == "Cache size"@ && min == MIN_CACHE_SIZE && max == MAX_CACHE_SIZE
                && value == size_bytes,
    {
        Self::validate_number_range(size_bytes, MIN_CACHE_SIZE, MAX_CACHE_SIZE, "Cache size")
    }

    /// Accepts a number of days from 1 to 365.
    pub fn validate_cache_days(days: u32) -> (r: Result<(), ValidationError>)
        ensures
            r is Ok == (MIN_CACHE_DAYS <= days <= MAX_CACHE_DAYS),
            r matches Err(e) ==> e matches ValidationError::OutOfRange {
                field_name,
                min,
                max,
                value,
            } && field_name@ == "Cache days"@ && min == MIN_CACHE_DAYS && max == MAX_CACHE_DAYS
                && value == days,
    {
        Self::validate_number_range(days as u64, MIN_CACHE_DAYS, MAX_CACHE_DAYS, "Cache days")
    }
}

} // verus!
