//! The tool's own version, and where a newer one is to be had.

use crate::decimal::{decimal_text, parse_u64, parsed_u64, u64_to_text};
use crate::platform::Platform;
use crate::text::{concat, split, split_on, text_eq, texts};
use std::cmp::Ordering;
use vstd::prelude::*;

verus! {

/// A version of the tool: three numbers.
#[derive(Clone, Copy, Debug, PartialEq, Eq, Structural)]
pub struct Ver {
    pub major: u64,
    pub minor: u64,
    pub patch: u64,
}

/// Why a text is no version of the tool.
#[derive(Debug)]
pub enum VerError {
    /// Not three parts with dots between.
    InvalidFormat,
    /// A part is not a number.
    InvalidNumber(String),
}

/// `s` without every `c` that stands at its beginning.
pub open spec fn strip_leading(s: Seq<char>, c: char) -> Seq<char>
    decreases s.len(),
{
    if s.len() > 0 && s[0] == c {
        strip_leading(s.drop_first(), c)
    } else {
        s
    }
}

/// The version that a text denotes: behind any `v` at its beginning, three numbers with
/// dots between.
pub open spec fn ver_of(s: Seq<char>) -> Option<Ver> {
    let parts = split_on(strip_leading(s, 'v'), '.');
    if parts.len() == 3 {
        match (parsed_u64(parts[0]), parsed_u64(parts[1]), parsed_u64(parts[2])) {
            (Some(major), Some(minor), Some(patch)) => Some(Ver { major, minor, patch }),
            _ => None,
        }
    } else {
        None
    }
}

/// The order of versions: by the first number, then the second, then the third.
pub open spec fn ver_less(a: Ver, b: Ver) -> bool {
    a.major < b.major || (a.major == b.major && (a.minor < b.minor || (a.minor == b.minor
        && a.patch < b.patch)))
}

impl PartialOrd for Ver {
    fn partial_cmp(&self, other: &Self) -> (r: Option<Ordering>) {
        if self.major != other.major {
            if self.major < other.major {
                Some(Ordering::Less)
            } else {
                Some(Ordering::Greater)
            }
        } else if self.minor != other.minor {
            if self.minor < other.minor {
                Some(Ordering::Less)
            } else {
                Some(Ordering::Greater)
            }
        } else if self.patch != other.patch {
            if self.patch < other.patch {
                Some(Ordering::Less)
            } else {
                Some(Ordering::Greater)
            }
        } else {
            Some(Ordering::Equal)
        }
    }
}

impl vstd::std_specs::cmp::PartialOrdSpecImpl for Ver {
    open spec fn obeys_partial_cmp_spec() -> bool {
        true
    }

    open spec fn partial_cmp_spec(&self, other: &Self) -> Option<Ordering> {
        if ver_less(*self, *other) {
            Some(Ordering::Less)
        } else if ver_less(*other, *self) {
            Some(Ordering::Greater)
        } else {
            Some(Ordering::Equal)
        }
    }
}

impl Ver {
    /// Reads a version: three numbers with dots between, with or without `v` in front.
    /// Where the parts are not three, the format is at fault; else the first part that is
    /// no number.
    pub fn from_str(s: &str) -> (r: Result<Ver, VerError>)
        ensures
            match ver_of(s@) {
                Some(v) => r == Ok::<Ver, VerError>(v),
                None => r is Err,
            },
            r matches Err(e) ==> {
                let parts = split_on(strip_leading(s@, 'v'), '.');
                match e {
                    VerError::InvalidFormat => parts.len() != 3,
                    VerError::InvalidNumber(part) => parts.len() == 3 && exists|k: int|
                        0 <= k < 3 && #[trigger] parts[k] == part@ && parsed_u64(parts[k]) is None
                            && forall|j: int| 0 <= j < k ==> parsed_u64(#[trigger] parts[j]) is Some,
                }
            },
    {
        let len = s.unicode_len();
        let mut start: usize = 0;
        assert(s@.subrange(0, len as int) == s@);
        while start < len && s.get_char(start) == 'v'
            invariant
                len == s@.len(),
                start <= len,
                strip_leading(s@, 'v') == strip_leading(s@.subrange(start as int, len as int), 'v'),
            decreases len - start,
        {
            assert(s@.subrange(start as int, len as int).drop_first() == s@.subrange(
                start as int + 1,
                len as int,
            ));
            start = start + 1;
        }
        let body = s.substring_char(start, len);
        assert(body@ == strip_leading(s@, 'v'));
        let parts = split(body, '.');
        if parts.len() != 3 {
            return Err(VerError::InvalidFormat);
        }
        assert(texts(parts@)[0] == parts@[0]@);
        assert(texts(parts@)[1] == parts@[1]@);
        assert(texts(parts@)[2] == parts@[2]@);
        let major = match parse_u64(parts[0].as_str()) {
            Some(n) => n,
            None => {
                return Err(VerError::InvalidNumber(parts[0].clone()));
            },
        };
        let minor = match parse_u64(parts[1].as_str()) {
            Some(n) => n,
            None => {
                return Err(VerError::InvalidNumber(parts[1].clone()));
            },
        };
        let patch = match parse_u64(parts[2].as_str()) {
            Some(n) => n,
            None => {
                return Err(VerError::InvalidNumber(parts[2].clone()));
            },
        };
        Ok(Ver { major, minor, patch })
    }

    /// The version as text: the three numbers with dots between.
    pub fn to_string(&self) -> (r: String)
        ensures
            r@ == decimal_text(self.major as nat) + "."@ + decimal_text(self.minor as nat) + "."@
                + decimal_text(self.patch as nat),
    {
        let mut r = u64_to_text(self.major);
        r.append(".");
        r.append(u64_to_text(self.minor).as_str());
        r.append(".");
        r.append(u64_to_text(self.patch).as_str());
        r
    }

    /// Whether this version is older than `latest`, so that an update is due.
    pub fn is_older_than(&self, latest: &Ver) -> (r: bool)
        ensures
            r == ver_less(*self, *latest),
    {
        self.major < latest.major || (self.major == latest.major && (self.minor < latest.minor || (
        self.minor == latest.minor && self.patch < latest.patch)))
    }
}

/// How releases of the tool name an operating system.
pub open spec fn release_os(os: Seq<char>) -> Seq<char> {
    if os == "ubuntu"@ || os == "linux"@ {
        "Linux-musl"@
    } else if os == "windows"@ {
        "Windows"@
    } else if os == "macos"@ {
        "macOS"@
    } else {
        os
    }
}

/// How releases of the tool name a processor.
pub open spec fn release_arch(arch: Seq<char>) -> Seq<char> {
    if arch == "aarch64"@ {
        "arm64"@
    } else {
        arch
    }
}

/// The name of the archive that holds the tool for a system.
pub open spec fn archive_name_of(os: Seq<char>, arch: Seq<char>, platform: Platform) -> Seq<char> {
    match platform {
        Platform::Unix => "suiup-"@ + release_os(os) + "-"@ + release_arch(arch) + ".tar.gz"@,
        Platform::Windows => "suiup-"@ + release_os(os) + "-msvc-"@ + release_arch(arch) + ".zip"@,
    }
}

/// The name of the archive that holds the tool for an operating system and a processor.
pub fn find_archive_name(os: &str, arch: &str, platform: Platform) -> (r: String)
    ensures
        r@ == archive_name_of(os@, arch@, platform),
{
    let os_name = if text_eq(os, "ubuntu") || text_eq(os, "linux") {
        "Linux-musl"
    } else if text_eq(os, "windows") {
        "Windows"
    } else if text_eq(os, "macos") {
        "macOS"
    } else {
        os
    };
    let arch_name = if text_eq(arch, "aarch64") {
        "arm64"
    } else {
        arch
    };
    let mut r = concat("suiup-", os_name);
    match platform {
        Platform::Unix => {
            r.append("-");
            r.append(arch_name);
            r.append(".tar.gz");
        },
        Platform::Windows => {
            r.append("-msvc-");
            r.append(arch_name);
            r.append(".zip");
        },
    }
    r
}

/// The address of an archive of the release with the tag `tag`.
pub fn release_download_url(tag: &str, archive_name: &str) -> (r: String)
    ensures
        r@ == "https://github.com/MystenLabs/suiup/releases/download/"@ + tag@ + "/"@
            + archive_name@,
{
    let mut r = concat("https://github.com/MystenLabs/suiup/releases/download/", tag);
    r.append("/");
    r.append(archive_name);
    r
}

} // verus!
