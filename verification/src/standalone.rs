//! Binaries that are released as files of their own: which release and which file to take.

use crate::paths::{join, joined};
use crate::platform::Platform;
use crate::sequences::{first_element, lemma_first};
use crate::text::{concat, replace_char, replaced, starts_with, text_eq};
use crate::version::{ensure_version_prefix, with_v};
use vstd::prelude::*;

verus! {

/// A release of a binary: its tag and its files.
#[derive(Clone, Debug)]
pub struct StandaloneRelease {
    pub tag_name: String,
    pub assets: Vec<StandaloneAsset>,
}

/// A file of a release.
#[derive(Clone, Debug)]
pub struct StandaloneAsset {
    pub name: String,
    pub browser_download_url: String,
}

/// What installs a binary from the releases of its repository. The releases are listed
/// newest first; the list is empty until it was fetched.
#[derive(Debug)]
pub struct StandaloneInstaller {
    pub releases: Vec<StandaloneRelease>,
    pub repo_slug: String,
    pub github_token: Option<String>,
}

/// Why no file could be chosen.
#[derive(Debug)]
pub enum StandaloneError {
    /// The repository has no release.
    NoReleases(String),
    /// No release has this tag.
    VersionNotFound(String),
    /// The release has no file for this system.
    NoCompatibleBinary { os: String, arch: String },
}

impl StandaloneError {
    /// What to tell the user.
    pub fn message(&self) -> (r: String)
        ensures
            r@ == match *self {
                StandaloneError::NoReleases(repo) => "No releases found for "@ + repo@,
                StandaloneError::VersionNotFound(version) => "Version "@ + version@ + " not found"@,
                StandaloneError::NoCompatibleBinary { os, arch } =>
                    "No compatible binary found for your system: "@ + os@ + "-"@ + arch@,
            },
    {
        match self {
            StandaloneError::NoReleases(repo) => concat("No releases found for ", repo.as_str()),
            StandaloneError::VersionNotFound(version) => {
                let mut r = concat("Version ", version.as_str());
                r.append(" not found");
                r
            },
            StandaloneError::NoCompatibleBinary { os, arch } => {
                let mut r = concat("No compatible binary found for your system: ", os.as_str());
                r.append("-");
                r.append(arch.as_str());
                r
            },
        }
    }
}

/// The releases with the tag `tag`.
pub open spec fn tagged(tag: Seq<char>) -> spec_fn(StandaloneRelease) -> bool {
    |release: StandaloneRelease| release.tag_name@ == tag
}

/// The files whose names begin with `prefix`.
pub open spec fn named_like(prefix: Seq<char>) -> spec_fn(StandaloneAsset) -> bool {
    |asset: StandaloneAsset| prefix.is_prefix_of(asset.name@)
}

/// How the file of a binary for a system begins.
pub open spec fn asset_prefix(
    binary_name: Seq<char>,
    os: Seq<char>,
    arch: Seq<char>,
    platform: Platform,
) -> Seq<char> {
    binary_name + "-"@ + os + "-"@ + arch + platform.extension()
}

impl StandaloneInstaller {
    /// An installer for the repository, with nothing fetched yet.
    pub fn new(repo_slug: &str, github_token: Option<String>) -> (r: Self)
        ensures
            r.releases@.len() == 0,
            r.repo_slug@ == repo_slug@,
            r.github_token == github_token,
    {
        StandaloneInstaller {
            releases: Vec::new(),
            repo_slug: String::from_str(repo_slug),
            github_token,
        }
    }

    /// The newest release.
    pub fn get_latest_release(&self) -> (r: Result<&StandaloneRelease, StandaloneError>)
        ensures
            match r {
                Ok(release) => self.releases@.len() > 0 && *release == self.releases@[0],
                Err(StandaloneError::NoReleases(repo)) => self.releases@.len() == 0 && repo@
                    == self.repo_slug@,
                Err(_) => false,
            },
    {
        if self.releases.len() > 0 {
            Ok(&self.releases[0])
        } else {
            Err(StandaloneError::NoReleases(self.repo_slug.clone()))
        }
    }

    /// The tag of the release that is wanted: the version asked for, written as a tag,
    /// else the tag of the newest release.
    pub fn wanted_version(&self, version: Option<&str>) -> (r: Result<String, StandaloneError>)
        ensures
            match version {
                Some(v) => r matches Ok(tag) && tag@ == with_v(v@),
                None => match r {
                    Ok(tag) => self.releases@.len() > 0 && tag@ == self.releases@[0].tag_name@,
                    Err(StandaloneError::NoReleases(repo)) => self.releases@.len() == 0 && repo@
                        == self.repo_slug@,
                    Err(_) => false,
                },
            },
    {
        match version {
            Some(v) => Ok(ensure_version_prefix(v)),
            None => match self.get_latest_release() {
                Ok(release) => Ok(release.tag_name.clone()),
                Err(e) => Err(e),
            },
        }
    }

    /// The file to download: of the first release with the tag `version`, the first file
    /// whose name begins with the binary, the operating system and the processor.
    pub fn find_asset(
        &self,
        version: &str,
        binary_name: &str,
        os: &str,
        arch: &str,
        platform: Platform,
    ) -> (r: Result<&StandaloneAsset, StandaloneError>)
        ensures
            match first_element(self.releases@, tagged(version@)) {
                None => r matches Err(StandaloneError::VersionNotFound(v)) && v@ == version@,
                Some(release) => match first_element(
                    release.assets@,
                    named_like(asset_prefix(binary_name@, os@, arch@, platform)),
                ) {
                    None => r matches Err(StandaloneError::NoCompatibleBinary { os: o, arch: a })
                        && o@ == os@ && a@ == arch@,
                    Some(asset) => r matches Ok(found) && *found == asset,
                },
            },
    {
        let mut i: usize = 0;
        let mut found = false;
        while i < self.releases.len() && !found
            invariant
                i <= self.releases.len(),
                found ==> i < self.releases.len() && tagged(version@)(self.releases@[i as int]),
                forall|j: int| 0 <= j < i ==> !tagged(version@)(#[trigger] self.releases@[j]),
            decreases self.releases.len() - i + if found { 0int } else { 1int },
        {
            if text_eq(self.releases[i].tag_name.as_str(), version) {
                found = true;
            } else {
                i = i + 1;
            }
        }
        if !found {
            return Err(StandaloneError::VersionNotFound(String::from_str(version)));
        }
        proof {
            lemma_first(self.releases@, tagged(version@), i as int);
        }
        let release = &self.releases[i];
        let mut prefix = concat(binary_name, "-");
        prefix.append(os);
        prefix.append("-");
        prefix.append(arch);
        prefix.append(platform.executable_extension());
        let mut a: usize = 0;
        while a < release.assets.len()
            invariant
                a <= release.assets.len(),
                prefix@ == asset_prefix(binary_name@, os@, arch@, platform),
                first_element(self.releases@, tagged(version@)) == Some(*release),
                forall|j: int| 0 <= j < a ==> !named_like(prefix@)(#[trigger] release.assets@[j]),
            decreases release.assets.len() - a,
        {
            if starts_with(release.assets[a].name.as_str(), prefix.as_str()) {
                proof {
                    lemma_first(release.assets@, named_like(prefix@), a as int);
                }
                return Ok(&release.assets[a]);
            }
            a = a + 1;
        }
        Err(
            StandaloneError::NoCompatibleBinary {
                os: String::from_str(os),
                arch: String::from_str(arch),
            },
        )
    }
}

/// The file of the cache that keeps the list of a repository's releases.
pub fn standalone_releases_cache_file(cache_dir: &str, repo_slug: &str, platform: Platform) -> (r:
    String)
    ensures
        r@ == joined(
            cache_dir@,
            "standalone_releases_"@ + replaced(repo_slug@, '/', "_"@) + ".json"@,
            platform,
        ),
{
    let sanitized = replace_char(repo_slug, '/', "_");
    let mut file = concat("standalone_releases_", sanitized.as_str());
    file.append(".json");
    join(cache_dir, file.as_str(), platform)
}

} // verus!
