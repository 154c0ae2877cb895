//! Recording what was installed, and what to ask of the builder.

use crate::paths::{install_path, install_path_of, join, joined};
use crate::platform::Platform;
use crate::registry::BinaryConfig;
use crate::text::{concat, texts};
use crate::types::{with_record, BinaryVersion, BinaryVersionView, InstalledBinaries};
use vstd::prelude::*;

verus! {

/// Records an installed artifact in the store, in place of the record with the same
/// binary, network, version and build kind where there is one.
pub fn install_binary(
    installed: &mut InstalledBinaries,
    name: &str,
    network: &str,
    version: &str,
    debug: bool,
    binary_path: &str,
)
    requires
        old(installed).wf(),
    ensures
        final(installed).wf(),
        final(installed)@ == with_record(
            old(installed)@,
            BinaryVersionView {
                binary_name: name@,
                network_release: network@,
                version: version@,
                debug,
                path: Some(binary_path@),
            },
        ),
{
    installed.add_or_replace(
        BinaryVersion {
            binary_name: String::from_str(name),
            network_release: String::from_str(network),
            version: String::from_str(version),
            debug,
            path: Some(String::from_str(binary_path)),
        },
    );
}

/// The arguments that begin every build from a branch.
pub open spec fn build_arguments(repo_url: Seq<char>, branch: Seq<char>) -> Seq<Seq<char>> {
    seq!["install"@, "--locked"@, "--force"@, "--git"@, repo_url, "--branch"@, branch]
}

/// What names the binary to the builder: the binary alone, or its package and the binary.
pub open spec fn target_arguments(cargo_package: Option<String>, name: Seq<char>) -> Seq<Seq<char>> {
    match cargo_package {
        Some(package) => seq![package@, "--bin"@, name],
        None => seq![name],
    }
}

/// The toolchain, where the binary asks for one.
pub open spec fn toolchain_arguments(nightly_toolchain: Option<String>) -> Seq<Seq<char>> {
    match nightly_toolchain {
        Some(toolchain) => seq!["+"@ + toolchain@],
        None => Seq::empty(),
    }
}

/// The arguments for the builder, to build a binary from a branch of its repository
/// into `root`: the toolchain first where the binary asks for one, then the repository
/// and the branch, then the binary, then the directory.
pub fn nightly_cargo_args(config: &BinaryConfig, name: &str, branch: &str, root: &str) -> (r: Vec<
    String,
>)
    ensures
        texts(r@) == toolchain_arguments(config.nightly_toolchain) + build_arguments(
            "https://github.com/"@ + config.repository@,
            branch@,
        ) + target_arguments(config.cargo_package, name@) + seq!["--root"@, root@],
{
    let mut args: Vec<String> = Vec::new();
    match &config.nightly_toolchain {
        Some(toolchain) => {
            args.push(concat("+", toolchain.as_str()));
        },
        None => {},
    }
    args.push(String::from_str("install"));
    args.push(String::from_str("--locked"));
    args.push(String::from_str("--force"));
    args.push(String::from_str("--git"));
    args.push(config.repo_url());
    args.push(String::from_str("--branch"));
    args.push(String::from_str(branch));
    match &config.cargo_package {
        Some(package) => {
            args.push(package.clone());
            args.push(String::from_str("--bin"));
            args.push(String::from_str(name));
        },
        None => {
            args.push(String::from_str(name));
        },
    }
    args.push(String::from_str("--root"));
    args.push(String::from_str(root));
    assert(texts(args@) =~= toolchain_arguments(config.nightly_toolchain) + build_arguments(
        "https://github.com/"@ + config.repository@,
        branch@,
    ) + target_arguments(config.cargo_package, name@) + seq!["--root"@, root@]);
    args
}

/// Where the builder leaves the binary that it built into the directory of `branch`, and
/// the path that the artifact is given: that of the version `nightly`.
pub fn nightly_artifact_paths(
    binaries_root: &str,
    name: &str,
    branch: &str,
    debug: bool,
    platform: Platform,
) -> (r: (String, String))
    ensures
        r.0@ == joined(
            joined(joined(binaries_root@, branch@, platform), "bin"@, platform),
            name@ + platform.extension(),
            platform,
        ),
        r.1@ == install_path_of(binaries_root@, name@, branch@, "nightly"@, debug, platform),
{
    let dir = join(join(binaries_root, branch, platform).as_str(), "bin", platform);
    let file = concat(name, platform.executable_extension());
    let built = join(dir.as_str(), file.as_str(), platform);
    let kept = install_path(binaries_root, name, branch, "nightly", debug, platform);
    (built, kept)
}

} // verus!
