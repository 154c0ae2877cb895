//! What a list of releases offers.

use crate::sequences::{first_element, lemma_filter_empty, lemma_filter_step, lemma_first};
use crate::text::{concat, contains, occurs_in, texts};
use crate::version::with_v;
use vstd::prelude::*;

verus! {

/// A file of a release.
#[derive(Clone, Debug)]
pub struct Asset {
    pub name: String,
    pub browser_download_url: String,
}

/// A release: its files.
#[derive(Clone, Debug)]
pub struct Release {
    pub assets: Vec<Asset>,
}

/// Some file of the release has `tag` in its name.
pub open spec fn release_offers(release: Release, tag: Seq<char>) -> bool {
    exists|a: int| 0 <= a < release.assets@.len() && occurs_in(tag, (#[trigger] release.assets@[a]).name@)
}

/// Some file of some release has `tag` in its name.
pub open spec fn offers(releases: Seq<Release>, tag: Seq<char>) -> bool {
    exists|r: int| 0 <= r < releases.len() && release_offers(#[trigger] releases[r], tag)
}

/// The releases that have a file with `tag` in its name.
pub open spec fn offering(tag: Seq<char>) -> spec_fn(Release) -> bool {
    |release: Release| release_offers(release, tag)
}

/// The networks, in the order in which they are tried.
pub open spec fn networks() -> Seq<Seq<char>> {
    seq!["testnet"@, "devnet"@, "mainnet"@]
}

/// The networks for which some release has a file of the version.
pub open spec fn with_release_of(releases: Seq<Release>, version: Seq<char>) -> spec_fn(
    Seq<char>,
) -> bool {
    |network: Seq<char>| offers(releases, network + "-"@ + with_v(version))
}

/// Whether some file of the release has `tag` in its name.
fn has_asset(release: &Release, tag: &str) -> (r: bool)
    ensures
        r == release_offers(*release, tag@),
{
    let mut a: usize = 0;
    while a < release.assets.len()
        invariant
            a <= release.assets.len(),
            forall|j: int|
                0 <= j < a ==> !occurs_in(tag@, (#[trigger] release.assets@[j]).name@),
        decreases release.assets.len() - a,
    {
        if contains(release.assets[a].name.as_str(), tag) {
            return true;
        }
        a = a + 1;
    }
    false
}

/// Whether some file of some release has `tag` in its name.
fn has_release(releases: &Vec<Release>, tag: &str) -> (r: bool)
    ensures
        r == offers(releases@, tag@),
{
    let mut i: usize = 0;
    while i < releases.len()
        invariant
            i <= releases.len(),
            forall|j: int| 0 <= j < i ==> !release_offers(#[trigger] releases@[j], tag@),
        decreases releases.len() - i,
    {
        if has_asset(&releases[i], tag) {
            return true;
        }
        i = i + 1;
    }
    false
}

/// The first release that has a file for the network.
pub fn find_last_release_by_network(releases: Vec<Release>, network: &str) -> (r: Option<Release>)
    ensures
        r == first_element(releases@, offering(network@)),
{
    let mut rest = releases;
    let ghost mut i: int = 0;
    assert(releases@.skip(0) =~= releases@);
    while rest.len() > 0
        invariant
            0 <= i <= releases@.len(),
            rest@ == releases@.skip(i),
            forall|j: int| 0 <= j < i ==> !offering(network@)(#[trigger] releases@[j]),
        decreases rest.len(),
    {
        let release = rest.remove(0);
        assert(release == releases@[i]);
        assert(rest@ =~= releases@.skip(i + 1));
        if has_asset(&release, network) {
            proof {
                lemma_first(releases@, offering(network@), i);
            }
            return Some(release);
        }
        proof {
            i = i + 1;
        }
    }
    None
}

/// The networks that have a release of the version, in the order testnet, devnet,
/// mainnet. A version may be given with or without the `v` of release tags.
pub fn find_networks_with_version(releases: &Vec<Release>, version: &str) -> (r: Vec<String>)
    ensures
        texts(r@) == networks().filter(with_release_of(releases@, version@)),
{
    let version = crate::version::ensure_version_prefix(version);
    let mut candidates: Vec<&'static str> = Vec::new();
    candidates.push("testnet");
    candidates.push("devnet");
    candidates.push("mainnet");
    let ghost all = networks();
    let ghost p = with_release_of(releases@, version@);
    assert(with_v(version@) == version@);
    let mut found: Vec<String> = Vec::new();
    let mut i: usize = 0;
    proof {
        lemma_filter_empty(all, p);
        assert(texts(found@) =~= Seq::<Seq<char>>::empty());
    }
    while i < candidates.len()
        invariant
            i <= candidates.len(),
            candidates@.len() == 3,
            all == networks(),
            forall|k: int| 0 <= k < 3 ==> (#[trigger] candidates@[k])@ == all[k],
            forall|n: Seq<char>| #[trigger] p(n) == offers(releases@, n + "-"@ + version@),
            texts(found@) == all.take(i as int).filter(p),
        decreases candidates.len() - i,
    {
        let network = candidates[i];
        let mut tag = concat(network, "-");
        tag.append(version.as_str());
        proof {
            lemma_filter_step(all, i as int, p);
            assert(tag@ == all[i as int] + "-"@ + version@);
        }
        if has_release(releases, tag.as_str()) {
            let ghost before = texts(found@);
            found.push(String::from_str(network));
            assert(texts(found@) =~= before.push(all[i as int]));
        }
        i = i + 1;
    }
    assert(all.take(3) =~= all);
    found
}

} // verus!
