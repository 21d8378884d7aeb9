//! Release metadata as returned by the remote registry: a version tag and
//! its downloadable assets, and the lookup of an asset by exact name.

use vstd::prelude::*;

verus! {

/// The archive format of a release asset, handed to the host's
/// download-and-extract interface as its format hint.
#[derive(Clone, Copy, Debug, PartialEq, Eq, Structural)]
pub enum ArchiveFormat {
    GzipTar,
}

/// A named, downloadable file attached to a release.
#[derive(Clone, Debug)]
pub struct Asset {
    pub name: String,
    pub download_url: String,
}

/// Metadata of one qualifying (stable, asset-carrying) release.
#[derive(Clone, Debug)]
pub struct ReleaseInfo {
    pub version: String,
    pub assets: Vec<Asset>,
}

/// Whether some asset in the list carries exactly this name.
pub open spec fn has_asset(assets: Seq<Asset>, name: Seq<char>) -> bool {
    exists|i: int| 0 <= i < assets.len() && assets[i].name@ == name
}

/// The index of the first asset carrying this name (meaningful only when
/// `has_asset` holds).
pub open spec fn first_match(assets: Seq<Asset>, name: Seq<char>) -> int
    decreases assets.len(),
{
    if assets.len() == 0 {
        0
    } else if assets[0].name@ == name {
        0
    } else {
        1 + first_match(assets.subrange(1, assets.len() as int), name)
    }
}

pub proof fn lemma_first_match_bounds(assets: Seq<Asset>, name: Seq<char>)
    requires
        has_asset(assets, name),
    ensures
        0 <= first_match(assets, name) < assets.len(),
        assets[first_match(assets, name)].name@ == name,
        forall|j: int| 0 <= j < first_match(assets, name) ==> assets[j].name@ != name,
    decreases assets.len(),
{
    if assets.len() > 0 && assets[0].name@ != name {
        let rest = assets.subrange(1, assets.len() as int);
        let w = choose|i: int| 0 <= i < assets.len() && assets[i].name@ == name;
        assert(rest[w - 1].name@ == name);
        lemma_first_match_bounds(rest, name);
        assert forall|j: int| 0 <= j < first_match(assets, name) implies assets[j].name@
            != name by {
            if j > 0 {
                assert(assets[j] == rest[j - 1]);
            }
        }
    }
}

proof fn lemma_first_match_is(assets: Seq<Asset>, name: Seq<char>, i: int)
    requires
        0 <= i < assets.len(),
        assets[i].name@ == name,
        forall|j: int| 0 <= j < i ==> assets[j].name@ != name,
    ensures
        first_match(assets, name) == i,
    decreases assets.len(),
{
    if i != 0 {
        let rest = assets.subrange(1, assets.len() as int);
        assert(forall|j: int| 0 <= j < i - 1 ==> rest[j].name@ != name);
        lemma_first_match_is(rest, name, i - 1);
    }
}

/// Find the first asset whose name equals `name` exactly; `None` when the
/// release carries no such asset.
pub fn find_asset(assets: &Vec<Asset>, name: &String) -> (r: Option<usize>)
    ensures
        match r {
            Some(i) => has_asset(assets@, name@) && i == first_match(assets@, name@),
            None => !has_asset(assets@, name@),
        },
{
    let n = assets.len();
    let mut i: usize = 0;
    while i < n
        invariant
            i <= n,
            n == assets@.len(),
            forall|j: int| 0 <= j < i ==> assets@[j].name@ != name@,
        decreases n - i,
    {
        if assets[i].name == *name {
            proof {
                lemma_first_match_is(assets@, name@, i as int);
            }
            return Some(i);
        }
        i = i + 1;
    }
    None
}

} // verus!
