//! GitHub releases: their records, which release and asset a request picks, and the
//! addresses involved.
use vstd::prelude::*;
use vstd::string::*;
use crate::sources::{has_id_pick, pick_id, picks_id};
use crate::strs::{cat2, cat3, str_eq};

verus! {

/// A release of a repository.
pub struct GithubRelease {
    pub tag_name: String,
    pub name: String,
    pub assets: Vec<GithubAsset>,
}

/// A file attached to a release.
pub struct GithubAsset {
    pub url: String,
    pub name: String,
}

/// The address of the releases of `repo` in the API.
pub fn releases_url(repo: &str) -> (r: String)
    ensures
        r@ == "https://api.github.com/repos/"@ + repo@ + "/releases"@,
{
    cat3("https://api.github.com/repos/", repo, "/releases")
}

/// The address of `repo` in the API.
pub fn repo_url(repo: &str) -> (r: String)
    ensures
        r@ == "https://api.github.com/repos/"@ + repo@,
{
    cat2("https://api.github.com/repos/", repo)
}

/// The address from which the asset `filename` of release `tag` of `repo` downloads.
pub fn release_download_url(repo: &str, tag: &str, filename: &str) -> (r: String)
    ensures
        r@ == "https://github.com/"@ + repo@ + "/releases/download/"@ + tag@ + "/"@ + filename@,
{
    let mut r = cat3("https://github.com/", repo, "/releases/download/");
    r.append(tag);
    r.append("/");
    r.append(filename);
    r
}

/// The tags of a list of releases.
pub open spec fn release_tags(rs: Seq<GithubRelease>) -> Seq<Seq<char>> {
    rs.map_values(|r: GithubRelease| r.tag_name@)
}

/// The release that `tag` asks for: the first for `latest`, else the one with that tag.
pub fn pick_release(releases: &Vec<GithubRelease>, tag: &str) -> (r: Option<usize>)
    ensures
        match r {
            Some(i) => picks_id(release_tags(releases@), tag@, i as int),
            None => !has_id_pick(release_tags(releases@), tag@),
        },
{
    let mut tags: Vec<String> = Vec::new();
    let mut i: usize = 0;
    while i < releases.len()
        invariant
            i <= releases.len(),
            tags.deep_view() =~= release_tags(releases@).take(i as int),
        decreases releases.len() - i,
    {
        let ghost before = tags.deep_view();
        tags.push(releases[i].tag_name.clone());
        proof {
            assert(tags.deep_view() =~= before.push(releases@[i as int].tag_name@));
            assert(release_tags(releases@).take(i + 1) =~= release_tags(releases@).take(
                i as int,
            ).push(releases@[i as int].tag_name@));
        }
        i = i + 1;
    }
    assert(release_tags(releases@).take(releases.len() as int) =~= release_tags(releases@));
    pick_id(&tags, tag)
}

/// Whether an asset request means the first asset of the release.
pub open spec fn wants_first_asset(asset: Seq<char>) -> bool {
    asset == ""@ || asset == "first"@ || asset == "any"@
}

/// Whether an asset request means the first asset of the release: empty, `first` or `any`.
pub fn is_first_asset(asset: &str) -> (r: bool)
    ensures
        r == wants_first_asset(asset@),
{
    str_eq(asset, "") || str_eq(asset, "first") || str_eq(asset, "any")
}

/// Whether asset `a` is the one named `asset`: its name is that name.
pub open spec fn asset_named(a: GithubAsset, asset: Seq<char>) -> bool {
    a.name@ == asset
}

/// The asset of a release that `asset` asks for: the first one where it asks for the first
/// (empty, `first` or `any`), else the first whose name is `asset`; none where there is no
/// such asset.
pub fn pick_asset(assets: &Vec<GithubAsset>, asset: &str) -> (r: Option<usize>)
    ensures
        wants_first_asset(asset@) ==> match r {
            Some(i) => i == 0 && assets@.len() > 0,
            None => assets@.len() == 0,
        },
        !wants_first_asset(asset@) ==> match r {
            Some(i) => i < assets@.len() && asset_named(assets@[i as int], asset@) && forall|j: int|
                0 <= j < i ==> !asset_named(#[trigger] assets@[j], asset@),
            None => forall|j: int|
                0 <= j < assets@.len() ==> !asset_named(#[trigger] assets@[j], asset@),
        },
{
    if is_first_asset(asset) {
        if assets.len() > 0 {
            return Some(0);
        } else {
            return None;
        }
    }
    let mut i: usize = 0;
    while i < assets.len()
        invariant
            i <= assets@.len(),
            !wants_first_asset(asset@),
            forall|j: int| 0 <= j < i ==> !asset_named(#[trigger] assets@[j], asset@),
        decreases assets@.len() - i,
    {
        if str_eq(assets[i].name.as_str(), asset) {
            return Some(i);
        }
        i = i + 1;
    }
    None
}

/// How long to wait before the next request when the API reports its rate limit reached
/// (one request left), given the reset time and the current time in seconds.
pub fn ratelimit_wait(remaining: &str, reset: u64, now: u64) -> (r: Option<u64>)
    requires
        remaining@ == "1"@ ==> now <= reset,
    ensures
        match r {
            Some(s) => remaining@ == "1"@ && s == reset - now,
            None => remaining@ != "1"@,
        },
{
    if str_eq(remaining, "1") {
        Some(reset - now)
    } else {
        None
    }
}

} // verus!
