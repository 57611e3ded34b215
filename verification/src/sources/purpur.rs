//! Purpur: the addresses of its API, and the file names of its builds.
use vstd::prelude::*;
use vstd::string::*;
use crate::strs::{cat2, cat3, str_eq};

verus! {

/// The address of the list of Purpur versions.
pub open spec fn versions_url() -> Seq<char> {
    "https://api.purpurmc.org/v2/purpur"@
}

/// The address of the builds of game version `version`.
pub fn purpur_version_url(version: &str) -> (r: String)
    ensures
        r@ == "https://api.purpurmc.org/v2/purpur/"@ + version@,
{
    cat2("https://api.purpurmc.org/v2/purpur/", version)
}

/// The address from which build `build` at game version `version` downloads.
pub fn purpur_download_url(version: &str, build: &str) -> (r: String)
    ensures
        r@ == "https://api.purpurmc.org/v2/purpur/"@ + version@ + "/"@ + build@ + "/download"@,
{
    let mut r = cat3("https://api.purpurmc.org/v2/purpur/", version, "/");
    r.append(build);
    r.append("/download");
    r
}

/// The game version that `version` stands for, given Purpur's versions in the API's order:
/// the last for `latest`; none where `latest` is asked and there is no version.
pub fn resolve_purpur_version(version: &str, versions: &Vec<String>) -> (r: Option<String>)
    ensures
        version@ != "latest"@ ==> (r matches Some(v) && v@ == version@),
        version@ == "latest"@ && versions@.len() > 0 ==> (r matches Some(v) && v@
            == versions@.last()@),
        version@ == "latest"@ && versions@.len() == 0 ==> r is None,
{
    if str_eq(version, "latest") {
        if versions.len() > 0 {
            Some(versions[versions.len() - 1].clone())
        } else {
            None
        }
    } else {
        Some(version.to_owned())
    }
}

/// The file name of a Purpur build at game version `mcver`: `build`, or for `latest` the
/// last of the fetched builds (`latest` itself when there is none).
pub fn purpur_filename(mcver: &str, build: &str, builds: &Vec<String>) -> (r: String)
    ensures
        r@ == "purpur-"@ + mcver@ + "-"@ + (if build@ == "latest"@ && builds@.len() > 0 {
            builds@.last()@
        } else {
            build@
        }) + ".jar"@,
{
    let b = if str_eq(build, "latest") && builds.len() > 0 {
        builds[builds.len() - 1].as_str()
    } else {
        build
    };
    let mut r = cat3("purpur-", mcver, "-");
    r.append(b);
    r.append(".jar");
    r
}

} // verus!
