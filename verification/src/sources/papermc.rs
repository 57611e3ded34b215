//! PaperMC: its build records, which version and build a request picks, and the addresses
//! and file names involved.
use vstd::prelude::*;
use vstd::string::*;
use crate::error::McmanError;
use crate::strs::{cat2, cat3, dec_int, fmt_i64, str_eq};

verus! {

/// The downloadable server jar of a build.
pub struct PaperMCBuildApplication {
    pub name: String,
    pub sha256: String,
}

/// The downloads of a build.
pub struct PaperMCBuildDownloads {
    pub application: PaperMCBuildApplication,
}

/// A build of a project at a game version.
pub struct PaperMCBuild {
    pub build: i32,
    pub channel: String,
    pub downloads: PaperMCBuildDownloads,
}

/// The root of the PaperMC API.
pub open spec fn api_root() -> Seq<char> {
    "https://api.papermc.io/v2/projects/"@
}

/// The address of project `project`.
pub fn project_url(project: &str) -> (r: String)
    ensures
        r@ == api_root() + project@,
{
    cat2("https://api.papermc.io/v2/projects/", project)
}

/// The address of the builds of `project` at game version `version`.
pub fn builds_url(project: &str, version: &str) -> (r: String)
    ensures
        r@ == api_root() + project@ + "/versions/"@ + version@ + "/builds"@,
{
    let mut r = project_url(project);
    r.append("/versions/");
    r.append(version);
    r.append("/builds");
    r
}

/// The address from which build `build` of `project` at `version` downloads as `filename`.
pub fn download_url(project: &str, version: &str, build: i32, filename: &str) -> (r: String)
    ensures
        r@ == api_root() + project@ + "/versions/"@ + version@ + "/builds/"@ + dec_int(build as int)
            + "/downloads/"@ + filename@,
{
    let mut r = project_url(project);
    r.append("/versions/");
    r.append(version);
    r.append("/builds/");
    r.append(fmt_i64(build as i64).as_str());
    r.append("/downloads/");
    r.append(filename);
    r
}

/// The game version that `version` stands for, given the project's versions in the API's
/// order: the last for `latest`.
pub fn resolve_version(project: &str, version: &str, versions: &Vec<String>) -> (r: Result<
    String,
    McmanError,
>)
    ensures
        version@ != "latest"@ ==> (r matches Ok(v) && v@ == version@),
        version@ == "latest"@ && versions@.len() > 0 ==> (r matches Ok(v) && v@
            == versions@.last()@),
        version@ == "latest"@ && versions@.len() == 0 ==> (r matches Err(
            McmanError::PaperMCVersionNotFound(p, v),
        ) && p@ == project@ && v@ == version@),
{
    if str_eq(version, "latest") {
        if versions.len() > 0 {
            Ok(versions[versions.len() - 1].clone())
        } else {
            Err(McmanError::PaperMCVersionNotFound(project.to_owned(), version.to_owned()))
        }
    } else {
        Ok(version.to_owned())
    }
}

/// The build numbers of a list of builds.
pub open spec fn build_numbers(bs: Seq<PaperMCBuild>) -> Seq<int> {
    bs.map_values(|b: PaperMCBuild| b.build as int)
}

/// The position of the build that `build` asks for: the last for `latest`, else the first
/// whose number is written `build`.
pub open spec fn picks_build(bs: Seq<int>, build: Seq<char>, i: int) -> bool {
    if build == "latest"@ {
        bs.len() > 0 && i == bs.len() - 1
    } else {
        0 <= i < bs.len() && dec_int(bs[i]) == build && forall|j: int|
            0 <= j < i ==> dec_int(bs[j]) != build
    }
}

/// The build that `build` asks for among `builds`, or the error naming what is missing.
pub fn pick_build(project: &str, version: &str, build: &str, builds: &Vec<PaperMCBuild>) -> (r:
    Result<usize, McmanError>)
    ensures
        match r {
            Ok(i) => picks_build(build_numbers(builds@), build@, i as int),
            Err(McmanError::PaperMCBuildNotFound(p, v, b)) => p@ == project@ && v@ == version@
                && b@ == build@ && forall|i: int| !picks_build(build_numbers(builds@), build@, i),
            Err(_) => false,
        },
{
    let ghost bs = build_numbers(builds@);
    if str_eq(build, "latest") {
        if builds.len() > 0 {
            return Ok(builds.len() - 1);
        }
    } else {
        let mut i: usize = 0;
        while i < builds.len()
            invariant
                bs == build_numbers(builds@),
                build@ != "latest"@,
                i <= builds.len(),
                forall|j: int| 0 <= j < i ==> dec_int(bs[j]) != build@,
            decreases builds.len() - i,
        {
            let text = fmt_i64(builds[i].build as i64);
            if str_eq(text.as_str(), build) {
                return Ok(i);
            }
            i = i + 1;
        }
    }
    Err(McmanError::PaperMCBuildNotFound(project.to_owned(), version.to_owned(), build.to_owned()))
}

/// The file name of build `build` of `project` at game version `mcver`.
pub fn papermc_filename(project: &str, mcver: &str, build: &str) -> (r: String)
    ensures
        r@ == project@ + "-"@ + mcver@ + "-"@ + build@ + ".jar"@,
{
    let mut r = cat3(project, "-", mcver);
    r.append("-");
    r.append(build);
    r.append(".jar");
    r
}

} // verus!
