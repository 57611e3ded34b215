//! CurseRinth, the Modrinth-style mirror of CurseForge: its version records, and which file a
//! request picks.
use vstd::prelude::*;
use vstd::string::*;
use crate::sources::modrinth::{files_view, ModrinthFile, ModrinthFileView, PickError, VersionType};
use crate::sources::{has_id_pick, pick_id, picks_id};
use crate::strs::cat2;

verus! {

/// How a CurseForge project depends on another.
#[derive(Debug, PartialEq, Eq, Structural, Clone, Copy)]
pub enum CurseRinthDependencyType {
    EmbeddedLibrary,
    OptionalDependency,
    RequiredDependency,
    Tool,
    Incompatible,
    Include,
}

/// A dependency of a version.
pub struct CurseRinthDependency {
    pub project_id: String,
    pub dependency_type: CurseRinthDependencyType,
}

/// A version of a project.
pub struct CurseRinthVersion {
    pub name: String,
    pub version_number: String,
    pub changelog: String,
    pub changelog_url: String,
    pub dependencies: Vec<CurseRinthDependency>,
    pub game_versions: Vec<String>,
    pub version_type: VersionType,
    pub loaders: Vec<String>,
    pub featured: bool,
    pub id: String,
    pub project_id: String,
    pub author_id: String,
    pub date_published: String,
    pub downloads: i64,
    pub files: Vec<ModrinthFile>,
}

/// The root of the CurseRinth API.
pub open spec fn api_root() -> Seq<char> {
    "https://curserinth-api.kuylar.dev/v2"@
}

/// The address of the list of versions of project `id`, narrowed to a loader and a game
/// version when `query` gives them.
pub open spec fn versions_url(id: Seq<char>, query: Option<(Seq<char>, Seq<char>)>) -> Seq<char> {
    api_root() + "/project/"@ + id + "/version"@ + match query {
        Some((jar, mcver)) => "?loaders=[\""@ + jar + "\"]&game_versions=[\""@ + mcver + "\"]"@,
        None => Seq::<char>::empty(),
    }
}

/// The address of project `id`.
pub fn curserinth_project_url(id: &str) -> (r: String)
    ensures
        r@ == api_root() + "/project/"@ + id@,
{
    let mut r = cat2("https://curserinth-api.kuylar.dev/v2", "/project/");
    r.append(id);
    r
}

/// The address of the list of versions of project `id`.
pub fn curserinth_versions_url(id: &str, query: Option<(&str, &str)>) -> (r: String)
    ensures
        r@ == versions_url(
            id@,
            match query {
                Some((j, m)) => Some((j@, m@)),
                None => None,
            },
        ),
{
    let mut r = curserinth_project_url(id);
    r.append("/version");
    match query {
        Some((jar, mcver)) => {
            r.append("?loaders=[\"");
            r.append(jar);
            r.append("\"]&game_versions=[\"");
            r.append(mcver);
            r.append("\"]");
        },
        None => {},
    }
    r
}

/// The ids of a list of versions.
pub open spec fn version_ids(vs: Seq<CurseRinthVersion>) -> Seq<Seq<char>> {
    vs.map_values(|v: CurseRinthVersion| v.id@)
}

fn ids_of(versions: &Vec<CurseRinthVersion>) -> (r: Vec<String>)
    ensures
        r.deep_view() == version_ids(versions@),
{
    let mut out: Vec<String> = Vec::new();
    let mut i: usize = 0;
    while i < versions.len()
        invariant
            i <= versions.len(),
            out.deep_view() =~= version_ids(versions@).take(i as int),
        decreases versions.len() - i,
    {
        let ghost before = out.deep_view();
        out.push(versions[i].id.clone());
        proof {
            assert(out.deep_view() =~= before.push(versions@[i as int].id@));
            assert(version_ids(versions@).take(i + 1) =~= version_ids(versions@).take(i as int).push(
                versions@[i as int].id@,
            ));
        }
        i = i + 1;
    }
    assert(version_ids(versions@).take(versions.len() as int) =~= version_ids(versions@));
    out
}

/// The file to download for `version` among `versions`: the first file of the first
/// version for `latest`, else of the version with that id.
pub fn pick_file<'a>(versions: &'a Vec<CurseRinthVersion>, version: &str) -> (r: Result<
    &'a ModrinthFile,
    PickError,
>)
    ensures
        match r {
            Ok(f) => exists|i: int|
                picks_id(version_ids(versions@), version@, i) && versions@[i].files@.len() > 0
                    && f@ == versions@[i].files@[0]@,
            Err(PickError::ReleaseNotFound) => !has_id_pick(version_ids(versions@), version@),
            Err(PickError::NoFiles) => exists|i: int|
                picks_id(version_ids(versions@), version@, i) && versions@[i].files@.len() == 0,
        },
{
    let ids = ids_of(versions);
    match pick_id(&ids, version) {
        Some(i) => {
            if versions[i].files.len() > 0 {
                Ok(&versions[i].files[0])
            } else {
                Err(PickError::NoFiles)
            }
        },
        None => Err(PickError::ReleaseNotFound),
    }
}

} // verus!
