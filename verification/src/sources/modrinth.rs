//! Modrinth: the records its API returns, and which version and file a request picks.
use vstd::prelude::*;
use vstd::string::*;
use crate::strmap::StrMap;
use crate::strs::{cat2, clone_strings, str_eq};

verus! {

/// How a version depends on another project.
#[derive(Debug, PartialEq, Eq, Structural, Clone, Copy)]
pub enum DependencyType {
    Required,
    Optional,
    Incompatible,
    Embedded,
}

/// The release channel of a version.
#[derive(Debug, PartialEq, Eq, Structural, Clone, Copy)]
pub enum VersionType {
    Release,
    Beta,
    Alpha,
}

/// The publication state of a version.
#[derive(Debug, PartialEq, Eq, Structural, Clone, Copy)]
pub enum ModrinthStatus {
    Listed,
    Archived,
    Draft,
    Unlisted,
    Scheduled,
    Unknown,
}

/// A dependency of a version.
pub struct ModrinthDependency {
    pub version_id: String,
    pub project_id: String,
    pub file_name: String,
    pub dependency_type: DependencyType,
}

/// A file of a version.
pub struct ModrinthFile {
    /// Hashes of the file by algorithm name.
    pub hashes: StrMap<String>,
    pub url: String,
    pub filename: String,
    pub primary: bool,
    pub size: i64,
}

/// A `ModrinthFile` as plain values.
pub struct ModrinthFileView {
    pub hashes: Seq<(String, String)>,
    pub url: Seq<char>,
    pub filename: Seq<char>,
    pub primary: bool,
    pub size: i64,
}

impl View for ModrinthFile {
    type V = ModrinthFileView;

    open spec fn view(&self) -> ModrinthFileView {
        ModrinthFileView {
            hashes: self.hashes@,
            url: self.url@,
            filename: self.filename@,
            primary: self.primary,
            size: self.size,
        }
    }
}

impl Clone for ModrinthFile {
    fn clone(&self) -> (r: Self)
        ensures
            r@ == self@,
    {
        ModrinthFile {
            hashes: self.hashes.clone(),
            url: self.url.clone(),
            filename: self.filename.clone(),
            primary: self.primary,
            size: self.size,
        }
    }
}

/// A version of a project.
pub struct ModrinthVersion {
    pub name: String,
    pub version_number: String,
    pub changelog: String,
    pub dependencies: Vec<String>,
    pub game_versions: Vec<String>,
    pub version_type: VersionType,
    pub loaders: Vec<String>,
    pub featured: bool,
    pub status: ModrinthStatus,
    pub requested_status: Option<ModrinthStatus>,
    pub id: String,
    pub project_id: String,
    pub author_id: String,
    pub date_published: String,
    pub downloads: i64,
    pub files: Vec<ModrinthFile>,
}

/// A `ModrinthVersion` as plain values.
pub struct ModrinthVersionView {
    pub name: Seq<char>,
    pub version_number: Seq<char>,
    pub changelog: Seq<char>,
    pub dependencies: Seq<Seq<char>>,
    pub game_versions: Seq<Seq<char>>,
    pub version_type: VersionType,
    pub loaders: Seq<Seq<char>>,
    pub featured: bool,
    pub status: ModrinthStatus,
    pub requested_status: Option<ModrinthStatus>,
    pub id: Seq<char>,
    pub project_id: Seq<char>,
    pub author_id: Seq<char>,
    pub date_published: Seq<char>,
    pub downloads: i64,
    pub files: Seq<ModrinthFileView>,
}

/// The views of a list of files.
pub open spec fn files_view(fs: Seq<ModrinthFile>) -> Seq<ModrinthFileView> {
    fs.map_values(|f: ModrinthFile| f@)
}

impl View for ModrinthVersion {
    type V = ModrinthVersionView;

    open spec fn view(&self) -> ModrinthVersionView {
        ModrinthVersionView {
            name: self.name@,
            version_number: self.version_number@,
            changelog: self.changelog@,
            dependencies: self.dependencies.deep_view(),
            game_versions: self.game_versions.deep_view(),
            version_type: self.version_type,
            loaders: self.loaders.deep_view(),
            featured: self.featured,
            status: self.status,
            requested_status: self.requested_status,
            id: self.id@,
            project_id: self.project_id@,
            author_id: self.author_id@,
            date_published: self.date_published@,
            downloads: self.downloads,
            files: files_view(self.files@),
        }
    }
}

fn clone_files(fs: &Vec<ModrinthFile>) -> (r: Vec<ModrinthFile>)
    ensures
        files_view(r@) == files_view(fs@),
{
    let mut out: Vec<ModrinthFile> = Vec::new();
    let mut i: usize = 0;
    while i < fs.len()
        invariant
            i <= fs.len(),
            files_view(out@) =~= files_view(fs@).take(i as int),
        decreases fs.len() - i,
    {
        let f = fs[i].clone();
        out.push(f);
        proof {
            assert(files_view(fs@).take(i + 1) =~= files_view(fs@).take(i as int).push(fs@[i as int]@));
        }
        i = i + 1;
    }
    assert(files_view(fs@).take(fs.len() as int) =~= files_view(fs@));
    out
}

impl Clone for ModrinthVersion {
    fn clone(&self) -> (r: Self)
        ensures
            r@ == self@,
    {
        ModrinthVersion {
            name: self.name.clone(),
            version_number: self.version_number.clone(),
            changelog: self.changelog.clone(),
            dependencies: clone_strings(&self.dependencies),
            game_versions: clone_strings(&self.game_versions),
            version_type: self.version_type,
            loaders: clone_strings(&self.loaders),
            featured: self.featured,
            status: self.status,
            requested_status: self.requested_status,
            id: self.id.clone(),
            project_id: self.project_id.clone(),
            author_id: self.author_id.clone(),
            date_published: self.date_published.clone(),
            downloads: self.downloads,
            files: clone_files(&self.files),
        }
    }
}

/// The views of a list of versions.
pub open spec fn versions_view(vs: Seq<ModrinthVersion>) -> Seq<ModrinthVersionView> {
    vs.map_values(|v: ModrinthVersion| v@)
}

/// The address of the list of versions of project `id`, narrowed to a loader and a game
/// version when `query` gives them.
pub open spec fn versions_url(id: Seq<char>, query: Option<(Seq<char>, Seq<char>)>) -> Seq<char> {
    "https://api.modrinth.com/v2/project/"@ + id + "/version"@ + match query {
        Some((jar, mcver)) => "?loaders=[\""@ + jar + "\"]&game_versions=[\""@ + mcver + "\"]"@,
        None => Seq::<char>::empty(),
    }
}

/// The address of the list of versions of project `id`.
pub fn modrinth_versions_url(id: &str, query: Option<(&str, &str)>) -> (r: String)
    ensures
        r@ == versions_url(
            id@,
            match query {
                Some((j, m)) => Some((j@, m@)),
                None => None,
            },
        ),
{
    let mut r = cat2("https://api.modrinth.com/v2/project/", id);
    r.append("/version");
    match query {
        Some((jar, mcver)) => {
            r.append("?loaders=[\"");
            r.append(jar);
            r.append("\"]&game_versions=[\"");
            r.append(mcver);
            r.append("\"]");
        },
        None => {},
    }
    r
}

/// Why no file could be picked for a requested version.
#[derive(Debug, PartialEq, Eq, Structural, Clone, Copy)]
pub enum PickError {
    /// No version matches the request.
    ReleaseNotFound,
    /// The matching version has no files.
    NoFiles,
}

/// The position of the version that `version` asks for: the first for `latest`, else the
/// first whose id is `version`.
pub open spec fn picks_version(vs: Seq<ModrinthVersionView>, version: Seq<char>, i: int) -> bool {
    if version == "latest"@ {
        i == 0 && vs.len() > 0
    } else {
        0 <= i < vs.len() && vs[i].id == version && forall|j: int| 0 <= j < i ==> vs[j].id != version
    }
}

/// Whether some version matches the request.
pub open spec fn has_pick(vs: Seq<ModrinthVersionView>, version: Seq<char>) -> bool {
    if version == "latest"@ {
        vs.len() > 0
    } else {
        exists|i: int| 0 <= i < vs.len() && vs[i].id == version
    }
}

/// The version that `version` asks for among `versions`, in the API's order.
pub fn pick_version(versions: &Vec<ModrinthVersion>, version: &str) -> (r: Option<usize>)
    ensures
        match r {
            Some(i) => picks_version(versions_view(versions@), version@, i as int),
            None => !has_pick(versions_view(versions@), version@),
        },
{
    let ghost vs = versions_view(versions@);
    if str_eq(version, "latest") {
        if versions.len() > 0 {
            Some(0)
        } else {
            None
        }
    } else {
        let mut i: usize = 0;
        while i < versions.len()
            invariant
                vs == versions_view(versions@),
                version@ != "latest"@,
                i <= versions.len(),
                forall|j: int| 0 <= j < i ==> vs[j].id != version@,
            decreases versions.len() - i,
        {
            if str_eq(versions[i].id.as_str(), version) {
                assert(vs[i as int].id == version@);
                return Some(i);
            }
            i = i + 1;
        }
        None
    }
}

/// The file to download for `version` among `versions`: the first file of the picked
/// version.
pub fn pick_file<'a>(versions: &'a Vec<ModrinthVersion>, version: &str) -> (r: Result<
    &'a ModrinthFile,
    PickError,
>)
    ensures
        match r {
            Ok(f) => exists|i: int|
                picks_version(versions_view(versions@), version@, i) && versions@[i].files@.len()
                    > 0 && f@ == versions@[i].files@[0]@,
            Err(PickError::ReleaseNotFound) => !has_pick(versions_view(versions@), version@),
            Err(PickError::NoFiles) => exists|i: int|
                picks_version(versions_view(versions@), version@, i) && versions@[i].files@.len()
                    == 0,
        },
{
    match pick_version(versions, version) {
        Some(i) => {
            if versions[i].files.len() > 0 {
                Ok(&versions[i].files[0])
            } else {
                Err(PickError::NoFiles)
            }
        },
        None => Err(PickError::ReleaseNotFound),
    }
}

} // verus!
