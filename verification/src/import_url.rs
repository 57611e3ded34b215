//! Importing a source from a URL: what the URL says about the source, and the choices offered
//! to complete what it leaves open.
use vstd::prelude::*;
use vstd::string::*;
use crate::downloadable::{file_name_of_url, url_file_name, Downloadable, DownloadableView};
use crate::sources::github::GithubRelease;
use crate::sources::curserinth::CurseRinthVersion;
use crate::sources::modrinth::{versions_view, ModrinthVersion, ModrinthVersionView};
use crate::strs::{
    cat2, cat3, has_infix, has_prefix, join, joined, pieces_by, replace, replaced, split_char,
    starts_with, str_eq,
};

verus! {

/// The parts of a parsed URL that an import reads.
pub struct UrlParts {
    /// The host, where it is a domain name.
    pub domain: Option<String>,
    /// The path, percent-encoded.
    pub path: String,
}

/// `UrlParts` as plain values.
pub struct UrlPartsView {
    pub domain: Option<Seq<char>>,
    pub path: Seq<char>,
}

impl View for UrlParts {
    type V = UrlPartsView;

    open spec fn view(&self) -> UrlPartsView {
        UrlPartsView {
            domain: match self.domain {
                Some(d) => Some(d@),
                None => None,
            },
            path: self.path@,
        }
    }
}

/// What the `url` crate parses a text into: its domain and path, or `None` where the text
/// is no absolute URL.
pub uninterp spec fn parsed_url(s: Seq<char>) -> Option<UrlPartsView>;

/// `reqwest::Url::parse` (the `url` crate), then `Url::domain` and `Url::path`. The parse
/// depends on the text alone; its result is named `parsed_url`, with nothing said of what
/// it is.
#[verifier::external_body]
fn parse_url(s: &str) -> (r: Option<UrlParts>)
    ensures
        match r {
            Some(p) => parsed_url(s@) == Some(p@),
            None => parsed_url(s@) is None,
        },
{
    match reqwest::Url::parse(s) {
        Ok(u) => Some(UrlParts { domain: u.domain().map(str::to_owned), path: u.path().to_owned() }),
        Err(_) => None,
    }
}

/// The path segments of a URL path, as `Url::path_segments` gives them: the path after its
/// leading `/`, cut at every `/`; none for a path without a leading `/`.
pub open spec fn path_segments(path: Seq<char>) -> Option<Seq<Seq<char>>> {
    if path.len() > 0 && path[0] == '/' {
        Some(pieces_by(path.drop_first(), '/'))
    } else {
        None
    }
}

/// The path segments of a URL path.
pub fn segments_of(path: &str) -> (r: Option<Vec<String>>)
    ensures
        match r {
            Some(v) => path_segments(path@) == Some(v.deep_view()),
            None => path_segments(path@) is None,
        },
{
    let n = path.unicode_len();
    if n > 0 && path.get_char(0) == '/' {
        let rest = path.substring_char(1, n);
        assert(rest@ =~= path@.drop_first());
        Some(split_char(rest, '/'))
    } else {
        None
    }
}

/// Which version of a project an import URL names.
pub enum VersionPick {
    /// None: the user chooses among the project's versions.
    Choose,
    /// The version with this version number.
    Number(String),
    /// The URL has a `version` segment but no number after it.
    MissingNumber,
}

/// `VersionPick` as plain values.
pub enum VersionPickView {
    Choose,
    Number(Seq<char>),
    MissingNumber,
}

impl View for VersionPick {
    type V = VersionPickView;

    open spec fn view(&self) -> VersionPickView {
        match self {
            VersionPick::Choose => VersionPickView::Choose,
            VersionPick::Number(n) => VersionPickView::Number(n@),
            VersionPick::MissingNumber => VersionPickView::MissingNumber,
        }
    }
}

/// What a URL says about the source to import.
pub enum ImportPlan {
    /// The source, complete.
    Ready(Downloadable),
    /// A Modrinth project; the version is still to be found among its versions.
    Modrinth { id: String, pick: VersionPick },
    /// A CurseRinth project; the version is still to be found among its versions.
    CurseRinth { id: String, pick: VersionPick },
    /// A CurseForge project whose version the user chooses.
    CurseForge { id: String },
    /// A GitHub repository, with the release and asset that the URL implies.
    Github { repo: String, tag: Option<String>, file: Option<String> },
    /// Any other URL: a plain file or a Jenkins job, as the user decides.
    Other {
        /// Whether Jenkins is the suggested choice (the path starts with `/job`).
        jenkins_default: bool,
        /// The file name that the URL suggests.
        filename: String,
        /// The suggested Jenkins server, from the URL's domain.
        jenkins_url: Option<String>,
        /// The Jenkins job that the URL's `job/...` segments name.
        job: String,
    },
}

/// `ImportPlan` as plain values.
pub enum ImportPlanView {
    Ready(DownloadableView),
    Modrinth { id: Seq<char>, pick: VersionPickView },
    CurseRinth { id: Seq<char>, pick: VersionPickView },
    CurseForge { id: Seq<char> },
    Github { repo: Seq<char>, tag: Option<Seq<char>>, file: Option<Seq<char>> },
    Other {
        jenkins_default: bool,
        filename: Seq<char>,
        jenkins_url: Option<Seq<char>>,
        job: Seq<char>,
    },
}

impl View for ImportPlan {
    type V = ImportPlanView;

    open spec fn view(&self) -> ImportPlanView {
        match self {
            ImportPlan::Ready(d) => ImportPlanView::Ready(d@),
            ImportPlan::Modrinth { id, pick } => ImportPlanView::Modrinth { id: id@, pick: pick@ },
            ImportPlan::CurseRinth { id, pick } => ImportPlanView::CurseRinth {
                id: id@,
                pick: pick@,
            },
            ImportPlan::CurseForge { id } => ImportPlanView::CurseForge { id: id@ },
            ImportPlan::Github { repo, tag, file } => ImportPlanView::Github {
                repo: repo@,
                tag: match tag {
                    Some(t) => Some(t@),
                    None => None,
                },
                file: match file {
                    Some(f) => Some(f@),
                    None => None,
                },
            },
            ImportPlan::Other { jenkins_default, filename, jenkins_url, job } =>
                ImportPlanView::Other {
                jenkins_default: *jenkins_default,
                filename: filename@,
                jenkins_url: match jenkins_url {
                    Some(u) => Some(u@),
                    None => None,
                },
                job: job@,
            },
        }
    }
}

/// Why a URL cannot be imported.
pub enum ImportError {
    /// The text is no absolute URL.
    BadUrl,
    /// The URL does not have the shape its site's URLs have; the message says how.
    Invalid(String),
}

/// `ImportError` as plain values.
pub enum ImportErrorView {
    BadUrl,
    Invalid(Seq<char>),
}

impl View for ImportError {
    type V = ImportErrorView;

    open spec fn view(&self) -> ImportErrorView {
        match self {
            ImportError::BadUrl => ImportErrorView::BadUrl,
            ImportError::Invalid(m) => ImportErrorView::Invalid(m@),
        }
    }
}

/// A refusal with message `m`.
pub open spec fn refuse(m: Seq<char>) -> Result<ImportPlanView, ImportErrorView> {
    Err(ImportErrorView::Invalid(m))
}

/// The version that the segments after a project id name.
pub open spec fn version_pick(ss: Seq<Seq<char>>) -> VersionPickView {
    if ss.len() > 2 && ss[2] == "version"@ {
        if ss.len() > 3 {
            VersionPickView::Number(ss[3])
        } else {
            VersionPickView::MissingNumber
        }
    } else {
        VersionPickView::Choose
    }
}

/// `https://cdn.modrinth.com/data/{id}/versions/{version}/...`
pub open spec fn plan_modrinth_cdn(ss: Option<Seq<Seq<char>>>) -> Result<ImportPlanView, ImportErrorView> {
    match ss {
        Some(ss) => if ss.len() > 3 && ss[0] == "data"@ && ss[2] == "versions"@ {
            Ok(
                ImportPlanView::Ready(DownloadableView::Modrinth { id: ss[1], version: ss[3] }),
            )
        } else {
            refuse("Invalid Modrinth CDN URL"@)
        },
        None => refuse("Invalid Modrinth CDN URL"@),
    }
}

/// `https://modrinth.com/{mod,plugin,datapack}/{id}[/version/{number}]`
pub open spec fn plan_modrinth(ss: Option<Seq<Seq<char>>>) -> Result<ImportPlanView, ImportErrorView> {
    match ss {
        Some(ss) => if !(ss.len() > 0 && (ss[0] == "mod"@ || ss[0] == "plugin"@ || ss[0]
            == "datapack"@)) {
            refuse("Invalid Modrinth project URL: must start with /mod, /plugin or /datapack"@)
        } else if ss.len() < 2 {
            refuse("Invalid Modrinth project URL: no id"@)
        } else {
            Ok(ImportPlanView::Modrinth { id: ss[1], pick: version_pick(ss) })
        },
        None => refuse("Invalid Modrinth project URL: couldn't split to segments"@),
    }
}

/// `https://curserinth.kuylar.dev/mod/{id}[/version/{number}]`
pub open spec fn plan_curserinth(ss: Option<Seq<Seq<char>>>) -> Result<ImportPlanView, ImportErrorView> {
    match ss {
        Some(ss) => if !(ss.len() > 0 && ss[0] == "mod"@) {
            refuse("Invalid curserinth project URL: must start with /mod"@)
        } else if ss.len() < 2 {
            refuse("Invalid curserinth project URL: must include project id"@)
        } else {
            Ok(ImportPlanView::CurseRinth { id: ss[1], pick: version_pick(ss) })
        },
        None => refuse("Invalid curserinth project URL: couldn't split to segments"@),
    }
}

/// `https://www.curseforge.com/minecraft/mc-mods/{slug}[/.../{version}]`
pub open spec fn plan_curseforge(ss: Option<Seq<Seq<char>>>) -> Result<ImportPlanView, ImportErrorView> {
    match ss {
        Some(ss) => if !(ss.len() > 1 && ss[0] == "minecraft"@ && ss[1] == "mc-mods"@) {
            refuse("Invalid Curseforge URL - should start with /minecraft/mc-mods"@)
        } else if ss.len() < 3 {
            refuse("Invalid Curseforge URL - mod id not found in URL"@)
        } else if ss.len() > 4 {
            Ok(
                ImportPlanView::Ready(
                    DownloadableView::CurseRinth { id: "mod__"@ + ss[2], version: ss[4] },
                ),
            )
        } else {
            Ok(ImportPlanView::CurseForge { id: "mod__"@ + ss[2] })
        },
        None => refuse("Invalid url"@),
    }
}

/// `https://www.spigotmc.org/resources/{id}`
pub open spec fn plan_spigot(ss: Option<Seq<Seq<char>>>) -> Result<ImportPlanView, ImportErrorView> {
    match ss {
        Some(ss) => if !(ss.len() > 0 && ss[0] == "resources"@) || ss.len() < 2 {
            refuse("Invalid Spigot Resource URL"@)
        } else {
            Ok(
                ImportPlanView::Ready(DownloadableView::Spigot { id: ss[1], version: "latest"@ }),
            )
        },
        None => refuse("Invalid url"@),
    }
}

/// `https://github.com/{owner}/{repo}[/releases/{tag/T, download/T/F}]`
pub open spec fn plan_github(ss: Option<Seq<Seq<char>>>) -> Result<ImportPlanView, ImportErrorView> {
    match ss {
        Some(ss) => if ss.len() < 2 {
            refuse("Couldn't find the repo from url"@)
        } else {
            let repo = ss[0] + "/"@ + ss[1];
            if ss.len() > 3 && ss[2] == "releases"@ {
                if ss[3] == "tag"@ {
                    if ss.len() > 4 {
                        Ok(ImportPlanView::Github { repo, tag: Some(ss[4]), file: None })
                    } else {
                        refuse("Invalid github tag url"@)
                    }
                } else if ss[3] == "download"@ {
                    if ss.len() > 5 {
                        Ok(ImportPlanView::Github { repo, tag: Some(ss[4]), file: Some(ss[5]) })
                    } else {
                        refuse("Invalid github release download url"@)
                    }
                } else {
                    refuse("No idea what to do with releases/"@ + ss[3])
                }
            } else {
                Ok(ImportPlanView::Github { repo, tag: None, file: None })
            }
        },
        None => refuse("Invalid url"@),
    }
}

/// The Jenkins job that leading `job/{name}` segment pairs name, the names joined by `/`
/// onto `acc`.
pub open spec fn job_from(ss: Seq<Seq<char>>, acc: Seq<char>) -> Seq<char>
    decreases ss.len(),
{
    if ss.len() >= 2 && ss[0] == "job"@ {
        job_from(
            ss.skip(2),
            if acc.len() > 0 {
                acc + "/"@ + ss[1]
            } else {
                acc + ss[1]
            },
        )
    } else {
        acc
    }
}

/// Any other URL: a plain file or a Jenkins job.
pub open spec fn plan_other(url: Seq<char>, p: UrlPartsView) -> ImportPlanView {
    ImportPlanView::Other {
        jenkins_default: has_prefix(p.path, "/job"@),
        filename: url_file_name(url),
        jenkins_url: match p.domain {
            Some(d) => Some("https://"@ + d),
            None => None,
        },
        job: match path_segments(p.path) {
            Some(ss) => job_from(ss, Seq::<char>::empty()),
            None => Seq::<char>::empty(),
        },
    }
}

/// What URL `url`, parsed into `p`, says about the source to import, by its domain.
pub open spec fn plan_for(url: Seq<char>, p: UrlPartsView) -> Result<ImportPlanView, ImportErrorView> {
    let ss = path_segments(p.path);
    match p.domain {
        Some(d) => if d == "cdn.modrinth.com"@ {
            plan_modrinth_cdn(ss)
        } else if d == "modrinth.com"@ {
            plan_modrinth(ss)
        } else if d == "curserinth.kuylar.dev"@ {
            plan_curserinth(ss)
        } else if d == "www.curseforge.com"@ {
            plan_curseforge(ss)
        } else if d == "www.spigotmc.org"@ {
            plan_spigot(ss)
        } else if d == "github.com"@ {
            plan_github(ss)
        } else {
            Ok(plan_other(url, p))
        },
        None => Ok(plan_other(url, p)),
    }
}

/// The source plan of a URL, or why it has none.
pub open spec fn import_plan(url: Seq<char>) -> Result<ImportPlanView, ImportErrorView> {
    match parsed_url(url) {
        Some(p) => plan_for(url, p),
        None => Err(ImportErrorView::BadUrl),
    }
}

fn refused(m: &str) -> (r: Result<ImportPlan, ImportError>)
    ensures
        r matches Err(e) && e@ == ImportErrorView::Invalid(m@),
{
    Err(ImportError::Invalid(m.to_owned()))
}

fn pick_of(ss: &Vec<String>) -> (r: VersionPick)
    ensures
        r@ == version_pick(ss.deep_view()),
{
    if ss.len() > 2 && str_eq(ss[2].as_str(), "version") {
        if ss.len() > 3 {
            VersionPick::Number(ss[3].clone())
        } else {
            VersionPick::MissingNumber
        }
    } else {
        VersionPick::Choose
    }
}

fn plan_cdn_exec(ss: Option<Vec<String>>) -> (r: Result<ImportPlan, ImportError>)
    ensures
        match r {
            Ok(p) => plan_modrinth_cdn(opt_segments(ss)) == Ok::<ImportPlanView, ImportErrorView>(p@),
            Err(e) => plan_modrinth_cdn(opt_segments(ss)) == Err::<ImportPlanView, ImportErrorView>(e@),
        },
{
    match ss {
        Some(ss) => {
            if ss.len() > 3 && str_eq(ss[0].as_str(), "data") && str_eq(ss[2].as_str(), "versions") {
                Ok(ImportPlan::Ready(Downloadable::Modrinth { id: ss[1].clone(), version: ss[3].clone() }))
            } else {
                refused("Invalid Modrinth CDN URL")
            }
        },
        None => refused("Invalid Modrinth CDN URL"),
    }
}

/// The segments of an optional list, as plain values.
pub open spec fn opt_segments(ss: Option<Vec<String>>) -> Option<Seq<Seq<char>>> {
    match ss {
        Some(v) => Some(v.deep_view()),
        None => None,
    }
}

fn plan_modrinth_exec(ss: Option<Vec<String>>) -> (r: Result<ImportPlan, ImportError>)
    ensures
        match r {
            Ok(p) => plan_modrinth(opt_segments(ss)) == Ok::<ImportPlanView, ImportErrorView>(p@),
            Err(e) => plan_modrinth(opt_segments(ss)) == Err::<ImportPlanView, ImportErrorView>(e@),
        },
{
    match ss {
        Some(ss) => {
            if !(ss.len() > 0 && (str_eq(ss[0].as_str(), "mod") || str_eq(ss[0].as_str(), "plugin")
                || str_eq(ss[0].as_str(), "datapack"))) {
                refused("Invalid Modrinth project URL: must start with /mod, /plugin or /datapack")
            } else if ss.len() < 2 {
                refused("Invalid Modrinth project URL: no id")
            } else {
                Ok(ImportPlan::Modrinth { id: ss[1].clone(), pick: pick_of(&ss) })
            }
        },
        None => refused("Invalid Modrinth project URL: couldn't split to segments"),
    }
}

fn plan_curserinth_exec(ss: Option<Vec<String>>) -> (r: Result<ImportPlan, ImportError>)
    ensures
        match r {
            Ok(p) => plan_curserinth(opt_segments(ss)) == Ok::<ImportPlanView, ImportErrorView>(p@),
            Err(e) => plan_curserinth(opt_segments(ss)) == Err::<ImportPlanView, ImportErrorView>(e@),
        },
{
    match ss {
        Some(ss) => {
            if !(ss.len() > 0 && str_eq(ss[0].as_str(), "mod")) {
                refused("Invalid curserinth project URL: must start with /mod")
            } else if ss.len() < 2 {
                refused("Invalid curserinth project URL: must include project id")
            } else {
                Ok(ImportPlan::CurseRinth { id: ss[1].clone(), pick: pick_of(&ss) })
            }
        },
        None => refused("Invalid curserinth project URL: couldn't split to segments"),
    }
}

fn plan_curseforge_exec(ss: Option<Vec<String>>) -> (r: Result<ImportPlan, ImportError>)
    ensures
        match r {
            Ok(p) => plan_curseforge(opt_segments(ss)) == Ok::<ImportPlanView, ImportErrorView>(p@),
            Err(e) => plan_curseforge(opt_segments(ss)) == Err::<ImportPlanView, ImportErrorView>(e@),
        },
{
    match ss {
        Some(ss) => {
            if !(ss.len() > 1 && str_eq(ss[0].as_str(), "minecraft") && str_eq(ss[1].as_str(), "mc-mods")) {
                refused("Invalid Curseforge URL - should start with /minecraft/mc-mods")
            } else if ss.len() < 3 {
                refused("Invalid Curseforge URL - mod id not found in URL")
            } else if ss.len() > 4 {
                Ok(ImportPlan::Ready(Downloadable::CurseRinth {
                    id: cat2("mod__", ss[2].as_str()),
                    version: ss[4].clone(),
                }))
            } else {
                Ok(ImportPlan::CurseForge { id: cat2("mod__", ss[2].as_str()) })
            }
        },
        None => refused("Invalid url"),
    }
}

fn plan_spigot_exec(ss: Option<Vec<String>>) -> (r: Result<ImportPlan, ImportError>)
    ensures
        match r {
            Ok(p) => plan_spigot(opt_segments(ss)) == Ok::<ImportPlanView, ImportErrorView>(p@),
            Err(e) => plan_spigot(opt_segments(ss)) == Err::<ImportPlanView, ImportErrorView>(e@),
        },
{
    match ss {
        Some(ss) => {
            if !(ss.len() > 0 && str_eq(ss[0].as_str(), "resources")) || ss.len() < 2 {
                refused("Invalid Spigot Resource URL")
            } else {
                Ok(ImportPlan::Ready(Downloadable::Spigot { id: ss[1].clone(), version: "latest".to_owned() }))
            }
        },
        None => refused("Invalid url"),
    }
}

fn plan_github_exec(ss: Option<Vec<String>>) -> (r: Result<ImportPlan, ImportError>)
    ensures
        match r {
            Ok(p) => plan_github(opt_segments(ss)) == Ok::<ImportPlanView, ImportErrorView>(p@),
            Err(e) => plan_github(opt_segments(ss)) == Err::<ImportPlanView, ImportErrorView>(e@),
        },
{
    match ss {
        Some(ss) => {
            if ss.len() < 2 {
                return refused("Couldn't find the repo from url");
            }
            let repo = cat3(ss[0].as_str(), "/", ss[1].as_str());
            if ss.len() > 3 && str_eq(ss[2].as_str(), "releases") {
                if str_eq(ss[3].as_str(), "tag") {
                    if ss.len() > 4 {
                        Ok(ImportPlan::Github { repo, tag: Some(ss[4].clone()), file: None })
                    } else {
                        refused("Invalid github tag url")
                    }
                } else if str_eq(ss[3].as_str(), "download") {
                    if ss.len() > 5 {
                        Ok(ImportPlan::Github {
                            repo,
                            tag: Some(ss[4].clone()),
                            file: Some(ss[5].clone()),
                        })
                    } else {
                        refused("Invalid github release download url")
                    }
                } else {
                    let m = cat2("No idea what to do with releases/", ss[3].as_str());
                    Err(ImportError::Invalid(m))
                }
            } else {
                Ok(ImportPlan::Github { repo, tag: None, file: None })
            }
        },
        None => refused("Invalid url"),
    }
}

/// The Jenkins job that the `job/{name}` segments at the start of `ss` name.
pub fn infer_job(ss: &Vec<String>) -> (r: String)
    ensures
        r@ == job_from(ss.deep_view(), Seq::<char>::empty()),
{
    let ghost v = ss.deep_view();
    let mut job = String::new();
    let mut i: usize = 0;
    assert(v.skip(0) =~= v);
    while i < ss.len() && ss.len() - i >= 2 && str_eq(ss[i].as_str(), "job")
        invariant
            v == ss.deep_view(),
            i <= ss.len(),
            job_from(v, Seq::<char>::empty()) == job_from(v.skip(i as int), job@),
        decreases ss.len() - i,
    {
        proof {
            assert(v.skip(i as int)[0] == v[i as int]);
            assert(v.skip(i as int)[1] == v[i + 1]);
            assert(v.skip(i as int).skip(2) =~= v.skip(i + 2));
        }
        if job.as_str().unicode_len() > 0 {
            job.append("/");
        }
        job.append(ss[i + 1].as_str());
        i = i + 2;
    }
    proof {
        let rest = v.skip(i as int);
        if rest.len() >= 2 {
            assert(rest[0] == v[i as int]);
        }
    }
    job
}

fn plan_other_exec(url: &str, p: &UrlParts) -> (r: ImportPlan)
    ensures
        r@ == plan_other(url@, p@),
{
    let jenkins_default = starts_with(p.path.as_str(), "/job");
    let filename = file_name_of_url(url);
    let jenkins_url = match &p.domain {
        Some(d) => Some(cat2("https://", d.as_str())),
        None => None,
    };
    let job = match segments_of(p.path.as_str()) {
        Some(ss) => infer_job(&ss),
        None => String::new(),
    };
    ImportPlan::Other { jenkins_default, filename, jenkins_url, job }
}

/// What URL `url`, already parsed into `p`, says about the source to import.
pub fn plan_from_parts(url: &str, p: &UrlParts) -> (r: Result<ImportPlan, ImportError>)
    ensures
        match r {
            Ok(x) => plan_for(url@, p@) == Ok::<ImportPlanView, ImportErrorView>(x@),
            Err(e) => plan_for(url@, p@) == Err::<ImportPlanView, ImportErrorView>(e@),
        },
{
    let ss = segments_of(p.path.as_str());
    match &p.domain {
        Some(d) => {
            let d = d.as_str();
            if str_eq(d, "cdn.modrinth.com") {
                plan_cdn_exec(ss)
            } else if str_eq(d, "modrinth.com") {
                plan_modrinth_exec(ss)
            } else if str_eq(d, "curserinth.kuylar.dev") {
                plan_curserinth_exec(ss)
            } else if str_eq(d, "www.curseforge.com") {
                plan_curseforge_exec(ss)
            } else if str_eq(d, "www.spigotmc.org") {
                plan_spigot_exec(ss)
            } else if str_eq(d, "github.com") {
                plan_github_exec(ss)
            } else {
                Ok(plan_other_exec(url, p))
            }
        },
        None => Ok(plan_other_exec(url, p)),
    }
}

/// What URL `url` says about the source to import, or why it cannot be imported.
pub fn plan_import(url: &str) -> (r: Result<ImportPlan, ImportError>)
    ensures
        match r {
            Ok(x) => import_plan(url@) == Ok::<ImportPlanView, ImportErrorView>(x@),
            Err(e) => import_plan(url@) == Err::<ImportPlanView, ImportErrorView>(e@),
        },
{
    match parse_url(url) {
        Some(p) => plan_from_parts(url, &p),
        None => Err(ImportError::BadUrl),
    }
}


/// How a version is offered for choice: `[number]: name (loaders ; game versions)`.
pub open spec fn version_label(
    num: Seq<char>,
    name: Seq<char>,
    loaders: Seq<Seq<char>>,
    games: Seq<Seq<char>>,
) -> Seq<char> {
    "["@ + num + "]: "@ + name + " ("@ + joined(loaders, ","@) + " ; "@ + joined(games, ","@)
        + ")"@
}

fn label_of(num: &str, name: &str, loaders: &Vec<String>, games: &Vec<String>) -> (r: String)
    ensures
        r@ == version_label(num@, name@, loaders.deep_view(), games.deep_view()),
{
    let mut r = cat3("[", num, "]: ");
    r.append(name);
    r.append(" (");
    r.append(join(loaders, ",").as_str());
    r.append(" ; ");
    r.append(join(games, ",").as_str());
    r.append(")");
    r
}

/// The choices offered among Modrinth versions, in their order.
pub fn modrinth_version_choices(versions: &Vec<ModrinthVersion>) -> (r: Vec<String>)
    ensures
        r.deep_view() == versions_view(versions@).map_values(
            |v: ModrinthVersionView| version_label(v.version_number, v.name, v.loaders, v.game_versions),
        ),
{
    let ghost want = versions_view(versions@).map_values(
        |v: ModrinthVersionView| version_label(v.version_number, v.name, v.loaders, v.game_versions),
    );
    let mut out: Vec<String> = Vec::new();
    let mut i: usize = 0;
    while i < versions.len()
        invariant
            i <= versions.len(),
            want == versions_view(versions@).map_values(
                |v: ModrinthVersionView| version_label(v.version_number, v.name, v.loaders, v.game_versions),
            ),
            out.deep_view() =~= want.take(i as int),
        decreases versions.len() - i,
    {
        let v = &versions[i];
        let l = label_of(v.version_number.as_str(), v.name.as_str(), &v.loaders, &v.game_versions);
        let ghost before = out.deep_view();
        out.push(l);
        proof {
            assert(out.deep_view() =~= before.push(l@));
            assert(want.take(i + 1) =~= want.take(i as int).push(want[i as int]));
        }
        i = i + 1;
    }
    assert(want.take(versions.len() as int) =~= want);
    out
}

/// The choices offered among CurseRinth versions, in their order.
pub fn curserinth_version_choices(versions: &Vec<CurseRinthVersion>) -> (r: Vec<String>)
    ensures
        r.deep_view() == versions@.map_values(
            |v: CurseRinthVersion| version_label(v.version_number@, v.name@, v.loaders.deep_view(), v.game_versions.deep_view()),
        ),
{
    let ghost want = versions@.map_values(
        |v: CurseRinthVersion| version_label(v.version_number@, v.name@, v.loaders.deep_view(), v.game_versions.deep_view()),
    );
    let mut out: Vec<String> = Vec::new();
    let mut i: usize = 0;
    while i < versions.len()
        invariant
            i <= versions.len(),
            want == versions@.map_values(
                |v: CurseRinthVersion| version_label(v.version_number@, v.name@, v.loaders.deep_view(), v.game_versions.deep_view()),
            ),
            out.deep_view() =~= want.take(i as int),
        decreases versions.len() - i,
    {
        let v = &versions[i];
        let l = label_of(v.version_number.as_str(), v.name.as_str(), &v.loaders, &v.game_versions);
        let ghost before = out.deep_view();
        out.push(l);
        proof {
            assert(out.deep_view() =~= before.push(l@));
            assert(want.take(i + 1) =~= want.take(i as int).push(want[i as int]));
        }
        i = i + 1;
    }
    assert(want.take(versions.len() as int) =~= want);
    out
}

/// Whether a version is a datapack, as Modrinth lists its loaders.
pub open spec fn is_datapack(v: ModrinthVersionView) -> bool {
    v.loaders.contains("datapack"@)
}

fn lists_datapack(ls: &Vec<String>) -> (r: bool)
    ensures
        r == ls.deep_view().contains("datapack"@),
{
    let mut i: usize = 0;
    while i < ls.len()
        invariant
            i <= ls.len(),
            forall|j: int| 0 <= j < i ==> ls.deep_view()[j] != "datapack"@,
        decreases ls.len() - i,
    {
        if str_eq(ls[i].as_str(), "datapack") {
            assert(ls.deep_view()[i as int] == "datapack"@);
            return true;
        }
        i = i + 1;
    }
    false
}

/// The versions of a Modrinth project that an import considers: its datapacks when adding a
/// datapack, the others otherwise.
pub fn import_candidates(versions: &Vec<ModrinthVersion>, datapack_mode: bool) -> (r: Vec<
    ModrinthVersion,
>)
    ensures
        versions_view(r@) == versions_view(versions@).filter(
            |v: ModrinthVersionView| is_datapack(v) == datapack_mode,
        ),
{
    let ghost pred = |v: ModrinthVersionView| is_datapack(v) == datapack_mode;
    let ghost lv = versions_view(versions@);
    let mut out: Vec<ModrinthVersion> = Vec::new();
    let mut i: usize = 0;
    assert(lv.take(0).filter(pred) =~= Seq::<ModrinthVersionView>::empty()) by {
        reveal(Seq::filter);
    }
    while i < versions.len()
        invariant
            lv == versions_view(versions@),
            pred == (|v: ModrinthVersionView| is_datapack(v) == datapack_mode),
            i <= versions.len(),
            versions_view(out@) =~= lv.take(i as int).filter(pred),
        decreases versions.len() - i,
    {
        proof {
            crate::strs::lemma_filter_push(lv.take(i as int), pred, lv[i as int]);
            assert(lv.take(i + 1) =~= lv.take(i as int).push(lv[i as int]));
        }
        if lists_datapack(&versions[i].loaders) == datapack_mode {
            let c = versions[i].clone();
            let ghost before = out@;
            out.push(c);
            assert(versions_view(out@) =~= versions_view(before).push(c@));
        }
        i = i + 1;
    }
    assert(lv.take(versions.len() as int) =~= lv);
    out
}

/// The position of the first of `items` equal to `s`.
pub open spec fn first_equal(items: Seq<Seq<char>>, s: Seq<char>, i: int) -> bool {
    0 <= i < items.len() && items[i] == s && forall|j: int| 0 <= j < i ==> items[j] != s
}

fn find_equal(items: &Vec<String>, s: &str) -> (r: Option<usize>)
    ensures
        match r {
            Some(i) => first_equal(items.deep_view(), s@, i as int),
            None => !items.deep_view().contains(s@),
        },
{
    let mut i: usize = 0;
    while i < items.len()
        invariant
            i <= items.len(),
            forall|j: int| 0 <= j < i ==> items.deep_view()[j] != s@,
        decreases items.len() - i,
    {
        if str_eq(items[i].as_str(), s) {
            return Some(i);
        }
        i = i + 1;
    }
    proof {
        assert(!items.deep_view().contains(s@)) by {
            assert forall|j: int| 0 <= j < items.deep_view().len() implies items.deep_view()[j]
                != s@ by {}
        }
    }
    None
}

/// The version numbers of a list of Modrinth versions.
pub open spec fn modrinth_numbers(vs: Seq<ModrinthVersionView>) -> Seq<Seq<char>> {
    vs.map_values(|v: ModrinthVersionView| v.version_number)
}

/// The Modrinth version whose version number is `num`: the first such.
pub fn find_modrinth_number(versions: &Vec<ModrinthVersion>, num: &str) -> (r: Option<usize>)
    ensures
        match r {
            Some(i) => first_equal(modrinth_numbers(versions_view(versions@)), num@, i as int),
            None => !modrinth_numbers(versions_view(versions@)).contains(num@),
        },
{
    let ghost want = modrinth_numbers(versions_view(versions@));
    let mut nums: Vec<String> = Vec::new();
    let mut i: usize = 0;
    while i < versions.len()
        invariant
            i <= versions.len(),
            want == modrinth_numbers(versions_view(versions@)),
            nums.deep_view() =~= want.take(i as int),
        decreases versions.len() - i,
    {
        let ghost before = nums.deep_view();
        nums.push(versions[i].version_number.clone());
        proof {
            assert(nums.deep_view() =~= before.push(want[i as int]));
            assert(want.take(i + 1) =~= want.take(i as int).push(want[i as int]));
        }
        i = i + 1;
    }
    assert(want.take(versions.len() as int) =~= want);
    find_equal(&nums, num)
}

/// The version numbers of a list of CurseRinth versions.
pub open spec fn curserinth_numbers(vs: Seq<CurseRinthVersion>) -> Seq<Seq<char>> {
    vs.map_values(|v: CurseRinthVersion| v.version_number@)
}

/// The CurseRinth version whose version number is `num`: the first such.
pub fn find_curserinth_number(versions: &Vec<CurseRinthVersion>, num: &str) -> (r: Option<usize>)
    ensures
        match r {
            Some(i) => first_equal(curserinth_numbers(versions@), num@, i as int),
            None => !curserinth_numbers(versions@).contains(num@),
        },
{
    let ghost want = curserinth_numbers(versions@);
    let mut nums: Vec<String> = Vec::new();
    let mut i: usize = 0;
    while i < versions.len()
        invariant
            i <= versions.len(),
            want == curserinth_numbers(versions@),
            nums.deep_view() =~= want.take(i as int),
        decreases versions.len() - i,
    {
        let ghost before = nums.deep_view();
        nums.push(versions[i].version_number.clone());
        proof {
            assert(nums.deep_view() =~= before.push(want[i as int]));
            assert(want.take(i + 1) =~= want.take(i as int).push(want[i as int]));
        }
        i = i + 1;
    }
    assert(want.take(versions.len() as int) =~= want);
    find_equal(&nums, num)
}

/// The release choices for a repository: the latest release, then each release by name.
pub fn release_choices(releases: &Vec<GithubRelease>) -> (r: Vec<String>)
    ensures
        r.deep_view() == seq!["Always use latest release"@] + releases@.map_values(
            |g: GithubRelease| "Release "@ + g.name@,
        ),
{
    let ghost rest = releases@.map_values(|g: GithubRelease| "Release "@ + g.name@);
    let mut out: Vec<String> = vec!["Always use latest release".to_owned()];
    let ghost head = out.deep_view();
    assert(head =~= seq!["Always use latest release"@]);
    let mut i: usize = 0;
    while i < releases.len()
        invariant
            i <= releases.len(),
            rest == releases@.map_values(|g: GithubRelease| "Release "@ + g.name@),
            head == seq!["Always use latest release"@],
            out.deep_view() =~= head + rest.take(i as int),
        decreases releases.len() - i,
    {
        let item = cat2("Release ", releases[i].name.as_str());
        let ghost before = out.deep_view();
        out.push(item);
        proof {
            assert(out.deep_view() =~= before.push(item@));
            assert(rest.take(i + 1) =~= rest.take(i as int).push(rest[i as int]));
        }
        i = i + 1;
    }
    assert(rest.take(releases.len() as int) =~= rest);
    out
}

/// The tag that a release choice stands for: `latest` for the first, else that release's tag.
pub fn tag_for_choice(selection: usize, releases: &Vec<GithubRelease>) -> (r: String)
    requires
        selection <= releases@.len(),
    ensures
        r@ == if selection == 0 {
            "latest"@
        } else {
            releases@[selection - 1].tag_name@
        },
{
    if selection == 0 {
        "latest".to_owned()
    } else {
        releases[selection - 1].tag_name.clone()
    }
}

/// The asset choices (value, label) for release `tag` when the URL names asset `file`, and
/// the one chosen by default: the first asset always; the named asset; that name with the
/// tag in it replaced by `${tag}`, where it holds the tag and is not the tag; then editing
/// by hand.
pub open spec fn asset_choice_list(tag: Seq<char>, file: Option<Seq<char>>) -> (Seq<(Seq<char>, Seq<char>)>, int) {
    let head = seq![("first"@, "Use the first asset everytime"@)];
    let (mid, idx) = match file {
        Some(a) => if has_infix(a, tag) && a != tag {
            let t = replaced(a, tag, "${tag}"@);
            (head.push((a, a)).push((t, t)), 2int)
        } else {
            (head.push((a, a)), 1int)
        },
        None => (head, 0int),
    };
    let label = match file {
        Some(f) => "Edit '"@ + f + "'"@,
        None => "Set asset manually"@,
    };
    (mid.push((Seq::<char>::empty(), label)), idx)
}

/// The asset choices for release `tag` when the URL names asset `file`, with the default.
pub fn asset_choices(tag: &str, file: Option<&str>) -> (r: (Vec<(String, String)>, usize))
    ensures
        r.0@.map_values(|e: (String, String)| (e.0@, e.1@)) == asset_choice_list(
            tag@,
            match file {
                Some(f) => Some(f@),
                None => None,
            },
        ).0,
        r.1 as int == asset_choice_list(
            tag@,
            match file {
                Some(f) => Some(f@),
                None => None,
            },
        ).1,
{
    let mut items: Vec<(String, String)> = vec![
        ("first".to_owned(), "Use the first asset everytime".to_owned()),
    ];
    let mut idx: usize = 0;
    match file {
        Some(asset) => {
            idx = 1;
            items.push((asset.to_owned(), asset.to_owned()));
            if crate::strs::contains_str(asset, tag) && !str_eq(asset, tag) {
                let t = replace(asset, tag, "${tag}");
                items.push((t.clone(), t));
                idx = 2;
            }
        },
        None => {},
    }
    let label = match file {
        Some(f) => {
            let mut l = cat2("Edit '", f);
            l.append("'");
            l
        },
        None => "Set asset manually".to_owned(),
    };
    items.push((String::new(), label));
    assert(items@.map_values(|e: (String, String)| (e.0@, e.1@)) =~= asset_choice_list(
        tag@,
        match file {
            Some(f) => Some(f@),
            None => None,
        },
    ).0);
    (items, idx)
}

/// The ways offered to import any other URL.
pub fn other_url_choices() -> (r: Vec<String>)
    ensures
        r.deep_view() == seq!["Add as Custom URL"@, "Add as Jenkins"@],
{
    let r = vec!["Add as Custom URL".to_owned(), "Add as Jenkins".to_owned()];
    assert(r.deep_view() =~= seq!["Add as Custom URL"@, "Add as Jenkins"@]);
    r
}

/// A plain URL source with the file name and description given; an empty description is
/// none.
pub fn url_source(url: &str, filename: String, desc: String) -> (r: Downloadable)
    ensures
        r@ == (DownloadableView::Url {
            url: url@,
            filename: Some(filename@),
            desc: if desc@.len() == 0 {
                None
            } else {
                Some(desc@)
            },
        }),
{
    let d = if desc.as_str().unicode_len() == 0 {
        None
    } else {
        Some(desc)
    };
    Downloadable::Url { url: url.to_owned(), filename: Some(filename), desc: d }
}

/// The path segments of `/` followed by texts without `/` joined with `/` are those texts.
proof fn lemma_segments_of_joined(ws: Seq<Seq<char>>)
    requires
        ws.len() > 0,
        forall|i: int| 0 <= i < ws.len() ==> !(#[trigger] ws[i]).contains('/'),
    ensures
        path_segments(seq!['/'] + joined(ws, seq!['/'])) == Some(ws),
{
    let p = seq!['/'] + joined(ws, seq!['/']);
    assert(p.drop_first() =~= joined(ws, seq!['/']));
    crate::strs::lemma_pieces_by_joined(ws, '/');
}

proof fn lemma_github_domain()
    ensures
        "github.com"@ != "cdn.modrinth.com"@,
        "github.com"@ != "modrinth.com"@,
        "github.com"@ != "curserinth.kuylar.dev"@,
        "github.com"@ != "www.curseforge.com"@,
        "github.com"@ != "www.spigotmc.org"@,
        !"releases"@.contains('/'),
        !"tag"@.contains('/'),
        !"download"@.contains('/'),
        "tag"@ != "download"@,
{
    reveal_strlit("github.com");
    reveal_strlit("cdn.modrinth.com");
    reveal_strlit("modrinth.com");
    reveal_strlit("curserinth.kuylar.dev");
    reveal_strlit("www.curseforge.com");
    reveal_strlit("www.spigotmc.org");
    reveal_strlit("releases");
    reveal_strlit("tag");
    reveal_strlit("download");
    assert("github.com"@.len() == 10);
    assert("cdn.modrinth.com"@.len() == 16);
    assert("modrinth.com"@.len() == 12);
    assert("tag"@.len() == 3 && "download"@.len() == 8);
    assert(!"releases"@.contains('/')) by {
        assert forall|i: int| 0 <= i < "releases"@.len() implies "releases"@[i] != '/' by {}
    }
    assert(!"tag"@.contains('/')) by {
        assert forall|i: int| 0 <= i < "tag"@.len() implies "tag"@[i] != '/' by {}
    }
    assert(!"download"@.contains('/')) by {
        assert forall|i: int| 0 <= i < "download"@.len() implies "download"@[i] != '/' by {}
    }
}

/// A GitHub release URL `https://github.com/{owner}/{repo}/releases/tag/{tag}` imports that
/// repository at the release the URL names: the tag is the segment after `tag`.
pub proof fn lemma_github_tag_url(url: Seq<char>, owner: Seq<char>, repo: Seq<char>, tag: Seq<char>)
    requires
        !owner.contains('/'),
        !repo.contains('/'),
        !tag.contains('/'),
        parsed_url(url) == Some(
            UrlPartsView {
                domain: Some("github.com"@),
                path: seq!['/'] + owner + seq!['/'] + repo + seq!['/'] + "releases"@ + seq!['/']
                    + "tag"@ + seq!['/'] + tag,
            },
        ),
    ensures
        import_plan(url) == Ok::<ImportPlanView, ImportErrorView>(
            ImportPlanView::Github { repo: owner + "/"@ + repo, tag: Some(tag), file: None },
        ),
{
    lemma_github_domain();
    let ws = seq![owner, repo, "releases"@, "tag"@, tag];
    assert forall|i: int| 0 <= i < ws.len() implies !(#[trigger] ws[i]).contains('/') by {}
    reveal_with_fuel(joined, 6);
    assert(seq!['/'] + owner + seq!['/'] + repo + seq!['/'] + "releases"@ + seq!['/'] + "tag"@
        + seq!['/'] + tag =~= seq!['/'] + joined(ws, seq!['/']));
    lemma_segments_of_joined(ws);
    reveal_strlit("/");
    assert("/"@ =~= seq!['/']);
}

/// A GitHub download URL `https://github.com/{owner}/{repo}/releases/download/{tag}/{file}`
/// imports that repository at that release, with that asset.
pub proof fn lemma_github_download_url(
    url: Seq<char>,
    owner: Seq<char>,
    repo: Seq<char>,
    tag: Seq<char>,
    file: Seq<char>,
)
    requires
        !owner.contains('/'),
        !repo.contains('/'),
        !tag.contains('/'),
        !file.contains('/'),
        parsed_url(url) == Some(
            UrlPartsView {
                domain: Some("github.com"@),
                path: seq!['/'] + owner + seq!['/'] + repo + seq!['/'] + "releases"@ + seq!['/']
                    + "download"@ + seq!['/'] + tag + seq!['/'] + file,
            },
        ),
    ensures
        import_plan(url) == Ok::<ImportPlanView, ImportErrorView>(
            ImportPlanView::Github { repo: owner + "/"@ + repo, tag: Some(tag), file: Some(file) },
        ),
{
    lemma_github_domain();
    let ws = seq![owner, repo, "releases"@, "download"@, tag, file];
    assert forall|i: int| 0 <= i < ws.len() implies !(#[trigger] ws[i]).contains('/') by {}
    reveal_with_fuel(joined, 7);
    assert(seq!['/'] + owner + seq!['/'] + repo + seq!['/'] + "releases"@ + seq!['/']
        + "download"@ + seq!['/'] + tag + seq!['/'] + file =~= seq!['/'] + joined(ws, seq!['/']));
    lemma_segments_of_joined(ws);
    reveal_strlit("/");
    assert("/"@ =~= seq!['/']);
}

/// A GitHub repository URL `https://github.com/{owner}/{repo}` imports that repository with
/// the release and asset still to be chosen.
pub proof fn lemma_github_repo_url(url: Seq<char>, owner: Seq<char>, repo: Seq<char>)
    requires
        !owner.contains('/'),
        !repo.contains('/'),
        parsed_url(url) == Some(
            UrlPartsView { domain: Some("github.com"@), path: seq!['/'] + owner + seq!['/'] + repo },
        ),
    ensures
        import_plan(url) == Ok::<ImportPlanView, ImportErrorView>(
            ImportPlanView::Github { repo: owner + "/"@ + repo, tag: None, file: None },
        ),
{
    lemma_github_domain();
    let ws = seq![owner, repo];
    assert forall|i: int| 0 <= i < ws.len() implies !(#[trigger] ws[i]).contains('/') by {}
    reveal_with_fuel(joined, 3);
    assert(seq!['/'] + owner + seq!['/'] + repo =~= seq!['/'] + joined(ws, seq!['/']));
    lemma_segments_of_joined(ws);
    reveal_strlit("/");
    assert("/"@ =~= seq!['/']);
}

} // verus!
